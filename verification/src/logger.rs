//! A recording job: where it writes, how often, and which channels it
//! records.

use crate::channel_pattern::{parse_pattern, pattern_indices, selects, ChannelPattern, PatternError};
use crate::logger_channel::LoggerChannel;
use regex::Regex;
use std::path::PathBuf;
use vstd::prelude::*;
use vstd::string::StringExecFns;

verus! {

/// A path of the file system, carried through as it is.
#[verifier::external_type_specification]
#[verifier::external_body]
pub struct ExPathBuf(std::path::PathBuf);

/// Where a recording job writes.
#[derive(Clone, Copy, Debug, PartialEq, Eq, Structural)]
pub enum LoggerType {
    DataBase,
    TextFile,
}

impl LoggerType {
    pub open spec fn spec_name(&self) -> Seq<char> {
        match self {
            LoggerType::DataBase => "Database"@,
            LoggerType::TextFile => "Text File"@,
        }
    }

    /// The text shown for this kind of storage.
    pub fn name(&self) -> (out: String)
        ensures
            out@ == self.spec_name(),
    {
        match self {
            LoggerType::DataBase => String::from_str("Database"),
            LoggerType::TextFile => String::from_str("Text File"),
        }
    }
}

impl Default for LoggerType {
    fn default() -> (out: LoggerType)
        ensures
            out == LoggerType::TextFile,
    {
        LoggerType::TextFile
    }
}

/// A recording job.
pub struct Logger {
    pub name: String,
    pub logger_type: LoggerType,
    /// What the job records, as its pattern resolved.
    pub channels: Vec<LoggerChannel>,
    pub path: PathBuf,
    /// Seconds between two samples.
    pub log_rate: usize,
    pub is_logging: bool,
}

impl Logger {
    /// A job that records what `channel_pattern` selects. A pattern that is
    /// refused gives no job, and the refusal is handed on.
    pub fn new(
        name: String,
        logger_type: LoggerType,
        channel_pattern: &mut ChannelPattern,
        path: PathBuf,
        log_rate: usize,
        is_logging: bool,
        re: (&Regex, &Regex),
    ) -> (out: Result<Logger, PatternError>)
        ensures
            *final(channel_pattern) == *old(channel_pattern),
            match out {
                Ok(logger) => {
                    &&& logger.name == name
                    &&& logger.logger_type == logger_type
                    &&& logger.path == path
                    &&& logger.log_rate == log_rate
                    &&& logger.is_logging == is_logging
                    &&& old(channel_pattern).pattern@.len() > 0
                    &&& logger.channels@.len() > 0
                    &&& selects(
                        logger.channels@,
                        pattern_indices(*re.0, old(channel_pattern).pattern@),
                        pattern_indices(*re.1, old(channel_pattern).pattern@),
                    )
                },
                Err(PatternError::Empty) => old(channel_pattern).pattern@.len() == 0,
                Err(PatternError::NoPatternFound) => {
                    &&& old(channel_pattern).pattern@.len() > 0
                    &&& pattern_indices(*re.0, old(channel_pattern).pattern@).len() == 0
                    &&& pattern_indices(*re.1, old(channel_pattern).pattern@).len() == 0
                },
            },
    {
        match parse_pattern(&*channel_pattern, re) {
            Ok(channels) => Ok(Logger { name, logger_type, channels, path, log_rate, is_logging }),
            Err(error) => Err(error),
        }
    }
}

} // verus!
