//! How a device is reached: over TCP or over a serial line.

use vstd::prelude::*;
use vstd::string::StringExecFns;

verus! {

/// Parity of a serial line.
#[derive(Clone, Copy, Debug, PartialEq, Eq, Structural)]
pub enum Parity {
    Odd,
    Even,
    NoneParity,
}

/// A TCP endpoint: host address and port.
#[derive(Debug, PartialEq)]
pub struct TcpConfig {
    pub address: String,
    pub port: usize,
}

impl Clone for TcpConfig {
    fn clone(&self) -> (out: TcpConfig)
        ensures
            out == *self,
    {
        TcpConfig { address: self.address.clone(), port: self.port }
    }
}

impl Default for TcpConfig {
    fn default() -> (out: TcpConfig)
        ensures
            out.address@ == Seq::<char>::empty(),
            out.port == 0,
    {
        TcpConfig { address: String::new(), port: 0 }
    }
}

/// A serial endpoint: port path, line settings and the slave addressed on
/// the line.
#[derive(Debug, PartialEq)]
pub struct SerialConfig {
    pub com_port: String,
    pub baudrate: u32,
    pub slave: u8,
    pub parity: Parity,
}

impl Clone for SerialConfig {
    fn clone(&self) -> (out: SerialConfig)
        ensures
            out == *self,
    {
        SerialConfig {
            com_port: self.com_port.clone(),
            baudrate: self.baudrate,
            slave: self.slave,
            parity: self.parity,
        }
    }
}

/// The endpoint of a device; the two transports exclude each other.
#[derive(Debug, PartialEq)]
pub enum DeviceConfig {
    Tcp(TcpConfig),
    Serial(SerialConfig),
}

impl Clone for DeviceConfig {
    fn clone(&self) -> (out: DeviceConfig)
        ensures
            out == *self,
    {
        match self {
            DeviceConfig::Tcp(config) => DeviceConfig::Tcp(config.clone()),
            DeviceConfig::Serial(config) => DeviceConfig::Serial(config.clone()),
        }
    }
}

impl DeviceConfig {
    /// The local endpoint on the standard port of the protocol.
    pub open spec fn is_local_default(&self) -> bool {
        match self {
            DeviceConfig::Tcp(config) => config.address@ == "127.0.0.1"@ && config.port == 502,
            DeviceConfig::Serial(_) => false,
        }
    }
}

impl Default for DeviceConfig {
    fn default() -> (out: DeviceConfig)
        ensures
            out.is_local_default(),
    {
        DeviceConfig::Tcp(TcpConfig { address: String::from_str("127.0.0.1"), port: 502 })
    }
}

} // verus!
