//! The pattern resolver. A pattern is a list of ranges separated by commas,
//! such as `CH1-CH7, EVAL10-EVAL20`. Each end of a range names an index in
//! one of two namespaces, physical channels and computed values, and each
//! namespace is recognised by a regular expression whose first capture group
//! holds the index.

use crate::channel::Channel;
use crate::logger_channel::{Calculation, LoggerChannel};
use crate::text::{
    blank, chars_of, is_blank, lemma_split_appended, parse_index, parsed_index, split, split_on,
    texts_of,
};
use regex::Regex;
use vstd::prelude::*;
use vstd::string::StringExecFns;

verus! {

/// A compiled regular expression of the `regex` crate. Nothing inside it is
/// visible to the proofs.
#[verifier::external_type_specification]
#[verifier::external_body]
pub struct ExRegex(regex::Regex);

/// What `Regex::captures_iter` finds in `haystack`: one entry for each
/// successive non-overlapping match, in the order of the matches, holding
/// the text that the first capture group matched, or `None` where that group
/// took no part in the match (or the expression has no such group).
pub uninterp spec fn first_group_matches(re: Regex, haystack: Seq<char>) -> Seq<Option<Seq<char>>>;

/// The texts that a vector of optional owned texts holds.
pub open spec fn group_views(groups: Seq<Option<Vec<char>>>) -> Seq<Option<Seq<char>>> {
    groups.map_values(
        |group: Option<Vec<char>>|
            match group {
                Some(text) => Some(text@),
                None => None,
            },
    )
}

/// Runs `Regex::captures_iter` over `haystack` and hands back, for each
/// match, the text of the first capture group as `Captures::get(1)` and
/// `Match::as_str` give it. The contract only names that result: it is the
/// value of [`first_group_matches`] for this expression and this text.
#[verifier::external_body]
fn group_texts(re: &Regex, haystack: &Vec<char>) -> (out: Vec<Option<Vec<char>>>)
    ensures
        group_views(out@) == first_group_matches(*re, haystack@),
{
    let text: String = haystack.iter().collect();
    re.captures_iter(&text).map(|caps| caps.get(1).map(|m| m.as_str().chars().collect())).collect()
}

/// The index that the matches of one end of a range give: the one written by
/// the last group text that writes an index at all.
pub open spec fn last_index(groups: Seq<Option<Seq<char>>>) -> Option<usize>
    decreases groups.len(),
{
    if groups.len() == 0 {
        None
    } else {
        match groups.last() {
            Some(text) if parsed_index(text) is Some => parsed_index(text),
            _ => last_index(groups.drop_last()),
        }
    }
}

/// The indices of a range, ascending and inclusive. A range with an end
/// missing, or whose begin lies after its end, has none.
pub open spec fn range_indices(begin: Option<usize>, end: Option<usize>) -> Seq<usize> {
    match (begin, end) {
        (Some(b), Some(e)) if b <= e => Seq::new((e - b + 1) as nat, |k: int| (b + k) as usize),
        _ => Seq::empty(),
    }
}

/// The indices that one piece of a pattern selects in the namespace of `re`.
/// The piece counts only if it has exactly one hyphen with something other
/// than spaces on both sides.
pub open spec fn piece_indices(re: Regex, piece: Seq<char>) -> Seq<usize> {
    let parts = split_on(piece, '-');
    if parts.len() == 2 && !is_blank(parts[0]) && !is_blank(parts[1]) {
        range_indices(
            last_index(first_group_matches(re, parts[0])),
            last_index(first_group_matches(re, parts[1])),
        )
    } else {
        Seq::empty()
    }
}

/// The indices that all pieces select in the namespace of `re`, piece after
/// piece; duplicates stay.
pub open spec fn namespace_indices(re: Regex, pieces: Seq<Seq<char>>) -> Seq<usize>
    decreases pieces.len(),
{
    if pieces.len() == 0 {
        Seq::empty()
    } else {
        namespace_indices(re, pieces.drop_last()) + piece_indices(re, pieces.last())
    }
}

/// The indices that a pattern selects in the namespace of `re`.
pub open spec fn pattern_indices(re: Regex, pattern: Seq<char>) -> Seq<usize> {
    namespace_indices(re, split_on(pattern, ','))
}

/// A range that resolves holds every index from its begin to its end once,
/// in ascending order; a range whose begin lies after its end holds
/// nothing, and so does a range with an end that did not resolve.
pub proof fn lemma_range(begin: usize, end: usize)
    ensures
        begin <= end ==> {
            &&& range_indices(Some(begin), Some(end)).len() == end - begin + 1
            &&& range_indices(Some(begin), Some(end)).first() == begin
            &&& range_indices(Some(begin), Some(end)).last() == end
            &&& forall|k: int|
                0 <= k < end - begin ==> #[trigger] range_indices(Some(begin), Some(end))[k] + 1
                    == range_indices(Some(begin), Some(end))[k + 1]
        },
        begin > end ==> range_indices(Some(begin), Some(end)).len() == 0,
        range_indices(None, Some(end)).len() == 0,
        range_indices(Some(begin), None).len() == 0,
        range_indices(None, None).len() == 0,
{
}

/// Each piece of a pattern is resolved on its own: what a list of pieces
/// selects is what its first part selects followed by what the rest
/// selects. A piece that selects nothing neither adds to nor takes from what
/// the others select.
pub proof fn lemma_pieces_resolve_one_by_one(
    re: Regex,
    first: Seq<Seq<char>>,
    rest: Seq<Seq<char>>,
)
    ensures
        namespace_indices(re, first + rest) == namespace_indices(re, first) + namespace_indices(
            re,
            rest,
        ),
    decreases rest.len(),
{
    if rest.len() > 0 {
        lemma_pieces_resolve_one_by_one(re, first, rest.drop_last());
        assert((first + rest).drop_last() =~= first + rest.drop_last());
    }
}

/// A range whose begin resolves to an index after the one of its end is
/// skipped, not reversed: it selects nothing.
pub proof fn lemma_reversed_range_is_skipped(re: Regex, piece: Seq<char>)
    requires
        split_on(piece, '-').len() == 2,
        last_index(first_group_matches(re, split_on(piece, '-')[0])) matches Some(begin)
            && last_index(first_group_matches(re, split_on(piece, '-')[1])) matches Some(end)
            && begin > end,
    ensures
        piece_indices(re, piece) == Seq::<usize>::empty(),
{
}

/// A piece that selects nothing in a namespace does not disturb the other
/// ranges: a pattern with a comma and such a piece appended selects in that
/// namespace what it selected before.
pub proof fn lemma_skipped_piece_changes_nothing(re: Regex, pattern: Seq<char>, piece: Seq<char>)
    requires
        forall|j: int| 0 <= j < piece.len() ==> piece[j] != ',',
        piece_indices(re, piece).len() == 0,
    ensures
        pattern_indices(re, pattern + seq![','] + piece) == pattern_indices(re, pattern),
{
    lemma_split_appended(pattern, piece, ',');
    let pieces = split_on(pattern, ',');
    assert(pieces.push(piece).drop_last() =~= pieces);
    assert(namespace_indices(re, pieces) + piece_indices(re, piece) =~= namespace_indices(
        re,
        pieces,
    ));
}

/// What a pattern resolves to with a reversed range appended: the same as
/// without it, in both namespaces. The appended piece is one in which, under
/// either expression, both ends resolve and the begin lies after the end, or
/// an end does not resolve at all.
pub proof fn lemma_reversed_range_changes_nothing(
    re: (Regex, Regex),
    pattern: Seq<char>,
    piece: Seq<char>,
)
    requires
        forall|j: int| 0 <= j < piece.len() ==> piece[j] != ',',
        split_on(piece, '-').len() == 2,
        range_indices(
            last_index(first_group_matches(re.0, split_on(piece, '-')[0])),
            last_index(first_group_matches(re.0, split_on(piece, '-')[1])),
        ).len() == 0,
        range_indices(
            last_index(first_group_matches(re.1, split_on(piece, '-')[0])),
            last_index(first_group_matches(re.1, split_on(piece, '-')[1])),
        ).len() == 0,
    ensures
        pattern_indices(re.0, pattern + seq![','] + piece) == pattern_indices(re.0, pattern),
        pattern_indices(re.1, pattern + seq![','] + piece) == pattern_indices(re.1, pattern),
{
    lemma_skipped_piece_changes_nothing(re.0, pattern, piece);
    lemma_skipped_piece_changes_nothing(re.1, pattern, piece);
}

/// `list` is a blank channel for each of `channel_ids` followed by a blank
/// calculation for each of `calc_ids`, in their order.
pub open spec fn selects(
    list: Seq<LoggerChannel>,
    channel_ids: Seq<usize>,
    calc_ids: Seq<usize>,
) -> bool {
    &&& list.len() == channel_ids.len() + calc_ids.len()
    &&& forall|i: int|
        0 <= i < channel_ids.len() ==> (#[trigger] list[i] matches LoggerChannel::Channel(c)
            && c.id == channel_ids[i] && c.device_id == 0 && c.is_blank())
    &&& forall|i: int|
        0 <= i < calc_ids.len() ==> (#[trigger] list[channel_ids.len() + i]
            matches LoggerChannel::Calculation(c) && c.id == calc_ids[i] && c.is_blank())
}

/// A range pattern as the operator typed it.
#[derive(Debug, PartialEq)]
pub struct ChannelPattern {
    pub pattern: String,
}

impl ChannelPattern {
    pub fn from_str(pattern: String) -> (out: ChannelPattern)
        ensures
            out.pattern == pattern,
    {
        ChannelPattern { pattern }
    }
}

impl Clone for ChannelPattern {
    fn clone(&self) -> (out: ChannelPattern)
        ensures
            out == *self,
    {
        ChannelPattern { pattern: self.pattern.clone() }
    }
}

impl Default for ChannelPattern {
    fn default() -> (out: ChannelPattern)
        ensures
            out.pattern@ == Seq::<char>::empty(),
    {
        ChannelPattern { pattern: String::new() }
    }
}

/// Why a pattern selects nothing.
#[derive(Clone, Copy, Debug, PartialEq, Eq, Structural)]
pub enum PatternError {
    /// The pattern is the empty text.
    Empty,
    /// No range of the pattern resolved in either namespace.
    NoPatternFound,
}

impl PatternError {
    pub open spec fn spec_message(&self) -> Seq<char> {
        match self {
            PatternError::Empty => "Pattern string is empty!"@,
            PatternError::NoPatternFound => "No channel pattern found!"@,
        }
    }

    /// The text shown to the operator.
    pub fn message(&self) -> (out: String)
        ensures
            out@ == self.spec_message(),
    {
        match self {
            PatternError::Empty => String::from_str("Pattern string is empty!"),
            PatternError::NoPatternFound => String::from_str("No channel pattern found!"),
        }
    }
}

/// The index given by the matches of one end of a range.
pub fn last_parsed_index(groups: &Vec<Option<Vec<char>>>) -> (out: Option<usize>)
    ensures
        out == last_index(group_views(groups@)),
{
    let ghost all = group_views(groups@);
    let mut i: usize = groups.len();
    assert(all.take(i as int) =~= all);
    while i > 0
        invariant
            i <= groups.len(),
            all == group_views(groups@),
            last_index(all) == last_index(all.take(i as int)),
        decreases i,
    {
        i -= 1;
        proof {
            assert(all.take(i + 1).drop_last() =~= all.take(i as int));
        }
        match &groups[i] {
            Some(text) => {
                let parsed = parse_index(text);
                if parsed.is_some() {
                    return parsed;
                }
            },
            None => {},
        }
    }
    None
}

/// Appends the indices of a range to `out`.
pub fn push_range(out: &mut Vec<usize>, begin: Option<usize>, end: Option<usize>)
    ensures
        final(out)@ == old(out)@ + range_indices(begin, end),
{
    if let (Some(b), Some(e)) = (begin, end) {
        if b <= e {
            let mut id: usize = b;
            let ghost wanted = range_indices(begin, end);
            loop
                invariant_except_break
                    b <= id <= e,
                    wanted == range_indices(begin, end),
                    begin == Some(b),
                    end == Some(e),
                    out@ == old(out)@ + wanted.take(id - b),
                ensures
                    out@ == old(out)@ + wanted,
                decreases e - id,
            {
                out.push(id);
                if id == e {
                    break ;
                }
                id += 1;
            }
        }
    }
}

/// Appends to `out` the indices that one piece selects in the namespace of
/// `re`.
fn resolve_piece(out: &mut Vec<usize>, piece: &Vec<char>, re: &Regex)
    ensures
        final(out)@ == old(out)@ + piece_indices(*re, piece@),
{
    let parts = split(piece, '-');
    if parts.len() == 2 {
        if !blank(&parts[0]) && !blank(&parts[1]) {
            let begin = last_parsed_index(&group_texts(re, &parts[0]));
            let end = last_parsed_index(&group_texts(re, &parts[1]));
            push_range(out, begin, end);
            return ;
        }
    }
}

/// The indices that the pieces of a pattern select in the namespace of `re`.
pub fn resolve_namespace(pieces: &Vec<Vec<char>>, re: &Regex) -> (out: Vec<usize>)
    ensures
        out@ == namespace_indices(*re, texts_of(pieces@)),
{
    let mut out: Vec<usize> = Vec::new();
    let ghost all = texts_of(pieces@);
    let mut i: usize = 0;
    while i < pieces.len()
        invariant
            i <= pieces.len(),
            all == texts_of(pieces@),
            out@ == namespace_indices(*re, all.take(i as int)),
        decreases pieces.len() - i,
    {
        proof {
            assert(all.take(i + 1).drop_last() =~= all.take(i as int));
        }
        resolve_piece(&mut out, &pieces[i], re);
        i += 1;
    }
    assert(all.take(pieces.len() as int) =~= all);
    out
}

/// A blank channel for each index.
pub fn construct_channel_vec(channel_index_vec: Vec<usize>) -> (out: Vec<LoggerChannel>)
    ensures
        selects(out@, channel_index_vec@, Seq::empty()),
{
    let mut out: Vec<LoggerChannel> = Vec::new();
    let mut i: usize = 0;
    while i < channel_index_vec.len()
        invariant
            i <= channel_index_vec.len(),
            selects(out@, channel_index_vec@.take(i as int), Seq::empty()),
        decreases channel_index_vec.len() - i,
    {
        out.push(LoggerChannel::Channel(Channel::blank(channel_index_vec[i], 0)));
        i += 1;
    }
    out
}

/// A blank calculation for each index.
pub fn construct_calc_vec(calc_index_vec: Vec<usize>) -> (out: Vec<LoggerChannel>)
    ensures
        selects(out@, Seq::empty(), calc_index_vec@),
{
    let mut out: Vec<LoggerChannel> = Vec::new();
    let mut i: usize = 0;
    while i < calc_index_vec.len()
        invariant
            i <= calc_index_vec.len(),
            selects(out@, Seq::empty(), calc_index_vec@.take(i as int)),
        decreases calc_index_vec.len() - i,
    {
        out.push(LoggerChannel::Calculation(Calculation::blank(calc_index_vec[i])));
        i += 1;
    }
    out
}

/// Resolves a pattern into the channels and calculations that it selects:
/// first the physical channels that the ranges give under `re.0`, then the
/// computed values that they give under `re.1`. A range that does not
/// resolve in a namespace adds nothing there and stops nothing. The empty
/// pattern is refused, and so is a pattern that selects nothing.
pub fn parse_pattern(channel_pattern: &ChannelPattern, re: (&Regex, &Regex)) -> (out: Result<
    Vec<LoggerChannel>,
    PatternError,
>)
    ensures
        match out {
            Ok(list) => {
                &&& channel_pattern.pattern@.len() > 0
                &&& list@.len() > 0
                &&& selects(
                    list@,
                    pattern_indices(*re.0, channel_pattern.pattern@),
                    pattern_indices(*re.1, channel_pattern.pattern@),
                )
            },
            Err(PatternError::Empty) => channel_pattern.pattern@.len() == 0,
            Err(PatternError::NoPatternFound) => {
                &&& channel_pattern.pattern@.len() > 0
                &&& pattern_indices(*re.0, channel_pattern.pattern@).len() == 0
                &&& pattern_indices(*re.1, channel_pattern.pattern@).len() == 0
            },
        },
{
    let text = chars_of(channel_pattern.pattern.as_str());
    if text.len() == 0 {
        return Err(PatternError::Empty);
    }
    let pieces = split(&text, ',');
    let channel_index_vec = resolve_namespace(&pieces, re.0);
    let calc_index_vec = resolve_namespace(&pieces, re.1);
    if channel_index_vec.len() == 0 && calc_index_vec.len() == 0 {
        return Err(PatternError::NoPatternFound);
    }
    let ghost channel_ids = channel_index_vec@;
    let ghost calc_ids = calc_index_vec@;
    let mut channel_vec = construct_channel_vec(channel_index_vec);
    let mut calc_vec = construct_calc_vec(calc_index_vec);
    let ghost calcs = calc_vec@;
    channel_vec.append(&mut calc_vec);
    proof {
        let list = channel_vec@;
        assert forall|i: int| 0 <= i < calc_ids.len() implies (#[trigger] list[channel_ids.len()
            + i] matches LoggerChannel::Calculation(c) && c.id == calc_ids[i] && c.is_blank()) by {
            assert(list[channel_ids.len() + i] == calcs[0 + i]);
        }
    }
    Ok(channel_vec)
}

} // verus!
