//! Small text tools on sequences of characters: splitting at a separator,
//! and reading and writing a decimal index.

use vstd::prelude::*;

verus! {

/// The pieces of `text` between occurrences of `separator`, in order. There
/// is always at least one piece, and a separator at either end or two in a
/// row give an empty piece.
pub open spec fn split_on(text: Seq<char>, separator: char) -> Seq<Seq<char>>
    decreases text.len(),
{
    if text.len() == 0 {
        seq![Seq::<char>::empty()]
    } else {
        let before = split_on(text.drop_last(), separator);
        if text.last() == separator {
            before.push(Seq::<char>::empty())
        } else {
            before.drop_last().push(before.last().push(text.last()))
        }
    }
}

/// A split always yields at least one piece.
pub proof fn lemma_split_has_pieces(text: Seq<char>, separator: char)
    ensures
        split_on(text, separator).len() >= 1,
{
}

/// No piece of a split holds the separator.
pub proof fn lemma_split_pieces(text: Seq<char>, separator: char)
    ensures
        forall|i: int, j: int|
            0 <= i < split_on(text, separator).len() && 0 <= j < split_on(text, separator)[i].len()
                ==> #[trigger] split_on(text, separator)[i][j] != separator,
    decreases text.len(),
{
    if text.len() > 0 {
        lemma_split_pieces(text.drop_last(), separator);
        lemma_split_has_pieces(text.drop_last(), separator);
    }
}

/// The pieces put together again with `separator` between each two.
pub open spec fn joined(pieces: Seq<Seq<char>>, separator: char) -> Seq<char>
    decreases pieces.len(),
{
    if pieces.len() == 0 {
        Seq::empty()
    } else if pieces.len() == 1 {
        pieces[0]
    } else {
        joined(pieces.drop_last(), separator) + seq![separator] + pieces.last()
    }
}

/// Splitting loses nothing: the pieces of a text, joined by the separator,
/// are the text.
pub proof fn lemma_split_joins_back(text: Seq<char>, separator: char)
    ensures
        joined(split_on(text, separator), separator) == text,
    decreases text.len(),
{
    if text.len() > 0 {
        let before = split_on(text.drop_last(), separator);
        lemma_split_joins_back(text.drop_last(), separator);
        let pieces = split_on(text, separator);
        if text.last() == separator {
            assert(pieces.drop_last() =~= before);
        } else {
            assert(pieces.drop_last() =~= before.drop_last());
        }
        assert(text.drop_last().push(text.last()) =~= text);
    }
}

/// A piece that is appended after a separator becomes the last piece, and
/// the pieces before it stay as they were.
pub proof fn lemma_split_appended(text: Seq<char>, piece: Seq<char>, separator: char)
    requires
        forall|j: int| 0 <= j < piece.len() ==> piece[j] != separator,
    ensures
        split_on(text + seq![separator] + piece, separator) == split_on(text, separator).push(
            piece,
        ),
    decreases piece.len(),
{
    let whole = text + seq![separator] + piece;
    if piece.len() == 0 {
        assert(whole.drop_last() =~= text);
        assert(piece =~= Seq::<char>::empty());
    } else {
        lemma_split_appended(text, piece.drop_last(), separator);
        assert(whole.drop_last() =~= text + seq![separator] + piece.drop_last());
        assert(whole.last() == piece.last());
        let before = split_on(text, separator).push(piece.drop_last());
        assert(before.drop_last() =~= split_on(text, separator));
        assert(piece.drop_last().push(piece.last()) =~= piece);
    }
}

/// Every character is a space (an empty text is blank too).
pub open spec fn is_blank(text: Seq<char>) -> bool {
    forall|i: int| 0 <= i < text.len() ==> text[i] == ' '
}

pub open spec fn is_digit(c: char) -> bool {
    0x30 <= c as u32 <= 0x39
}

/// Every character is one of `0` to `9`.
pub open spec fn all_digits(text: Seq<char>) -> bool {
    forall|i: int| 0 <= i < text.len() ==> is_digit(#[trigger] text[i])
}

/// The number that a text of decimal digits writes.
pub open spec fn decimal_value(digits: Seq<char>) -> nat
    decreases digits.len(),
{
    if digits.len() == 0 {
        0
    } else {
        (decimal_value(digits.drop_last()) * 10 + (digits.last() as u32 - 0x30)) as nat
    }
}

/// The text after an optional leading plus sign.
pub open spec fn unsigned_part(text: Seq<char>) -> Seq<char> {
    if text.len() > 0 && text[0] == '+' {
        text.skip(1)
    } else {
        text
    }
}

/// The index that a text writes: an optional plus sign and then one or more
/// decimal digits and nothing else, the number fitting the index type.
pub open spec fn parsed_index(text: Seq<char>) -> Option<usize> {
    let digits = unsigned_part(text);
    if digits.len() > 0 && all_digits(digits) && decimal_value(digits) <= usize::MAX {
        Some(decimal_value(digits) as usize)
    } else {
        None
    }
}

/// A longer text of digits writes no smaller number than its beginning.
pub proof fn lemma_decimal_value_grows(digits: Seq<char>, k: int)
    requires
        all_digits(digits),
        0 <= k <= digits.len(),
    ensures
        decimal_value(digits.take(k)) <= decimal_value(digits),
    decreases digits.len() - k,
{
    if k == digits.len() {
        assert(digits.take(k) =~= digits);
    } else {
        lemma_decimal_value_grows(digits, k + 1);
        assert(digits.take(k + 1).drop_last() =~= digits.take(k));
    }
}

/// The character that writes a digit.
pub open spec fn digit_char(digit: nat) -> char {
    (0x30 + digit) as u8 as char
}

/// The decimal digits of a number, the highest first; zero has none.
pub open spec fn digits_of(n: nat) -> Seq<char>
    decreases n,
{
    if n == 0 {
        Seq::empty()
    } else {
        digits_of(n / 10).push(digit_char(n % 10))
    }
}

/// How an index is written: in decimal, without sign or leading zeros.
pub open spec fn index_text(n: nat) -> Seq<char> {
    if n == 0 {
        seq!['0']
    } else {
        digits_of(n)
    }
}

/// The digits of a number write the number.
proof fn lemma_digits_write_the_number(n: nat)
    ensures
        all_digits(digits_of(n)),
        decimal_value(digits_of(n)) == n,
        n > 0 ==> digits_of(n).len() > 0 && digits_of(n)[0] != '+',
    decreases n,
{
    if n > 0 {
        lemma_digits_write_the_number(n / 10);
        assert(digits_of(n).drop_last() =~= digits_of(n / 10));
    }
}

/// An index that was written reads back as itself.
pub proof fn lemma_index_text_reads_back(n: usize)
    ensures
        parsed_index(index_text(n as nat)) == Some(n),
{
    if n == 0 {
        let text = seq!['0'];
        assert(decimal_value(text.drop_last()) == 0);
    } else {
        lemma_digits_write_the_number(n as nat);
    }
}

/// The texts that a vector of owned texts holds.
pub open spec fn texts_of(pieces: Seq<Vec<char>>) -> Seq<Seq<char>> {
    pieces.map_values(|piece: Vec<char>| piece@)
}

/// The characters of a text, in order.
pub fn chars_of(text: &str) -> (out: Vec<char>)
    ensures
        out@ == text@,
{
    let mut out: Vec<char> = Vec::new();
    for c in it: text.chars()
        invariant
            out@ == it.seq().take(it.index()),
            it.seq() == text@,
    {
        out.push(c);
    }
    out
}

/// The text of one decimal digit.
fn digit_text(digit: u8) -> (out: &'static str)
    requires
        digit < 10,
    ensures
        out@ == seq![digit_char(digit as nat)],
{
    proof {
        reveal_strlit("0");
        reveal_strlit("1");
        reveal_strlit("2");
        reveal_strlit("3");
        reveal_strlit("4");
        reveal_strlit("5");
        reveal_strlit("6");
        reveal_strlit("7");
        reveal_strlit("8");
        reveal_strlit("9");
    }
    let out = match digit {
        0 => "0",
        1 => "1",
        2 => "2",
        3 => "3",
        4 => "4",
        5 => "5",
        6 => "6",
        7 => "7",
        8 => "8",
        _ => "9",
    };
    out
}

/// Writes an index in decimal and appends it to `out`.
pub fn write_index(out: String, n: usize) -> (written: String)
    ensures
        written@ == out@ + index_text(n as nat),
{
    if n == 0 {
        proof {
            reveal_strlit("0");
        }
        let written = out.concat("0");
        return written;
    }
    let mut low_first: Vec<u8> = Vec::new();
    let mut rest: usize = n;
    while rest > 0
        invariant
            forall|k: int| 0 <= k < low_first@.len() ==> low_first@[k] < 10,
            digits_of(n as nat) == digits_of(rest as nat) + Seq::new(
                low_first@.len(),
                |k: int| digit_char(low_first@[low_first@.len() - 1 - k] as nat),
            ),
        decreases rest,
    {
        low_first.push((rest % 10) as u8);
        rest = rest / 10;
    }
    let ghost digits = digits_of(n as nat);
    let mut written = out;
    let mut i: usize = low_first.len();
    while i > 0
        invariant
            i <= low_first.len(),
            digits.len() == low_first@.len(),
            forall|k: int| 0 <= k < low_first@.len() ==> low_first@[k] < 10,
            forall|k: int|
                0 <= k < digits.len() ==> digits[k] == digit_char(
                    low_first@[low_first@.len() - 1 - k] as nat,
                ),
            written@ == out@ + digits.take(low_first@.len() - i),
        decreases i,
    {
        i -= 1;
        written = written.concat(digit_text(low_first[i]));
    }
    written
}

/// Splits `text` at every `separator`.
pub fn split(text: &Vec<char>, separator: char) -> (out: Vec<Vec<char>>)
    ensures
        texts_of(out@) == split_on(text@, separator),
{
    let mut done: Vec<Vec<char>> = Vec::new();
    let mut current: Vec<char> = Vec::new();
    let mut i: usize = 0;
    while i < text.len()
        invariant
            i <= text.len(),
            texts_of(done@).push(current@) == split_on(text@.take(i as int), separator),
        decreases text.len() - i,
    {
        let c = text[i];
        proof {
            let prefix = text@.take(i + 1);
            assert(prefix.drop_last() =~= text@.take(i as int));
        }
        if c == separator {
            done.push(current);
            current = Vec::new();
        } else {
            current.push(c);
        }
        i += 1;
    }
    assert(text@.take(text.len() as int) =~= text@);
    done.push(current);
    done
}

/// Whether every character is a space.
pub fn blank(text: &Vec<char>) -> (out: bool)
    ensures
        out == is_blank(text@),
{
    let mut i: usize = 0;
    while i < text.len()
        invariant
            i <= text.len(),
            forall|j: int| 0 <= j < i ==> text@[j] == ' ',
        decreases text.len() - i,
    {
        if text[i] != ' ' {
            return false;
        }
        i += 1;
    }
    true
}

/// Reads a decimal index.
pub fn parse_index(text: &Vec<char>) -> (out: Option<usize>)
    ensures
        out == parsed_index(text@),
{
    let start: usize = if text.len() > 0 && text[0] == '+' {
        1
    } else {
        0
    };
    let ghost digits = unsigned_part(text@);
    if start == text.len() {
        return None;
    }
    let mut i: usize = start;
    while i < text.len()
        invariant
            start <= i <= text.len(),
            digits == text@.skip(start as int),
            digits == unsigned_part(text@),
            forall|j: int| 0 <= j < i - start ==> is_digit(#[trigger] digits[j]),
        decreases text.len() - i,
    {
        let code: u32 = text[i] as u32;
        if code < 0x30 || code > 0x39 {
            assert(!is_digit(digits[i - start]));
            return None;
        }
        i += 1;
    }
    let mut value: usize = 0;
    i = start;
    while i < text.len()
        invariant
            start <= i <= text.len(),
            digits == text@.skip(start as int),
            digits == unsigned_part(text@),
            all_digits(digits),
            value == decimal_value(digits.take(i - start)),
        decreases text.len() - i,
    {
        proof {
            assert(is_digit(digits[i - start]));
        }
        let digit: usize = (text[i] as u32 - 0x30) as usize;
        proof {
            let k = i - start;
            assert(digits.take(k + 1).drop_last() =~= digits.take(k));
            lemma_decimal_value_grows(digits, k + 1);
        }
        if value > (usize::MAX - digit) / 10 {
            return None;
        }
        value = value * 10 + digit;
        i += 1;
    }
    assert(digits.take(digits.len() as int) =~= digits);
    Some(value)
}

} // verus!
