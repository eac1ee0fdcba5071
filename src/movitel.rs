use vstd::prelude::*;
use vstd::string::*;

use crate::error::RecordFormatError;

verus! {

/// Index of the header line that carries the suffix seed.
pub const HEADER_INDEX: usize = 2;

/// Number of banner lines removed from the front of a record set.
pub const BANNER_LINES: usize = 37;

/// Lines that a record set must hold for any record to remain:
/// the banner, at least one record, and the footer.
pub const MIN_LINES: usize = 39;

/// Offset of the separator removed from each record line.
pub const SEPARATOR_OFFSET: usize = 13;

/// Shortest record line that the layout can be applied to.
pub const MIN_RECORD_LEN: usize = 14;

/// Width to which the suffix token is padded with zeros.
pub const TOKEN_WIDTH: usize = 4;

/// `i` is where the first field of `s` ends: the first colon, or the end of
/// `s` when it holds none.
pub open spec fn stop_at(s: Seq<char>, i: int) -> bool {
    &&& 0 <= i <= s.len()
    &&& (i == s.len() || s[i] == ':')
    &&& forall|j: int| 0 <= j < i ==> s[j] != ':'
}

/// Where the first field of `s` ends.
pub open spec fn colon_stop(s: Seq<char>) -> int {
    choose|i: int| stop_at(s, i)
}

/// `s` holds a colon somewhere.
pub open spec fn has_colon(s: Seq<char>) -> bool {
    exists|i: int| 0 <= i < s.len() && s[i] == ':'
}

/// The field after the first colon of `h`, up to the next colon or the end.
pub open spec fn header_token(h: Seq<char>) -> Seq<char> {
    let rest = h.subrange(colon_stop(h) + 1, h.len() as int);
    rest.subrange(0, colon_stop(rest))
}

/// `t` left-padded with zeros to four characters; a longer `t` is kept whole.
pub open spec fn pad_token(t: Seq<char>) -> Seq<char> {
    if t.len() >= TOKEN_WIDTH {
        t
    } else {
        Seq::new((TOKEN_WIDTH - t.len()) as nat, |_i: int| '0') + t
    }
}

/// The suffix code that a header line gives: `'M'` and the padded token.
pub open spec fn suffix_of(h: Seq<char>) -> Seq<char> {
    seq!['M'] + pad_token(header_token(h))
}

/// The end of the first field is unique: any index that meets `stop_at` is it.
pub proof fn lemma_stop_unique(s: Seq<char>, i: int)
    requires
        stop_at(s, i),
    ensures
        colon_stop(s) == i,
{
    let c = colon_stop(s);
    assert(stop_at(s, c));
    if c < i {
        assert(s[c] != ':');
    } else if i < c {
        assert(s[i] != ':');
    }
}

/// Finds where the first field of `s` ends.
fn find_stop(s: &str) -> (r: usize)
    ensures
        stop_at(s@, r as int),
        r == colon_stop(s@),
{
    let n = s.unicode_len();
    let mut i: usize = 0;
    while i < n
        invariant
            n == s@.len(),
            i <= n,
            forall|j: int| 0 <= j < i ==> s@[j] != ':',
        decreases n - i,
    {
        if s.get_char(i) == ':' {
            proof {
                lemma_stop_unique(s@, i as int);
            }
            return i;
        }
        i = i + 1;
    }
    proof {
        lemma_stop_unique(s@, i as int);
    }
    i
}

/// Derives the suffix code from a header line: the field after its first
/// colon, padded with zeros to four characters, behind the marker `'M'`.
pub fn suffix_code(header: &str) -> (r: Result<String, RecordFormatError>)
    ensures
        has_colon(header@) ==> r is Ok && r->Ok_0@ == suffix_of(header@),
        !has_colon(header@) ==> r == Err::<String, RecordFormatError>(
            RecordFormatError::MissingColon,
        ),
{
    let n = header.unicode_len();
    let c = find_stop(header);
    if c == n {
        proof {
            assert(stop_at(header@, c as int));
        }
        return Err(RecordFormatError::MissingColon);
    }
    proof {
        assert(stop_at(header@, c as int));
    }
    let rest = header.substring_char(c + 1, n);
    let e = find_stop(rest);
    let token = rest.substring_char(0, e);
    let tl = token.unicode_len();
    let mut out = String::from_str("M");
    let mut k: usize = tl;
    proof {
        reveal_strlit("M");
        assert(out@ =~= seq!['M'] + Seq::new((k - tl) as nat, |_i: int| '0'));
    }
    while k < TOKEN_WIDTH
        invariant
            tl == token@.len(),
            tl <= k <= TOKEN_WIDTH || (tl >= TOKEN_WIDTH && k == tl),
            out@ == seq!['M'] + Seq::new((k - tl) as nat, |_i: int| '0'),
        decreases TOKEN_WIDTH - k,
    {
        out.append("0");
        proof {
            reveal_strlit("0");
            assert(out@ =~= seq!['M'] + Seq::new((k + 1 - tl) as nat, |_i: int| '0'));
        }
        k = k + 1;
    }
    out.append(token);
    proof {
        reveal_strlit("M");
        assert(out@ =~= suffix_of(header@));
    }
    Ok(out)
}

/// A record line with its separator at offset 13 and its first two
/// characters removed.
pub open spec fn record_core(l: Seq<char>) -> Seq<char> {
    (l.subrange(0, SEPARATOR_OFFSET as int) + l.subrange(
        SEPARATOR_OFFSET as int + 1,
        l.len() as int,
    )).subrange(2, l.len() - 1)
}

/// `b` with its last character moved to the front.
pub open spec fn rotate_last(b: Seq<char>) -> Seq<char> {
    seq![b.last()] + b.drop_last()
}

/// The Partner B layout of one record line: `"1"`, the date stamp, the
/// rotated core of the line, and the suffix code.
pub open spec fn movitel_line(l: Seq<char>, date: Seq<char>, suffix: Seq<char>) -> Seq<char> {
    seq!['1'] + date + rotate_last(record_core(l)) + suffix
}

/// Transforms one Partner B record line, given the date stamp and the
/// suffix code of its file. A line too short to hold the separator is
/// rejected.
pub fn transform_movitel_line(line: &str, date: &str, suffix: &str) -> (r: Option<String>)
    ensures
        line@.len() >= MIN_RECORD_LEN ==> r is Some && r->Some_0@ == movitel_line(
            line@,
            date@,
            suffix@,
        ),
        line@.len() < MIN_RECORD_LEN ==> r is None,
{
    let n = line.unicode_len();
    if n < MIN_RECORD_LEN {
        return None;
    }
    let mut core = String::from_str(line.substring_char(2, SEPARATOR_OFFSET));
    core.append(line.substring_char(SEPARATOR_OFFSET + 1, n));
    let m = n - 3;
    proof {
        assert(core@ =~= record_core(line@));
    }
    let mut out = String::from_str("1");
    out.append(date);
    out.append(core.as_str().substring_char(m - 1, m));
    out.append(core.as_str().substring_char(0, m - 1));
    out.append(suffix);
    proof {
        reveal_strlit("1");
        assert(out@ =~= movitel_line(line@, date@, suffix@));
    }
    Some(out)
}

/// The record lines of `ls` are those between the banner block and the
/// footer; `i` is the first of them that is too short for the layout.
pub open spec fn short_at(ls: Seq<Seq<char>>, i: int) -> bool {
    &&& BANNER_LINES <= i < ls.len() - 1
    &&& ls[i].len() < MIN_RECORD_LEN
    &&& forall|j: int| BANNER_LINES <= j < i ==> ls[j].len() >= MIN_RECORD_LEN
}

pub open spec fn has_short_record(ls: Seq<Seq<char>>) -> bool {
    exists|i: int| BANNER_LINES <= i < ls.len() - 1 && ls[i].len() < MIN_RECORD_LEN
}

/// Index of the first record line that is too short.
pub open spec fn first_short(ls: Seq<Seq<char>>) -> int {
    choose|i: int| short_at(ls, i)
}

/// Why a record set cannot be transformed, checked in this order:
/// header line, colon in it, number of lines, length of each record line.
pub open spec fn movitel_error(ls: Seq<Seq<char>>) -> Option<RecordFormatError> {
    if ls.len() <= HEADER_INDEX {
        Some(RecordFormatError::MissingHeader)
    } else if !has_colon(ls[HEADER_INDEX as int]) {
        Some(RecordFormatError::MissingColon)
    } else if ls.len() < MIN_LINES {
        Some(RecordFormatError::TooFewLines)
    } else if has_short_record(ls) {
        Some(RecordFormatError::LineTooShort { line: first_short(ls) as usize })
    } else {
        None
    }
}

/// The Partner B layout of a whole record set: banner and footer dropped,
/// each record line laid out with the suffix code of the header line.
pub open spec fn movitel_lines(ls: Seq<Seq<char>>, date: Seq<char>) -> Seq<Seq<char>> {
    Seq::new(
        (ls.len() - BANNER_LINES - 1) as nat,
        |k: int| movitel_line(ls[k + BANNER_LINES], date, suffix_of(ls[HEADER_INDEX as int])),
    )
}

/// The first short record line is unique: any index that meets `short_at`
/// is it.
pub proof fn lemma_short_unique(ls: Seq<Seq<char>>, i: int)
    requires
        short_at(ls, i),
    ensures
        first_short(ls) == i,
{
    let c = first_short(ls);
    assert(short_at(ls, c));
    if c < i {
        assert(ls[c].len() >= MIN_RECORD_LEN);
    } else if i < c {
        assert(ls[i].len() >= MIN_RECORD_LEN);
    }
}

/// Transforms a Partner B record set with the given date stamp.
pub fn transform_movitel(lines: &Vec<String>, date: &str) -> (r: Result<Vec<String>, RecordFormatError>)
    ensures
        match movitel_error(lines.deep_view()) {
            Some(e) => r == Err::<Vec<String>, RecordFormatError>(e),
            None => r is Ok && r->Ok_0.deep_view() == movitel_lines(lines.deep_view(), date@),
        },
{
    let ghost ls = lines.deep_view();
    let n = lines.len();
    if n <= HEADER_INDEX {
        return Err(RecordFormatError::MissingHeader);
    }
    assert(lines@[HEADER_INDEX as int]@ == ls[HEADER_INDEX as int]);
    let suffix = match suffix_code(lines[HEADER_INDEX].as_str()) {
        Ok(s) => s,
        Err(e) => {
            return Err(e);
        },
    };
    if n < MIN_LINES {
        return Err(RecordFormatError::TooFewLines);
    }
    let mut out: Vec<String> = Vec::new();
    let mut i: usize = BANNER_LINES;
    while i < n - 1
        invariant
            n == lines@.len(),
            ls == lines.deep_view(),
            n >= MIN_LINES,
            has_colon(ls[HEADER_INDEX as int]),
            BANNER_LINES <= i <= n - 1,
            suffix@ == suffix_of(ls[HEADER_INDEX as int]),
            out@.len() == i - BANNER_LINES,
            forall|j: int| BANNER_LINES <= j < i ==> ls[j].len() >= MIN_RECORD_LEN,
            forall|k: int|
                0 <= k < out@.len() ==> #[trigger] out@[k]@ == movitel_line(
                    ls[k + BANNER_LINES],
                    date@,
                    suffix@,
                ),
        decreases n - i,
    {
        assert(lines@[i as int]@ == ls[i as int]);
        match transform_movitel_line(lines[i].as_str(), date, suffix.as_str()) {
            Some(t) => {
                out.push(t);
            },
            None => {
                proof {
                    assert(short_at(ls, i as int));
                    lemma_short_unique(ls, i as int);
                    assert(has_short_record(ls));
                }
                return Err(RecordFormatError::LineTooShort { line: i });
            },
        }
        i = i + 1;
    }
    assert(!has_short_record(ls));
    assert(out.deep_view() =~= movitel_lines(ls, date@));
    Ok(out)
}

/// A record set of at least 39 lines that the transform accepts gives one
/// output line for each input line but the 37 banner lines and the footer;
/// a record set of fewer than 39 lines is always rejected.
pub proof fn lemma_record_count(ls: Seq<Seq<char>>, date: Seq<char>)
    ensures
        ls.len() >= MIN_LINES && movitel_error(ls) is None ==> movitel_lines(ls, date).len()
            == ls.len() - 38,
        ls.len() < MIN_LINES ==> movitel_error(ls) is Some,
{
}

} // verus!
