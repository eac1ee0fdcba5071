use vstd::prelude::*;
use vstd::string::*;

verus! {

/// Lines shorter than this pass through the Partner A transform unchanged.
pub const MIN_EXPANDED_LEN: usize = 41;

/// Offset at which the two filler digits are inserted.
pub const FILLER_OFFSET: usize = 9;

/// The Partner A layout of one line: `"00"` inserted before offset 9 when the
/// line holds at least 41 characters, otherwise the line itself.
pub open spec fn vodacom_line(l: Seq<char>) -> Seq<char> {
    if l.len() >= MIN_EXPANDED_LEN {
        l.subrange(0, FILLER_OFFSET as int) + seq!['0', '0'] + l.subrange(
            FILLER_OFFSET as int,
            l.len() as int,
        )
    } else {
        l
    }
}

/// Transforms one Partner A record line.
pub fn transform_vodacom_line(line: &str) -> (r: String)
    ensures
        r@ == vodacom_line(line@),
{
    let n = line.unicode_len();
    if n < MIN_EXPANDED_LEN {
        return String::from_str(line);
    }
    let mut out = String::from_str(line.substring_char(0, FILLER_OFFSET));
    out.append("00");
    out.append(line.substring_char(FILLER_OFFSET, n));
    proof {
        reveal_strlit("00");
    }
    out
}

/// The Partner A layout of a whole record set, line by line.
pub open spec fn vodacom_lines(ls: Seq<Seq<char>>) -> Seq<Seq<char>> {
    Seq::new(ls.len(), |i: int| vodacom_line(ls[i]))
}

/// Transforms a Partner A record set: every line in order, none dropped.
pub fn transform_vodacom(lines: &Vec<String>) -> (r: Vec<String>)
    ensures
        r.deep_view() == vodacom_lines(lines.deep_view()),
{
    let mut out: Vec<String> = Vec::new();
    let mut i: usize = 0;
    while i < lines.len()
        invariant
            i <= lines@.len(),
            out@.len() == i,
            forall|k: int| 0 <= k < i ==> #[trigger] out@[k]@ == vodacom_line(lines@[k]@),
        decreases lines@.len() - i,
    {
        let t = transform_vodacom_line(lines[i].as_str());
        out.push(t);
        i = i + 1;
    }
    assert(out.deep_view() =~= vodacom_lines(lines.deep_view()));
    out
}

/// A line of at least 41 characters grows by two: its first nine characters
/// stay, `"00"` follows them, and the rest of the line comes after unchanged.
pub proof fn lemma_long_line_layout(l: Seq<char>)
    requires
        l.len() >= 41,
    ensures
        vodacom_line(l).len() == l.len() + 2,
        vodacom_line(l).subrange(0, 9) == l.subrange(0, 9),
        vodacom_line(l).subrange(9, 11) == seq!['0', '0'],
        vodacom_line(l).subrange(11, l.len() + 2int) == l.subrange(9, l.len() as int),
{
    let r = vodacom_line(l);
    assert(r.subrange(0, 9) =~= l.subrange(0, 9));
    assert(r.subrange(9, 11) =~= seq!['0', '0']);
    assert(r.subrange(11, l.len() + 2int) =~= l.subrange(9, l.len() as int));
}

/// A line shorter than 41 characters comes out exactly as it went in.
pub proof fn lemma_short_line_unchanged(l: Seq<char>)
    requires
        l.len() < 41,
    ensures
        vodacom_line(l) == l,
{
}

/// The Partner A transform keeps the number of lines.
pub proof fn lemma_line_count_kept(ls: Seq<Seq<char>>)
    ensures
        vodacom_lines(ls).len() == ls.len(),
{
}

} // verus!
