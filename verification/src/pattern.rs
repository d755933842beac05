//! Wildcard byte-pattern matching over a module image's mapped bytes.

use vstd::prelude::*;

verus! {

/// One element of a byte pattern: a byte that must match exactly, or a
/// wildcard position that matches any byte.
#[derive(Clone, Copy, PartialEq, Eq, Structural, Debug)]
pub enum PatternByte {
    Fixed(u8),
    Wildcard,
}

/// Whether one pattern element accepts the byte `b`.
pub open spec fn byte_matches(p: PatternByte, b: u8) -> bool {
    match p {
        PatternByte::Fixed(f) => b == f,
        PatternByte::Wildcard => true,
    }
}

/// The pattern `pat` matches the bytes of `hay` beginning at offset `at`:
/// the pattern lies within bounds, every fixed position matches exactly,
/// and every wildcard position matches unconditionally.
pub open spec fn matches_at(hay: Seq<u8>, pat: Seq<PatternByte>, at: int) -> bool {
    &&& 0 <= at
    &&& at + pat.len() <= hay.len()
    &&& forall|j: int| 0 <= j < pat.len() ==> byte_matches(pat[j], hay[at + j])
}

/// `at` is the first offset of `hay` at which `pat` matches.
pub open spec fn is_first_match(hay: Seq<u8>, pat: Seq<PatternByte>, at: int) -> bool {
    &&& matches_at(hay, pat, at)
    &&& forall|k: int| 0 <= k < at ==> !matches_at(hay, pat, k)
}

/// The pattern matches nowhere in `hay`.
pub open spec fn no_match(hay: Seq<u8>, pat: Seq<PatternByte>) -> bool {
    forall|k: int| !matches_at(hay, pat, k)
}

/// Checks whether the pattern matches at one given offset.
fn matches_here(hay: &Vec<u8>, pat: &Vec<PatternByte>, at: usize) -> (r: bool)
    requires
        at + pat@.len() <= hay@.len(),
    ensures
        r == matches_at(hay@, pat@, at as int),
{
    let n: usize = hay.len();
    let mut j: usize = 0;
    while j < pat.len()
        invariant
            n == hay@.len(),
            at + pat@.len() <= hay@.len(),
            j <= pat@.len(),
            forall|k: int| 0 <= k < j ==> byte_matches(pat@[k], hay@[at + k]),
        decreases pat@.len() - j,
    {
        let ok = match pat[j] {
            PatternByte::Fixed(b) => hay[at + j] == b,
            PatternByte::Wildcard => true,
        };
        if !ok {
            assert(!byte_matches(pat@[j as int], hay@[at + j]));
            return false;
        }
        j = j + 1;
    }
    true
}

/// Walks the module image and returns the offset of the first match of
/// `pat`, or `None` when the pattern occurs nowhere in the image.
pub fn scan(hay: &Vec<u8>, pat: &Vec<PatternByte>) -> (r: Option<usize>)
    ensures
        match r {
            Some(at) => is_first_match(hay@, pat@, at as int),
            None => no_match(hay@, pat@),
        },
{
    if pat.len() == 0 {
        return Some(0);
    }
    if pat.len() > hay.len() {
        return None;
    }
    let count: usize = hay.len() - pat.len() + 1;
    let mut i: usize = 0;
    while i < count
        invariant
            0 < pat@.len() <= hay@.len(),
            count == hay@.len() - pat@.len() + 1,
            i <= count,
            forall|k: int| 0 <= k < i ==> !matches_at(hay@, pat@, k),
        decreases count - i,
    {
        if matches_here(hay, pat, i) {
            return Some(i);
        }
        i = i + 1;
    }
    assert(forall|k: int| k >= count ==> !matches_at(hay@, pat@, k));
    None
}

/// The pattern text could not be read as space-separated hexadecimal byte
/// pairs and wildcards.
#[derive(Clone, Copy, PartialEq, Eq, Structural, Debug)]
pub enum PatternError {
    Malformed,
}

/// `c` is an ASCII hexadecimal digit.
pub open spec fn is_hex(c: u8) -> bool {
    (48 <= c <= 57) || (97 <= c <= 102) || (65 <= c <= 70)
}

/// The value of the ASCII hexadecimal digit `c`.
pub open spec fn hex_val(c: u8) -> u8 {
    if 48 <= c <= 57 {
        (c - 48) as u8
    } else if 97 <= c <= 102 {
        (c - 87) as u8
    } else {
        (c - 55) as u8
    }
}

/// The pattern element one token of signature text stands for: `?` or `??`
/// is a wildcard, two hexadecimal digits are a fixed byte, anything else is
/// malformed.
pub open spec fn token_elem(t: Seq<u8>) -> Option<PatternByte> {
    if t.len() == 1 && t[0] == 63 {
        Some(PatternByte::Wildcard)
    } else if t.len() == 2 && t[0] == 63 && t[1] == 63 {
        Some(PatternByte::Wildcard)
    } else if t.len() == 2 && is_hex(t[0]) && is_hex(t[1]) {
        Some(PatternByte::Fixed((16 * hex_val(t[0]) + hex_val(t[1])) as u8))
    } else {
        None
    }
}

/// The end of the token that starts at `i`: the first space at or after
/// `i`, or the end of the text.
pub open spec fn tok_end(s: Seq<u8>, i: int) -> int
    decreases s.len() - i,
{
    if i >= s.len() {
        i
    } else if s[i] == 32 {
        i
    } else {
        tok_end(s, i + 1)
    }
}

/// A token never ends before it starts, nor past the end of the text.
proof fn lemma_tok_end_bounds(s: Seq<u8>, i: int)
    requires
        i <= s.len(),
    ensures
        i <= tok_end(s, i) <= s.len(),
    decreases s.len() - i,
{
    if i < s.len() && s[i] != 32 {
        lemma_tok_end_bounds(s, i + 1);
    }
}

#[via_fn]
proof fn pattern_of_text_from_decreases(s: Seq<u8>, i: int) {
    if i < s.len() && s[i] != 32 {
        lemma_tok_end_bounds(s, i);
    }
}

/// The pattern the signature text means from position `i` on, or `None`
/// where the text is malformed there.
pub open spec fn pattern_of_text_from(s: Seq<u8>, i: int) -> Option<Seq<PatternByte>>
    decreases s.len() - i,
    via pattern_of_text_from_decreases
{
    if i >= s.len() {
        Some(Seq::empty())
    } else if s[i] == 32 {
        None
    } else {
        let e = tok_end(s, i);
        match token_elem(s.subrange(i, e)) {
            Option::None => None,
            Option::Some(pb) => {
                if e == s.len() {
                    Some(seq![pb])
                } else {
                    match pattern_of_text_from(s, e + 1) {
                        Option::None => None,
                        Option::Some(rest) => Some(seq![pb] + rest),
                    }
                }
            },
        }
    }
}

/// The pattern the whole signature text means.
pub open spec fn pattern_of_text(s: Seq<u8>) -> Option<Seq<PatternByte>> {
    pattern_of_text_from(s, 0)
}

/// Finds the end of the token that starts at `i`.
fn find_tok_end(s: &Vec<u8>, i: usize) -> (j: usize)
    requires
        i <= s@.len(),
    ensures
        i <= j <= s@.len(),
        j == tok_end(s@, i as int),
{
    let mut j = i;
    while j < s.len() && s[j] != 32
        invariant
            i <= j <= s@.len(),
            tok_end(s@, i as int) == tok_end(s@, j as int),
        decreases s@.len() - j,
    {
        j = j + 1;
    }
    j
}

/// Reads the pattern meant from position `i` to the end of the text.
fn parse_from(s: &Vec<u8>, i: usize) -> (r: Option<Vec<PatternByte>>)
    requires
        i <= s@.len(),
    ensures
        match r {
            Some(p) => pattern_of_text_from(s@, i as int) == Some(p@),
            None => pattern_of_text_from(s@, i as int) is None,
        },
    decreases s@.len() - i,
{
    if i == s.len() {
        let p: Vec<PatternByte> = Vec::new();
        assert(p@ =~= Seq::<PatternByte>::empty());
        return Some(p);
    }
    if s[i] == 32 {
        return None;
    }
    let j = find_tok_end(s, i);
    let ghost t = s@.subrange(i as int, j as int);
    let elem: PatternByte;
    if j - i == 1 && s[i] == 63 {
        elem = PatternByte::Wildcard;
    } else if j - i == 2 && s[i] == 63 && s[i + 1] == 63 {
        elem = PatternByte::Wildcard;
    } else if j - i == 2 && is_hex_exec(s[i]) && is_hex_exec(s[i + 1]) {
        elem = PatternByte::Fixed(16 * hex_val_exec(s[i]) + hex_val_exec(s[i + 1]));
    } else {
        assert(token_elem(t) is None);
        return None;
    }
    assert(token_elem(t) == Some(elem));
    if j == s.len() {
        let mut p: Vec<PatternByte> = Vec::new();
        p.push(elem);
        assert(p@ =~= seq![elem]);
        return Some(p);
    }
    match parse_from(s, j + 1) {
        None => None,
        Some(mut rest) => {
            rest.insert(0, elem);
            proof {
                assert(rest@ =~= seq![elem] + rest@.subrange(1, rest@.len() as int));
            }
            Some(rest)
        },
    }
}

/// `c` is an ASCII hexadecimal digit.
fn is_hex_exec(c: u8) -> (r: bool)
    ensures
        r == is_hex(c),
{
    (48 <= c && c <= 57) || (97 <= c && c <= 102) || (65 <= c && c <= 70)
}

/// The value of the ASCII hexadecimal digit `c`.
fn hex_val_exec(c: u8) -> (r: u8)
    requires
        is_hex(c),
    ensures
        r == hex_val(c),
        r < 16,
{
    if 48 <= c && c <= 57 {
        c - 48
    } else if 97 <= c && c <= 102 {
        c - 87
    } else {
        c - 55
    }
}

/// Reads a pattern from its textual form: hexadecimal byte pairs and `?`
/// or `??` wildcards, separated by single spaces. Rejects — and says only
/// that it rejects — exactly the texts that mean no pattern.
pub fn parse_pattern(text: &Vec<u8>) -> (r: Result<Vec<PatternByte>, PatternError>)
    ensures
        match r {
            Ok(p) => pattern_of_text(text@) == Some(p@),
            Err(e) => e == PatternError::Malformed && pattern_of_text(text@) is None,
        },
{
    match parse_from(text, 0) {
        Some(p) => Ok(p),
        None => Err(PatternError::Malformed),
    }
}

} // verus!
