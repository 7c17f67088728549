//! File name patterns and type suffixes of the drive.

use vstd::prelude::*;
use crate::text::{
    all_ascii, ascii_lower, is_white_space, leading_ws, trailing_ws, utf8_width,
    ascii_ci_eq, ascii_upper, char_ascii_ci_eq, chars_eq_ignore_ascii_case, chars_of, eq_ignore_ascii_case,
    to_uppercase, trim, trimmed, unicode_uppercase, utf8_len, utf8_length,
};

verus! {

/// Whether a file name matches a pattern: `*` matches every name; a
/// pattern ending in `*` matches names that start with the rest of it
/// (compared in upper case); a pattern with `?` matches names of the same
/// length in bytes, `?` standing for any character; any other pattern
/// matches the same name up to ASCII case. Pattern and name are trimmed
/// of white space first, but for the lone `*`.
pub open spec fn name_matches(pattern: Seq<char>, filename: Seq<char>) -> bool {
    if pattern == seq!['*'] {
        true
    } else {
        let p = trimmed(pattern);
        let f = trimmed(filename);
        if p.len() > 0 && p.last() == '*' {
            unicode_uppercase(p.drop_last()).is_prefix_of(unicode_uppercase(f))
        } else if p.contains('?') {
            &&& utf8_len(p) == utf8_len(f)
            &&& forall|i: int|
                0 <= i < p.len() && i < f.len() ==> (#[trigger] p[i] == '?' || char_ascii_ci_eq(
                    p[i],
                    f[i],
                ))
        } else {
            ascii_ci_eq(p, f)
        }
    }
}

/// The last position of a character in a sequence.
pub open spec fn last_index_of(s: Seq<char>, c: char) -> Option<int>
    decreases s.len(),
{
    if s.len() == 0 {
        None
    } else if s.last() == c {
        Some(s.len() - 1)
    } else {
        last_index_of(s.drop_last(), c)
    }
}

/// The file type byte for a type letter: `S` sequential, `U` user, `R`
/// relative, and program for `P` and any other letter.
pub open spec fn type_code(c: char) -> u8 {
    let u = ascii_upper(c);
    if u == 'S' {
        0x01
    } else if u == 'U' {
        0x03
    } else if u == 'R' {
        0x04
    } else {
        0x02
    }
}

/// Split a name like `NAME,S` at its last comma into the name and the
/// type byte given by the letter after the comma; without a comma, or
/// without a letter, the file is a program.
pub open spec fn parse_type(filename: Seq<char>) -> (Seq<char>, u8) {
    match last_index_of(filename, ',') {
        Some(pos) => (
            filename.subrange(0, pos),
            type_code(if pos + 1 < filename.len() { filename[pos + 1] } else { 'P' }),
        ),
        None => (filename, 0x02),
    }
}

pub fn last_index(s: &Vec<char>, c: char) -> (r: Option<usize>)
    ensures
        match last_index_of(s@, c) {
            Some(p) => r == Some(p as usize) && 0 <= p < s.len(),
            None => r is None,
        },
{
    let mut k: usize = s.len();
    assert(s@.take(k as int) =~= s@);
    while k > 0
        invariant
            k <= s.len(),
            last_index_of(s@, c) == last_index_of(s@.take(k as int), c),
        decreases k,
    {
        assert(s@.take(k as int).last() == s@[k - 1]);
        if s[k - 1] == c {
            return Some(k - 1);
        }
        assert(s@.take(k as int).drop_last() =~= s@.take(k - 1));
        k -= 1;
    }
    None
}

pub fn type_code_of(c: char) -> (r: u8)
    ensures
        r == type_code(c),
{
    let u = if 'a' <= c && c <= 'z' {
        ((c as u8) - 32) as char
    } else {
        c
    };
    if u == 'S' {
        0x01
    } else if u == 'U' {
        0x03
    } else if u == 'R' {
        0x04
    } else {
        0x02
    }
}

fn is_prefix(a: &Vec<char>, b: &Vec<char>) -> (r: bool)
    ensures
        r == a@.is_prefix_of(b@),
{
    if a.len() > b.len() {
        return false;
    }
    let mut i: usize = 0;
    while i < a.len()
        invariant
            a.len() <= b.len(),
            i <= a.len(),
            forall|j: int| 0 <= j < i ==> a@[j] == b@[j],
        decreases a.len() - i,
    {
        if a[i] != b[i] {
            assert(a@[i as int] != b@.subrange(0, a@.len() as int)[i as int]);
            return false;
        }
        i += 1;
    }
    assert(a@ =~= b@.subrange(0, a@.len() as int));
    true
}

fn contains_char(s: &Vec<char>, c: char) -> (r: bool)
    ensures
        r == s@.contains(c),
{
    let mut i: usize = 0;
    while i < s.len()
        invariant
            i <= s.len(),
            forall|j: int| 0 <= j < i ==> s@[j] != c,
        decreases s.len() - i,
    {
        if s[i] == c {
            assert(s@[i as int] == c);
            return true;
        }
        i += 1;
    }
    false
}

/// Whether a file name matches a pattern, as `name_matches` says.
#[verifier::loop_isolation(false)]
pub fn matches_pattern(pattern: &str, filename: &str) -> (r: bool)
    ensures
        r == name_matches(pattern@, filename@),
{
    let pc = chars_of(pattern);
    if pc.len() == 1 && pc[0] == '*' {
        assert(pattern@ =~= seq!['*']);
        return true;
    }
    assert(pattern@ != seq!['*']);
    let p = trim(&pc);
    let fc = chars_of(filename);
    let f = trim(&fc);
    if p.len() > 0 && p[p.len() - 1] == '*' {
        let mut prefix: Vec<char> = Vec::new();
        let mut i: usize = 0;
        while i < p.len() - 1
            invariant
                p.len() > 0,
                i <= p.len() - 1,
                prefix@ == p@.take(i as int),
            decreases p.len() - 1 - i,
        {
            prefix.push(p[i]);
            i += 1;
            assert(prefix@ =~= p@.take(i as int));
        }
        assert(prefix@ =~= p@.drop_last());
        let up = to_uppercase(&prefix);
        let uf = to_uppercase(&f);
        is_prefix(&up, &uf)
    } else if contains_char(&p, '?') {
        if utf8_length(&p) != utf8_length(&f) {
            return false;
        }
        let mut i: usize = 0;
        while i < p.len() && i < f.len()
            invariant
                i <= p.len(),
                forall|j: int|
                    0 <= j < i && j < f.len() ==> (#[trigger] p@[j] == '?' || char_ascii_ci_eq(
                        p@[j],
                        f@[j],
                    )),
            decreases p.len() - i,
        {
            if !(p[i] == '?' || chars_eq_ignore_ascii_case(p[i], f[i])) {
                assert(!(p@[i as int] == '?' || char_ascii_ci_eq(p@[i as int], f@[i as int])));
                assert(!name_matches(pattern@, filename@));
                return false;
            }
            i += 1;
        }
        true
    } else {
        eq_ignore_ascii_case(&p, &f)
    }
}

/// ASCII text takes one byte per character.
proof fn lemma_ascii_utf8_len(s: Seq<char>)
    requires
        all_ascii(s),
    ensures
        utf8_len(s) == s.len(),
    decreases s.len(),
{
    if s.len() > 0 {
        assert(all_ascii(s.drop_last())) by {
            assert forall|i: int| 0 <= i < s.drop_last().len() implies (#[trigger] s.drop_last()[i]
                as u32) < 0x80 by {
                assert(s.drop_last()[i] == s[i]);
            }
        }
        lemma_ascii_utf8_len(s.drop_last());
        assert((s[s.len() - 1] as u32) < 0x80);
        assert(utf8_width(s.last()) == 1);
    }
}

/// Text with no white space is its own trimmed form.
proof fn lemma_trimmed_plain(s: Seq<char>)
    requires
        forall|i: int| 0 <= i < s.len() ==> !is_white_space(#[trigger] s[i]),
    ensures
        trimmed(s) == s,
{
    if s.len() > 0 {
        assert(!is_white_space(s[0]));
        assert(!is_white_space(s[s.len() - 1]));
    }
    assert(leading_ws(s) == 0);
    let t = s.subrange(leading_ws(s) as int, s.len() as int);
    assert(t =~= s);
    assert(trailing_ws(t) == 0);
    assert(trimmed(s) =~= s);
}

/// A pattern with `?` in it (and no `*` at its end) matches a name
/// exactly when both have the same length and at every position the
/// pattern has `?` or the name's character up to ASCII case. So a pattern
/// with a character that differs from the name's at its place never
/// matches, whatever `?` stand elsewhere. Pattern and name are ASCII
/// with no white space.
pub proof fn lemma_wildcard_match(pattern: Seq<char>, filename: Seq<char>)
    requires
        pattern.contains('?'),
        pattern.last() != '*',
        all_ascii(pattern),
        all_ascii(filename),
        forall|i: int| 0 <= i < pattern.len() ==> !is_white_space(#[trigger] pattern[i]),
        forall|i: int| 0 <= i < filename.len() ==> !is_white_space(#[trigger] filename[i]),
    ensures
        name_matches(pattern, filename) <==> (pattern.len() == filename.len() && forall|i: int|
            0 <= i < pattern.len() ==> (#[trigger] pattern[i] == '?' || ascii_lower(pattern[i])
                == ascii_lower(filename[i]))),
{
    lemma_trimmed_plain(pattern);
    lemma_trimmed_plain(filename);
    lemma_ascii_utf8_len(pattern);
    lemma_ascii_utf8_len(filename);
    assert(pattern != seq!['*']) by {
        if pattern == seq!['*'] {
            let i = choose|i: int| 0 <= i < pattern.len() && pattern[i] == '?';
            assert(pattern[i] == '*');
        }
    }
}

/// The pattern `*` matches every name; a pattern with no `?` and no `*`
/// at its end matches exactly the names equal to it up to ASCII case.
/// Pattern and name are ASCII with no white space.
pub proof fn lemma_plain_match(pattern: Seq<char>, filename: Seq<char>)
    requires
        all_ascii(pattern),
        all_ascii(filename),
        forall|i: int| 0 <= i < pattern.len() ==> !is_white_space(#[trigger] pattern[i]),
        forall|i: int| 0 <= i < filename.len() ==> !is_white_space(#[trigger] filename[i]),
    ensures
        name_matches(seq!['*'], filename),
        !pattern.contains('?') && (pattern.len() == 0 || pattern.last() != '*') ==> (name_matches(
            pattern,
            filename,
        ) <==> (pattern.len() == filename.len() && forall|i: int|
            0 <= i < pattern.len() ==> #[trigger] ascii_lower(pattern[i]) == ascii_lower(
                filename[i],
            ))),
{
    lemma_trimmed_plain(pattern);
    lemma_trimmed_plain(filename);
    if pattern == seq!['*'] {
        assert(pattern.last() == '*');
    }
}

} // verus!
