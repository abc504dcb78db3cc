//! Title slugification: a lowercase, filesystem-safe identifier built from a
//! title. Kept characters are ASCII lowercase letters and digits; ASCII
//! uppercase letters are lowered; every other character is a separator, and a
//! run of separators between kept characters becomes one hyphen. Leading and
//! trailing separator runs vanish.

use vstd::prelude::*;
use crate::text::{chars_of, string_from_chars};

verus! {

/// A character the slug keeps as it stands: ASCII lowercase letter or digit.
pub open spec fn is_keep(c: char) -> bool {
    (97 <= c as u32 && c as u32 <= 122) || (48 <= c as u32 && c as u32 <= 57)
}

/// The lowercase letter for an ASCII uppercase letter, `None` otherwise.
pub open spec fn upper_to_lower(c: char) -> Option<char> {
    match c {
        'A' => Some('a'),
        'B' => Some('b'),
        'C' => Some('c'),
        'D' => Some('d'),
        'E' => Some('e'),
        'F' => Some('f'),
        'G' => Some('g'),
        'H' => Some('h'),
        'I' => Some('i'),
        'J' => Some('j'),
        'K' => Some('k'),
        'L' => Some('l'),
        'M' => Some('m'),
        'N' => Some('n'),
        'O' => Some('o'),
        'P' => Some('p'),
        'Q' => Some('q'),
        'R' => Some('r'),
        'S' => Some('s'),
        'T' => Some('t'),
        'U' => Some('u'),
        'V' => Some('v'),
        'W' => Some('w'),
        'X' => Some('x'),
        'Y' => Some('y'),
        'Z' => Some('z'),
        _ => None,
    }
}

/// What a character contributes to the slug: itself, its lowercase form, or
/// nothing (it then acts as a separator).
pub open spec fn slug_char(c: char) -> Option<char> {
    if is_keep(c) {
        Some(c)
    } else {
        upper_to_lower(c)
    }
}

/// The slug of `s[i..]` continued from the partial slug `acc`; `pending`
/// records whether a separator was seen since the last kept character.
pub open spec fn slug_rec(s: Seq<char>, i: int, acc: Seq<char>, pending: bool) -> Seq<char>
    decreases s.len() - i,
{
    if i < 0 || i >= s.len() {
        acc
    } else {
        match slug_char(s[i]) {
            Some(c) => {
                if pending && acc.len() > 0 {
                    slug_rec(s, i + 1, acc.push('-').push(c), false)
                } else {
                    slug_rec(s, i + 1, acc.push(c), false)
                }
            },
            None => slug_rec(s, i + 1, acc, true),
        }
    }
}

/// The slug of a whole title.
pub open spec fn slug_of(s: Seq<char>) -> Seq<char> {
    slug_rec(s, 0, Seq::empty(), false)
}

/// A well-formed slug: only lowercase letters, digits and hyphens, with no
/// leading or trailing hyphen and no two hyphens in a row.
pub open spec fn slug_wf(t: Seq<char>) -> bool {
    &&& forall|i: int| 0 <= i < t.len() ==> is_keep(#[trigger] t[i]) || t[i] == '-'
    &&& t.len() > 0 ==> t[0] != '-'
    &&& t.len() > 0 ==> t[t.len() - 1] != '-'
    &&& forall|i: int| 0 <= i < t.len() - 1 ==> !(#[trigger] t[i] == '-' && t[i + 1] == '-')
}

proof fn lemma_slug_char_keep(c: char, k: char)
    requires
        slug_char(c) == Some(k),
    ensures
        is_keep(k),
        k != '-',
{
}

proof fn lemma_slug_rec_wf(s: Seq<char>, i: int, acc: Seq<char>, pending: bool)
    requires
        slug_wf(acc),
    ensures
        slug_wf(slug_rec(s, i, acc, pending)),
    decreases s.len() - i,
{
    if i < 0 || i >= s.len() {
    } else {
        match slug_char(s[i]) {
            Some(c) => {
                lemma_slug_char_keep(s[i], c);
                if pending && acc.len() > 0 {
                    let acc2 = acc.push('-').push(c);
                    assert(slug_wf(acc2));
                    lemma_slug_rec_wf(s, i + 1, acc2, false);
                } else {
                    let acc2 = acc.push(c);
                    assert(slug_wf(acc2));
                    lemma_slug_rec_wf(s, i + 1, acc2, false);
                }
            },
            None => {
                lemma_slug_rec_wf(s, i + 1, acc, true);
            },
        }
    }
}

/// Every slug is well formed: it holds only lowercase letters, digits and
/// hyphens, never starts or ends with a hyphen, and never has two hyphens in
/// a row.
pub proof fn lemma_slug_wf(s: Seq<char>)
    ensures
        slug_wf(slug_of(s)),
{
    assert(slug_wf(Seq::<char>::empty()));
    lemma_slug_rec_wf(s, 0, Seq::empty(), false);
}

fn slug_char_exec(c: char) -> (r: Option<char>)
    ensures
        r == slug_char(c),
{
    let u = c as u32;
    if (97 <= u && u <= 122) || (48 <= u && u <= 57) {
        Some(c)
    } else {
        match c {
            'A' => Some('a'),
            'B' => Some('b'),
            'C' => Some('c'),
            'D' => Some('d'),
            'E' => Some('e'),
            'F' => Some('f'),
            'G' => Some('g'),
            'H' => Some('h'),
            'I' => Some('i'),
            'J' => Some('j'),
            'K' => Some('k'),
            'L' => Some('l'),
            'M' => Some('m'),
            'N' => Some('n'),
            'O' => Some('o'),
            'P' => Some('p'),
            'Q' => Some('q'),
            'R' => Some('r'),
            'S' => Some('s'),
            'T' => Some('t'),
            'U' => Some('u'),
            'V' => Some('v'),
            'W' => Some('w'),
            'X' => Some('x'),
            'Y' => Some('y'),
            'Z' => Some('z'),
            _ => None,
        }
    }
}

/// Turns a title into its slug.
pub fn slugify(title: &str) -> (r: String)
    ensures
        r@ == slug_of(title@),
{
    let cs = chars_of(title);
    let mut out: Vec<char> = Vec::new();
    let mut pending = false;
    let mut i: usize = 0;
    while i < cs.len()
        invariant
            i <= cs.len(),
            cs@ == title@,
            slug_rec(title@, i as int, out@, pending) == slug_of(title@),
        decreases cs.len() - i,
    {
        match slug_char_exec(cs[i]) {
            Some(c) => {
                if pending && out.len() > 0 {
                    out.push('-');
                }
                out.push(c);
                pending = false;
            },
            None => {
                pending = true;
            },
        }
        i = i + 1;
    }
    string_from_chars(&out)
}

} // verus!
