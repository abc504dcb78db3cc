//! Front matter: escaping double quotes in the title and assembling the
//! output document as a metadata header followed by the markdown body.

use vstd::prelude::*;
use vstd::string::{StrSliceExecFns, StringExecFns};
use crate::text::chars_of;
use crate::text::string_from_chars;

verus! {

/// What one character contributes to the escaped title: a double quote gains
/// a backslash, everything else stands as it is.
pub open spec fn escape_char(c: char) -> Seq<char> {
    if c == '"' {
        seq!['\\', '"']
    } else {
        seq![c]
    }
}

/// The title with every double quote escaped as a backslash-quote pair.
pub open spec fn escaped(s: Seq<char>) -> Seq<char>
    decreases s.len(),
{
    if s.len() == 0 {
        Seq::empty()
    } else {
        escape_char(s[0]) + escaped(s.drop_first())
    }
}

proof fn lemma_escaped_push(s: Seq<char>, c: char)
    ensures
        escaped(s.push(c)) == escaped(s) + escape_char(c),
    decreases s.len(),
{
    let sp = s.push(c);
    if s.len() == 0 {
        assert(sp.len() == 1);
        assert(sp[0] == c);
        assert(sp.drop_first() =~= Seq::<char>::empty());
        assert(escaped(Seq::<char>::empty()) =~= Seq::<char>::empty());
        assert(escaped(sp) =~= escape_char(c) + escaped(sp.drop_first()));
        assert(escaped(sp) =~= escaped(s) + escape_char(c));
    } else {
        assert(sp[0] == s[0]);
        assert(sp.drop_first() =~= s.drop_first().push(c));
        lemma_escaped_push(s.drop_first(), c);
        assert(escaped(sp) =~= escaped(s) + escape_char(c));
    }
}

/// In an escaped title every double quote sits right after a backslash: the
/// value stays syntactically sound between the front matter's own quotes.
pub proof fn lemma_escaped_quote_preceded(s: Seq<char>)
    ensures
        forall|i: int|
            0 <= i < escaped(s).len() && #[trigger] escaped(s)[i] == '"' ==> i > 0 && escaped(
                s,
            )[i - 1] == '\\',
    decreases s.len(),
{
    if s.len() == 0 {
    } else {
        let head = escape_char(s[0]);
        let tail = escaped(s.drop_first());
        lemma_escaped_quote_preceded(s.drop_first());
        assert forall|i: int|
            0 <= i < escaped(s).len() && #[trigger] escaped(s)[i] == '"' implies i > 0 && escaped(
            s,
        )[i - 1] == '\\' by {
            assert(escaped(s) == head + tail);
            if i < head.len() {
                assert(s[0] == '"');
                assert(i == 1);
            } else {
                let j = i - head.len();
                assert(tail[j] == '"');
                assert(j > 0);
                assert(escaped(s)[i - 1] == tail[j - 1]);
            }
        }
    }
}

/// Escapes every double quote of `s` as `\"`.
pub fn escape_quotes(s: &str) -> (r: String)
    ensures
        r@ == escaped(s@),
{
    let cs = chars_of(s);
    let mut out: Vec<char> = Vec::new();
    let mut i: usize = 0;
    while i < cs.len()
        invariant
            i <= cs.len(),
            cs@ == s@,
            out@ == escaped(s@.subrange(0, i as int)),
        decreases cs.len() - i,
    {
        let c = cs[i];
        if c == '"' {
            out.push('\\');
            out.push('"');
        } else {
            out.push(c);
        }
        proof {
            let pre = s@.subrange(0, i as int);
            assert(s@.subrange(0, i + 1 as int) =~= pre.push(s@[i as int]));
            lemma_escaped_push(pre, s@[i as int]);
            assert(out@ =~= escaped(pre) + escape_char(s@[i as int]));
        }
        i = i + 1;
    }
    assert(s@.subrange(0, cs@.len() as int) =~= s@);
    string_from_chars(&out)
}

/// The whole output document: front matter with the escaped title, the source
/// URL and the date, then a blank line and the markdown body.
pub open spec fn document_text(
    title: Seq<char>,
    url: Seq<char>,
    date: Seq<char>,
    body: Seq<char>,
) -> Seq<char> {
    "---\ntitle: \""@ + escaped(title) + "\"\nsource: \""@ + url + "\"\ndate: \""@ + date
        + "\"\n---\n\n"@ + body
}

/// Renders the output document for one page.
pub fn render_document(title: &str, url: &str, date: &str, body: &str) -> (r: String)
    ensures
        r@ == document_text(title@, url@, date@, body@),
{
    let mut out: String = "---\ntitle: \"".to_owned();
    let et = escape_quotes(title);
    out.append(et.as_str());
    out.append("\"\nsource: \"");
    out.append(url);
    out.append("\"\ndate: \"");
    out.append(date);
    out.append("\"\n---\n\n");
    out.append(body);
    proof {
        assert(out@ =~= document_text(title@, url@, date@, body@));
    }
    out
}

} // verus!
