//! A market's HTML description turned into plain text for the detail view:
//! paragraph and line breaks become newlines, the common entities are
//! decoded, the remaining tags are dropped and the ends are trimmed.

use vstd::prelude::*;
use crate::chars::{chars_of, string_from_chars};
use crate::text::{char_is_whitespace, is_whitespace};

verus! {

/// `s` with every occurrence of `pat` replaced by `rep`, matches taken from
/// the left without overlapping, as `str::replace` does.
pub open spec fn replace_all(s: Seq<char>, pat: Seq<char>, rep: Seq<char>) -> Seq<char>
    recommends
        pat.len() > 0,
    decreases s.len(),
{
    if pat.len() == 0 || s.len() < pat.len() {
        s
    } else if s.subrange(0, pat.len() as int) == pat {
        rep + replace_all(s.subrange(pat.len() as int, s.len() as int), pat, rep)
    } else {
        seq![s[0]] + replace_all(s.drop_first(), pat, rep)
    }
}

/// The characters of `s` outside tags: a '<' opens a tag and a '>' closes
/// one; both are dropped, as is everything inside a tag.
pub open spec fn strip_tags(s: Seq<char>, in_tag: bool) -> Seq<char>
    decreases s.len(),
{
    if s.len() == 0 {
        seq![]
    } else if s[0] == '<' {
        strip_tags(s.drop_first(), true)
    } else if s[0] == '>' {
        strip_tags(s.drop_first(), false)
    } else if in_tag {
        strip_tags(s.drop_first(), true)
    } else {
        seq![s[0]] + strip_tags(s.drop_first(), false)
    }
}

/// `s` without its leading whitespace.
pub open spec fn trim_start(s: Seq<char>) -> Seq<char>
    decreases s.len(),
{
    if s.len() > 0 && char_is_whitespace(s[0]) {
        trim_start(s.drop_first())
    } else {
        s
    }
}

/// `s` without its trailing whitespace.
pub open spec fn trim_end(s: Seq<char>) -> Seq<char>
    decreases s.len(),
{
    if s.len() > 0 && char_is_whitespace(s.last()) {
        trim_end(s.drop_last())
    } else {
        s
    }
}

/// The entity and break replacements, in the order they are made.
pub open spec fn decoded(s: Seq<char>) -> Seq<char> {
    let a = replace_all(s, "<p>"@, ""@);
    let b = replace_all(a, "</p>"@, "\n"@);
    let c = replace_all(b, "<br>"@, "\n"@);
    let d = replace_all(c, "<br/>"@, "\n"@);
    let e = replace_all(d, "<br />"@, "\n"@);
    let f = replace_all(e, "&amp;"@, "&"@);
    let g = replace_all(f, "&lt;"@, "<"@);
    let h = replace_all(g, "&gt;"@, ">"@);
    replace_all(h, "&quot;"@, "\""@)
}

/// The plain text of an HTML description.
pub open spec fn description_text(s: Seq<char>) -> Seq<char> {
    trim_end(trim_start(strip_tags(decoded(s), false)))
}

proof fn lemma_subrange_tail<A>(s: Seq<A>, i: int, k: int)
    requires
        0 <= i <= k <= s.len(),
    ensures
        s.subrange(i, s.len() as int).subrange(k - i, s.len() - i) =~= s.subrange(k, s.len() as int),
{
}

/// Replaces every occurrence of `pat` in `s` by `rep`.
fn replace_chars(s: &Vec<char>, pat: &str, rep: &str) -> (res: Vec<char>)
    requires
        pat@.len() > 0,
    ensures
        res@ == replace_all(s@, pat@, rep@),
{
    let p = chars_of(pat);
    let r = chars_of(rep);
    let mut out: Vec<char> = Vec::new();
    let mut i: usize = 0;
    assert(s@.subrange(0, s@.len() as int) =~= s@);
    assert(out@ + replace_all(s@, p@, r@) =~= replace_all(s@, p@, r@));
    while i < s.len()
        invariant
            0 <= i <= s.len(),
            p@ == pat@,
            r@ == rep@,
            p@.len() > 0,
            out@ + replace_all(s@.subrange(i as int, s@.len() as int), p@, r@) == replace_all(
                s@,
                p@,
                r@,
            ),
        decreases s.len() - i,
    {
        let ghost rest = s@.subrange(i as int, s@.len() as int);
        let mut matched = p.len() <= s.len() - i;
        let mut j: usize = 0;
        while matched && j < p.len()
            invariant
                0 <= j <= p.len(),
                i < s.len(),
                matched ==> i + p.len() <= s.len(),
                matched ==> forall|k: int| 0 <= k < j ==> s@[i + k] == p@[k],
                !matched ==> !(i + p@.len() <= s@.len() && s@.subrange(
                    i as int,
                    i + p@.len(),
                ) == p@),
            decreases p.len() - j + (if matched { 1int } else { 0int }),
        {
            if s[i + j] != p[j] {
                assert(s@.subrange(i as int, i + p@.len())[j as int] != p@[j as int]);
                matched = false;
            } else {
                j = j + 1;
            }
        }
        if matched {
            assert(s@.subrange(i as int, i + p@.len()) =~= p@);
            assert(rest.subrange(0, p@.len() as int) =~= p@);
            proof {
                lemma_subrange_tail(s@, i as int, i + p@.len());
            }
            let mut k: usize = 0;
            let ghost before = out@;
            while k < r.len()
                invariant
                    0 <= k <= r.len(),
                    out@ == before + r@.subrange(0, k as int),
                decreases r.len() - k,
            {
                out.push(r[k]);
                k = k + 1;
                assert(out@ =~= before + r@.subrange(0, k as int));
            }
            assert(r@.subrange(0, r@.len() as int) =~= r@);
            assert(out@ =~= before + r@);
            i = i + p.len();
        } else {
            proof {
                if rest.len() >= p@.len() {
                    assert(rest.subrange(0, p@.len() as int) =~= s@.subrange(i as int, i + p@.len()));
                }
            }
            assert(rest.drop_first() =~= s@.subrange(i + 1, s@.len() as int));
            assert(rest[0] == s@[i as int]);
            out.push(s[i]);
            i = i + 1;
        }
    }
    assert(s@.subrange(s@.len() as int, s@.len() as int) =~= Seq::<char>::empty());
    assert(out@ + Seq::<char>::empty() =~= out@);
    out
}

/// Drops the tags ('<' up to '>') from `s`.
fn strip_tag_chars(s: &Vec<char>) -> (res: Vec<char>)
    ensures
        res@ == strip_tags(s@, false),
{
    let mut out: Vec<char> = Vec::new();
    let mut in_tag = false;
    let mut i: usize = 0;
    assert(s@.subrange(0, s@.len() as int) =~= s@);
    assert(out@ + strip_tags(s@, false) =~= strip_tags(s@, false));
    while i < s.len()
        invariant
            0 <= i <= s.len(),
            out@ + strip_tags(s@.subrange(i as int, s@.len() as int), in_tag) == strip_tags(
                s@,
                false,
            ),
        decreases s.len() - i,
    {
        let ghost rest = s@.subrange(i as int, s@.len() as int);
        assert(rest.drop_first() =~= s@.subrange(i + 1, s@.len() as int));
        assert(rest[0] == s@[i as int]);
        let c = s[i];
        if c == '<' {
            in_tag = true;
        } else if c == '>' {
            in_tag = false;
        } else if !in_tag {
            out.push(c);
        }
        i = i + 1;
    }
    assert(s@.subrange(s@.len() as int, s@.len() as int) =~= Seq::<char>::empty());
    assert(out@ + Seq::<char>::empty() =~= out@);
    out
}

proof fn lemma_trim_start_skip(s: Seq<char>, i: int)
    requires
        0 <= i <= s.len(),
        forall|k: int| 0 <= k < i ==> char_is_whitespace(#[trigger] s[k]),
    ensures
        trim_start(s) == trim_start(s.subrange(i, s.len() as int)),
    decreases i,
{
    if i > 0 {
        assert(s.drop_first().subrange(i - 1, s.drop_first().len() as int) =~= s.subrange(
            i,
            s.len() as int,
        ));
        assert forall|k: int| 0 <= k < i - 1 implies char_is_whitespace(#[trigger] s.drop_first()[k]) by {
            assert(s.drop_first()[k] == s[k + 1]);
        }
        lemma_trim_start_skip(s.drop_first(), i - 1);
    } else {
        assert(s.subrange(0, s.len() as int) =~= s);
    }
}

proof fn lemma_trim_end_skip(s: Seq<char>, j: int)
    requires
        0 <= j <= s.len(),
        forall|k: int| j <= k < s.len() ==> char_is_whitespace(#[trigger] s[k]),
    ensures
        trim_end(s) == trim_end(s.subrange(0, j)),
    decreases s.len() - j,
{
    if j < s.len() {
        assert(s.drop_last().subrange(0, j) =~= s.subrange(0, j));
        lemma_trim_end_skip(s.drop_last(), j);
    } else {
        assert(s.subrange(0, j) =~= s);
    }
}

/// `s` without leading and trailing whitespace.
pub(crate) fn trim_chars(s: &Vec<char>) -> (res: Vec<char>)
    ensures
        res@ == trim_end(trim_start(s@)),
{
    let mut a: usize = 0;
    while a < s.len() && is_whitespace(s[a])
        invariant
            0 <= a <= s.len(),
            forall|k: int| 0 <= k < a ==> char_is_whitespace(#[trigger] s@[k]),
        decreases s.len() - a,
    {
        a = a + 1;
    }
    proof {
        lemma_trim_start_skip(s@, a as int);
        if a < s@.len() {
            assert(!char_is_whitespace(s@.subrange(a as int, s@.len() as int)[0]));
        }
    }
    let ghost t = s@.subrange(a as int, s@.len() as int);
    assert(trim_start(s@) == t);
    let mut b: usize = s.len();
    while b > a && is_whitespace(s[b - 1])
        invariant
            a <= b <= s.len(),
            t == s@.subrange(a as int, s@.len() as int),
            forall|k: int| b - a <= k < t.len() ==> char_is_whitespace(#[trigger] t[k]),
        decreases b,
    {
        assert(t[b - 1 - a] == s@[b - 1]);
        b = b - 1;
    }
    proof {
        lemma_trim_end_skip(t, b - a);
        if b > a {
            assert(t.subrange(0, b - a).last() == s@[b - 1]);
        }
    }
    let mut out: Vec<char> = Vec::new();
    let mut k: usize = a;
    while k < b
        invariant
            a <= k <= b,
            b <= s.len(),
            out@ == s@.subrange(a as int, k as int),
        decreases b - k,
    {
        out.push(s[k]);
        k = k + 1;
        assert(out@ =~= s@.subrange(a as int, k as int));
    }
    assert(t.subrange(0, b - a) =~= s@.subrange(a as int, b as int));
    out
}

/// The plain text of a market's HTML description: "<p>" dropped, "</p>" and
/// the forms of "<br>" turned into newlines, "&amp;", "&lt;", "&gt;" and
/// "&quot;" decoded (in that order), the remaining tags dropped and the
/// result trimmed.
pub fn clean_description(desc: &str) -> (res: String)
    ensures
        res@ == description_text(desc@),
{
    let s0 = chars_of(desc);
    proof {
        reveal_strlit("<p>");
        reveal_strlit("</p>");
        reveal_strlit("<br>");
        reveal_strlit("<br/>");
        reveal_strlit("<br />");
        reveal_strlit("&amp;");
        reveal_strlit("&lt;");
        reveal_strlit("&gt;");
        reveal_strlit("&quot;");
    }
    let s1 = replace_chars(&s0, "<p>", "");
    let s2 = replace_chars(&s1, "</p>", "\n");
    let s3 = replace_chars(&s2, "<br>", "\n");
    let s4 = replace_chars(&s3, "<br/>", "\n");
    let s5 = replace_chars(&s4, "<br />", "\n");
    let s6 = replace_chars(&s5, "&amp;", "&");
    let s7 = replace_chars(&s6, "&lt;", "<");
    let s8 = replace_chars(&s7, "&gt;", ">");
    let s9 = replace_chars(&s8, "&quot;", "\"");
    let stripped = strip_tag_chars(&s9);
    let trimmed = trim_chars(&stripped);
    string_from_chars(trimmed.as_slice())
}

} // verus!
