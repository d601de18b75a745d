//! Text helpers of the tables and prompts: shortening titles, addresses and
//! keys, turning camelCase keys into titles, and splitting a shell line into
//! arguments.

use vstd::prelude::*;
use vstd::string::StringSliceAdditionalSpecFns;
use vstd::utf8::{
    decode_utf8,
    encode_utf8,
    encode_utf8_decode_utf8,
    is_ascii_chars,
    is_ascii_chars_encode_utf8,
    is_char_boundary,
};
use crate::chars::{chars_of, string_from_chars, string_of};

verus! {

/// The UTF-8 encoding of a concatenation is the concatenation of the encodings.
pub proof fn lemma_encode_utf8_concat(a: Seq<char>, b: Seq<char>)
    ensures
        encode_utf8(a + b) == encode_utf8(a) + encode_utf8(b),
    decreases a.len(),
{
    if a.len() == 0 {
        assert(a + b =~= b);
    } else {
        assert((a + b).drop_first() =~= a.drop_first() + b);
        lemma_encode_utf8_concat(a.drop_first(), b);
    }
}

/// The characters whose UTF-8 encoding is the first `k` bytes of `s`.
pub open spec fn byte_prefix(s: &str, k: int) -> Seq<char> {
    decode_utf8(s.spec_bytes().subrange(0, k))
}

/// The characters whose UTF-8 encoding is the bytes of `s` from `k` on.
pub open spec fn byte_suffix(s: &str, k: int) -> Seq<char> {
    decode_utf8(s.spec_bytes().subrange(k, s.spec_bytes().len() as int))
}

/// The number of bytes that a truncated text keeps before its "...".
pub open spec fn kept_bytes(max: usize) -> int {
    if max >= 3 {
        max - 3
    } else {
        0
    }
}

/// Text shortened to at most `max` bytes as `truncate` does it.
pub open spec fn shortened(t: Seq<char>, max: usize) -> Seq<char> {
    if encode_utf8(t).len() <= max {
        t
    } else {
        decode_utf8(encode_utf8(t).subrange(0, kept_bytes(max))) + "..."@
    }
}

/// Whether `truncate` can shorten the text to `max` bytes: its length fits a
/// `usize`, and where it is too long the cut falls on a character boundary.
pub open spec fn can_shorten(t: Seq<char>, max: usize) -> bool {
    &&& encode_utf8(t).len() <= usize::MAX
    &&& (encode_utf8(t).len() <= max || is_char_boundary(encode_utf8(t), kept_bytes(max)))
}

/// Splits `s` at byte `k`, a character boundary, into the characters before
/// and after it.
pub(crate) fn split_at_byte(s: &str, k: usize) -> (res: (String, String))
    requires
        is_char_boundary(s.spec_bytes(), k as int),
    ensures
        res.0@ == byte_prefix(s, k as int),
        res.1@ == byte_suffix(s, k as int),
        encode_utf8(res.0@) == s.spec_bytes().subrange(0, k as int),
{
    let (a, b) = s.split_at(k);
    proof {
        encode_utf8_decode_utf8(a@);
        encode_utf8_decode_utf8(b@);
    }
    (string_of(a), string_of(b))
}

/// Shortens text to at most `max` bytes: text that fits is kept, longer text
/// keeps its first `max - 3` bytes and ends in "...". The cut must fall on a
/// character boundary (the command-line program stops on other input).
pub fn truncate(s: &str, max: usize) -> (res: String)
    requires
        s.spec_bytes().len() <= usize::MAX,
        s.spec_bytes().len() <= max || is_char_boundary(s.spec_bytes(), kept_bytes(max)),
    ensures
        s.spec_bytes().len() <= max ==> res@ == s@,
        s.spec_bytes().len() > max ==> res@ == byte_prefix(s, kept_bytes(max)) + "..."@,
        max >= 3 ==> encode_utf8(res@).len() <= max,
        res@ == shortened(s@, max),
{
    if s.len() <= max {
        return string_of(s);
    }
    let k: usize = if max >= 3 {
        max - 3
    } else {
        0
    };
    let (head, _tail) = split_at_byte(s, k);
    let mut out = head;
    out.append("...");
    proof {
        reveal_strlit("...");
        lemma_encode_utf8_concat(byte_prefix(s, k as int), "..."@);
        assert(is_ascii_chars("..."@));
        is_ascii_chars_encode_utf8("..."@);
    }
    out
}

/// Whether text is shortened as a hex address: longer than 12 bytes and
/// starting with "0x".
pub open spec fn is_long_address(t: Seq<char>) -> bool {
    encode_utf8(t).len() > 12 && t.len() >= 2 && t[0] == '0' && t[1] == 'x'
}

/// A long hex address shortened to its first six and last four bytes
/// around "..."; other text as it is.
pub open spec fn short_address(t: Seq<char>) -> Seq<char> {
    if is_long_address(t) {
        decode_utf8(encode_utf8(t).subrange(0, 6)) + "..."@ + decode_utf8(
            encode_utf8(t).subrange(encode_utf8(t).len() - 4, encode_utf8(t).len() as int),
        )
    } else {
        t
    }
}

/// Whether `truncate_address` can shorten the text: its length fits a
/// `usize`, and where it is shortened both cuts fall on character
/// boundaries.
pub open spec fn can_short_address(t: Seq<char>) -> bool {
    &&& encode_utf8(t).len() <= usize::MAX
    &&& is_long_address(t) ==> is_char_boundary(encode_utf8(t), 6) && is_char_boundary(
        encode_utf8(t),
        encode_utf8(t).len() - 4,
    )
}

/// Shortens a long hex address to its first six and last four characters
/// ("0x1234...abcd"); other text is kept. The cuts must fall on character
/// boundaries (the command-line program stops on other input).
pub fn truncate_address(addr: &str) -> (res: String)
    requires
        addr.spec_bytes().len() <= usize::MAX,
        addr.spec_bytes().len() > 12 && addr@.len() >= 2 && addr@[0] == '0' && addr@[1] == 'x'
            ==> is_char_boundary(addr.spec_bytes(), 6) && is_char_boundary(
            addr.spec_bytes(),
            addr.spec_bytes().len() - 4,
        ),
    ensures
        addr.spec_bytes().len() > 12 && addr@.len() >= 2 && addr@[0] == '0' && addr@[1] == 'x'
            ==> res@ == byte_prefix(addr, 6) + "..."@ + byte_suffix(
            addr,
            addr.spec_bytes().len() - 4,
        ),
        !(addr.spec_bytes().len() > 12 && addr@.len() >= 2 && addr@[0] == '0' && addr@[1] == 'x')
            ==> res@ == addr@,
        res@ == short_address(addr@),
{
    let cs = chars_of(addr);
    if addr.len() > 12 && cs.len() >= 2 && cs[0] == '0' && cs[1] == 'x' {
        let (head, _) = split_at_byte(addr, 6);
        let (_, tail) = split_at_byte(addr, addr.len() - 4);
        let mut out = head;
        out.append("...");
        out.append(tail.as_str());
        out
    } else {
        string_of(addr)
    }
}

/// Masks a key for display: "****" for a key of at most eight bytes, else its
/// first and last four bytes around "...". The cuts must fall on character
/// boundaries (the command-line program stops on other input).
pub fn mask_key(key: &str) -> (res: String)
    requires
        key.spec_bytes().len() <= usize::MAX,
        key.spec_bytes().len() > 8 ==> is_char_boundary(key.spec_bytes(), 4) && is_char_boundary(
            key.spec_bytes(),
            key.spec_bytes().len() - 4,
        ),
    ensures
        key.spec_bytes().len() <= 8 ==> res@ == "****"@,
        key.spec_bytes().len() > 8 ==> res@ == byte_prefix(key, 4) + "..."@ + byte_suffix(
            key,
            key.spec_bytes().len() - 4,
        ),
{
    if key.len() <= 8 {
        string_of("****")
    } else {
        let (head, _) = split_at_byte(key, 4);
        let (_, tail) = split_at_byte(key, key.len() - 4);
        let mut out = head;
        out.append("...");
        out.append(tail.as_str());
        out
    }
}

/// Whether `char::is_uppercase` holds of a character (Unicode `Uppercase`).
pub uninterp spec fn char_is_uppercase(c: char) -> bool;

/// What `char::to_uppercase` yields for a character (one to three characters).
pub uninterp spec fn char_uppercase(c: char) -> Seq<char>;

/// Whether `char::is_whitespace` holds of a character (Unicode `White_Space`).
pub uninterp spec fn char_is_whitespace(c: char) -> bool;

/// `char::is_uppercase`: the Unicode `Uppercase` property. Among ASCII
/// characters it holds exactly of `A`-`Z`.
#[verifier::external_body]
pub(crate) fn is_uppercase(c: char) -> (res: bool)
    ensures
        res == char_is_uppercase(c),
        c < '\u{80}' ==> (res <==> ('A' <= c && c <= 'Z')),
{
    c.is_uppercase()
}

/// `char::to_uppercase`, collected: the uppercase mapping of a character.
/// For ASCII it raises `a`-`z` and keeps every other character.
#[verifier::external_body]
pub(crate) fn char_to_uppercase(c: char) -> (res: Vec<char>)
    ensures
        res@ == char_uppercase(c),
        c < '\u{80}' ==> res@ == seq![crate::chars::ascii_upper_char(c)],
{
    c.to_uppercase().collect()
}

/// `char::is_whitespace`: the Unicode `White_Space` property. Among ASCII
/// characters it holds exactly of space, tab, line feed, vertical tab, form
/// feed and carriage return.
#[verifier::external_body]
pub(crate) fn is_whitespace(c: char) -> (res: bool)
    ensures
        res == char_is_whitespace(c),
        c < '\u{80}' ==> (res <==> (c == ' ' || ('\u{9}' <= c && c <= '\u{d}'))),
{
    c.is_whitespace()
}

/// What the `i`th character `c` of a camelCase key becomes in its title: an
/// uppercase letter after the first starts a new word, and the first
/// character is raised to uppercase.
pub open spec fn title_piece(c: char, i: int) -> Seq<char> {
    (if char_is_uppercase(c) && i > 0 {
        seq![' ']
    } else {
        seq![]
    }) + (if i == 0 {
        char_uppercase(c)
    } else {
        seq![c]
    })
}

/// The title of a camelCase key: "tradedVolume" becomes "Traded Volume".
pub open spec fn camel_title(s: Seq<char>) -> Seq<char>
    decreases s.len(),
{
    if s.len() == 0 {
        seq![]
    } else {
        camel_title(s.drop_last()) + title_piece(s.last(), s.len() - 1)
    }
}

/// The title of a camelCase key: words split before uppercase letters, the
/// first letter raised.
pub fn camel_to_title(s: &str) -> (res: String)
    ensures
        res@ == camel_title(s@),
{
    let cs = chars_of(s);
    let mut out: Vec<char> = Vec::new();
    let mut i: usize = 0;
    while i < cs.len()
        invariant
            0 <= i <= cs.len(),
            cs@ == s@,
            out@ == camel_title(cs@.subrange(0, i as int)),
        decreases cs.len() - i,
    {
        let c = cs[i];
        let ghost before = out@;
        if is_uppercase(c) && i > 0 {
            out.push(' ');
        }
        if i == 0 {
            let up = char_to_uppercase(c);
            let mut j: usize = 0;
            let ghost mid = out@;
            while j < up.len()
                invariant
                    0 <= j <= up.len(),
                    out@ == mid + up@.subrange(0, j as int),
                decreases up.len() - j,
            {
                out.push(up[j]);
                j = j + 1;
                assert(out@ =~= mid + up@.subrange(0, j as int));
            }
            assert(up@.subrange(0, up@.len() as int) =~= up@);
        } else {
            out.push(c);
        }
        assert(cs@.subrange(0, i + 1).drop_last() =~= cs@.subrange(0, i as int));
        assert(out@ =~= before + title_piece(c, i as int));
        i = i + 1;
    }
    assert(cs@.subrange(0, cs@.len() as int) =~= cs@);
    string_from_chars(out.as_slice())
}

/// The state of the shell's argument splitter after some characters: the
/// finished arguments, the one being read, and the open quote if any.
pub struct SplitState {
    pub args: Seq<Seq<char>>,
    pub current: Seq<char>,
    pub in_quote: bool,
    pub quote: char,
}

/// The splitter before any character.
pub open spec fn split_start() -> SplitState {
    SplitState { args: seq![], current: seq![], in_quote: false, quote: '"' }
}

/// One character of the splitter: inside quotes everything but the closing
/// quote is kept; outside, a quote opens, whitespace ends the argument being
/// read (if any), and other characters are kept.
pub open spec fn split_step(st: SplitState, c: char) -> SplitState {
    if st.in_quote {
        if c == st.quote {
            SplitState { in_quote: false, ..st }
        } else {
            SplitState { current: st.current.push(c), ..st }
        }
    } else if c == '"' || c == '\'' {
        SplitState { in_quote: true, quote: c, ..st }
    } else if char_is_whitespace(c) {
        if st.current.len() > 0 {
            SplitState { args: st.args.push(st.current), current: seq![], ..st }
        } else {
            st
        }
    } else {
        SplitState { current: st.current.push(c), ..st }
    }
}

/// The splitter after the characters of `s`.
pub open spec fn split_run(s: Seq<char>) -> SplitState
    decreases s.len(),
{
    if s.len() == 0 {
        split_start()
    } else {
        split_step(split_run(s.drop_last()), s.last())
    }
}

/// The arguments of a shell line: those finished, and the last one if any.
pub open spec fn split_args_spec(s: Seq<char>) -> Seq<Seq<char>> {
    let st = split_run(s);
    if st.current.len() > 0 {
        st.args.push(st.current)
    } else {
        st.args
    }
}

/// Splits a shell line into arguments at whitespace, where single or double
/// quotes group characters (an unclosed quote runs to the end).
pub fn split_args(input: &str) -> (res: Vec<String>)
    ensures
        res@.len() == split_args_spec(input@).len(),
        forall|i: int| 0 <= i < res@.len() ==> #[trigger] res@[i]@ == split_args_spec(input@)[i],
{
    let cs = chars_of(input);
    let mut args: Vec<String> = Vec::new();
    let mut current: Vec<char> = Vec::new();
    let mut in_quote = false;
    let mut quote_char = '"';
    let mut i: usize = 0;
    while i < cs.len()
        invariant
            0 <= i <= cs.len(),
            cs@ == input@,
            ({
                let st = split_run(cs@.subrange(0, i as int));
                &&& args@.len() == st.args.len()
                &&& forall|j: int| 0 <= j < args@.len() ==> #[trigger] args@[j]@ == st.args[j]
                &&& current@ == st.current
                &&& in_quote == st.in_quote
                &&& quote_char == st.quote
            }),
        decreases cs.len() - i,
    {
        let ch = cs[i];
        assert(cs@.subrange(0, i + 1).drop_last() =~= cs@.subrange(0, i as int));
        if in_quote {
            if ch == quote_char {
                in_quote = false;
            } else {
                current.push(ch);
            }
        } else if ch == '"' || ch == '\'' {
            in_quote = true;
            quote_char = ch;
        } else if is_whitespace(ch) {
            if current.len() > 0 {
                args.push(string_from_chars(current.as_slice()));
                current = Vec::new();
            }
        } else {
            current.push(ch);
        }
        i = i + 1;
        proof {
            let st = split_run(cs@.subrange(0, i as int));
            assert(current@ =~= st.current);
        }
    }
    assert(cs@.subrange(0, cs@.len() as int) =~= cs@);
    if current.len() > 0 {
        args.push(string_from_chars(current.as_slice()));
    }
    args
}

/// Every argument that the splitter finishes is non-empty.
proof fn lemma_split_run_args_nonempty(s: Seq<char>)
    ensures
        forall|j: int|
            0 <= j < split_run(s).args.len() ==> (#[trigger] split_run(s).args[j]).len() > 0,
    decreases s.len(),
{
    if s.len() > 0 {
        lemma_split_run_args_nonempty(s.drop_last());
        let prev = split_run(s.drop_last());
        let next = split_step(prev, s.last());
        assert(split_run(s) == next);
        assert forall|j: int| 0 <= j < next.args.len() implies (#[trigger] next.args[j]).len() > 0 by {
            if j < prev.args.len() {
                assert(prev.args[j].len() > 0);
                if next.args.len() > prev.args.len() {
                    assert(next.args == prev.args.push(prev.current));
                    assert(next.args[j] == prev.args[j]);
                } else {
                    assert(next.args == prev.args);
                }
            } else {
                assert(next.args == prev.args.push(prev.current));
            }
        }
    }
}

/// The shell never produces an empty argument: empty quotes and runs of
/// whitespace add nothing.
pub proof fn law_split_args_nonempty(s: Seq<char>)
    ensures
        forall|j: int|
            0 <= j < split_args_spec(s).len() ==> (#[trigger] split_args_spec(s)[j]).len() > 0,
{
    lemma_split_run_args_nonempty(s);
}

/// The whitespace-separated words of a text, in order: the maximal runs of
/// characters that are not whitespace. A character that is not whitespace
/// starts a new word at the start of the text or after whitespace, and
/// extends the last word otherwise.
pub open spec fn whitespace_words(s: Seq<char>) -> Seq<Seq<char>>
    decreases s.len(),
{
    if s.len() == 0 {
        seq![]
    } else {
        let p = s.drop_last();
        let c = s.last();
        let w = whitespace_words(p);
        if char_is_whitespace(c) {
            w
        } else if p.len() > 0 && !char_is_whitespace(p.last()) {
            w.drop_last().push(w.last().push(c))
        } else {
            w.push(seq![c])
        }
    }
}

/// A text without single or double quotes.
pub open spec fn has_no_quotes(s: Seq<char>) -> bool {
    forall|i: int| 0 <= i < s.len() ==> #[trigger] s[i] != '"' && s[i] != '\''
}

/// Without quotes the splitter never opens one, holds a word exactly while
/// the text ends in a character that is not whitespace, and its arguments
/// are the whitespace words.
proof fn lemma_split_run_without_quotes(s: Seq<char>)
    requires
        has_no_quotes(s),
    ensures
        !split_run(s).in_quote,
        split_run(s).current.len() > 0 <==> (s.len() > 0 && !char_is_whitespace(s.last())),
        split_args_spec(s) == whitespace_words(s),
    decreases s.len(),
{
    if s.len() > 0 {
        let p = s.drop_last();
        let c = s.last();
        assert(has_no_quotes(p)) by {
            assert forall|i: int| 0 <= i < p.len() implies #[trigger] p[i] != '"' && p[i] != '\'' by {
                assert(p[i] == s[i]);
            }
        }
        assert(c == s[s.len() - 1]);
        lemma_split_run_without_quotes(p);
        let prev = split_run(p);
        let next = split_step(prev, c);
        assert(split_run(s) == next);
        let w = whitespace_words(p);
        if char_is_whitespace(c) {
            assert(next.current.len() == 0);
            assert(split_args_spec(s) =~= split_args_spec(p));
        } else if p.len() > 0 && !char_is_whitespace(p.last()) {
            assert(w == prev.args.push(prev.current));
            assert(w.drop_last() =~= prev.args);
            assert(w.last() == prev.current);
            assert(next.current == prev.current.push(c));
            assert(split_args_spec(s) =~= whitespace_words(s));
        } else {
            assert(prev.current.len() == 0);
            assert(w == prev.args);
            assert(next.current =~= seq![c]);
            assert(split_args_spec(s) =~= whitespace_words(s));
        }
    }
}

/// A shell line without quotes splits exactly into its whitespace-separated
/// words, as `str::split_whitespace` gives them.
pub proof fn law_split_args_without_quotes(s: Seq<char>)
    requires
        has_no_quotes(s),
    ensures
        split_args_spec(s) == whitespace_words(s),
{
    lemma_split_run_without_quotes(s);
}

} // verus!
