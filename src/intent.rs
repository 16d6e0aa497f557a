//! The tool-invocation heuristic: whether the last user text asks for a tool,
//! and which argument to pass it.

use vstd::prelude::*;
use vstd::string::*;
use vstd::utf8::{encode_utf8, is_ascii_chars};

use crate::generator::utf8_len;
use crate::text::{chars_of, contains_str, seq_contains};

verus! {

/// What str::to_lowercase gives for `s`.
pub uninterp spec fn lower_of(s: Seq<char>) -> Seq<char>;

/// ASCII lower case of one character; other characters are kept.
pub open spec fn ascii_lower(c: char) -> char {
    if 'A' <= c && c <= 'Z' {
        ((c as u32) + 32) as char
    } else {
        c
    }
}

/// Relies on str::to_lowercase: the Unicode lower case of the text, a function
/// of its characters alone; on ASCII text it maps A-Z to a-z and keeps the
/// rest.
#[verifier::external_body]
fn lowercase(s: &str) -> (r: String)
    ensures
        r@ == lower_of(s@),
        is_ascii_chars(s@) ==> r@ == s@.map_values(|c: char| ascii_lower(c)),
{
    s.to_lowercase()
}

/// Whether char::is_whitespace holds of `c`.
pub uninterp spec fn is_white(c: char) -> bool;

/// Whether `c` is an ASCII letter or digit.
pub open spec fn ascii_alnum(c: char) -> bool {
    ('a' <= c && c <= 'z') || ('A' <= c && c <= 'Z') || ('0' <= c && c <= '9')
}

/// Relies on char::is_whitespace: the Unicode White_Space property, which
/// holds of space, tab, line feed and carriage return and of no ASCII letter
/// or digit.
#[verifier::external_body]
pub(crate) fn white(c: char) -> (r: bool)
    ensures
        r == is_white(c),
        c == ' ' || c == '\t' || c == '\n' || c == '\r' ==> r,
        ascii_alnum(c) ==> !r,
{
    c.is_whitespace()
}

/// Whether char::is_alphanumeric holds of `c`.
pub uninterp spec fn is_alnum(c: char) -> bool;

/// Relies on char::is_alphanumeric: the Unicode Alphabetic or Numeric
/// property; among ASCII characters, exactly the letters and digits have it.
#[verifier::external_body]
fn alnum(c: char) -> (r: bool)
    ensures
        r == is_alnum(c),
        c <= '\u{7f}' ==> (r <==> ascii_alnum(c)),
{
    c.is_alphanumeric()
}

/// Whether a lower-cased text holds one of the trigger words.
pub open spec fn has_trigger(lowered: Seq<char>) -> bool {
    let b = encode_utf8(lowered);
    seq_contains(b, "weather".spec_bytes()) || seq_contains(b, "search".spec_bytes())
        || seq_contains(b, "calculate".spec_bytes()) || seq_contains(b, "what is".spec_bytes())
        || seq_contains(b, "find".spec_bytes())
}

/// Whether the lower-cased text `lowered` holds "weather", "search",
/// "calculate", "what is" or "find".
pub fn mentions_trigger(lowered: &str) -> (r: bool)
    ensures
        r == has_trigger(lowered@),
{
    contains_str(lowered, "weather") || contains_str(lowered, "search") || contains_str(
        lowered,
        "calculate",
    ) || contains_str(lowered, "what is") || contains_str(lowered, "find")
}

/// The characters of an optional text.
pub open spec fn text_view(t: Option<&str>) -> Option<Seq<char>> {
    match t {
        Some(s) => Some(s@),
        None => None,
    }
}

/// Whether a last user text asks for a tool: its lower case holds a trigger
/// word.
pub open spec fn text_asks_for_tool(last_text: Option<Seq<char>>) -> bool {
    last_text is Some && has_trigger(lower_of(last_text->0))
}

/// The tool-invocation decision: at least one declared tool, and a last user
/// text that asks for a tool.
pub open spec fn wants_tool_call(last_text: Option<Seq<char>>, declared_tools: nat) -> bool {
    declared_tools > 0 && text_asks_for_tool(last_text)
}

/// Whether the last user text, in lower case, mentions a trigger word
/// ("weather", "search", "calculate", "what is", "find").
pub fn should_call_tool(last_text: Option<&str>) -> (r: bool)
    ensures
        r == text_asks_for_tool(text_view(last_text)),
{
    match last_text {
        Some(t) => {
            let lowered = lowercase(t);
            mentions_trigger(lowered.as_str())
        },
        None => false,
    }
}

/// Start of the trailing run of non-white characters of `s`.
pub open spec fn trailing_word_start(s: Seq<char>) -> int
    decreases s.len(),
{
    if s.len() == 0 || is_white(s.last()) {
        s.len() as int
    } else {
        trailing_word_start(s.drop_last())
    }
}

/// Bounds `(start, end)` of the last white-space-separated word of `s` whose
/// UTF-8 encoding is longer than two bytes.
pub open spec fn last_long_word(s: Seq<char>) -> Option<(int, int)>
    decreases s.len(),
{
    if s.len() == 0 {
        None
    } else if is_white(s.last()) {
        last_long_word(s.drop_last())
    } else {
        let a = trailing_word_start(s);
        if utf8_len(s.subrange(a, s.len() as int)) > 2 {
            Some((a, s.len() as int))
        } else if 0 <= a < s.len() {
            last_long_word(s.subrange(0, a))
        } else {
            None
        }
    }
}

/// `w` without its leading non-alphanumeric characters.
pub open spec fn strip_front(w: Seq<char>) -> Seq<char>
    decreases w.len(),
{
    if w.len() > 0 && !is_alnum(w[0]) {
        strip_front(w.drop_first())
    } else {
        w
    }
}

/// `w` without its trailing non-alphanumeric characters.
pub open spec fn strip_back(w: Seq<char>) -> Seq<char>
    decreases w.len(),
{
    if w.len() > 0 && !is_alnum(w.last()) {
        strip_back(w.drop_last())
    } else {
        w
    }
}

/// The fallback argument.
pub open spec fn unknown_argument() -> Seq<char> {
    seq!['u', 'n', 'k', 'n', 'o', 'w', 'n']
}

/// The tool argument drawn from a last user text: its last word longer than
/// two bytes without surrounding non-alphanumeric characters, or `unknown`
/// when there is no such word or no text.
pub open spec fn argument_for(text: Option<Seq<char>>) -> Seq<char> {
    match text {
        None => unknown_argument(),
        Some(t) => match last_long_word(t) {
            None => unknown_argument(),
            Some((a, b)) => strip_back(strip_front(t.subrange(a, b))),
        },
    }
}

proof fn lemma_trailing_start_bounds(s: Seq<char>)
    ensures
        0 <= trailing_word_start(s) <= s.len(),
        s.len() > 0 && !is_white(s.last()) ==> trailing_word_start(s) < s.len(),
    decreases s.len(),
{
    if s.len() > 0 && !is_white(s.last()) {
        lemma_trailing_start_bounds(s.drop_last());
    }
}

/// The argument for a tool call, taken from the last user text.
pub fn extract_argument(last_text: Option<&str>) -> (r: String)
    ensures
        r@ == argument_for(text_view(last_text)),
{
    let text = match last_text {
        Some(t) => t,
        None => {
            let r = String::from_str("unknown");
            proof {
                reveal_strlit("unknown");
                assert(r@ =~= unknown_argument());
            }
            return r;
        },
    };
    let cs = chars_of(text);
    let mut end: usize = cs.len();
    let mut found = false;
    let mut start: usize = 0;
    assert(cs@.take(end as int) =~= cs@);
    while end > 0
        invariant_except_break
            !found,
        invariant
            cs@ == text@,
            end <= cs@.len(),
            last_long_word(cs@.take(end as int)) == last_long_word(cs@),
        ensures
            end <= cs@.len(),
            found ==> start <= end && last_long_word(cs@) == Some((start as int, end as int)),
            !found ==> last_long_word(cs@) is None,
        decreases end,
    {
        assert(cs@.take(end as int).drop_last() =~= cs@.take(end - 1));
        assert(cs@.take(end as int).last() == cs@[end - 1]);
        if white(cs[end - 1]) {
            end = end - 1;
        } else {
            let mut a = end;
            while a > 0 && !white(cs[a - 1])
                invariant
                    cs@ == text@,
                    a <= end <= cs@.len(),
                    end > 0,
                    !is_white(cs@[end - 1]),
                    trailing_word_start(cs@.take(end as int)) == trailing_word_start(cs@.take(a as int)),
                decreases a,
            {
                assert(cs@.take(a as int).drop_last() =~= cs@.take(a - 1));
                a = a - 1;
            }
            assert(trailing_word_start(cs@.take(a as int)) == a);
            proof {
                lemma_trailing_start_bounds(cs@.take(end as int));
            }
            let word = text.substring_char(a, end);
            assert(word@ =~= cs@.take(end as int).subrange(a as int, end as int));
            if word.as_bytes().len() > 2 {
                assert(last_long_word(cs@.take(end as int)) == Some((a as int, end as int)));
                found = true;
                start = a;
                break;
            }
            assert(cs@.take(end as int).subrange(0, a as int) =~= cs@.take(a as int));
            end = a;
        }
    }
    if !found {
        let r = String::from_str("unknown");
        proof {
            reveal_strlit("unknown");
            assert(r@ =~= unknown_argument());
        }
        return r;
    }
    let mut i = start;
    while i < end && !alnum(cs[i])
        invariant
            cs@ == text@,
            start <= i <= end <= cs@.len(),
            strip_front(cs@.subrange(start as int, end as int)) == strip_front(cs@.subrange(i as int, end as int)),
        decreases end - i,
    {
        assert(cs@.subrange(i as int, end as int).drop_first() =~= cs@.subrange(i + 1, end as int));
        i = i + 1;
    }
    let mut j = end;
    while j > i && !alnum(cs[j - 1])
        invariant
            cs@ == text@,
            start <= i <= j <= end <= cs@.len(),
            strip_back(cs@.subrange(i as int, end as int)) == strip_back(cs@.subrange(i as int, j as int)),
        decreases j,
    {
        assert(cs@.subrange(i as int, j as int).drop_last() =~= cs@.subrange(i as int, j - 1));
        j = j - 1;
    }
    let r = String::from_str(text.substring_char(i, j));
    assert(strip_front(cs@.subrange(i as int, end as int)) == cs@.subrange(i as int, end as int));
    assert(strip_back(cs@.subrange(i as int, j as int)) == cs@.subrange(i as int, j as int));
    r
}

} // verus!
