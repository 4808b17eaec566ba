//! JSON text, as far as the bindings need it: a string written as a JSON
//! string literal. The encoding itself is `serde_json`'s; this module says
//! what it comes to.

use vstd::prelude::*;

verus! {

/// The digit of base sixteen that stands for `d`, in lower case.
pub open spec fn spec_hex_digit(d: int) -> char {
    seq!['0', '1', '2', '3', '4', '5', '6', '7', '8', '9', 'a', 'b', 'c', 'd', 'e', 'f'][d]
}

/// How the character `c` stands inside a JSON string literal. A quote and a
/// backslash get a backslash before them; backspace, tab, line feed, form
/// feed and carriage return are written as a backslash and a letter; any
/// other character below the space as `\u00` and its two digits of base
/// sixteen; every other character as itself.
pub open spec fn spec_escape(c: char) -> Seq<char> {
    if c == '"' {
        seq!['\\', '"']
    } else if c == '\\' {
        seq!['\\', '\\']
    } else if c == '\u{8}' {
        seq!['\\', 'b']
    } else if c == '\t' {
        seq!['\\', 't']
    } else if c == '\n' {
        seq!['\\', 'n']
    } else if c == '\u{c}' {
        seq!['\\', 'f']
    } else if c == '\r' {
        seq!['\\', 'r']
    } else if (c as u32) < 0x20 {
        seq![
            '\\',
            'u',
            '0',
            '0',
            spec_hex_digit((c as u32) as int / 16),
            spec_hex_digit((c as u32) as int % 16),
        ]
    } else {
        seq![c]
    }
}

/// The characters of `s`, each as it stands inside a JSON string literal.
pub open spec fn spec_escaped(s: Seq<char>) -> Seq<char>
    decreases s.len(),
{
    if s.len() == 0 {
        Seq::<char>::empty()
    } else {
        spec_escaped(s.drop_last()) + spec_escape(s.last())
    }
}

/// The JSON string literal for the text `s`: a quote, the characters of `s`
/// as [`spec_escape`] writes them, and a quote.
pub open spec fn json_string_literal(s: Seq<char>) -> Seq<char> {
    seq!['"'] + spec_escaped(s) + seq!['"']
}

/// Whether `c` is written as itself: neither a quote nor a backslash, and
/// not below the space.
pub open spec fn spec_is_plain(c: char) -> bool {
    c != '"' && c != '\\' && (c as u32) >= 0x20
}

/// A text of plain characters is its own content as a literal: the literal
/// is the text between two quotes.
pub proof fn lemma_plain_text_is_quoted(s: Seq<char>)
    requires
        forall|i: int| 0 <= i < s.len() ==> spec_is_plain(#[trigger] s[i]),
    ensures
        spec_escaped(s) == s,
        json_string_literal(s) == seq!['"'] + s + seq!['"'],
    decreases s.len(),
{
    if s.len() == 0 {
        assert(spec_escaped(s) =~= s);
    } else {
        lemma_plain_text_is_quoted(s.drop_last());
        assert(spec_is_plain(s[s.len() - 1]));
        assert(spec_escape(s.last()) =~= seq![s.last()]);
        assert(spec_escaped(s) =~= s);
    }
}

/// Calls `serde_json::to_string` on a string slice. The encoder writes into
/// memory, where writing does not fail, and a string has nothing else that
/// could: the call succeeds, and what it hands back is the JSON string
/// literal of `value`. The failure that the type allows for comes back
/// written out as text.
#[verifier::external_body]
pub(crate) fn encode_string(value: &str) -> (r: Result<String, String>)
    ensures
        r is Ok,
        r matches Ok(text) ==> text@ == json_string_literal(value@),
{
    match serde_json::to_string(value) {
        Ok(text) => Ok(text),
        Err(failure) => Err(failure.to_string()),
    }
}

} // verus!
