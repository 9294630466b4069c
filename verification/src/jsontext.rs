//! JSON text for the wire protocol.
//!
//! Outgoing documents are flat objects of string fields, built here by
//! verified code with an exact specification: keys are emitted in the order
//! given, and every string is escaped as JSON requires (quote, backslash,
//! and control characters). Incoming documents may be arbitrary JSON, so
//! reading them goes through `serde_json` behind trusted wrappers whose
//! results are named by uninterpreted spec functions.

use vstd::prelude::*;
use crate::hexfmt::nib_char;
use crate::hexfmt::nib_to_char;
use crate::textutil::push_char;

verus! {

/// The escape of one character inside a JSON string literal: quotes and
/// backslashes get a backslash, control characters become `\u00XX`, and
/// everything else stands for itself.
pub open spec fn esc_char(c: char) -> Seq<char> {
    if c == '"' {
        seq!['\\', '"']
    } else if c == '\\' {
        seq!['\\', '\\']
    } else if (c as u32) < 32 {
        seq!['\\', 'u', '0', '0', nib_char(((c as u32) / 16) as u8), nib_char(
            ((c as u32) % 16) as u8,
        )]
    } else {
        seq![c]
    }
}

/// A character sequence with every character escaped for JSON.
pub open spec fn json_escaped(s: Seq<char>) -> Seq<char>
    decreases s.len(),
{
    if s.len() == 0 {
        Seq::empty()
    } else {
        json_escaped(s.drop_last()) + esc_char(s.last())
    }
}

/// A JSON string literal: the escaped text between double quotes.
pub open spec fn json_quoted(s: Seq<char>) -> Seq<char> {
    seq!['"'] + json_escaped(s) + seq!['"']
}

/// One `"key":"value"` member of a JSON object.
pub open spec fn json_member(k: Seq<char>, v: Seq<char>) -> Seq<char> {
    json_quoted(k) + seq![':'] + json_quoted(v)
}

/// A JSON object of one string field.
pub open spec fn json_obj1_of(k1: Seq<char>, v1: Seq<char>) -> Seq<char> {
    seq!['{'] + json_member(k1, v1) + seq!['}']
}

/// A JSON object of two string fields, in the order given.
pub open spec fn json_obj2_of(k1: Seq<char>, v1: Seq<char>, k2: Seq<char>, v2: Seq<char>) -> Seq<
    char,
> {
    seq!['{'] + json_member(k1, v1) + seq![','] + json_member(k2, v2) + seq!['}']
}

/// A JSON object of three string fields, in the order given.
pub open spec fn json_obj3_of(
    k1: Seq<char>,
    v1: Seq<char>,
    k2: Seq<char>,
    v2: Seq<char>,
    k3: Seq<char>,
    v3: Seq<char>,
) -> Seq<char> {
    seq!['{'] + json_member(k1, v1) + seq![','] + json_member(k2, v2) + seq![','] + json_member(
        k3,
        v3,
    ) + seq!['}']
}

/// Append the JSON string literal for `s` to `out`.
fn push_quoted(out: &mut String, s: &str)
    ensures
        final(out)@ == old(out)@ + json_quoted(s@),
{
    push_char(out, '"');
    let n = s.unicode_len();
    let mut i: usize = 0;
    proof {
        assert(s@.take(0int) =~= Seq::<char>::empty());
        assert(out@ =~= old(out)@ + seq!['"'] + json_escaped(s@.take(0int)));
    }
    while i < n
        invariant
            i <= n,
            n == s@.len(),
            out@ == old(out)@ + seq!['"'] + json_escaped(s@.take(i as int)),
        decreases n - i,
    {
        let c = s.get_char(i);
        if c == '"' {
            push_char(out, '\\');
            push_char(out, '"');
        } else if c == '\\' {
            push_char(out, '\\');
            push_char(out, '\\');
        } else {
            let code = c as u32;
            if code < 32 {
                push_char(out, '\\');
                push_char(out, 'u');
                push_char(out, '0');
                push_char(out, '0');
                push_char(out, nib_to_char((code / 16) as u8));
                push_char(out, nib_to_char((code % 16) as u8));
            } else {
                push_char(out, c);
            }
        }
        proof {
            let t = s@.take(i + 1int);
            assert(t.drop_last() =~= s@.take(i as int));
            assert(t.last() == s@[i as int]);
            assert(out@ =~= old(out)@ + seq!['"'] + json_escaped(t));
        }
        i = i + 1;
    }
    push_char(out, '"');
    proof {
        assert(s@.take(n as int) =~= s@);
        assert(out@ =~= old(out)@ + json_quoted(s@));
    }
}

/// Build the JSON object `{"k1":"v1"}`.
pub fn json_obj1(k1: &str, v1: &str) -> (r: String)
    ensures
        r@ == json_obj1_of(k1@, v1@),
{
    let mut out = String::new();
    push_char(&mut out, '{');
    push_quoted(&mut out, k1);
    push_char(&mut out, ':');
    push_quoted(&mut out, v1);
    push_char(&mut out, '}');
    proof {
        assert(out@ =~= json_obj1_of(k1@, v1@));
    }
    out
}

/// Build the JSON object `{"k1":"v1","k2":"v2"}`.
pub fn json_obj2(k1: &str, v1: &str, k2: &str, v2: &str) -> (r: String)
    ensures
        r@ == json_obj2_of(k1@, v1@, k2@, v2@),
{
    let mut out = String::new();
    push_char(&mut out, '{');
    push_quoted(&mut out, k1);
    push_char(&mut out, ':');
    push_quoted(&mut out, v1);
    push_char(&mut out, ',');
    push_quoted(&mut out, k2);
    push_char(&mut out, ':');
    push_quoted(&mut out, v2);
    push_char(&mut out, '}');
    proof {
        assert(out@ =~= json_obj2_of(k1@, v1@, k2@, v2@));
    }
    out
}

/// Build the JSON object `{"k1":"v1","k2":"v2","k3":"v3"}`.
pub fn json_obj3(k1: &str, v1: &str, k2: &str, v2: &str, k3: &str, v3: &str) -> (r: String)
    ensures
        r@ == json_obj3_of(k1@, v1@, k2@, v2@, k3@, v3@),
{
    let mut out = String::new();
    push_char(&mut out, '{');
    push_quoted(&mut out, k1);
    push_char(&mut out, ':');
    push_quoted(&mut out, v1);
    push_char(&mut out, ',');
    push_quoted(&mut out, k2);
    push_char(&mut out, ':');
    push_quoted(&mut out, v2);
    push_char(&mut out, ',');
    push_quoted(&mut out, k3);
    push_char(&mut out, ':');
    push_quoted(&mut out, v3);
    push_char(&mut out, '}');
    proof {
        assert(out@ =~= json_obj3_of(k1@, v1@, k2@, v2@, k3@, v3@));
    }
    out
}

/// The string at top-level field `key` of the JSON document `doc`: `None`
/// when `doc` does not parse, the field is absent, or it is not a string.
pub uninterp spec fn json_str_field(doc: Seq<char>, key: Seq<char>) -> Option<Seq<char>>;

/// The string at `body.encryptedPayload.ciphertext` of the JSON document
/// `doc`: `None` when `doc` does not parse or the path is absent.
pub uninterp spec fn json_chat_ciphertext(doc: Seq<char>) -> Option<Seq<char>>;

/// Relies on `serde_json::from_str`, `Value::get`, and `Value::as_str`:
/// parses `doc` and reads the string at top-level field `key`.
#[verifier::external_body]
pub fn json_get_str(doc: &str, key: &str) -> (r: Option<String>)
    ensures
        match r {
            Some(v) => json_str_field(doc@, key@) == Some(v@),
            None => json_str_field(doc@, key@) is None,
        },
{
    match serde_json::from_str::<serde_json::Value>(doc) {
        Ok(val) => val.get(key).and_then(|f| f.as_str()).map(|s| s.to_string()),
        Err(_) => None,
    }
}

/// Relies on `serde_json::from_str`, `Value::get`, and `Value::as_str`:
/// parses `doc` and reads the string at `body.encryptedPayload.ciphertext`.
#[verifier::external_body]
pub fn json_get_chat_ciphertext(doc: &str) -> (r: Option<String>)
    ensures
        match r {
            Some(v) => json_chat_ciphertext(doc@) == Some(v@),
            None => json_chat_ciphertext(doc@) is None,
        },
{
    match serde_json::from_str::<serde_json::Value>(doc) {
        Ok(val) => val
            .get("body")
            .and_then(|b| b.get("encryptedPayload"))
            .and_then(|e| e.get("ciphertext"))
            .and_then(|c| c.as_str())
            .map(|s| s.to_string()),
        Err(_) => None,
    }
}

} // verus!
