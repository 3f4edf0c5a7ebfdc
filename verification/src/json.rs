//! The JSON boundary: serde_json parses text into its document tree, and the
//! accessors declared here let verified code read that tree field by field.
//! Every shape check on a document is made in verified code against these
//! accessors; only the parse itself is taken on trust.

use vstd::prelude::*;

verus! {

/// serde_json's document tree, declared so parsed documents can be held and
/// passed through verified code; a value of it is opaque and is read through
/// the accessors below.
#[verifier::external_type_specification]
#[verifier::external_body]
pub struct ExValue(serde_json::Value);

/// Whether serde_json accepts the text as a JSON document; parsing is a
/// function of the input text alone.
pub uninterp spec fn json_parses(s: Seq<char>) -> bool;

/// Relies on serde_json::from_str for the document tree: parses JSON text,
/// or reports the parse error as its display text.
#[verifier::external_body]
pub fn parse_json_document(input: &str) -> (r: Result<serde_json::Value, String>)
    ensures
        (r is Ok) == json_parses(input@),
{
    serde_json::from_str::<serde_json::Value>(input).map_err(|e| e.to_string())
}

/// Relies on serde_json::Value::get with a string key: the value under a key
/// of an object, or nothing when the value is no object or the key is absent.
#[verifier::external_body]
pub fn get_field<'a>(v: &'a serde_json::Value, key: &str) -> Option<&'a serde_json::Value> {
    v.get(key)
}

/// Relies on serde_json::Value::as_str: the payload of a string value.
pub assume_specification[ serde_json::Value::as_str ](v: &serde_json::Value) -> Option<&str>;

/// Relies on serde_json::Value::as_u64: a number value that fits an unsigned
/// 64-bit integer.
pub assume_specification[ serde_json::Value::as_u64 ](v: &serde_json::Value) -> Option<u64>;

/// Relies on serde_json::Value::as_bool: the payload of a boolean value.
pub assume_specification[ serde_json::Value::as_bool ](v: &serde_json::Value) -> Option<bool>;

/// Relies on serde_json::Value::as_array: the elements of an array value.
pub assume_specification[ serde_json::Value::as_array ](v: &serde_json::Value) -> Option<
    &Vec<serde_json::Value>,
>;

/// Relies on serde_json::Value::is_object: whether the value is an object.
pub assume_specification[ serde_json::Value::is_object ](v: &serde_json::Value) -> bool;

/// The string under `key`, owned, when `v` is an object with a string there.
pub fn get_string_field(v: &serde_json::Value, key: &str) -> Option<String> {
    match get_field(v, key) {
        Some(field) => match field.as_str() {
            Some(s) => Some(s.to_owned()),
            None => None,
        },
        None => None,
    }
}

/// The number under `key` when `v` is an object with a number there that
/// fits the byte range.
pub fn get_u8_field(v: &serde_json::Value, key: &str) -> Option<u8> {
    match get_field(v, key) {
        Some(field) => match field.as_u64() {
            Some(n) => if n <= u8::MAX as u64 {
                Some(n as u8)
            } else {
                None
            },
            None => None,
        },
        None => None,
    }
}

/// The number under `key` when `v` is an object with a number there that
/// fits an unsigned 16-bit integer.
pub fn get_u16_field(v: &serde_json::Value, key: &str) -> Option<u16> {
    match get_field(v, key) {
        Some(field) => match field.as_u64() {
            Some(n) => if n <= u16::MAX as u64 {
                Some(n as u16)
            } else {
                None
            },
            None => None,
        },
        None => None,
    }
}

/// The boolean under `key` when `v` is an object with a boolean there.
pub fn get_bool_field(v: &serde_json::Value, key: &str) -> Option<bool> {
    match get_field(v, key) {
        Some(field) => match field.as_bool() {
            Some(b) => Some(b),
            None => None,
        },
        None => None,
    }
}

/// The hexadecimal digit `d` as a lowercase character.
pub open spec fn spec_hex_digit(d: nat) -> char {
    if d == 0 {
        '0'
    } else if d == 1 {
        '1'
    } else if d == 2 {
        '2'
    } else if d == 3 {
        '3'
    } else if d == 4 {
        '4'
    } else if d == 5 {
        '5'
    } else if d == 6 {
        '6'
    } else if d == 7 {
        '7'
    } else if d == 8 {
        '8'
    } else if d == 9 {
        '9'
    } else if d == 10 {
        'a'
    } else if d == 11 {
        'b'
    } else if d == 12 {
        'c'
    } else if d == 13 {
        'd'
    } else if d == 14 {
        'e'
    } else {
        'f'
    }
}

/// How one character appears inside a framed JSON string: quotes and
/// backslashes escaped, the common control characters by letter, the rest of
/// the control range numerically, everything else as itself.
pub open spec fn spec_escape_char(c: char) -> Seq<char> {
    if c == '"' {
        seq!['\\', '"']
    } else if c == '\\' {
        seq!['\\', '\\']
    } else if c == '\n' {
        seq!['\\', 'n']
    } else if c == '\r' {
        seq!['\\', 'r']
    } else if c == '\t' {
        seq!['\\', 't']
    } else if (c as u32) < 0x20 {
        seq!['\\', 'u', '0', '0', spec_hex_digit((c as u32 / 16) as nat), spec_hex_digit(
            (c as u32 % 16) as nat,
        )]
    } else {
        seq![c]
    }
}

/// A whole character sequence escaped for a framed JSON string.
pub open spec fn spec_escaped(s: Seq<char>) -> Seq<char>
    decreases s.len(),
{
    if s.len() == 0 {
        Seq::empty()
    } else {
        spec_escaped(s.drop_last()) + spec_escape_char(s.last())
    }
}

/// A framed JSON string: the escaped characters between quotes.
pub open spec fn spec_json_string(s: Seq<char>) -> Seq<char> {
    seq!['"'] + spec_escaped(s) + seq!['"']
}

fn hex_digit(d: u32) -> (r: char)
    requires
        d < 16,
    ensures
        r == spec_hex_digit(d as nat),
{
    match d {
        0 => '0',
        1 => '1',
        2 => '2',
        3 => '3',
        4 => '4',
        5 => '5',
        6 => '6',
        7 => '7',
        8 => '8',
        9 => '9',
        10 => 'a',
        11 => 'b',
        12 => 'c',
        13 => 'd',
        14 => 'e',
        _ => 'f',
    }
}

/// Appends one framed JSON string to the output.
pub fn append_json_string(out: &mut String, s: &str)
    ensures
        final(out)@ == old(out)@ + spec_json_string(s@),
{
    crate::text::push_char(out, '"');
    let ghost mid = out@;
    let n = s.unicode_len();
    let mut i: usize = 0;
    while i < n
        invariant
            i <= n,
            n == s@.len(),
            out@ == mid + spec_escaped(s@.take(i as int)),
        decreases n - i,
    {
        let c = s.get_char(i);
        proof {
            let p = s@.take(i + 1);
            assert(p.drop_last() =~= s@.take(i as int));
            assert(p.last() == s@[i as int]);
        }
        if c == '"' {
            crate::text::push_char(out, '\\');
            crate::text::push_char(out, '"');
        } else if c == '\\' {
            crate::text::push_char(out, '\\');
            crate::text::push_char(out, '\\');
        } else if c == '\n' {
            crate::text::push_char(out, '\\');
            crate::text::push_char(out, 'n');
        } else if c == '\r' {
            crate::text::push_char(out, '\\');
            crate::text::push_char(out, 'r');
        } else if c == '\t' {
            crate::text::push_char(out, '\\');
            crate::text::push_char(out, 't');
        } else if (c as u32) < 0x20 {
            crate::text::push_char(out, '\\');
            crate::text::push_char(out, 'u');
            crate::text::push_char(out, '0');
            crate::text::push_char(out, '0');
            crate::text::push_char(out, hex_digit(c as u32 / 16));
            crate::text::push_char(out, hex_digit(c as u32 % 16));
        } else {
            crate::text::push_char(out, c);
        }
        proof {
            assert(out@ =~= mid + spec_escaped(s@.take(i + 1)));
        }
        i += 1;
    }
    proof {
        assert(s@.take(n as int) =~= s@);
    }
    crate::text::push_char(out, '"');
    proof {
        assert(out@ =~= old(out)@ + spec_json_string(s@));
    }
}

/// The value read as an array of strings, owned; nothing when the value is
/// no array or an element is no string.
pub fn get_string_array(v: &serde_json::Value) -> Option<Vec<String>> {
    let elements = match v.as_array() {
        Some(a) => a,
        None => {
            return None;
        },
    };
    let mut out: Vec<String> = Vec::new();
    let mut i: usize = 0;
    while i < elements.len()
        decreases elements@.len() - i,
    {
        match elements[i].as_str() {
            Some(s) => out.push(s.to_owned()),
            None => {
                return None;
            },
        }
        i += 1;
    }
    Some(out)
}

} // verus!
