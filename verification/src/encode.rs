//! Outbound wire codec: one input frame to one newline-terminated JSON
//! protocol line, built and proved character by character.
use vstd::prelude::*;

use vstd::string::StrSliceExecFns;
use vstd::string::StringExecFns;

use crate::input::{is_json_number, InputFrame, InputV};

verus! {

/// The hexadecimal digit for a value below sixteen.
pub open spec fn spec_hex_digit(d: int) -> char {
    if d == 0 {
        '0'
    } else if d == 1 {
        '1'
    } else if d == 2 {
        '2'
    } else if d == 3 {
        '3'
    } else if d == 4 {
        '4'
    } else if d == 5 {
        '5'
    } else if d == 6 {
        '6'
    } else if d == 7 {
        '7'
    } else if d == 8 {
        '8'
    } else if d == 9 {
        '9'
    } else if d == 10 {
        'a'
    } else if d == 11 {
        'b'
    } else if d == 12 {
        'c'
    } else if d == 13 {
        'd'
    } else if d == 14 {
        'e'
    } else {
        'f'
    }
}

/// How one character travels inside a JSON string: quote and backslash
/// escaped, control characters as `\u00` plus two hex digits, anything
/// else as itself.
pub open spec fn esc_char(c: char) -> Seq<char> {
    if c == '"' {
        "\\\""@
    } else if c == '\\' {
        "\\\\"@
    } else if (c as u32) < 32 {
        "\\u00"@ + seq![
            spec_hex_digit(c as u32 as int / 16),
            spec_hex_digit(c as u32 as int % 16),
        ]
    } else {
        seq![c]
    }
}

/// A whole string escaped for a JSON string body, character by
/// character.
pub open spec fn spec_escape(s: Seq<char>) -> Seq<char>
    decreases s.len(),
{
    if s.len() == 0 {
        Seq::empty()
    } else {
        spec_escape(s.drop_last()) + esc_char(s.last())
    }
}

/// The JSON text of a boolean.
pub open spec fn bool_text(b: bool) -> Seq<char> {
    if b {
        "true"@
    } else {
        "false"@
    }
}

/// One member of the outbound `keys` object: the escaped key name in
/// quotes, a colon, and its pressed state.
pub open spec fn key_entry(k: (Seq<char>, bool)) -> Seq<char> {
    "\""@ + spec_escape(k.0) + "\":"@ + bool_text(k.1)
}

/// The body of the outbound `keys` object: every entry in order,
/// comma-separated.
pub open spec fn keys_text(ks: Seq<(Seq<char>, bool)>) -> Seq<char>
    decreases ks.len(),
{
    if ks.len() == 0 {
        Seq::empty()
    } else {
        keys_text(ks.drop_last()) + (if ks.len() == 1 {
            Seq::<char>::empty()
        } else {
            ","@
        }) + key_entry(ks.last())
    }
}

/// The full outbound protocol line for one input frame: one JSON
/// object, newline-terminated.
pub open spec fn spec_encode_input(f: InputV) -> Seq<char> {
    "{\"type\":\"update\",\"keys\":{"@ + keys_text(f.keys) + "},\"mining\":"@ + bool_text(f.mining)
        + ",\"place_block\":"@ + bool_text(f.place_block) + ",\"mouse_position\":["@ + f.mouse_x
        + ","@ + f.mouse_y + "]}\n"@
}

/// Text free of raw newlines.
pub open spec fn no_newline(s: Seq<char>) -> bool {
    forall|k: int| 0 <= k < s.len() ==> s[k] != '\n'
}

/// No escaped character carries a raw newline: quote and backslash gain
/// a backslash, and every control character — the newline among them —
/// travels as a `\u00` sequence of hex digits.
proof fn lemma_esc_char_no_newline(c: char)
    ensures
        no_newline(esc_char(c)),
{
    reveal_strlit("\\\"");
    reveal_strlit("\\\\");
    reveal_strlit("\\u00");
}

/// An escaped string body carries no raw newline.
proof fn lemma_escape_no_newline(s: Seq<char>)
    ensures
        no_newline(spec_escape(s)),
    decreases s.len(),
{
    if s.len() > 0 {
        lemma_escape_no_newline(s.drop_last());
        lemma_esc_char_no_newline(s.last());
    }
}

/// The body of the outbound `keys` object carries no raw newline,
/// whatever the key names hold.
proof fn lemma_keys_text_no_newline(ks: Seq<(Seq<char>, bool)>)
    ensures
        no_newline(keys_text(ks)),
    decreases ks.len(),
{
    if ks.len() > 0 {
        lemma_keys_text_no_newline(ks.drop_last());
        lemma_escape_no_newline(ks.last().0);
        reveal_strlit("\"");
        reveal_strlit("\":");
        reveal_strlit(",");
        reveal_strlit("true");
        reveal_strlit("false");
    }
}

/// The shape of the encoded protocol line: one line of text, newline-
/// terminated, and — for a well-formed frame — with no embedded
/// newline before the terminator.
pub proof fn lemma_encoded_line_shape(f: InputV)
    requires
        is_json_number(f.mouse_x),
        is_json_number(f.mouse_y),
    ensures
        spec_encode_input(f).len() > 0,
        spec_encode_input(f).last() == '\n',
        forall|k: int|
            0 <= k < spec_encode_input(f).len() - 1 ==> spec_encode_input(f)[k] != '\n',
{
    reveal_strlit("{\"type\":\"update\",\"keys\":{");
    reveal_strlit("},\"mining\":");
    reveal_strlit(",\"place_block\":");
    reveal_strlit(",\"mouse_position\":[");
    reveal_strlit(",");
    reveal_strlit("]}\n");
    reveal_strlit("true");
    reveal_strlit("false");
    lemma_keys_text_no_newline(f.keys);
    crate::input::lemma_number_no_newline(f.mouse_x);
    crate::input::lemma_number_no_newline(f.mouse_y);
}

/// Relies on String::push: appends exactly the one character.
#[verifier::external_body]
fn push_char(s: &mut String, c: char)
    ensures
        final(s)@ == old(s)@ + seq![c],
{
    s.push(c);
}

/// The hexadecimal digit character for a value below sixteen, matching
/// `spec_hex_digit`.
fn hex_digit(d: u32) -> (r: char)
    requires
        d < 16,
    ensures
        r == spec_hex_digit(d as int),
{
    if d == 0 {
        '0'
    } else if d == 1 {
        '1'
    } else if d == 2 {
        '2'
    } else if d == 3 {
        '3'
    } else if d == 4 {
        '4'
    } else if d == 5 {
        '5'
    } else if d == 6 {
        '6'
    } else if d == 7 {
        '7'
    } else if d == 8 {
        '8'
    } else if d == 9 {
        '9'
    } else if d == 10 {
        'a'
    } else if d == 11 {
        'b'
    } else if d == 12 {
        'c'
    } else if d == 13 {
        'd'
    } else if d == 14 {
        'e'
    } else {
        'f'
    }
}

/// Appends a string to the line, escaped for a JSON string body,
/// matching `spec_escape`.
fn append_escaped(out: &mut String, s: &str)
    ensures
        final(out)@ == old(out)@ + spec_escape(s@),
{
    let n = s.unicode_len();
    let mut i: usize = 0;
    while i < n
        invariant
            i <= n,
            n == s@.len(),
            out@ == old(out)@ + spec_escape(s@.take(i as int)),
        decreases n - i,
    {
        let c = s.get_char(i);
        if c == '"' {
            out.append("\\\"");
        } else if c == '\\' {
            out.append("\\\\");
        } else {
            let cv = c as u32;
            if cv < 32 {
                out.append("\\u00");
                push_char(out, hex_digit(cv / 16));
                push_char(out, hex_digit(cv % 16));
            } else {
                push_char(out, c);
            }
        }
        proof {
            assert(s@.take(i + 1).drop_last() =~= s@.take(i as int));
            assert(s@.take(i + 1).last() == s@[i as int]);
            assert(out@ =~= old(out)@ + spec_escape(s@.take(i + 1)));
        }
        i += 1;
    }
    proof {
        assert(s@.take(n as int) =~= s@);
    }
}

/// Encodes one input frame as the protocol line `spec_encode_input`
/// states: a single JSON object carrying the key map, the two mouse
/// buttons, and the pointer position — newline-terminated and, for a
/// well-formed frame, with no newline anywhere else.
pub fn encode_input(frame: &InputFrame) -> (r: String)
    ensures
        r@ == spec_encode_input(frame@),
        frame.wf() ==> (r@.len() > 0 && r@.last() == '\n'),
        frame.wf() ==> (forall|k: int| 0 <= k < r@.len() - 1 ==> r@[k] != '\n'),
{
    proof {
        if frame.wf() {
            lemma_encoded_line_shape(frame@);
        }
    }
    let mut out = String::new();
    out.append("{\"type\":\"update\",\"keys\":{");
    let n = frame.keys.len();
    let mut i: usize = 0;
    while i < n
        invariant
            i <= n,
            n == frame.keys@.len(),
            frame@.keys.len() == n,
            out@ == "{\"type\":\"update\",\"keys\":{"@ + keys_text(frame@.keys.take(i as int)),
        decreases n - i,
    {
        if i > 0 {
            out.append(",");
        }
        out.append("\"");
        append_escaped(&mut out, frame.keys[i].0.as_str());
        out.append("\":");
        if frame.keys[i].1 {
            out.append("true");
        } else {
            out.append("false");
        }
        proof {
            assert(frame@.keys[i as int] == (frame.keys@[i as int].0@, frame.keys@[i as int].1));
            assert(frame@.keys.take(i + 1).drop_last() =~= frame@.keys.take(i as int));
            assert(frame@.keys.take(i + 1).last() == frame@.keys[i as int]);
            assert(out@ =~= "{\"type\":\"update\",\"keys\":{"@ + keys_text(
                frame@.keys.take(i + 1),
            ));
        }
        i += 1;
    }
    proof {
        assert(frame@.keys.take(n as int) =~= frame@.keys);
    }
    out.append("},\"mining\":");
    if frame.mining {
        out.append("true");
    } else {
        out.append("false");
    }
    out.append(",\"place_block\":");
    if frame.place_block {
        out.append("true");
    } else {
        out.append("false");
    }
    out.append(",\"mouse_position\":[");
    out.append(frame.mouse_x.as_str());
    out.append(",");
    out.append(frame.mouse_y.as_str());
    out.append("]}\n");
    proof {
        assert(out@ =~= spec_encode_input(frame@));
    }
    out
}

} // verus!
