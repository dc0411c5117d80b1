//! The outbound input frame: one per-tick sample of the local input
//! devices, in the normalized, serializable form the protocol sends.
//!
//! The pointer position travels as decimal text — the windowing layer
//! formats its machine floats at its own edge — and the frame keeps it
//! only where the text is a well-formed JSON number, falling back to
//! the window origin otherwise, so an encoded frame is always a
//! well-formed protocol line.
use vstd::prelude::*;

use vstd::string::StrSliceExecFns;

verus! {

/// The pressed state of every logical key the protocol reports:
/// movement, hotbar slots, zoom, and the flight toggle.
#[derive(Debug, Clone, Copy, PartialEq, Eq)]
pub struct KeySamples {
    pub w: bool,
    pub a: bool,
    pub s: bool,
    pub d: bool,
    pub space: bool,
    pub slot1: bool,
    pub slot2: bool,
    pub slot3: bool,
    pub slot4: bool,
    pub slot5: bool,
    pub slot6: bool,
    pub slot7: bool,
    pub slot8: bool,
    pub slot9: bool,
    pub zoom_in: bool,
    pub zoom_out: bool,
    pub fly: bool,
}

/// One sampled input frame, ready for the wire: named logical keys to
/// pressed state, the two mouse buttons, and the pointer position as
/// decimal text.
#[derive(Debug, Clone, PartialEq, Eq)]
pub struct InputFrame {
    pub keys: Vec<(String, bool)>,
    pub mining: bool,
    pub place_block: bool,
    pub mouse_x: String,
    pub mouse_y: String,
}

/// Mathematical model of an `InputFrame`.
pub struct InputV {
    pub keys: Seq<(Seq<char>, bool)>,
    pub mining: bool,
    pub place_block: bool,
    pub mouse_x: Seq<char>,
    pub mouse_y: Seq<char>,
}

impl View for InputFrame {
    type V = InputV;

    open spec fn view(&self) -> InputV {
        InputV {
            keys: self.keys@.map_values(|p: (String, bool)| (p.0@, p.1)),
            mining: self.mining,
            place_block: self.place_block,
            mouse_x: self.mouse_x@,
            mouse_y: self.mouse_y@,
        }
    }
}

/// A decimal digit.
pub open spec fn is_digit(c: char) -> bool {
    48 <= c as u32 && c as u32 <= 57
}

/// The first position at or after `i` that holds no digit.
pub open spec fn digits_end(s: Seq<char>, i: int) -> int
    decreases s.len() - i,
{
    if 0 <= i < s.len() && is_digit(s[i]) {
        digits_end(s, i + 1)
    } else {
        i
    }
}

/// The fraction-then-exponent tail of the JSON number grammar, read
/// from position `i`.
pub open spec fn frac_exp_ok(s: Seq<char>, i: int) -> bool {
    if i < s.len() && s[i] == '.' {
        let f = digits_end(s, i + 1);
        f > i + 1 && exp_ok(s, f)
    } else {
        exp_ok(s, i)
    }
}

/// The exponent tail of the JSON number grammar, read from position
/// `i`: either nothing remains, or `e`/`E`, an optional sign, and at
/// least one digit reaching the end.
pub open spec fn exp_ok(s: Seq<char>, i: int) -> bool {
    if i == s.len() {
        true
    } else if 0 <= i < s.len() && (s[i] == 'e' || s[i] == 'E') {
        let j: int = if i + 1 < s.len() && (s[i + 1] == '+' || s[i + 1] == '-') {
            i + 2
        } else {
            i + 1
        };
        let g = digits_end(s, j);
        g > j && g == s.len()
    } else {
        false
    }
}

/// The JSON number grammar: an optional minus, an integer part with no
/// leading zero, an optional fraction, an optional exponent.
pub open spec fn is_json_number(s: Seq<char>) -> bool {
    let i0: int = if s.len() > 0 && s[0] == '-' {
        1
    } else {
        0
    };
    let i1 = digits_end(s, i0);
    &&& i1 > i0
    &&& (is_digit(s[i0]) && s[i0] == '0' ==> i1 == i0 + 1)
    &&& frac_exp_ok(s, i1)
}

/// Everything up to `digits_end` is a digit.
pub proof fn lemma_digits_span(s: Seq<char>, i: int)
    requires
        0 <= i,
    ensures
        forall|k: int| i <= k < digits_end(s, i) ==> is_digit(s[k]),
    decreases s.len() - i,
{
    if 0 <= i < s.len() && is_digit(s[i]) {
        lemma_digits_span(s, i + 1);
    }
}

/// A JSON number never carries a newline: every character is a digit,
/// a sign, a decimal point, or an exponent mark.
pub proof fn lemma_number_no_newline(s: Seq<char>)
    requires
        is_json_number(s),
    ensures
        forall|k: int| 0 <= k < s.len() ==> s[k] != '\n',
{
    let i0: int = if s.len() > 0 && s[0] == '-' {
        1
    } else {
        0
    };
    let i1 = digits_end(s, i0);
    lemma_digits_span(s, i0);
    let i2: int = if i1 < s.len() && s[i1] == '.' {
        digits_end(s, i1 + 1)
    } else {
        i1
    };
    lemma_digits_span(s, i1 + 1);
    assert(exp_ok(s, i2));
    if i2 < s.len() {
        let j: int = if i2 + 1 < s.len() && (s[i2 + 1] == '+' || s[i2 + 1] == '-') {
            i2 + 2
        } else {
            i2 + 1
        };
        lemma_digits_span(s, j);
        assert forall|k: int| 0 <= k < s.len() implies s[k] != '\n' by {
            if k < i0 {
            } else if k < i1 {
                assert(is_digit(s[k]));
            } else if k == i1 && i1 < i2 {
                assert(s[k] == '.');
            } else if k < i2 {
                assert(is_digit(s[k]));
            } else if k == i2 {
                assert(s[k] == 'e' || s[k] == 'E');
            } else if k < j {
                assert(s[k] == '+' || s[k] == '-');
            } else {
                assert(is_digit(s[k]));
            }
        }
    } else {
        assert forall|k: int| 0 <= k < s.len() implies s[k] != '\n' by {
            if k < i0 {
            } else if k < i1 {
                assert(is_digit(s[k]));
            } else if k == i1 && i1 < i2 {
                assert(s[k] == '.');
            } else {
                assert(is_digit(s[k]));
            }
        }
    }
}

/// Scans digits from `from`, matching `digits_end`.
fn scan_digits(s: &str, from: usize) -> (r: usize)
    requires
        from <= s@.len(),
    ensures
        r as int == digits_end(s@, from as int),
        from <= r,
        r as int <= s@.len(),
{
    let n = s.unicode_len();
    let mut i: usize = from;
    while i < n
        invariant
            from <= i <= n,
            n == s@.len(),
            digits_end(s@, from as int) == digits_end(s@, i as int),
        decreases n - i,
    {
        let c = s.get_char(i);
        let cv = c as u32;
        if !(48 <= cv && cv <= 57) {
            assert(digits_end(s@, i as int) == i as int);
            return i;
        }
        i += 1;
    }
    assert(digits_end(s@, n as int) == n as int);
    i
}

/// Whether text is a well-formed JSON number, matching
/// `is_json_number`.
pub fn check_number(s: &str) -> (r: bool)
    ensures
        r == is_json_number(s@),
{
    let n = s.unicode_len();
    let mut i0: usize = 0;
    if n > 0 && s.get_char(0) == '-' {
        i0 = 1;
    }
    if i0 > n {
        return false;
    }
    let i1 = scan_digits(s, i0);
    if i1 == i0 {
        return false;
    }
    let first = s.get_char(i0);
    if first == '0' && i1 != i0 + 1 {
        return false;
    }
    let mut p = i1;
    if p < n && s.get_char(p) == '.' {
        let f = scan_digits(s, p + 1);
        if f == p + 1 {
            return false;
        }
        p = f;
    }
    if p == n {
        return true;
    }
    let c = s.get_char(p);
    if c == 'e' || c == 'E' {
        let q: usize = if p + 1 < n {
            let c2 = s.get_char(p + 1);
            if c2 == '+' || c2 == '-' {
                p + 2
            } else {
                p + 1
            }
        } else {
            p + 1
        };
        if q > n {
            return false;
        }
        let g = scan_digits(s, q);
        return g > q && g == n;
    }
    false
}

/// The pointer position a frame falls back to where the given text is
/// no JSON number.
pub proof fn lemma_origin_is_number()
    ensures
        is_json_number("0.0"@),
{
    reveal_strlit("0.0");
    let s = "0.0"@;
    assert(digits_end(s, 0) == 1) by {
        reveal_with_fuel(digits_end, 3);
    }
    assert(digits_end(s, 2) == 3) by {
        reveal_with_fuel(digits_end, 3);
    }
}

/// The fixed, ordered key list the protocol sends: each logical key's
/// wire name with its sampled pressed state.
pub open spec fn spec_key_list(k: KeySamples) -> Seq<(Seq<char>, bool)> {
    seq![
        ("w"@, k.w),
        ("a"@, k.a),
        ("s"@, k.s),
        ("d"@, k.d),
        ("space"@, k.space),
        ("1"@, k.slot1),
        ("2"@, k.slot2),
        ("3"@, k.slot3),
        ("4"@, k.slot4),
        ("5"@, k.slot5),
        ("6"@, k.slot6),
        ("7"@, k.slot7),
        ("8"@, k.slot8),
        ("9"@, k.slot9),
        ("equals"@, k.zoom_in),
        ("minus"@, k.zoom_out),
        ("f"@, k.fly),
    ]
}

impl InputFrame {
    /// A frame is well-formed when its pointer texts are JSON numbers;
    /// encoding such a frame yields a well-formed protocol line.
    pub open spec fn wf(&self) -> bool {
        is_json_number(self.mouse_x@) && is_json_number(self.mouse_y@)
    }

    /// Builds the frame the protocol sends for one tick's samples: the
    /// fixed key list in wire order, the two mouse buttons, and the
    /// pointer position — kept as given where its text is a JSON
    /// number, put at the window origin otherwise.
    pub fn new(
        samples: KeySamples,
        mining: bool,
        place_block: bool,
        mouse_x: String,
        mouse_y: String,
    ) -> (r: InputFrame)
        ensures
            r.wf(),
            r@.keys == spec_key_list(samples),
            r@.mining == mining,
            r@.place_block == place_block,
            r@.mouse_x == if is_json_number(mouse_x@) {
                mouse_x@
            } else {
                "0.0"@
            },
            r@.mouse_y == if is_json_number(mouse_y@) {
                mouse_y@
            } else {
                "0.0"@
            },
    {
        let mut keys: Vec<(String, bool)> = Vec::new();
        keys.push(("w".to_owned(), samples.w));
        keys.push(("a".to_owned(), samples.a));
        keys.push(("s".to_owned(), samples.s));
        keys.push(("d".to_owned(), samples.d));
        keys.push(("space".to_owned(), samples.space));
        keys.push(("1".to_owned(), samples.slot1));
        keys.push(("2".to_owned(), samples.slot2));
        keys.push(("3".to_owned(), samples.slot3));
        keys.push(("4".to_owned(), samples.slot4));
        keys.push(("5".to_owned(), samples.slot5));
        keys.push(("6".to_owned(), samples.slot6));
        keys.push(("7".to_owned(), samples.slot7));
        keys.push(("8".to_owned(), samples.slot8));
        keys.push(("9".to_owned(), samples.slot9));
        keys.push(("equals".to_owned(), samples.zoom_in));
        keys.push(("minus".to_owned(), samples.zoom_out));
        keys.push(("f".to_owned(), samples.fly));
        let mx = if check_number(mouse_x.as_str()) {
            mouse_x
        } else {
            "0.0".to_owned()
        };
        let my = if check_number(mouse_y.as_str()) {
            mouse_y
        } else {
            "0.0".to_owned()
        };
        proof {
            lemma_origin_is_number();
        }
        let r = InputFrame { keys, mining, place_block, mouse_x: mx, mouse_y: my };
        proof {
            assert(r@.keys =~= spec_key_list(samples));
        }
        r
    }
}

} // verus!
