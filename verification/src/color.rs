//! Color codes of themes: `#RRGGBB` or `#RRGGBBAA`, each channel two
//! hexadecimal digits. The channels are read here as bytes; scaling them to
//! the renderer's unit range is the renderer's job.
use vstd::prelude::*;

verus! {

/// A color as four 8-bit channels; a six-digit code is fully opaque.
#[derive(Debug, Clone, Copy, PartialEq, Eq, Structural)]
pub struct Rgba8 {
    pub r: u8,
    pub g: u8,
    pub b: u8,
    pub a: u8,
}

impl Default for Rgba8 {
    /// Fully transparent black.
    fn default() -> (r: Self)
        ensures
            r == (Rgba8 { r: 0, g: 0, b: 0, a: 0 }),
    {
        Rgba8 { r: 0, g: 0, b: 0, a: 0 }
    }
}

/// The value of a hexadecimal digit.
pub open spec fn hex_digit(c: u8) -> Option<u8> {
    if 0x30 <= c && c <= 0x39 {
        Some((c - 0x30) as u8)
    } else if 0x41 <= c && c <= 0x46 {
        Some((c - 0x41 + 10) as u8)
    } else if 0x61 <= c && c <= 0x66 {
        Some((c - 0x61 + 10) as u8)
    } else {
        None
    }
}

/// `u8::from_str_radix` on a two-byte text in base 16: two digits, or a
/// `+` sign and one digit.
pub open spec fn pair_value(c0: u8, c1: u8) -> Option<u8> {
    if c0 == 0x2b {
        hex_digit(c1)
    } else {
        match (hex_digit(c0), hex_digit(c1)) {
            (Some(h), Some(l)) => Some((h * 16 + l) as u8),
            _ => None,
        }
    }
}

/// `b` without its leading `#` bytes.
pub open spec fn strip_hashes(b: Seq<u8>) -> Seq<u8>
    decreases b.len(),
{
    if b.len() > 0 && b[0] == 0x23 {
        strip_hashes(b.drop_first())
    } else {
        b
    }
}

/// The digits of a color code: its UTF-8 bytes after the leading `#`s.
pub open spec fn color_digits(s: Seq<char>) -> Seq<u8> {
    strip_hashes(vstd::utf8::encode_utf8(s))
}

pub open spec fn is_continuation(c: u8) -> bool {
    0x80 <= c && c <= 0xbf
}

/// Reading a code cuts its digits into two-byte pieces; each cut must fall
/// between characters, or reading it panics.
pub open spec fn cuts_between_chars(s: Seq<char>) -> bool {
    let h = color_digits(s);
    (h.len() == 6 || h.len() == 8) ==> forall|k: int| 0 <= k < h.len() && k % 2 == 0 ==> !is_continuation(#[trigger] h[k])
}

/// The message `ParseIntError` renders for a malformed digit pair.
pub open spec fn invalid_digit_message() -> Seq<char> {
    "invalid digit found in string"@
}

/// The meaning of a color code.
pub open spec fn color_code(s: Seq<char>) -> Result<Rgba8, Seq<char>> {
    let h = color_digits(s);
    if h.len() != 6 && h.len() != 8 {
        Err("invalid color: "@ + s)
    } else {
        let r = pair_value(h[0], h[1]);
        let g = pair_value(h[2], h[3]);
        let b = pair_value(h[4], h[5]);
        let a = if h.len() == 8 {
            pair_value(h[6], h[7])
        } else {
            Some(255u8)
        };
        if r is None || g is None || b is None || a is None {
            Err(invalid_digit_message())
        } else {
            Ok(Rgba8 { r: r->0, g: g->0, b: b->0, a: a->0 })
        }
    }
}

fn hex_digit_value(c: u8) -> (r: Option<u8>)
    ensures
        r == hex_digit(c),
{
    if 0x30 <= c && c <= 0x39 {
        Some(c - 0x30)
    } else if 0x41 <= c && c <= 0x46 {
        Some(c - 0x41 + 10)
    } else if 0x61 <= c && c <= 0x66 {
        Some(c - 0x61 + 10)
    } else {
        None
    }
}

fn read_pair(c0: u8, c1: u8) -> (r: Option<u8>)
    ensures
        r == pair_value(c0, c1),
{
    if c0 == 0x2b {
        return hex_digit_value(c1);
    }
    match (hex_digit_value(c0), hex_digit_value(c1)) {
        (Some(h), Some(l)) => Some(h * 16 + l),
        _ => None,
    }
}

/// Parses a color code `#RRGGBB` or `#RRGGBBAA` (any number of leading `#`
/// is skipped). A wrong number of digits is reported with the code itself;
/// a malformed digit pair with the integer parser's message.
pub fn parse_color(s: &str) -> (r: Result<Rgba8, String>)
    requires
        cuts_between_chars(s@),
    ensures
        match r {
            Ok(c) => color_code(s@) == Ok::<Rgba8, Seq<char>>(c),
            Err(m) => color_code(s@) == Err::<Rgba8, Seq<char>>(m@),
        },
{
    let bytes = s.as_bytes();
    let n = bytes.len();
    let mut start: usize = 0;
    assert(bytes@.skip(0) == bytes@);
    while start < n && bytes[start] == 0x23
        invariant
            bytes@ == vstd::utf8::encode_utf8(s@),
            n == bytes@.len(),
            start <= n,
            strip_hashes(bytes@) == strip_hashes(bytes@.skip(start as int)),
        decreases n - start,
    {
        assert(bytes@.skip(start as int).drop_first() == bytes@.skip(start + 1));
        start = start + 1;
    }
    let ghost h = bytes@.skip(start as int);
    assert(strip_hashes(h) == h);
    let len = n - start;
    if len != 6 && len != 8 {
        let mut m = String::from_str("invalid color: ");
        m.append(s);
        return Err(m);
    }
    let r = read_pair(bytes[start], bytes[start + 1]);
    let g = read_pair(bytes[start + 2], bytes[start + 3]);
    let b = read_pair(bytes[start + 4], bytes[start + 5]);
    let a = if len == 8 {
        read_pair(bytes[start + 6], bytes[start + 7])
    } else {
        Some(255u8)
    };
    match (r, g, b, a) {
        (Some(r), Some(g), Some(b), Some(a)) => Ok(Rgba8 { r, g, b, a }),
        _ => Err(String::from_str("invalid digit found in string")),
    }
}

} // verus!
