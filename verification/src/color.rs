//! Color values as exchanged on the wire.
//!
//! A color travels as a canonical string — the name of a palette color or
//! `#RRGGBB` with upper-case hex digits — and every consumer normalizes
//! it to the structured palette value. Rendering the palette value back
//! gives the canonical string, and parsing that string gives the value
//! back: the two wire forms always name the same color.
use vstd::prelude::*;

verus! {

/// Display color of a user in its canonical string form: the name of a
/// palette color, or `#RRGGBB` with upper-case hex digits.
#[derive(Clone, Debug)]
pub struct UserColor(pub String);

impl UserColor {
    /// Wraps a string as a color value, unchanged.
    pub fn new(color: String) -> (r: UserColor)
        ensures
            r.0@ == color@,
    {
        UserColor(color)
    }

    /// The underlying string form.
    pub fn as_str(&self) -> (r: &str)
        ensures
            r@ == self.0@,
    {
        self.0.as_str()
    }

    /// An exact copy; unlike a derived clone, its contract says so.
    pub fn duplicate(&self) -> (r: UserColor)
        ensures
            r == *self,
    {
        UserColor(self.0.clone())
    }
}

impl From<String> for UserColor {
    /// Wraps a string as a color value, unchanged.
    fn from(s: String) -> (r: UserColor) {
        UserColor(s)
    }
}

impl vstd::std_specs::convert::FromSpecImpl<String> for UserColor {
    open spec fn obeys_from_spec() -> bool {
        true
    }

    open spec fn from_spec(s: String) -> UserColor {
        UserColor(s)
    }
}

impl UserColor {
    /// Copies a string slice into a color value, unchanged.
    pub fn from_str_value(s: &str) -> (r: UserColor)
        ensures
            r.0@ == s@,
    {
        UserColor(s.to_owned())
    }
}

/// The structured palette form of a color: an RGB triple or a named
/// palette entry.
#[derive(Clone, Copy, Debug, PartialEq, Eq, Structural)]
pub enum PaletteColor {
    Rgb(u8, u8, u8),
    Red,
    Green,
    Blue,
    Yellow,
    Cyan,
    Magenta,
    White,
    Black,
}

/// Value of a hex digit, upper- or lower-case; -1 for anything else.
pub open spec fn hex_digit_val(c: char) -> int {
    let u = c as u32;
    if ('0' as u32) <= u <= ('9' as u32) {
        u as int - ('0' as u32) as int
    } else if ('A' as u32) <= u <= ('F' as u32) {
        10 + u as int - ('A' as u32) as int
    } else if ('a' as u32) <= u <= ('f' as u32) {
        10 + u as int - ('a' as u32) as int
    } else {
        -1
    }
}

/// Whether the character is a hex digit.
pub open spec fn is_hex_digit(c: char) -> bool {
    hex_digit_val(c) >= 0
}

/// The byte a pair of hex digits denotes.
pub open spec fn hex_pair(h: char, l: char) -> int {
    16 * hex_digit_val(h) + hex_digit_val(l)
}

/// Whether the string has the `#RRGGBB` shape: a hash and six hex digits.
pub open spec fn is_hex_color(s: Seq<char>) -> bool {
    s.len() == 7 && s[0] == '#' && (forall|i: int| 1 <= i <= 6 ==> is_hex_digit(#[trigger] s[i]))
}

/// The palette value a wire string denotes: the RGB triple of a
/// `#RRGGBB` form, the entry of a known name, and the default Cyan for
/// anything else.
pub open spec fn palette_of(s: Seq<char>) -> PaletteColor {
    if is_hex_color(s) {
        PaletteColor::Rgb(
            hex_pair(s[1], s[2]) as u8,
            hex_pair(s[3], s[4]) as u8,
            hex_pair(s[5], s[6]) as u8,
        )
    } else if s == "Red"@ {
        PaletteColor::Red
    } else if s == "Green"@ {
        PaletteColor::Green
    } else if s == "Blue"@ {
        PaletteColor::Blue
    } else if s == "Yellow"@ {
        PaletteColor::Yellow
    } else if s == "Cyan"@ {
        PaletteColor::Cyan
    } else if s == "Magenta"@ {
        PaletteColor::Magenta
    } else if s == "White"@ {
        PaletteColor::White
    } else if s == "Black"@ {
        PaletteColor::Black
    } else {
        PaletteColor::Cyan
    }
}

/// The upper-case hex digit character of a value below sixteen.
pub open spec fn hex_char(v: int) -> char {
    if 0 <= v < 10 {
        ((('0' as u32) + v) as u8) as char
    } else if 10 <= v < 16 {
        ((('A' as u32) + v - 10) as u8) as char
    } else {
        '0'
    }
}

/// The canonical string of a palette value: its name, or `#RRGGBB` with
/// upper-case hex digits.
pub open spec fn canonical_of(c: PaletteColor) -> Seq<char> {
    match c {
        PaletteColor::Rgb(r, g, b) => seq![
            '#',
            hex_char(r as int / 16),
            hex_char(r as int % 16),
            hex_char(g as int / 16),
            hex_char(g as int % 16),
            hex_char(b as int / 16),
            hex_char(b as int % 16),
        ],
        PaletteColor::Red => "Red"@,
        PaletteColor::Green => "Green"@,
        PaletteColor::Blue => "Blue"@,
        PaletteColor::Yellow => "Yellow"@,
        PaletteColor::Cyan => "Cyan"@,
        PaletteColor::Magenta => "Magenta"@,
        PaletteColor::White => "White"@,
        PaletteColor::Black => "Black"@,
    }
}

/// Parses one hex digit, upper- or lower-case.
fn hex_digit(c: char) -> (r: Option<u8>)
    ensures
        is_hex_digit(c) ==> (r matches Some(v) && v as int == hex_digit_val(c) && v < 16),
        !is_hex_digit(c) ==> r is None,
{
    let u = c as u32;
    if 48 <= u && u <= 57 {
        Some((u - 48) as u8)
    } else if 65 <= u && u <= 70 {
        Some((u - 55) as u8)
    } else if 97 <= u && u <= 102 {
        Some((u - 87) as u8)
    } else {
        None
    }
}

/// Whether the characters of `s` are exactly those of `name`.
fn chars_match(s: &str, name: &str) -> (r: bool)
    ensures
        r == (s@ == name@),
{
    let n = s.unicode_len();
    let m = name.unicode_len();
    if n != m {
        return false;
    }
    let mut i: usize = 0;
    while i < n
        invariant
            i <= n,
            n == s@.len(),
            n == name@.len(),
            forall|j: int| 0 <= j < i ==> s@[j] == name@[j],
        decreases n - i,
    {
        if s.get_char(i) != name.get_char(i) {
            return false;
        }
        i = i + 1;
    }
    proof {
        assert(s@ =~= name@);
    }
    true
}

impl UserColor {
    /// Normalizes the wire string to its structured palette value.
    pub fn to_palette(&self) -> (r: PaletteColor)
        ensures
            r == palette_of(self.0@),
    {
        let s = self.0.as_str();
        let n = s.unicode_len();
        if n == 7 && s.get_char(0) == '#' {
            let d1 = hex_digit(s.get_char(1));
            let d2 = hex_digit(s.get_char(2));
            let d3 = hex_digit(s.get_char(3));
            let d4 = hex_digit(s.get_char(4));
            let d5 = hex_digit(s.get_char(5));
            let d6 = hex_digit(s.get_char(6));
            match (d1, d2, d3, d4, d5, d6) {
                (Some(h1), Some(h2), Some(h3), Some(h4), Some(h5), Some(h6)) => {
                    proof {
                        assert forall|i: int| 1 <= i <= 6 implies is_hex_digit(
                            #[trigger] self.0@[i],
                        ) by {
                            assert(i == 1 || i == 2 || i == 3 || i == 4 || i == 5 || i == 6);
                        }
                        assert(is_hex_color(self.0@));
                    }
                    return PaletteColor::Rgb(h1 * 16 + h2, h3 * 16 + h4, h5 * 16 + h6);
                },
                _ => {
                    proof {
                        assert(!is_hex_color(self.0@)) by {
                            if is_hex_color(self.0@) {
                                assert(is_hex_digit(self.0@[1]));
                                assert(is_hex_digit(self.0@[2]));
                                assert(is_hex_digit(self.0@[3]));
                                assert(is_hex_digit(self.0@[4]));
                                assert(is_hex_digit(self.0@[5]));
                                assert(is_hex_digit(self.0@[6]));
                            }
                        }
                        assert(palette_of(self.0@) == PaletteColor::Cyan) by {
                            reveal_strlit("Red");
                            reveal_strlit("Green");
                            reveal_strlit("Blue");
                            reveal_strlit("Yellow");
                            reveal_strlit("Cyan");
                            reveal_strlit("Magenta");
                            reveal_strlit("White");
                            reveal_strlit("Black");
                        }
                    }
                    return PaletteColor::Cyan;
                },
            }
        }
        if chars_match(s, "Red") {
            return PaletteColor::Red;
        }
        if chars_match(s, "Green") {
            return PaletteColor::Green;
        }
        if chars_match(s, "Blue") {
            return PaletteColor::Blue;
        }
        if chars_match(s, "Yellow") {
            return PaletteColor::Yellow;
        }
        if chars_match(s, "Cyan") {
            return PaletteColor::Cyan;
        }
        if chars_match(s, "Magenta") {
            return PaletteColor::Magenta;
        }
        if chars_match(s, "White") {
            return PaletteColor::White;
        }
        if chars_match(s, "Black") {
            return PaletteColor::Black;
        }
        PaletteColor::Cyan
    }
}

/// Relies on String::push: appending one character appends exactly that
/// character to the string's text.
pub assume_specification[ String::push ](s: &mut String, c: char)
    ensures
        final(s)@ == old(s)@.push(c),
;

/// The upper-case hex digit character of a value below sixteen.
fn hex_char_of(v: u8) -> (c: char)
    requires
        v < 16,
    ensures
        c == hex_char(v as int),
{
    if v < 10 {
        (48 + v) as char
    } else {
        (55 + v) as char
    }
}

impl PaletteColor {
    /// Renders the canonical string form of this palette value.
    pub fn to_canonical(self) -> (r: UserColor)
        ensures
            r.0@ == canonical_of(self),
    {
        match self {
            PaletteColor::Rgb(r, g, b) => {
                let mut s = String::new();
                s.push('#');
                s.push(hex_char_of(r / 16));
                s.push(hex_char_of(r % 16));
                s.push(hex_char_of(g / 16));
                s.push(hex_char_of(g % 16));
                s.push(hex_char_of(b / 16));
                s.push(hex_char_of(b % 16));
                proof {
                    assert(s@ =~= canonical_of(self));
                }
                UserColor(s)
            },
            PaletteColor::Red => UserColor("Red".to_owned()),
            PaletteColor::Green => UserColor("Green".to_owned()),
            PaletteColor::Blue => UserColor("Blue".to_owned()),
            PaletteColor::Yellow => UserColor("Yellow".to_owned()),
            PaletteColor::Cyan => UserColor("Cyan".to_owned()),
            PaletteColor::Magenta => UserColor("Magenta".to_owned()),
            PaletteColor::White => UserColor("White".to_owned()),
            PaletteColor::Black => UserColor("Black".to_owned()),
        }
    }
}

/// A hex digit character denotes the value it was made from.
proof fn lemma_hex_char_val(v: int)
    requires
        0 <= v < 16,
    ensures
        hex_digit_val(hex_char(v)) == v,
{
    if 0 <= v < 10 {
        assert(hex_char(v) as u32 == 48 + v);
    } else {
        assert(hex_char(v) as u32 == 55 + v);
    }
}

/// Both wire forms name the same color: parsing the canonical string of
/// any palette value gives the value back.
#[verifier::rlimit(60)]
pub proof fn lemma_canonical_round_trip(c: PaletteColor)
    ensures
        palette_of(canonical_of(c)) == c,
{
    reveal_strlit("Red");
    reveal_strlit("Green");
    reveal_strlit("Blue");
    reveal_strlit("Yellow");
    reveal_strlit("Cyan");
    reveal_strlit("Magenta");
    reveal_strlit("White");
    reveal_strlit("Black");
    match c {
        PaletteColor::Rgb(r, g, b) => {
            let s = canonical_of(c);
            lemma_hex_char_val(r as int / 16);
            lemma_hex_char_val(r as int % 16);
            lemma_hex_char_val(g as int / 16);
            lemma_hex_char_val(g as int % 16);
            lemma_hex_char_val(b as int / 16);
            lemma_hex_char_val(b as int % 16);
            assert(is_hex_color(s)) by {
                assert(s[1] == hex_char(r as int / 16));
                assert(s[2] == hex_char(r as int % 16));
                assert(s[3] == hex_char(g as int / 16));
                assert(s[4] == hex_char(g as int % 16));
                assert(s[5] == hex_char(b as int / 16));
                assert(s[6] == hex_char(b as int % 16));
            }
            assert(hex_pair(s[1], s[2]) == r as int);
            assert(hex_pair(s[3], s[4]) == g as int);
            assert(hex_pair(s[5], s[6]) == b as int);
        },
        PaletteColor::Red => {
            assert(palette_of(canonical_of(c)) == c);
        },
        PaletteColor::Green => {
            assert(palette_of(canonical_of(c)) == c);
        },
        PaletteColor::Blue => {
            assert(palette_of(canonical_of(c)) == c);
        },
        PaletteColor::Yellow => {
            assert(palette_of(canonical_of(c)) == c);
        },
        PaletteColor::Cyan => {
            assert("Cyan"@ != "Blue"@) by {
                assert("Cyan"@[0] == 'C');
                assert("Blue"@[0] == 'B');
            }
            assert(palette_of(canonical_of(c)) == c);
        },
        PaletteColor::Magenta => {
            assert(palette_of(canonical_of(c)) == c);
        },
        PaletteColor::White => {
            assert("White"@ != "Green"@) by {
                assert("White"@[0] == 'W');
                assert("Green"@[0] == 'G');
            }
            assert(palette_of(canonical_of(c)) == c);
        },
        PaletteColor::Black => {
            assert("Black"@ != "Green"@) by {
                assert("Black"@[0] == 'B');
                assert("Green"@[0] == 'G');
            }
            assert("Black"@ != "White"@) by {
                assert("Black"@[0] == 'B');
                assert("White"@[0] == 'W');
            }
            assert(palette_of(canonical_of(c)) == c);
        },
    }
}

} // verus!
