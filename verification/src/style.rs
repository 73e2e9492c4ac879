//! Terminal colours and the painting of text with them.
use vstd::prelude::*;

use crate::text::decimal;

use ansiterm::Colour as A;
use ansiterm::Style;

verus! {

/// A terminal colour: one of the sixteen named colours, an index into the
/// 256-colour palette, a 24-bit colour, or the terminal's default colour.
#[derive(PartialEq, Eq, Structural, Clone, Copy, Debug)]
pub enum TermColour {
    Black,
    Red,
    Green,
    Yellow,
    Blue,
    Purple,
    Cyan,
    White,
    DarkGray,
    BrightRed,
    BrightGreen,
    BrightYellow,
    BrightBlue,
    BrightPurple,
    BrightCyan,
    BrightGray,
    Fixed(u8),
    RGB(u8, u8, u8),
    Default,
}

/// The index of a colour in the 256-colour palette, or its red, green and blue
/// components: the named colours are 0 to 15 in order, the default colour 16.
pub open spec fn colour_index(c: TermColour) -> Result<u8, (u8, u8, u8)> {
    match c {
        TermColour::Black => Ok(0),
        TermColour::Red => Ok(1),
        TermColour::Green => Ok(2),
        TermColour::Yellow => Ok(3),
        TermColour::Blue => Ok(4),
        TermColour::Purple => Ok(5),
        TermColour::Cyan => Ok(6),
        TermColour::White => Ok(7),
        TermColour::DarkGray => Ok(8),
        TermColour::BrightRed => Ok(9),
        TermColour::BrightGreen => Ok(10),
        TermColour::BrightYellow => Ok(11),
        TermColour::BrightBlue => Ok(12),
        TermColour::BrightPurple => Ok(13),
        TermColour::BrightCyan => Ok(14),
        TermColour::BrightGray => Ok(15),
        TermColour::Fixed(i) => Ok(i),
        TermColour::RGB(r, g, b) => Err((r, g, b)),
        TermColour::Default => Ok(16),
    }
}

impl TermColour {
    /// The index of this colour in the 256-colour palette, or its red, green
    /// and blue components.
    pub fn into_index(self) -> (r: Result<u8, (u8, u8, u8)>)
        ensures
            r == colour_index(self),
    {
        match self {
            TermColour::Black => Ok(0),
            TermColour::Red => Ok(1),
            TermColour::Green => Ok(2),
            TermColour::Yellow => Ok(3),
            TermColour::Blue => Ok(4),
            TermColour::Purple => Ok(5),
            TermColour::Cyan => Ok(6),
            TermColour::White => Ok(7),
            TermColour::DarkGray => Ok(8),
            TermColour::BrightRed => Ok(9),
            TermColour::BrightGreen => Ok(10),
            TermColour::BrightYellow => Ok(11),
            TermColour::BrightBlue => Ok(12),
            TermColour::BrightPurple => Ok(13),
            TermColour::BrightCyan => Ok(14),
            TermColour::BrightGray => Ok(15),
            TermColour::Fixed(i) => Ok(i),
            TermColour::RGB(r, g, b) => Err((r, g, b)),
            TermColour::Default => Ok(16),
        }
    }
}

/// The order of `Result<u8, (u8, u8, u8)>`: every palette index before every
/// 24-bit colour, indexes by value, 24-bit colours by red, then green, then blue.
pub open spec fn index_le(a: Result<u8, (u8, u8, u8)>, b: Result<u8, (u8, u8, u8)>) -> bool {
    match (a, b) {
        (Ok(x), Ok(y)) => x <= y,
        (Ok(_), Err(_)) => true,
        (Err(_), Ok(_)) => false,
        (Err((r1, g1, b1)), Err((r2, g2, b2))) => r1 < r2 || (r1 == r2 && (g1 < g2 || (g1 == g2
            && b1 <= b2))),
    }
}

/// Whether `a` comes before `b` or equals it in the order of [`index_le`].
pub fn index_le_exec(a: Result<u8, (u8, u8, u8)>, b: Result<u8, (u8, u8, u8)>) -> (r: bool)
    ensures
        r == index_le(a, b),
{
    match (a, b) {
        (Ok(x), Ok(y)) => x <= y,
        (Ok(_), Err(_)) => true,
        (Err(_), Ok(_)) => false,
        (Err((r1, g1, b1)), Err((r2, g2, b2))) => r1 < r2 || (r1 == r2 && (g1 < g2 || (g1 == g2
            && b1 <= b2))),
    }
}

/// How `ansiterm` names a colour: one of its seventeen named colours (the
/// sixteen of the palette in order, then the default colour), an index into
/// the 256-colour palette, or red, green and blue components.
#[derive(PartialEq, Eq, Structural, Clone, Copy, Debug)]
pub enum PaletteEntry {
    Named(u8),
    Fixed(u8),
    Rgb(u8, u8, u8),
}

/// The palette entry of a colour.
pub open spec fn palette_entry(c: TermColour) -> PaletteEntry {
    match c {
        TermColour::Fixed(i) => PaletteEntry::Fixed(i),
        TermColour::RGB(r, g, b) => PaletteEntry::Rgb(r, g, b),
        TermColour::Default => PaletteEntry::Named(16),
        _ => PaletteEntry::Named(colour_index(c)->Ok_0),
    }
}

impl TermColour {
    /// The palette entry of this colour.
    pub fn palette_entry(self) -> (r: PaletteEntry)
        ensures
            r == palette_entry(self),
            r matches PaletteEntry::Named(i) ==> i <= 16,
    {
        match self {
            TermColour::Fixed(i) => PaletteEntry::Fixed(i),
            TermColour::RGB(r, g, b) => PaletteEntry::Rgb(r, g, b),
            TermColour::Default => PaletteEntry::Named(16),
            _ => match self.into_index() {
                Ok(i) => PaletteEntry::Named(i),
                Err(_) => PaletteEntry::Named(16),
            },
        }
    }
}

/// The code that selects the foreground colour `entry`: `30` to `37` for the
/// first eight named colours, `90` to `97` for the bright ones, `39` for the
/// default colour, `38;5;i` for a palette index and `38;2;r;g;b` for red,
/// green and blue components.
pub open spec fn foreground_code(entry: PaletteEntry) -> Seq<char> {
    match entry {
        PaletteEntry::Named(i) => if i < 8 {
            seq!['3'] + decimal(i as nat)
        } else if i < 16 {
            seq!['9'] + decimal((i - 8) as nat)
        } else {
            seq!['3', '9']
        },
        PaletteEntry::Fixed(i) => seq!['3', '8', ';', '5', ';'] + decimal(i as nat),
        PaletteEntry::Rgb(r, g, b) => seq!['3', '8', ';', '2', ';'] + decimal(r as nat) + seq![';']
            + decimal(g as nat) + seq![';'] + decimal(b as nat),
    }
}

/// The codes of a style with foreground colour `entry`: `1` where bold, `2`
/// where dimmed, then the colour's code, separated by `;`.
pub open spec fn style_codes(entry: PaletteEntry, bold: bool, dimmed: bool) -> Seq<char> {
    (if bold { seq!['1', ';'] } else { Seq::empty() }) + (if dimmed { seq!['2', ';'] } else {
        Seq::empty()
    }) + foreground_code(entry)
}

/// What `ansiterm` writes for `text` painted with foreground colour `entry`,
/// bold and dimmed as given: the escape sequence `ESC [ codes m`, the text,
/// and the reset sequence `ESC [ 0 m`.
pub open spec fn painted_entry(entry: PaletteEntry, bold: bool, dimmed: bool, text: Seq<char>) -> Seq<char> {
    seq!['\u{1b}', '['] + style_codes(entry, bold, dimmed) + seq!['m'] + text + seq!['\u{1b}', '[', '0', 'm']
}

/// `text` painted in `colour`, bold and dimmed as given.
pub open spec fn painted(colour: TermColour, bold: bool, dimmed: bool, text: Seq<char>) -> Seq<char> {
    painted_entry(palette_entry(colour), bold, dimmed, text)
}

/// Calls `ansiterm`'s `Style::paint` for the style with the foreground colour
/// of `entry` (a named colour taken from `ansiterm`'s named colours in palette
/// order, the default colour last), bold and dimmed as given, and writes the
/// painted string with `to_string`. A style with a foreground colour is never
/// plain, so `ansiterm` writes the style's prefix, the text and its reset
/// suffix, as [`painted_entry`] spells them out.
#[verifier::external_body]
fn paint_entry(entry: PaletteEntry, bold: bool, dimmed: bool, text: &str) -> (r: String)
    requires
        entry matches PaletteEntry::Named(i) ==> i <= 16,
    ensures
        r@ == painted_entry(entry, bold, dimmed, text@),
{
    let named = [A::Black, A::Red, A::Green, A::Yellow, A::Blue, A::Purple, A::Cyan, A::White,
        A::DarkGray, A::BrightRed, A::BrightGreen, A::BrightYellow, A::BrightBlue,
        A::BrightPurple, A::BrightCyan, A::BrightGray, A::Default];
    let colour = match entry {
        PaletteEntry::Named(i) => named[i as usize],
        PaletteEntry::Fixed(i) => A::Fixed(i),
        PaletteEntry::Rgb(r, g, b) => A::RGB(r, g, b),
    };
    let style = Style { foreground: Some(colour), is_bold: bold, is_dimmed: dimmed, ..Style::new() };
    style.paint(text).to_string()
}

/// `text` painted in the foreground colour `colour`, bold and dimmed as given.
pub fn paint(colour: TermColour, bold: bool, dimmed: bool, text: &str) -> (r: String)
    ensures
        r@ == painted(colour, bold, dimmed, text@),
{
    paint_entry(colour.palette_entry(), bold, dimmed, text)
}

} // verus!
