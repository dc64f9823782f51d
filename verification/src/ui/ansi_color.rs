//! ANSI styling of device output: terminal colors, hexadecimal color literals, and
//! the styled spans that the log views draw.

use vstd::prelude::*;
use vstd::string::*;
use crate::text::push_char;
use crate::types::LogMsgType;

verus! {

/// A color with 8 bits per channel.
#[derive(Clone, Copy, PartialEq, Eq, Structural, Debug)]
pub struct Rgb8 {
    pub r: u8,
    pub g: u8,
    pub b: u8,
}

/// The sixteen ANSI terminal colors, in the order of their SGR codes (30-37, 90-97).
#[derive(Clone, Copy, PartialEq, Eq, Structural, Debug)]
pub enum AnsiColor {
    Black,
    Red,
    Green,
    Yellow,
    Blue,
    Magenta,
    Cyan,
    White,
    BrightBlack,
    BrightRed,
    BrightGreen,
    BrightYellow,
    BrightBlue,
    BrightMagenta,
    BrightCyan,
    BrightWhite,
}

impl AnsiColor {
    /// The color at a position of the list (0 is black, 15 bright white).
    pub open spec fn spec_from_index(i: u8) -> AnsiColor {
        if i == 0 {
            AnsiColor::Black
        } else if i == 1 {
            AnsiColor::Red
        } else if i == 2 {
            AnsiColor::Green
        } else if i == 3 {
            AnsiColor::Yellow
        } else if i == 4 {
            AnsiColor::Blue
        } else if i == 5 {
            AnsiColor::Magenta
        } else if i == 6 {
            AnsiColor::Cyan
        } else if i == 7 {
            AnsiColor::White
        } else if i == 8 {
            AnsiColor::BrightBlack
        } else if i == 9 {
            AnsiColor::BrightRed
        } else if i == 10 {
            AnsiColor::BrightGreen
        } else if i == 11 {
            AnsiColor::BrightYellow
        } else if i == 12 {
            AnsiColor::BrightBlue
        } else if i == 13 {
            AnsiColor::BrightMagenta
        } else if i == 14 {
            AnsiColor::BrightCyan
        } else {
            AnsiColor::BrightWhite
        }
    }

    /// The color at a position of the list (0 is black, 15 bright white).
    pub fn from_index(i: u8) -> (c: AnsiColor)
        requires
            i < 16,
        ensures
            c == Self::spec_from_index(i),
    {
        if i == 0 {
            AnsiColor::Black
        } else if i == 1 {
            AnsiColor::Red
        } else if i == 2 {
            AnsiColor::Green
        } else if i == 3 {
            AnsiColor::Yellow
        } else if i == 4 {
            AnsiColor::Blue
        } else if i == 5 {
            AnsiColor::Magenta
        } else if i == 6 {
            AnsiColor::Cyan
        } else if i == 7 {
            AnsiColor::White
        } else if i == 8 {
            AnsiColor::BrightBlack
        } else if i == 9 {
            AnsiColor::BrightRed
        } else if i == 10 {
            AnsiColor::BrightGreen
        } else if i == 11 {
            AnsiColor::BrightYellow
        } else if i == 12 {
            AnsiColor::BrightBlue
        } else if i == 13 {
            AnsiColor::BrightMagenta
        } else if i == 14 {
            AnsiColor::BrightCyan
        } else {
            AnsiColor::BrightWhite
        }
    }
}

impl AnsiColor {
    /// The SGR code that selects this color for the text: 30 to 37 for black, red,
    /// green, yellow, blue, magenta, cyan and white, and 90 to 97 for their bright forms.
    pub open spec fn sgr_foreground(self) -> nat {
        match self {
            AnsiColor::Black => 30,
            AnsiColor::Red => 31,
            AnsiColor::Green => 32,
            AnsiColor::Yellow => 33,
            AnsiColor::Blue => 34,
            AnsiColor::Magenta => 35,
            AnsiColor::Cyan => 36,
            AnsiColor::White => 37,
            AnsiColor::BrightBlack => 90,
            AnsiColor::BrightRed => 91,
            AnsiColor::BrightGreen => 92,
            AnsiColor::BrightYellow => 93,
            AnsiColor::BrightBlue => 94,
            AnsiColor::BrightMagenta => 95,
            AnsiColor::BrightCyan => 96,
            AnsiColor::BrightWhite => 97,
        }
    }
}

/// The colors are numbered in the order of their SGR codes: position `k` below 8 is
/// the color that code `30 + k` selects, and position `8 + k` its bright form, code
/// `90 + k` (so position 3, SGR 33, is yellow). Different positions are different colors.
pub proof fn colors_follow_sgr_order(i: u8, j: u8)
    requires
        i < 16,
        j < 16,
    ensures
        AnsiColor::spec_from_index(i).sgr_foreground() == (if i < 8 {
            30 + i
        } else {
            82 + i
        }),
        i != j ==> AnsiColor::spec_from_index(i) != AnsiColor::spec_from_index(j),
{
}

/// The value of a hexadecimal digit, or -1 for another character.
pub open spec fn hex_value(c: char) -> int {
    if '0' <= c && c <= '9' {
        c as int - 48
    } else if 'a' <= c && c <= 'f' {
        c as int - 87
    } else if 'A' <= c && c <= 'F' {
        c as int - 55
    } else {
        -1
    }
}

/// `#RRGGBB` with six hexadecimal digits of either case.
pub open spec fn is_hex_color(s: Seq<char>) -> bool {
    &&& s.len() == 7
    &&& s[0] == '#'
    &&& forall|i: int| 1 <= i < 7 ==> hex_value(#[trigger] s[i]) >= 0
}

/// The byte written by two hexadecimal digits.
pub open spec fn hex_byte_value(hi: char, lo: char) -> u8 {
    (hex_value(hi) * 16 + hex_value(lo)) as u8
}

/// The color that `#RRGGBB` writes.
pub open spec fn hex_color_value(s: Seq<char>) -> Rgb8 {
    Rgb8 {
        r: hex_byte_value(s[1], s[2]),
        g: hex_byte_value(s[3], s[4]),
        b: hex_byte_value(s[5], s[6]),
    }
}

fn hex_nibble(c: char) -> (v: u8)
    requires
        hex_value(c) >= 0,
    ensures
        v == hex_value(c),
{
    if '0' <= c && c <= '9' {
        (c as u32 - 48) as u8
    } else if 'a' <= c && c <= 'f' {
        (c as u32 - 87) as u8
    } else {
        (c as u32 - 55) as u8
    }
}

fn hex_byte(hi: char, lo: char) -> (v: u8)
    requires
        hex_value(hi) >= 0,
        hex_value(lo) >= 0,
    ensures
        v == hex_byte_value(hi, lo),
{
    let h = hex_nibble(hi);
    let l = hex_nibble(lo);
    h * 16 + l
}

/// Reads a `#RRGGBB` color literal. The color is handed to `iced::Color::from_rgb8`
/// by the screens; a malformed literal is a programming error and is ruled out here.
pub fn str_color_to_iced_color(s: &str) -> (c: Rgb8)
    requires
        is_hex_color(s@),
    ensures
        c == hex_color_value(s@),
{
    let r = hex_byte(s.get_char(1), s.get_char(2));
    let g = hex_byte(s.get_char(3), s.get_char(4));
    let b = hex_byte(s.get_char(5), s.get_char(6));
    Rgb8 { r, g, b }
}


/// The color that the log views draw for each ANSI color.
pub open spec fn ansi_rgb(color: AnsiColor) -> Rgb8 {
    match color {
        AnsiColor::Black => Rgb8 { r: 0x00, g: 0x00, b: 0x00 },
        AnsiColor::Red => Rgb8 { r: 0xa0, g: 0x30, b: 0x30 },
        AnsiColor::Green => Rgb8 { r: 0x00, g: 0xa0, b: 0x00 },
        AnsiColor::Yellow => Rgb8 { r: 0xa0, g: 0x90, b: 0x30 },
        AnsiColor::Blue => Rgb8 { r: 0x20, g: 0x50, b: 0xb0 },
        AnsiColor::Magenta => Rgb8 { r: 0x90, g: 0x30, b: 0x90 },
        AnsiColor::Cyan => Rgb8 { r: 0x30, g: 0x90, b: 0x90 },
        AnsiColor::White => Rgb8 { r: 0xa0, g: 0xa0, b: 0xa0 },
        AnsiColor::BrightBlack => Rgb8 { r: 0x50, g: 0x50, b: 0x50 },
        AnsiColor::BrightRed => Rgb8 { r: 0xf0, g: 0x30, b: 0x30 },
        AnsiColor::BrightGreen => Rgb8 { r: 0x00, g: 0xf0, b: 0x00 },
        AnsiColor::BrightYellow => Rgb8 { r: 0xf0, g: 0xc0, b: 0x30 },
        AnsiColor::BrightBlue => Rgb8 { r: 0x20, g: 0x50, b: 0xf0 },
        AnsiColor::BrightMagenta => Rgb8 { r: 0xf0, g: 0x30, b: 0xf0 },
        AnsiColor::BrightCyan => Rgb8 { r: 0x30, g: 0xf0, b: 0xf0 },
        AnsiColor::BrightWhite => Rgb8 { r: 0xf0, g: 0xf0, b: 0xf0 },
    }
}

/// The color that the log views draw for an ANSI color.
pub fn cansi_color_to_iced_color(color: AnsiColor) -> (c: Rgb8)
    ensures
        c == ansi_rgb(color),
{
    match color {
        AnsiColor::Black => {
            proof { reveal_strlit("#000000"); }
            str_color_to_iced_color("#000000")
        },
        AnsiColor::Red => {
            proof { reveal_strlit("#a03030"); }
            str_color_to_iced_color("#a03030")
        },
        AnsiColor::Green => {
            proof { reveal_strlit("#00a000"); }
            str_color_to_iced_color("#00a000")
        },
        AnsiColor::Yellow => {
            proof { reveal_strlit("#a09030"); }
            str_color_to_iced_color("#a09030")
        },
        AnsiColor::Blue => {
            proof { reveal_strlit("#2050b0"); }
            str_color_to_iced_color("#2050b0")
        },
        AnsiColor::Magenta => {
            proof { reveal_strlit("#903090"); }
            str_color_to_iced_color("#903090")
        },
        AnsiColor::Cyan => {
            proof { reveal_strlit("#309090"); }
            str_color_to_iced_color("#309090")
        },
        AnsiColor::White => {
            proof { reveal_strlit("#a0a0a0"); }
            str_color_to_iced_color("#a0a0a0")
        },
        AnsiColor::BrightBlack => {
            proof { reveal_strlit("#505050"); }
            str_color_to_iced_color("#505050")
        },
        AnsiColor::BrightRed => {
            proof { reveal_strlit("#f03030"); }
            str_color_to_iced_color("#f03030")
        },
        AnsiColor::BrightGreen => {
            proof { reveal_strlit("#00f000"); }
            str_color_to_iced_color("#00f000")
        },
        AnsiColor::BrightYellow => {
            proof { reveal_strlit("#f0c030"); }
            str_color_to_iced_color("#f0c030")
        },
        AnsiColor::BrightBlue => {
            proof { reveal_strlit("#2050f0"); }
            str_color_to_iced_color("#2050f0")
        },
        AnsiColor::BrightMagenta => {
            proof { reveal_strlit("#f030f0"); }
            str_color_to_iced_color("#f030f0")
        },
        AnsiColor::BrightCyan => {
            proof { reveal_strlit("#30f0f0"); }
            str_color_to_iced_color("#30f0f0")
        },
        AnsiColor::BrightWhite => {
            proof { reveal_strlit("#f0f0f0"); }
            str_color_to_iced_color("#f0f0f0")
        },
    }
}


/// The intensity that an SGR code sets.
#[derive(Clone, Copy, PartialEq, Eq, Structural, Debug)]
pub enum Intensity {
    Normal,
    Bold,
    Faint,
}

/// One run of text as cansi reports it: its text, the byte offset at which it starts,
/// and the attributes that the escape sequence just before it sets. Colors and
/// intensity are given by their position in cansi's `Color` and `Intensity` enums.
pub struct RawSlice {
    pub text: String,
    pub start: usize,
    pub fg: Option<u8>,
    pub bg: Option<u8>,
    pub intensity: Option<u8>,
    pub italic: Option<bool>,
    pub underline: Option<bool>,
    pub strikethrough: Option<bool>,
    pub blink: Option<bool>,
    pub reversed: Option<bool>,
    pub hidden: Option<bool>,
}

/// A `RawSlice` with its text as a sequence of characters.
pub struct RawSliceView {
    pub text: Seq<char>,
    pub start: usize,
    pub fg: Option<u8>,
    pub bg: Option<u8>,
    pub intensity: Option<u8>,
    pub italic: Option<bool>,
    pub underline: Option<bool>,
    pub strikethrough: Option<bool>,
    pub blink: Option<bool>,
    pub reversed: Option<bool>,
    pub hidden: Option<bool>,
}

impl View for RawSlice {
    type V = RawSliceView;

    open spec fn view(&self) -> RawSliceView {
        RawSliceView {
            text: self.text@,
            start: self.start,
            fg: self.fg,
            bg: self.bg,
            intensity: self.intensity,
            italic: self.italic,
            underline: self.underline,
            strikethrough: self.strikethrough,
            blink: self.blink,
            reversed: self.reversed,
            hidden: self.hidden,
        }
    }
}

/// What `cansi::v3::categorise_text` makes of a text: its runs of text between the
/// escape sequences, in order, each with the attributes of the sequence before it.
pub uninterp spec fn categorised(text: Seq<char>) -> Seq<RawSliceView>;

/// `cansi::v3::categorise_text`, each slice read into plain values. Its result is
/// named `categorised(text)`; the one fact stated beside the name is that the
/// positions stay within cansi's enums (16 colors, 3 intensities).
#[verifier::external_body]
fn categorise_raw(text: &str) -> (slices: Vec<RawSlice>)
    ensures
        slices@.map_values(|s: RawSlice| s@) == categorised(text@),
        forall|i: int|
            0 <= i < slices@.len() ==> {
                &&& (#[trigger] slices@[i]).fg matches Some(c) ==> c < 16
                &&& slices@[i].bg matches Some(c) ==> c < 16
                &&& slices@[i].intensity matches Some(k) ==> k < 3
            },
{
    cansi::v3::categorise_text(text).into_iter().map(|s| RawSlice {
        text: s.text.to_string(),
        start: s.start,
        fg: s.fg.map(|c| c as u8),
        bg: s.bg.map(|c| c as u8),
        intensity: s.intensity.map(|k| k as u8),
        italic: s.italic,
        underline: s.underline,
        strikethrough: s.strikethrough,
        blink: s.blink,
        reversed: s.reversed,
        hidden: s.hidden,
    }).collect()
}

/// What `cansi::parse` finds in a text: each escape sequence, in order, with the byte
/// offset just past it.
pub uninterp spec fn escape_sequences(text: Seq<char>) -> Seq<(Seq<char>, usize)>;

/// `cansi::parse`, each match read as its text and the byte offset where it ends. Its
/// result is named `escape_sequences(text)`.
#[verifier::external_body]
fn parse_escapes(text: &str) -> (found: Vec<(String, usize)>)
    ensures
        found@.map_values(|e: (String, usize)| (e.0@, e.1)) == escape_sequences(text@),
{
    cansi::parse(text).into_iter().map(|m| (m.text.to_string(), m.end)).collect()
}

/// The attributes of an ANSI style. `None` leaves an attribute as the view draws it
/// by default.
#[derive(Clone, Copy, Debug)]
pub struct AnsiStyle {
    pub fg: Option<AnsiColor>,
    pub bg: Option<AnsiColor>,
    pub intensity: Option<Intensity>,
    pub italic: Option<bool>,
    pub underline: Option<bool>,
    pub strikethrough: Option<bool>,
    pub blink: Option<bool>,
    pub reversed: Option<bool>,
    pub hidden: Option<bool>,
}

/// The style that sets nothing: what a text starts in, and what a reset leaves.
pub open spec fn plain_style() -> AnsiStyle {
    AnsiStyle {
        fg: None,
        bg: None,
        intensity: None,
        italic: None,
        underline: None,
        strikethrough: None,
        blink: None,
        reversed: None,
        hidden: None,
    }
}

/// The color at a position of cansi's `Color` enum.
pub open spec fn color_at(code: Option<u8>) -> Option<AnsiColor> {
    match code {
        Some(i) => Some(AnsiColor::spec_from_index(i)),
        None => None,
    }
}

/// The intensity at a position of cansi's `Intensity` enum.
pub open spec fn intensity_at(code: Option<u8>) -> Option<Intensity> {
    match code {
        Some(k) => Some(
            if k == 0 {
                Intensity::Normal
            } else if k == 1 {
                Intensity::Bold
            } else {
                Intensity::Faint
            },
        ),
        None => None,
    }
}

/// The attributes that cansi reports for a run.
pub open spec fn raw_style(raw: RawSliceView) -> AnsiStyle {
    AnsiStyle {
        fg: color_at(raw.fg),
        bg: color_at(raw.bg),
        intensity: intensity_at(raw.intensity),
        italic: raw.italic,
        underline: raw.underline,
        strikethrough: raw.strikethrough,
        blink: raw.blink,
        reversed: raw.reversed,
        hidden: raw.hidden,
    }
}

/// `new` where it is set, else `old`.
pub open spec fn overriding<T>(new: Option<T>, old: Option<T>) -> Option<T> {
    if new is Some {
        new
    } else {
        old
    }
}

/// The parameters of an escape sequence, split at each `;` (of `1;31`, the parameters
/// `1` and `31`; of the empty text, one empty parameter).
pub open spec fn split_params(p: Seq<char>) -> Seq<Seq<char>>
    decreases p.len(),
{
    if p.len() == 0 {
        seq![Seq::<char>::empty()]
    } else {
        let before = split_params(p.drop_last());
        if p.last() == ';' {
            before.push(Seq::<char>::empty())
        } else {
            before.update(before.len() - 1, before.last().push(p.last()))
        }
    }
}

/// A parameter that resets the style: `0`, or an empty one.
pub open spec fn resetting_param(param: Seq<char>) -> bool {
    param == Seq::<char>::empty() || param == seq!['0']
}

/// Whether an escape sequence `ESC[...x` resets the style: one of the parameters
/// between `ESC[` and its final character is `0` or empty (as in `ESC[0;34m` and
/// `ESC[m`).
pub open spec fn sequence_resets(sequence: Seq<char>) -> bool {
    &&& sequence.len() >= 3
    &&& exists|i: int|
        0 <= i < split_params(sequence.subrange(2, sequence.len() - 1)).len() && resetting_param(
            #[trigger] split_params(sequence.subrange(2, sequence.len() - 1))[i],
        )
}

/// The attributes that one escape sequence sets, as cansi reads them for a character
/// written right after the sequence. (cansi reads the parameters in order and starts
/// afresh at a `0`, so these are the attributes set after the last reset.)
pub open spec fn sequence_style(sequence: Seq<char>) -> AnsiStyle {
    let runs = categorised(sequence.push('x'));
    if runs.len() > 0 {
        raw_style(runs[0])
    } else {
        plain_style()
    }
}

/// What one escape sequence does to the style, and the byte offset where it ends.
#[derive(Clone, Copy, Debug)]
pub struct EscapeEffect {
    pub end: usize,
    /// The sequence resets the style before setting its attributes.
    pub resets: bool,
    /// The attributes that the sequence sets.
    pub sets: AnsiStyle,
}

/// The effect of an escape sequence found at `found` (its text, and where it ends).
pub open spec fn effect_of(found: (Seq<char>, usize)) -> EscapeEffect {
    EscapeEffect { end: found.1, resets: sequence_resets(found.0), sets: sequence_style(found.0) }
}

/// The effects of the escape sequences of `text`, in order.
pub open spec fn escape_effects(text: Seq<char>) -> Seq<EscapeEffect> {
    escape_sequences(text).map_values(|found: (Seq<char>, usize)| effect_of(found))
}

/// The style after an escape sequence: it starts from the plain style if the
/// sequence resets, else from `style`, and changes the attributes that `set` sets.
pub open spec fn apply_sequence(style: AnsiStyle, resets: bool, set: AnsiStyle) -> AnsiStyle {
    let base = if resets {
        plain_style()
    } else {
        style
    };
    AnsiStyle {
        fg: overriding(set.fg, base.fg),
        bg: overriding(set.bg, base.bg),
        intensity: overriding(set.intensity, base.intensity),
        italic: overriding(set.italic, base.italic),
        underline: overriding(set.underline, base.underline),
        strikethrough: overriding(set.strikethrough, base.strikethrough),
        blink: overriding(set.blink, base.blink),
        reversed: overriding(set.reversed, base.reversed),
        hidden: overriding(set.hidden, base.hidden),
    }
}

/// The style after those of the escape sequences `effects` that end at or before the
/// byte offset `pos`, applied in order from the plain style.
pub open spec fn style_before(effects: Seq<EscapeEffect>, pos: int) -> AnsiStyle
    decreases effects.len(),
{
    if effects.len() == 0 {
        plain_style()
    } else {
        let before = style_before(effects.drop_last(), pos);
        let e = effects.last();
        if e.end <= pos {
            apply_sequence(before, e.resets, e.sets)
        } else {
            before
        }
    }
}

/// The style in force at the byte offset `pos` of `text`: all the escape sequences
/// before it, applied in order, as a terminal does.
pub open spec fn style_at(text: Seq<char>, pos: int) -> AnsiStyle {
    style_before(escape_effects(text), pos)
}

/// Escape sequences combine as on a terminal: a sequence that resets clears the style
/// and then sets its attributes; any other sequence changes the attributes it sets
/// and keeps the others; and repeating a sequence changes nothing more.
pub proof fn sequences_combine(style: AnsiStyle, resets: bool, set: AnsiStyle)
    ensures
        resets ==> apply_sequence(style, resets, set) == apply_sequence(plain_style(), false, set),
        resets && set == plain_style() ==> apply_sequence(style, resets, set) == plain_style(),
        !resets ==> {
            let after = apply_sequence(style, resets, set);
            &&& after.fg == (if set.fg is Some { set.fg } else { style.fg })
            &&& after.bg == (if set.bg is Some { set.bg } else { style.bg })
            &&& after.intensity == (if set.intensity is Some { set.intensity } else { style.intensity })
            &&& after.italic == (if set.italic is Some { set.italic } else { style.italic })
            &&& after.underline == (if set.underline is Some { set.underline } else { style.underline })
            &&& after.strikethrough == (if set.strikethrough is Some {
                set.strikethrough
            } else {
                style.strikethrough
            })
        },
        apply_sequence(apply_sequence(style, resets, set), resets, set) == apply_sequence(style, resets, set),
{
}

/// A run of text in a single ANSI style. `None` means the style does not set that attribute.
#[derive(Debug)]
pub struct AnsiSlice {
    pub text: String,
    pub fg: Option<AnsiColor>,
    pub bg: Option<AnsiColor>,
    pub intensity: Option<Intensity>,
    pub italic: Option<bool>,
    pub underline: Option<bool>,
    pub strikethrough: Option<bool>,
}

impl Clone for AnsiSlice {
    fn clone(&self) -> (c: Self)
        ensures
            c == *self,
    {
        AnsiSlice { text: self.text.clone(), ..*self }
    }
}

/// `slice` is the text `text` drawn in the drawable attributes of `style`.
pub open spec fn slice_is(slice: AnsiSlice, text: Seq<char>, style: AnsiStyle) -> bool {
    &&& slice.text@ == text
    &&& slice.fg == style.fg
    &&& slice.bg == style.bg
    &&& slice.intensity == style.intensity
    &&& slice.italic == style.italic
    &&& slice.underline == style.underline
    &&& slice.strikethrough == style.strikethrough
}

/// The `i`-th run of `text` with the style in force where it starts.
pub open spec fn run_of(slice: AnsiSlice, text: Seq<char>, i: int) -> bool {
    slice_is(slice, categorised(text)[i].text, style_at(text, categorised(text)[i].start as int))
}

fn color_from_code(code: Option<u8>) -> (c: Option<AnsiColor>)
    requires
        code matches Some(i) ==> i < 16,
    ensures
        c == color_at(code),
{
    match code {
        Some(i) => Some(AnsiColor::from_index(i)),
        None => None,
    }
}

fn intensity_from_code(code: Option<u8>) -> (k: Option<Intensity>)
    ensures
        k == intensity_at(code),
{
    match code {
        Some(0) => Some(Intensity::Normal),
        Some(1) => Some(Intensity::Bold),
        Some(_) => Some(Intensity::Faint),
        None => None,
    }
}

fn plain() -> (s: AnsiStyle)
    ensures
        s == plain_style(),
{
    AnsiStyle {
        fg: None,
        bg: None,
        intensity: None,
        italic: None,
        underline: None,
        strikethrough: None,
        blink: None,
        reversed: None,
        hidden: None,
    }
}

fn pick<T: Copy>(new: Option<T>, old: Option<T>) -> (r: Option<T>)
    ensures
        r == overriding(new, old),
{
    match new {
        Some(_) => new,
        None => old,
    }
}

/// The style after an escape sequence.
fn apply(style: AnsiStyle, resets: bool, set: AnsiStyle) -> (r: AnsiStyle)
    ensures
        r == apply_sequence(style, resets, set),
{
    let base = if resets {
        plain()
    } else {
        style
    };
    AnsiStyle {
        fg: pick(set.fg, base.fg),
        bg: pick(set.bg, base.bg),
        intensity: pick(set.intensity, base.intensity),
        italic: pick(set.italic, base.italic),
        underline: pick(set.underline, base.underline),
        strikethrough: pick(set.strikethrough, base.strikethrough),
        blink: pick(set.blink, base.blink),
        reversed: pick(set.reversed, base.reversed),
        hidden: pick(set.hidden, base.hidden),
    }
}

proof fn lemma_split_params_nonempty(p: Seq<char>)
    ensures
        split_params(p).len() >= 1,
    decreases p.len(),
{
    if p.len() > 0 {
        lemma_split_params_nonempty(p.drop_last());
    }
}

/// Whether an escape sequence resets the style.
fn resets_style(sequence: &String) -> (b: bool)
    ensures
        b == sequence_resets(sequence@),
{
    let s = sequence.as_str();
    let n = s.unicode_len();
    if n < 3 {
        return false;
    }
    let ghost p = s@.subrange(2, n - 1);
    let mut found = false;
    let mut current_empty = true;
    let mut current_zero = false;
    let mut k: usize = 2;
    proof {
        assert(p.take(0) =~= Seq::<char>::empty());
        lemma_split_params_nonempty(p.take(0));
    }
    while k < n - 1
        invariant
            n == s@.len(),
            n >= 3,
            p == s@.subrange(2, n - 1),
            2 <= k <= n - 1,
            split_params(p.take(k - 2)).len() >= 1,
            found <==> exists|i: int|
                0 <= i < split_params(p.take(k - 2)).len() - 1 && resetting_param(
                    #[trigger] split_params(p.take(k - 2))[i],
                ),
            current_empty <==> split_params(p.take(k - 2)).last() == Seq::<char>::empty(),
            current_zero <==> split_params(p.take(k - 2)).last() == seq!['0'],
        decreases n - 1 - k,
    {
        let c = s.get_char(k);
        let ghost before = split_params(p.take(k - 2));
        let ghost q = p.take(k - 1);
        proof {
            assert(q.drop_last() =~= p.take(k - 2));
            assert(q.last() == c);
        }
        if c == ';' {
            let ghost after = before.push(Seq::<char>::empty());
            assert(split_params(q) == after);
            proof {
                if found || current_empty || current_zero {
                    if found {
                        let i = choose|i: int| 0 <= i < before.len() - 1 && resetting_param(#[trigger] before[i]);
                        assert(after[i] == before[i]);
                    } else {
                        assert(after[before.len() - 1] == before.last());
                    }
                }
                if exists|i: int| 0 <= i < after.len() - 1 && resetting_param(#[trigger] after[i]) {
                    let i = choose|i: int| 0 <= i < after.len() - 1 && resetting_param(#[trigger] after[i]);
                    assert(after[i] == before[i]);
                    if i < before.len() - 1 {
                    } else {
                        assert(before[i] == before.last());
                    }
                }
            }
            found = found || current_empty || current_zero;
            current_empty = true;
            current_zero = false;
            proof {
                assert(after.last() == Seq::<char>::empty());
            }
        } else {
            let ghost last = before.last().push(c);
            let ghost after = before.update(before.len() - 1, last);
            assert(split_params(q) == after);
            proof {
                if found {
                    let i = choose|i: int| 0 <= i < before.len() - 1 && resetting_param(#[trigger] before[i]);
                    assert(after[i] == before[i]);
                }
                if exists|i: int| 0 <= i < after.len() - 1 && resetting_param(#[trigger] after[i]) {
                    let i = choose|i: int| 0 <= i < after.len() - 1 && resetting_param(#[trigger] after[i]);
                    assert(after[i] == before[i]);
                }
                assert(after.last() == last);
                assert(last.len() == before.last().len() + 1);
                if last == seq!['0'] {
                    assert(last[last.len() - 1] == c);
                    assert(before.last().len() == 0);
                    assert(before.last() =~= Seq::<char>::empty());
                }
                if current_empty && c == '0' {
                    assert(last =~= seq!['0']);
                }
                assert(last != Seq::<char>::empty());
            }
            current_zero = current_empty && c == '0';
            current_empty = false;
        }
        k = k + 1;
    }
    proof {
        assert(p.take(k - 2) =~= p);
        let parts = split_params(p);
        if found || current_empty || current_zero {
            if found {
                let i = choose|i: int| 0 <= i < parts.len() - 1 && resetting_param(#[trigger] parts[i]);
                assert(resetting_param(parts[i]));
            } else {
                assert(resetting_param(parts[parts.len() - 1]));
            }
        }
        if exists|i: int| 0 <= i < parts.len() && resetting_param(#[trigger] parts[i]) {
            let i = choose|i: int| 0 <= i < parts.len() && resetting_param(#[trigger] parts[i]);
            if i < parts.len() - 1 {
                assert(resetting_param(parts[i]));
            } else {
                assert(parts[i] == parts.last());
            }
        }
    }
    found || current_empty || current_zero
}

/// The attributes that one escape sequence sets.
fn style_of_sequence(sequence: &String) -> (s: AnsiStyle)
    ensures
        s == sequence_style(sequence@),
{
    let mut probe = sequence.clone();
    push_char(&mut probe, 'x');
    let runs = categorise_raw(probe.as_str());
    proof {
        assert(runs@.len() > 0 ==> runs@[0]@ == categorised(sequence@.push('x'))[0]);
    }
    if runs.len() > 0 {
        let r = &runs[0];
        AnsiStyle {
            fg: color_from_code(r.fg),
            bg: color_from_code(r.bg),
            intensity: intensity_from_code(r.intensity),
            italic: r.italic,
            underline: r.underline,
            strikethrough: r.strikethrough,
            blink: r.blink,
            reversed: r.reversed,
            hidden: r.hidden,
        }
    } else {
        plain()
    }
}

/// Draws runs of text in the styles that escape sequences leave: each run (its text,
/// and the byte offset where it starts) in the style of the sequences that end at or
/// before its start, applied in order.
pub fn style_runs(runs: &Vec<RawSlice>, effects: &Vec<EscapeEffect>) -> (slices: Vec<AnsiSlice>)
    ensures
        slices@.len() == runs@.len(),
        forall|i: int|
            0 <= i < runs@.len() ==> slice_is(
                #[trigger] slices@[i],
                runs@[i].text@,
                style_before(effects@, runs@[i].start as int),
            ),
{
    let m = effects.len();
    let mut slices: Vec<AnsiSlice> = Vec::new();
    let n = runs.len();
    let mut i: usize = 0;
    while i < n
        invariant
            n == runs@.len(),
            m == effects@.len(),
            i <= n,
            slices@.len() == i,
            forall|j: int|
                0 <= j < i ==> slice_is(
                    #[trigger] slices@[j],
                    runs@[j].text@,
                    style_before(effects@, runs@[j].start as int),
                ),
        decreases n - i,
    {
        let start = runs[i].start;
        let mut style = plain();
        let mut k: usize = 0;
        while k < m
            invariant
                m == effects@.len(),
                k <= m,
                style == style_before(effects@.take(k as int), start as int),
            decreases m - k,
        {
            assert(effects@.take(k + 1).drop_last() =~= effects@.take(k as int));
            let e = effects[k];
            if e.end <= start {
                style = apply(style, e.resets, e.sets);
            }
            k = k + 1;
        }
        assert(effects@.take(m as int) =~= effects@);
        let slice = AnsiSlice {
            text: runs[i].text.clone(),
            fg: style.fg,
            bg: style.bg,
            intensity: style.intensity,
            italic: style.italic,
            underline: style.underline,
            strikethrough: style.strikethrough,
        };
        slices.push(slice);
        i = i + 1;
    }
    slices
}

/// Splits text with ANSI escape sequences into its runs of text between the
/// sequences, in order, each in the style in force where it starts: the sequences
/// before a run add up as on a terminal, and a reset clears them.
pub fn categorise_text(text: &str) -> (slices: Vec<AnsiSlice>)
    ensures
        slices@.len() == categorised(text@).len(),
        forall|i: int| 0 <= i < slices@.len() ==> run_of(#[trigger] slices@[i], text@, i),
{
    let raw = categorise_raw(text);
    let found = parse_escapes(text);
    let ghost runs = categorised(text@);
    let ghost seqs = escape_sequences(text@);
    assert(runs.len() == raw@.len());
    assert(seqs.len() == found@.len());

    let m = found.len();
    let mut effects: Vec<EscapeEffect> = Vec::new();
    let mut k: usize = 0;
    while k < m
        invariant
            m == found@.len(),
            seqs == found@.map_values(|e: (String, usize)| (e.0@, e.1)),
            k <= m,
            effects@.len() == k,
            forall|j: int| 0 <= j < k ==> #[trigger] effects@[j] == effect_of(seqs[j]),
        decreases m - k,
    {
        let effect = EscapeEffect {
            end: found[k].1,
            resets: resets_style(&found[k].0),
            sets: style_of_sequence(&found[k].0),
        };
        assert(seqs[k as int] == (found@[k as int].0@, found@[k as int].1));
        effects.push(effect);
        k = k + 1;
    }
    assert(effects@ =~= escape_effects(text@));
    let slices = style_runs(&raw, &effects);
    assert forall|i: int| 0 <= i < slices@.len() implies run_of(#[trigger] slices@[i], text@, i) by {
        assert(runs[i] == raw@[i]@);
    }
    slices
}


/// Font weight of a span.
#[derive(Clone, Copy, PartialEq, Eq, Structural, Debug)]
pub enum FontWeight {
    Normal,
    Bold,
    Light,
}

/// Font style of a span.
#[derive(Clone, Copy, PartialEq, Eq, Structural, Debug)]
pub enum FontStyle {
    Normal,
    Italic,
}

/// The font attributes of a span.
#[derive(Clone, Copy, PartialEq, Eq, Structural, Debug)]
pub struct SpanFont {
    pub weight: FontWeight,
    pub style: FontStyle,
}

/// The color of a span: a drawn RGB color, or the color of a log level's preamble.
#[derive(Clone, Copy, PartialEq, Eq, Structural, Debug)]
pub enum SpanColor {
    Rgb(Rgb8),
    Level(LogMsgType),
}

/// A run of text with its drawing style.
#[derive(Debug)]
pub struct StyledSpan {
    pub text: String,
    pub color: Option<SpanColor>,
    pub background: Option<SpanColor>,
    /// `None` keeps the view's font.
    pub font: Option<SpanFont>,
    pub underline: bool,
    pub strikethrough: bool,
}

impl Clone for StyledSpan {
    fn clone(&self) -> (c: Self)
        ensures
            c == *self,
    {
        StyledSpan { text: self.text.clone(), ..*self }
    }
}

/// The log views' monospace font (JetBrains Mono) at its normal weight and style.
pub open spec fn spec_base_font() -> SpanFont {
    SpanFont { weight: FontWeight::Normal, style: FontStyle::Normal }
}

/// The log views' monospace font (JetBrains Mono) at its normal weight and style.
pub fn base_font() -> (f: SpanFont)
    ensures
        f == spec_base_font(),
{
    SpanFont { weight: FontWeight::Normal, style: FontStyle::Normal }
}

/// `base` with the weight and style that an ANSI intensity and italic setting give.
pub open spec fn spec_ansi_font(base: SpanFont, intensity: Option<Intensity>, italic: Option<bool>) -> SpanFont {
    SpanFont {
        weight: match intensity {
            Some(Intensity::Bold) => FontWeight::Bold,
            Some(Intensity::Faint) => FontWeight::Light,
            Some(Intensity::Normal) => FontWeight::Normal,
            None => base.weight,
        },
        style: if italic == Some(true) {
            FontStyle::Italic
        } else {
            base.style
        },
    }
}

/// `base` with the weight and style that an ANSI style sets: bold is bold, faint is light.
pub fn ansi_font(base: SpanFont, source: &AnsiSlice) -> (f: SpanFont)
    ensures
        f == spec_ansi_font(base, source.intensity, source.italic),
{
    let mut font = base;
    match source.intensity {
        Some(Intensity::Bold) => font.weight = FontWeight::Bold,
        Some(Intensity::Faint) => font.weight = FontWeight::Light,
        Some(Intensity::Normal) => font.weight = FontWeight::Normal,
        None => {},
    }
    if source.italic == Some(true) {
        font.style = FontStyle::Italic;
    }
    font
}

/// The drawn color of an ANSI color, if one is set.
pub open spec fn span_color(color: Option<AnsiColor>) -> Option<SpanColor> {
    match color {
        Some(c) => Some(SpanColor::Rgb(ansi_rgb(c))),
        None => None,
    }
}

fn to_span_color(color: Option<AnsiColor>) -> (c: Option<SpanColor>)
    ensures
        c == span_color(color),
{
    match color {
        Some(c) => Some(SpanColor::Rgb(cansi_color_to_iced_color(c))),
        None => None,
    }
}

/// `span` draws `text` in the given ANSI style: its colors, font, underline and strikethrough.
pub open spec fn draws_style(
    span: StyledSpan,
    text: Seq<char>,
    fg: Option<AnsiColor>,
    bg: Option<AnsiColor>,
    intensity: Option<Intensity>,
    italic: Option<bool>,
    underline: Option<bool>,
    strikethrough: Option<bool>,
) -> bool {
    &&& span.text@ == text
    &&& span.color == span_color(fg)
    &&& span.background == span_color(bg)
    &&& span.font == Some(spec_ansi_font(spec_base_font(), intensity, italic))
    &&& span.underline == (underline == Some(true))
    &&& span.strikethrough == (strikethrough == Some(true))
}

/// `span` draws the run `source`.
pub open spec fn draws(span: StyledSpan, source: AnsiSlice) -> bool {
    draws_style(
        span,
        source.text@,
        source.fg,
        source.bg,
        source.intensity,
        source.italic,
        source.underline,
        source.strikethrough,
    )
}

/// `span` draws the `i`-th run of `text` in the style in force where the run starts.
pub open spec fn draws_run(span: StyledSpan, text: Seq<char>, i: int) -> bool {
    let style = style_at(text, categorised(text)[i].start as int);
    draws_style(
        span,
        categorised(text)[i].text,
        style.fg,
        style.bg,
        style.intensity,
        style.italic,
        style.underline,
        style.strikethrough,
    )
}

/// The span that draws a run of ANSI-styled text.
pub fn ansi_color_to_span(source: AnsiSlice) -> (span: StyledSpan)
    ensures
        draws(span, source),
{
    let font = ansi_font(base_font(), &source);
    let color = to_span_color(source.fg);
    let background = to_span_color(source.bg);
    let underline = match source.underline {
        Some(u) => u,
        None => false,
    };
    let strikethrough = match source.strikethrough {
        Some(t) => t,
        None => false,
    };
    StyledSpan { text: source.text, color, background, font: Some(font), underline, strikethrough }
}

/// The spans that draw a text with ANSI escape sequences, one per run of text between
/// the sequences, each in the style in force where it starts.
pub fn ansi_spans(text: &str) -> (spans: Vec<StyledSpan>)
    ensures
        spans@.len() == categorised(text@).len(),
        forall|i: int| 0 <= i < spans@.len() ==> draws_run(#[trigger] spans@[i], text@, i),
{
    let slices = categorise_text(text);
    let mut spans: Vec<StyledSpan> = Vec::new();
    let n = slices.len();
    let mut i: usize = 0;
    while i < n
        invariant
            n == slices@.len(),
            i <= n,
            slices@.len() == categorised(text@).len(),
            forall|j: int| 0 <= j < n ==> run_of(#[trigger] slices@[j], text@, j),
            spans@.len() == i,
            forall|j: int| 0 <= j < i ==> draws(#[trigger] spans@[j], slices@[j]),
        decreases n - i,
    {
        let span = ansi_color_to_span(slices[i].clone());
        spans.push(span);
        i = i + 1;
    }
    assert forall|j: int| 0 <= j < spans@.len() implies draws_run(#[trigger] spans@[j], text@, j) by {
        assert(run_of(slices@[j], text@, j));
        assert(draws(spans@[j], slices@[j]));
    }
    spans
}


} // verus!
