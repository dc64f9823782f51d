use clearcore_flash::ui::ansi_color::{
    ansi_color_to_span, ansi_font, ansi_spans, base_font, cansi_color_to_iced_color, categorise_text,
    str_color_to_iced_color, style_runs, AnsiColor, AnsiSlice, AnsiStyle, EscapeEffect, RawSlice, FontStyle, FontWeight, Intensity, Rgb8, SpanColor, SpanFont,
    StyledSpan,
};

const RESET: &str = "\x1b[0m";
const GREEN: &str = "\x1b[32m";
const CYAN: &str = "\x1b[36m";
const MAGENTA: &str = "\x1b[35m";
const BOLD: &str = "\x1b[1m";
const DIM: &str = "\x1b[2m";
const ITALIC: &str = "\x1b[3m";
const UNDERLINE: &str = "\x1b[4m";

fn spans_from(input: &str) -> Vec<StyledSpan> {
    categorise_text(input).into_iter().map(ansi_color_to_span).collect()
}

fn iced_green() -> SpanColor {
    SpanColor::Rgb(cansi_color_to_iced_color(AnsiColor::Green))
}

fn iced_cyan() -> SpanColor {
    SpanColor::Rgb(cansi_color_to_iced_color(AnsiColor::Cyan))
}

fn iced_magenta() -> SpanColor {
    SpanColor::Rgb(cansi_color_to_iced_color(AnsiColor::Magenta))
}

/// ANSI_CYAN, ANSI_BOLD, "[echo]", ANSI_RESET, " ",
/// ANSI_UNDERLINE, ANSI_GREEN, "<<<", ANSI_ITALIC, command,
/// ANSI_UNDERLINE, ">>>", ANSI_RESET
#[test]
fn test_echo_command() {
    let command = "mycommand";
    let input = format!("{CYAN}{BOLD}[echo]{RESET} {UNDERLINE}{GREEN}<<<{ITALIC}{command}{UNDERLINE}>>>{RESET}");
    let spans = spans_from(&input);

    assert_eq!(spans.len(), 5);

    // "[echo]": cyan, bold
    assert_eq!(spans[0].text.as_str(), "[echo]");
    assert_eq!(spans[0].color, Some(iced_cyan()));
    assert_eq!(spans[0].font.unwrap().weight, FontWeight::Bold);
    assert_eq!(spans[0].font.unwrap().style, FontStyle::Normal);
    assert!(!spans[0].underline);

    // " ": reset — no color, normal
    assert_eq!(spans[1].text.as_str(), " ");
    assert_eq!(spans[1].color, None);
    assert_eq!(spans[1].font.unwrap().weight, FontWeight::Normal);
    assert_eq!(spans[1].font.unwrap().style, FontStyle::Normal);
    assert!(!spans[1].underline);

    // "<<<": green, underline
    assert_eq!(spans[2].text.as_str(), "<<<");
    assert_eq!(spans[2].color, Some(iced_green()));
    assert_eq!(spans[2].font.unwrap().weight, FontWeight::Normal);
    assert_eq!(spans[2].font.unwrap().style, FontStyle::Normal);
    assert!(spans[2].underline);

    // command: green, underline, italic
    assert_eq!(spans[3].text.as_str(), command);
    assert_eq!(spans[3].color, Some(iced_green()));
    assert_eq!(spans[3].font.unwrap().style, FontStyle::Italic);
    assert!(spans[3].underline);

    // ">>>": green, underline, italic (UNDERLINE repeated = same state)
    assert_eq!(spans[4].text.as_str(), ">>>");
    assert_eq!(spans[4].color, Some(iced_green()));
    assert_eq!(spans[4].font.unwrap().style, FontStyle::Italic);
    assert!(spans[4].underline);
}

/// ANSI_GREEN, ANSI_BOLD, "[heartbeat]", ANSI_RESET,
/// ANSI_DIM, " alive t_ms=", ANSI_RESET, Milliseconds()
#[test]
fn test_heartbeat() {
    let ms = "9876";
    let input = format!("{GREEN}{BOLD}[heartbeat]{RESET}{DIM} alive t_ms={RESET}{ms}");
    let spans = spans_from(&input);

    assert_eq!(spans.len(), 3);

    // "[heartbeat]": green, bold
    assert_eq!(spans[0].text.as_str(), "[heartbeat]");
    assert_eq!(spans[0].color, Some(iced_green()));
    assert_eq!(spans[0].font.unwrap().weight, FontWeight::Bold);
    assert_eq!(spans[0].font.unwrap().style, FontStyle::Normal);

    // " alive t_ms=": dim only (reset cleared color)
    assert_eq!(spans[1].text.as_str(), " alive t_ms=");
    assert_eq!(spans[1].color, None);
    assert_eq!(spans[1].font.unwrap().weight, FontWeight::Light);
    assert_eq!(spans[1].font.unwrap().style, FontStyle::Normal);

    // milliseconds: all default (second reset)
    assert_eq!(spans[2].text.as_str(), ms);
    assert_eq!(spans[2].color, None);
    assert_eq!(spans[2].font.unwrap().weight, FontWeight::Normal);
    assert_eq!(spans[2].font.unwrap().style, FontStyle::Normal);
}

/// ANSI_MAGENTA, "[boot]", ANSI_RESET, " usb echo firmware ready"
#[test]
fn test_boot_message() {
    let input = format!("{MAGENTA}[boot]{RESET} usb echo firmware ready");
    let spans = spans_from(&input);

    assert_eq!(spans.len(), 2);

    // "[boot]": magenta
    assert_eq!(spans[0].text.as_str(), "[boot]");
    assert_eq!(spans[0].color, Some(iced_magenta()));
    assert_eq!(spans[0].font.unwrap().weight, FontWeight::Normal);
    assert_eq!(spans[0].font.unwrap().style, FontStyle::Normal);
    assert!(!spans[0].underline);

    // " usb echo firmware ready": no attrs
    assert_eq!(spans[1].text.as_str(), " usb echo firmware ready");
    assert_eq!(spans[1].color, None);
    assert_eq!(spans[1].font.unwrap().weight, FontWeight::Normal);
    assert!(!spans[1].underline);
}

/// ANSI_BOLD, "[format]", ANSI_RESET, " ",
/// ANSI_BOLD, "bold ", ANSI_DIM, "dim ",
/// ANSI_ITALIC, "italic ", ANSI_UNDERLINE, "underline ", ANSI_RESET
#[test]
fn test_format_styles() {
    let input = format!("{BOLD}[format]{RESET} {BOLD}bold {DIM}dim {ITALIC}italic {UNDERLINE}underline {RESET}");
    let spans = spans_from(&input);

    assert_eq!(spans.len(), 6);

    // "[format]": bold
    assert_eq!(spans[0].text.as_str(), "[format]");
    assert_eq!(spans[0].font.unwrap().weight, FontWeight::Bold);
    assert_eq!(spans[0].font.unwrap().style, FontStyle::Normal);
    assert!(!spans[0].underline);

    // " ": reset — normal
    assert_eq!(spans[1].text.as_str(), " ");
    assert_eq!(spans[1].font.unwrap().weight, FontWeight::Normal);
    assert_eq!(spans[1].font.unwrap().style, FontStyle::Normal);

    // "bold ": bold
    assert_eq!(spans[2].text.as_str(), "bold ");
    assert_eq!(spans[2].font.unwrap().weight, FontWeight::Bold);
    assert_eq!(spans[2].font.unwrap().style, FontStyle::Normal);
    assert!(!spans[2].underline);

    // "dim ": faint (DIM replaces BOLD in intensity)
    assert_eq!(spans[3].text.as_str(), "dim ");
    assert_eq!(spans[3].font.unwrap().weight, FontWeight::Light);
    assert_eq!(spans[3].font.unwrap().style, FontStyle::Normal);
    assert!(!spans[3].underline);

    // "italic ": faint + italic
    assert_eq!(spans[4].text.as_str(), "italic ");
    assert_eq!(spans[4].font.unwrap().weight, FontWeight::Light);
    assert_eq!(spans[4].font.unwrap().style, FontStyle::Italic);
    assert!(!spans[4].underline);

    // "underline ": faint + italic + underline
    assert_eq!(spans[5].text.as_str(), "underline ");
    assert_eq!(spans[5].font.unwrap().weight, FontWeight::Light);
    assert_eq!(spans[5].font.unwrap().style, FontStyle::Italic);
    assert!(spans[5].underline);
}

#[test]
fn hex_color_literals_are_read() {
    assert_eq!(str_color_to_iced_color("#a03030"), Rgb8 { r: 0xa0, g: 0x30, b: 0x30 });
    assert_eq!(str_color_to_iced_color("#00FF7f"), Rgb8 { r: 0x00, g: 0xff, b: 0x7f });
    assert_eq!(str_color_to_iced_color("#000000"), Rgb8 { r: 0, g: 0, b: 0 });
}

#[test]
fn ansi_palette() {
    assert_eq!(cansi_color_to_iced_color(AnsiColor::Black), Rgb8 { r: 0, g: 0, b: 0 });
    assert_eq!(cansi_color_to_iced_color(AnsiColor::Green), Rgb8 { r: 0x00, g: 0xa0, b: 0x00 });
    assert_eq!(cansi_color_to_iced_color(AnsiColor::BrightYellow), Rgb8 { r: 0xf0, g: 0xc0, b: 0x30 });
    assert_eq!(cansi_color_to_iced_color(AnsiColor::BrightWhite), Rgb8 { r: 0xf0, g: 0xf0, b: 0xf0 });
}

#[test]
fn categorise_strips_escapes_and_reads_styles() {
    let slices = categorise_text("plain \x1b[1;31mbold red\x1b[0m tail");
    assert_eq!(slices.len(), 3);
    assert_eq!(slices[0].text.as_str(), "plain ");
    assert_eq!(slices[0].fg, None);
    assert_eq!(slices[1].text.as_str(), "bold red");
    assert_eq!(slices[1].fg, Some(AnsiColor::Red));
    assert_eq!(slices[1].intensity, Some(Intensity::Bold));
    assert_eq!(slices[2].text.as_str(), " tail");
    assert_eq!(slices[2].intensity, None);
}

#[test]
fn escape_sequences_add_up_until_a_reset() {
    let slices = categorise_text("\x1b[32m\x1b[1mgreen\x1b[4m under\x1b[22m normal\x1b[0m plain\x1b[m!");
    assert_eq!(slices.len(), 5);
    assert_eq!(slices[0].text.as_str(), "green");
    assert_eq!(slices[0].fg, Some(AnsiColor::Green));
    assert_eq!(slices[0].intensity, Some(Intensity::Bold));
    assert_eq!(slices[0].underline, None);
    assert_eq!(slices[1].fg, Some(AnsiColor::Green));
    assert_eq!(slices[1].intensity, Some(Intensity::Bold));
    assert_eq!(slices[1].underline, Some(true));
    assert_eq!(slices[2].intensity, Some(Intensity::Normal));
    assert_eq!(slices[2].underline, Some(true));
    assert_eq!(slices[3].text.as_str(), " plain");
    assert_eq!(slices[3].fg, None);
    assert_eq!(slices[3].intensity, None);
    assert_eq!(slices[3].underline, None);
    assert_eq!(slices[4].text.as_str(), "!");
    assert_eq!(slices[4].fg, None);
}

#[test]
fn one_sequence_with_several_codes() {
    let slices = categorise_text("\x1b[1;31mred\x1b[0;34mblue");
    assert_eq!(slices[0].fg, Some(AnsiColor::Red));
    assert_eq!(slices[0].intensity, Some(Intensity::Bold));
    // `0;34` resets, then sets blue.
    assert_eq!(slices[1].text.as_str(), "blue");
    assert_eq!(slices[1].fg, Some(AnsiColor::Blue));
    assert_eq!(slices[1].intensity, None);
    let spans = spans_from("\x1b[1;31mred\x1b[0;34mblue");
    assert_eq!(spans[1].font.unwrap().weight, FontWeight::Normal);
}

#[test]
fn unknown_codes_keep_the_style() {
    let slices = categorise_text("\x1b[32mgreen\x1b[6m still");
    assert_eq!(slices[1].fg, Some(AnsiColor::Green));
}

fn nothing() -> AnsiStyle {
    AnsiStyle {
        fg: None,
        bg: None,
        intensity: None,
        italic: None,
        underline: None,
        strikethrough: None,
        blink: None,
        reversed: None,
        hidden: None,
    }
}

fn run(text: &str, start: usize) -> RawSlice {
    RawSlice {
        text: text.to_string(),
        start,
        fg: None,
        bg: None,
        intensity: None,
        italic: None,
        underline: None,
        strikethrough: None,
        blink: None,
        reversed: None,
        hidden: None,
    }
}

#[test]
fn runs_take_the_effects_before_them() {
    let green = EscapeEffect { end: 5, resets: false, sets: AnsiStyle { fg: Some(AnsiColor::Green), ..nothing() } };
    let bold = EscapeEffect { end: 9, resets: false, sets: AnsiStyle { intensity: Some(Intensity::Bold), ..nothing() } };
    let reset_blue = EscapeEffect { end: 20, resets: true, sets: AnsiStyle { fg: Some(AnsiColor::Blue), ..nothing() } };
    let runs = vec![run("a", 0), run("b", 9), run("c", 20)];
    let slices = style_runs(&runs, &vec![green, bold, reset_blue]);
    assert_eq!(slices.len(), 3);
    assert_eq!(slices[0].text.as_str(), "a");
    assert_eq!(slices[0].fg, None);
    assert_eq!(slices[1].fg, Some(AnsiColor::Green));
    assert_eq!(slices[1].intensity, Some(Intensity::Bold));
    assert_eq!(slices[2].fg, Some(AnsiColor::Blue));
    assert_eq!(slices[2].intensity, None);
}

#[test]
fn background_and_bright_colors() {
    let slices = categorise_text("\x1b[97;44mx");
    assert_eq!(slices[0].fg, Some(AnsiColor::BrightWhite));
    assert_eq!(slices[0].bg, Some(AnsiColor::Blue));
    let span = ansi_color_to_span(slices[0].clone());
    assert_eq!(span.background, Some(SpanColor::Rgb(Rgb8 { r: 0x20, g: 0x50, b: 0xb0 })));
}

#[test]
fn fonts_follow_intensity_and_italic() {
    let mut slice = AnsiSlice {
        text: "x".to_string(),
        fg: None,
        bg: None,
        intensity: Some(Intensity::Faint),
        italic: Some(true),
        underline: Some(true),
        strikethrough: None,
    };
    assert_eq!(ansi_font(base_font(), &slice), SpanFont { weight: FontWeight::Light, style: FontStyle::Italic });
    slice.intensity = Some(Intensity::Bold);
    slice.italic = Some(false);
    assert_eq!(ansi_font(base_font(), &slice), SpanFont { weight: FontWeight::Bold, style: FontStyle::Normal });
    let span = ansi_color_to_span(slice);
    assert!(span.underline);
    assert!(!span.strikethrough);
}

#[test]
fn spans_of_text_without_escapes() {
    let spans = ansi_spans("hello");
    assert_eq!(spans.len(), 1);
    assert_eq!(spans[0].text.as_str(), "hello");
    assert_eq!(spans[0].color, None);
    assert_eq!(spans[0].font, Some(base_font()));
    assert!(ansi_spans("").is_empty());
}
