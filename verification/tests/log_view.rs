use clearcore_flash::ui::ansi_color::{cansi_color_to_iced_color, AnsiColor, FontWeight, SpanColor};
use clearcore_flash::ui::common::plain;
use clearcore_flash::types::{LogEntry, LogMsg, LogMsgType, Timestamp};

fn at_noon(message: LogMsg) -> LogEntry {
    LogEntry::new(Timestamp::new(12, 0, 1, 250_000_000).unwrap(), message)
}

#[test]
fn leveled_messages_get_a_label() {
    let e = at_noon(LogMsg::new(LogMsgType::Warn, "  careful \n".to_string()));
    let spans = e.as_spans();
    assert_eq!(spans.len(), 3);
    assert_eq!(spans[0].text, "[12:00:01.250] ");
    assert_eq!(spans[0].color, None);
    assert_eq!(spans[1].text, "WARN");
    assert_eq!(spans[1].color, Some(SpanColor::Level(LogMsgType::Warn)));
    assert_eq!(spans[2].text, ": careful\n");
    assert_eq!(spans[2].font, None);
}

#[test]
fn device_output_keeps_its_ansi_style() {
    let e = at_noon(LogMsg::clear_core("\x1b[1;32mok\x1b[0m done  ".to_string()));
    let spans = e.as_spans();
    assert_eq!(spans.len(), 3);
    assert_eq!(spans[0].text, "[12:00:01.250] ");
    assert_eq!(spans[1].text, "ok");
    assert_eq!(spans[1].color, Some(SpanColor::Rgb(cansi_color_to_iced_color(AnsiColor::Green))));
    assert_eq!(spans[1].font.unwrap().weight, FontWeight::Bold);
    assert_eq!(spans[2].text, " done\n");
    assert_eq!(spans[2].color, None);
}

#[test]
fn preambles() {
    assert_eq!(LogMsgType::Error.as_preamble().unwrap().text, "ERROR");
    assert_eq!(LogMsgType::Trace.as_preamble().unwrap().text, "TRACE");
    assert_eq!(LogMsgType::Debug.as_preamble().unwrap().color, SpanColor::Level(LogMsgType::Debug));
    assert!(LogMsgType::ClearCore.as_preamble().is_none());
    assert!(LogMsgType::BossaNative.as_preamble().is_none());
    let p = plain("x".to_string());
    assert_eq!(p.text, "x");
    assert!(!p.underline);
}
