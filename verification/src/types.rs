//! The flasher's data model: USB identities, serial settings, log messages and
//! timestamped log entries.

use vstd::prelude::*;
use vstd::string::*;
use crate::text::{fixed_digits, fixed_hex, push_char, push_fixed_digits, push_fixed_hex};

verus! {

/// A USB device identity.
#[derive(Clone, Copy, PartialEq, Eq, Structural, Debug)]
pub struct UsbId {
    /// vendor ID
    pub vid: u16,
    /// product ID
    pub pid: u16,
}

impl UsbId {
    /// The ClearCore running its application firmware (USB serial).
    pub open spec fn spec_clearcore_serial() -> UsbId {
        UsbId { vid: 0x2890, pid: 0x8022 }
    }

    /// The ClearCore running its SAM-BA bootloader.
    pub open spec fn spec_clearcore_bootloader() -> UsbId {
        UsbId { vid: 0x2890, pid: 0x0022 }
    }

    /// The ClearCore running its application firmware (USB serial).
    pub fn clearcore_serial() -> (id: UsbId)
        ensures
            id == Self::spec_clearcore_serial(),
    {
        UsbId { vid: 0x2890, pid: 0x8022 }
    }

    /// The ClearCore running its SAM-BA bootloader.
    pub fn clearcore_bootloader() -> (id: UsbId)
        ensures
            id == Self::spec_clearcore_bootloader(),
    {
        UsbId { vid: 0x2890, pid: 0x0022 }
    }

    /// `vvvv:pppp` in lower-case hexadecimal, four digits each.
    pub open spec fn hex_pair(self) -> Seq<char> {
        fixed_hex(self.vid as nat, 4) + seq![':'] + fixed_hex(self.pid as nat, 4)
    }

    /// The identity as the flasher shows it: `UsbId(vvvv:pppp)`.
    pub open spec fn debug_text(self) -> Seq<char> {
        "UsbId("@ + self.hex_pair() + ")"@
    }

    /// Appends `vvvv:pppp`.
    pub fn push_hex_pair(&self, out: &mut String)
        ensures
            final(out)@ == old(out)@ + self.hex_pair(),
    {
        push_fixed_hex(out, self.vid as u32, 4);
        push_char(out, ':');
        push_fixed_hex(out, self.pid as u32, 4);
        assert(final(out)@ =~= old(out)@ + self.hex_pair());
    }

    /// The identity as the flasher shows it: `UsbId(vvvv:pppp)`.
    pub fn to_debug_string(&self) -> (s: String)
        ensures
            s@ == self.debug_text(),
    {
        let mut s = String::from_str("UsbId(");
        self.push_hex_pair(&mut s);
        s.append(")");
        assert(s@ =~= self.debug_text());
        s
    }
}

impl Default for UsbId {
    fn default() -> (id: UsbId)
        ensures
            id == UsbId::spec_clearcore_serial(),
    {
        UsbId::clearcore_serial()
    }
}

/// Serial port configuration for the ClearCore.
#[derive(Clone, Copy, PartialEq, Eq, Structural, Debug)]
pub struct SerialConfig {
    pub usb_id: UsbId,
    pub baud_rate: u32,
}

impl SerialConfig {
    /// The serial monitor's configuration.
    pub open spec fn spec_serial_monitor() -> SerialConfig {
        SerialConfig { usb_id: UsbId::spec_clearcore_serial(), baud_rate: 115200 }
    }

    /// The configuration whose opening (the 1200 baud "touch") sends the ClearCore to its bootloader.
    pub open spec fn spec_bootloader_touch() -> SerialConfig {
        SerialConfig { usb_id: UsbId::spec_clearcore_serial(), baud_rate: 1200 }
    }

    /// The serial monitor's configuration: the ClearCore's serial port at 115200 baud.
    pub fn serial_monitor() -> (c: SerialConfig)
        ensures
            c == Self::spec_serial_monitor(),
    {
        SerialConfig { usb_id: UsbId::clearcore_serial(), baud_rate: 115200 }
    }

    /// The 1200 baud "touch" that sends the ClearCore to its bootloader.
    pub fn bootloader_touch() -> (c: SerialConfig)
        ensures
            c == Self::spec_bootloader_touch(),
    {
        SerialConfig { usb_id: UsbId::clearcore_serial(), baud_rate: 1200 }
    }
}

impl Default for SerialConfig {
    fn default() -> (c: SerialConfig)
        ensures
            c == SerialConfig::spec_serial_monitor(),
    {
        SerialConfig::serial_monitor()
    }
}

/// Where a log message comes from, and how it is shown.
#[derive(Clone, Copy, PartialEq, Eq, Structural, Debug)]
pub enum LogMsgType {
    Error,
    Warn,
    Info,
    Debug,
    Trace,
    /// A message that the BOSSA flashing library printed.
    BossaNative,
    /// A line that the ClearCore sent; it may hold ANSI styling.
    ClearCore,
}

/// A log message with its kind.
#[derive(Debug)]
pub struct LogMsg {
    pub message: String,
    pub log_type: LogMsgType,
}

impl Clone for LogMsg {
    fn clone(&self) -> (c: Self)
        ensures
            c == *self,
    {
        LogMsg { message: self.message.clone(), log_type: self.log_type }
    }
}

impl LogMsg {
    pub fn new(log_type: LogMsgType, message: String) -> (m: LogMsg)
        ensures
            m.log_type == log_type,
            m.message@ == message@,
    {
        LogMsg { message, log_type }
    }

    /// A line of text from the device (kind `ClearCore`).
    pub fn clear_core(message: String) -> (m: LogMsg)
        ensures
            m.log_type == LogMsgType::ClearCore,
            m.message@ == message@,
    {
        LogMsg { message, log_type: LogMsgType::ClearCore }
    }
}

/// A local wall-clock time of day, to the nanosecond; a nanosecond count of a
/// billion or more marks a leap second.
#[derive(Clone, Copy, Debug)]
pub struct Timestamp {
    hour: u32,
    minute: u32,
    second: u32,
    nanosecond: u32,
}

impl Timestamp {
    #[verifier::type_invariant]
    spec fn in_range(self) -> bool {
        &&& self.hour < 24
        &&& self.minute < 60
        &&& self.second < 60
        &&& self.nanosecond < 2_000_000_000
    }

    pub closed spec fn spec_hour(self) -> nat {
        self.hour as nat
    }

    pub closed spec fn spec_minute(self) -> nat {
        self.minute as nat
    }

    pub closed spec fn spec_second(self) -> nat {
        self.second as nat
    }

    pub closed spec fn spec_nanosecond(self) -> nat {
        self.nanosecond as nat
    }

    /// The time of day, or `None` when a field is out of its range (hour below 24,
    /// minute and second below 60, nanosecond below 2,000,000,000).
    pub fn new(hour: u32, minute: u32, second: u32, nanosecond: u32) -> (t: Option<Timestamp>)
        ensures
            t is Some <==> (hour < 24 && minute < 60 && second < 60 && nanosecond < 2_000_000_000),
            t matches Some(t) ==> t.spec_hour() == hour && t.spec_minute() == minute
                && t.spec_second() == second && t.spec_nanosecond() == nanosecond,
    {
        if hour < 24 && minute < 60 && second < 60 && nanosecond < 2_000_000_000 {
            Some(Timestamp { hour, minute, second, nanosecond })
        } else {
            None
        }
    }

    /// `HH:MM:SS.mmm`, as chrono's `%H:%M:%S%.3f` shows it: a leap second shows as second 60.
    pub open spec fn text(self) -> Seq<char> {
        fixed_digits(self.spec_hour(), 2) + seq![':'] + fixed_digits(self.spec_minute(), 2)
            + seq![':'] + fixed_digits(self.spec_second() + self.spec_nanosecond() / 1_000_000_000, 2)
            + seq!['.'] + fixed_digits(self.spec_nanosecond() / 1_000_000 % 1000, 3)
    }

    /// A timestamp always shows as twelve characters, `HH:MM:SS.mmm`, of digits and
    /// separators.
    pub proof fn text_shape(self)
        ensures
            self.text().len() == 12,
            self.text()[2] == ':',
            self.text()[5] == ':',
            self.text()[8] == '.',
    {
        reveal_with_fuel(fixed_digits, 4);
    }

    /// Appends `HH:MM:SS.mmm`.
    pub fn push_text(&self, out: &mut String)
        ensures
            final(out)@ == old(out)@ + self.text(),
    {
        proof {
            use_type_invariant(self);
        }
        push_fixed_digits(out, self.hour, 2);
        push_char(out, ':');
        push_fixed_digits(out, self.minute, 2);
        push_char(out, ':');
        push_fixed_digits(out, self.second + self.nanosecond / 1_000_000_000, 2);
        push_char(out, '.');
        push_fixed_digits(out, self.nanosecond / 1_000_000 % 1000, 3);
        assert(final(out)@ =~= old(out)@ + self.text());
    }
}

/// A timestamped log message.
#[derive(Debug)]
pub struct LogEntry {
    pub timestamp: Timestamp,
    pub message: LogMsg,
}

impl Clone for LogEntry {
    fn clone(&self) -> (c: Self)
        ensures
            c == *self,
    {
        LogEntry { timestamp: self.timestamp, message: self.message.clone() }
    }
}

impl LogEntry {
    pub fn new(timestamp: Timestamp, message: LogMsg) -> (e: LogEntry)
        ensures
            e.timestamp == timestamp,
            e.message.log_type == message.log_type,
            e.message.message@ == message.message@,
    {
        LogEntry { timestamp, message }
    }

    /// The message, stamped with the time now, which the caller reads from the clock.
    pub fn new_now(message: LogMsg, now: Timestamp) -> (e: LogEntry)
        ensures
            e.timestamp == now,
            e.message.log_type == message.log_type,
            e.message.message@ == message.message@,
    {
        LogEntry { timestamp: now, message }
    }

    /// An error message, stamped with the time now.
    pub fn new_error_now(message: String, now: Timestamp) -> (e: LogEntry)
        ensures
            e.timestamp == now,
            e.message.log_type == LogMsgType::Error,
            e.message.message@ == message@,
    {
        LogEntry::new_now(LogMsg::new(LogMsgType::Error, message), now)
    }

    /// An informational message, stamped with the time now.
    pub fn new_info_now(message: String, now: Timestamp) -> (e: LogEntry)
        ensures
            e.timestamp == now,
            e.message.log_type == LogMsgType::Info,
            e.message.message@ == message@,
    {
        LogEntry::new_now(LogMsg::new(LogMsgType::Info, message), now)
    }

    /// The timestamp as `HH:MM:SS.mmm`.
    pub fn format_timestamp(&self) -> (s: String)
        ensures
            s@ == self.timestamp.text(),
    {
        let mut s = String::new();
        self.timestamp.push_text(&mut s);
        s
    }

    /// `[HH:MM:SS.mmm] message`.
    pub open spec fn display_text(self) -> Seq<char> {
        seq!['['] + self.timestamp.text() + "] "@ + self.message.message@
    }

    /// `[HH:MM:SS.mmm] message`, the entry as a log line.
    pub fn to_display_string(&self) -> (s: String)
        ensures
            s@ == self.display_text(),
    {
        let mut s = String::new();
        push_char(&mut s, '[');
        self.timestamp.push_text(&mut s);
        s.append("] ");
        s.append(self.message.message.as_str());
        assert(s@ =~= self.display_text());
        s
    }
}

/// Appending to a log keeps the entries it had.
pub broadcast proof fn lemma_push_keeps_entries(logs: Seq<LogEntry>, entry: LogEntry)
    ensures
        #[trigger] logs.push(entry).subrange(0, logs.len() as int) == logs,
{
    assert(logs.push(entry).subrange(0, logs.len() as int) =~= logs);
}

} // verus!
