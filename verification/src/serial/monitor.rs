//! The serial monitor's connection: its states, the events it reports, and the
//! loop that finds the ClearCore, opens its port, reads lines and reconnects.

use vstd::prelude::*;
use vstd::string::*;
use crate::types::{SerialConfig, UsbId};

verus! {

/// The state of the serial monitor's connection, as the monitor screen shows it.
#[derive(Debug)]
pub enum MonitorConnectionState {
    Disconnected,
    Searching,
    Connecting(String),
    Connected(String),
    Error(String),
}

/// A connection state with its texts as character sequences.
pub enum ConnectionView {
    Disconnected,
    Searching,
    Connecting(Seq<char>),
    Connected(Seq<char>),
    Error(Seq<char>),
}

impl View for MonitorConnectionState {
    type V = ConnectionView;

    open spec fn view(&self) -> ConnectionView {
        match self {
            MonitorConnectionState::Disconnected => ConnectionView::Disconnected,
            MonitorConnectionState::Searching => ConnectionView::Searching,
            MonitorConnectionState::Connecting(p) => ConnectionView::Connecting(p@),
            MonitorConnectionState::Connected(p) => ConnectionView::Connected(p@),
            MonitorConnectionState::Error(e) => ConnectionView::Error(e@),
        }
    }
}

impl Clone for MonitorConnectionState {
    fn clone(&self) -> (c: Self)
        ensures
            c == *self,
    {
        match self {
            MonitorConnectionState::Disconnected => MonitorConnectionState::Disconnected,
            MonitorConnectionState::Searching => MonitorConnectionState::Searching,
            MonitorConnectionState::Connecting(p) => MonitorConnectionState::Connecting(p.clone()),
            MonitorConnectionState::Connected(p) => MonitorConnectionState::Connected(p.clone()),
            MonitorConnectionState::Error(e) => MonitorConnectionState::Error(e.clone()),
        }
    }
}

impl Default for MonitorConnectionState {
    fn default() -> (s: Self)
        ensures
            s is Disconnected,
    {
        MonitorConnectionState::Disconnected
    }
}

impl MonitorConnectionState {
    /// The banner text of the state.
    pub open spec fn banner_text(self) -> Seq<char> {
        match self {
            MonitorConnectionState::Disconnected => "Disconnected"@,
            MonitorConnectionState::Searching => "Searching for ClearCore..."@,
            MonitorConnectionState::Connecting(port) => "Connecting to "@ + port@ + "..."@,
            MonitorConnectionState::Connected(port) => "Connected to "@ + port@,
            MonitorConnectionState::Error(err) => "Error: "@ + err@,
        }
    }

    /// The text of the banner above the serial log.
    pub fn banner(&self) -> (s: String)
        ensures
            s@ == self.banner_text(),
    {
        match self {
            MonitorConnectionState::Disconnected => String::from_str("Disconnected"),
            MonitorConnectionState::Searching => String::from_str("Searching for ClearCore..."),
            MonitorConnectionState::Connecting(port) => {
                let mut s = String::from_str("Connecting to ");
                s.append(port.as_str());
                s.append("...");
                s
            },
            MonitorConnectionState::Connected(port) => {
                let mut s = String::from_str("Connected to ");
                s.append(port.as_str());
                s
            },
            MonitorConnectionState::Error(err) => {
                let mut s = String::from_str("Error: ");
                s.append(err.as_str());
                s
            },
        }
    }

    /// Whether a port is connected (the log view is framed in red otherwise).
    pub fn is_connected(&self) -> (b: bool)
        ensures
            b == self is Connected,
    {
        match self {
            MonitorConnectionState::Connected(_) => true,
            _ => false,
        }
    }
}

/// What the serial monitor's connection sends to the monitor screen.
#[derive(Debug)]
pub enum SerialMonitorEvent {
    StateChange(MonitorConnectionState),
    Data(String),
}

/// A monitor event with its texts as character sequences.
pub enum MonitorEventView {
    StateChange(ConnectionView),
    Data(Seq<char>),
}

impl View for SerialMonitorEvent {
    type V = MonitorEventView;

    open spec fn view(&self) -> MonitorEventView {
        match self {
            SerialMonitorEvent::StateChange(s) => MonitorEventView::StateChange(s@),
            SerialMonitorEvent::Data(d) => MonitorEventView::Data(d@),
        }
    }
}

impl Clone for SerialMonitorEvent {
    fn clone(&self) -> (c: Self)
        ensures
            c == *self,
    {
        match self {
            SerialMonitorEvent::StateChange(s) => SerialMonitorEvent::StateChange(s.clone()),
            SerialMonitorEvent::Data(d) => SerialMonitorEvent::Data(d.clone()),
        }
    }
}

/// Whether a failed delivery of the event ends the connection loop: a line of data
/// that nobody receives means the screen stopped listening, while a lost state change
/// is only worth a warning.
pub fn stops_on_failed_delivery(event: &SerialMonitorEvent) -> (b: bool)
    ensures
        b == event is Data,
{
    match event {
        SerialMonitorEvent::Data(_) => true,
        SerialMonitorEvent::StateChange(_) => false,
    }
}


/// Where the serial monitor's connection loop stands.
#[derive(Debug)]
pub enum MonitorLink {
    /// Looking for the ClearCore's serial port.
    FindingSerial,
    /// The serial port is missing; looking for the bootloader to tell the user why.
    FindingBootloader,
    /// Opening the serial port of this name.
    Opening(String),
    /// Reading lines from the open port.
    Reading,
    /// Waiting before the next search, after a search found nothing.
    RetryWait,
    /// Waiting before the next search, after a connection ended or failed to open.
    ReconnectWait,
    /// The screen stopped listening; the loop is over.
    Stopped,
}

/// A link state with its port name as a character sequence.
pub enum LinkView {
    FindingSerial,
    FindingBootloader,
    Opening(Seq<char>),
    Reading,
    RetryWait,
    ReconnectWait,
    Stopped,
}

impl View for MonitorLink {
    type V = LinkView;

    open spec fn view(&self) -> LinkView {
        match self {
            MonitorLink::FindingSerial => LinkView::FindingSerial,
            MonitorLink::FindingBootloader => LinkView::FindingBootloader,
            MonitorLink::Opening(p) => LinkView::Opening(p@),
            MonitorLink::Reading => LinkView::Reading,
            MonitorLink::RetryWait => LinkView::RetryWait,
            MonitorLink::ReconnectWait => LinkView::ReconnectWait,
            MonitorLink::Stopped => LinkView::Stopped,
        }
    }
}

/// The outside work that the connection loop asks for next.
#[derive(Debug)]
pub enum MonitorWork {
    /// List the serial ports and look for this USB device.
    FindPort(UsbId),
    /// Open the port (and raise DTR and RTS).
    OpenPort { port_name: String, baud_rate: u32, timeout_ms: u64 },
    /// Read the next line from the open port.
    ReadLine,
    /// Wait this many milliseconds.
    Sleep(u64),
    /// End the loop.
    Stop,
}

/// A work request with its port name as a character sequence.
pub enum WorkView {
    FindPort(UsbId),
    OpenPort(Seq<char>, u32, u64),
    ReadLine,
    Sleep(u64),
    Stop,
}

impl View for MonitorWork {
    type V = WorkView;

    open spec fn view(&self) -> WorkView {
        match self {
            MonitorWork::FindPort(id) => WorkView::FindPort(*id),
            MonitorWork::OpenPort { port_name, baud_rate, timeout_ms } => WorkView::OpenPort(
                port_name@,
                *baud_rate,
                *timeout_ms,
            ),
            MonitorWork::ReadLine => WorkView::ReadLine,
            MonitorWork::Sleep(ms) => WorkView::Sleep(*ms),
            MonitorWork::Stop => WorkView::Stop,
        }
    }
}

/// What came of the outside work.
#[derive(Debug)]
pub enum MonitorInput {
    /// The search found a port of this name.
    PortFound(String),
    /// The search failed; the error as `{:?}` shows it.
    PortNotFound(String),
    /// The port is open.
    Opened,
    /// The port did not open; the error's text.
    OpenFailed(String),
    /// A line was read (with its line break).
    Line(String),
    /// The device closed the stream.
    EndOfStream,
    /// Reading failed; the error's text.
    ReadFailed(String),
    /// The wait is over.
    Slept,
    /// The monitor screen no longer receives events.
    ListenerGone,
}

/// An input with its texts as character sequences.
pub enum InputView {
    PortFound(Seq<char>),
    PortNotFound(Seq<char>),
    Opened,
    OpenFailed(Seq<char>),
    Line(Seq<char>),
    EndOfStream,
    ReadFailed(Seq<char>),
    Slept,
    ListenerGone,
}

impl View for MonitorInput {
    type V = InputView;

    open spec fn view(&self) -> InputView {
        match self {
            MonitorInput::PortFound(p) => InputView::PortFound(p@),
            MonitorInput::PortNotFound(e) => InputView::PortNotFound(e@),
            MonitorInput::Opened => InputView::Opened,
            MonitorInput::OpenFailed(e) => InputView::OpenFailed(e@),
            MonitorInput::Line(l) => InputView::Line(l@),
            MonitorInput::EndOfStream => InputView::EndOfStream,
            MonitorInput::ReadFailed(e) => InputView::ReadFailed(e@),
            MonitorInput::Slept => InputView::Slept,
            MonitorInput::ListenerGone => InputView::ListenerGone,
        }
    }
}

/// One step of the connection loop: the new state, the events to send to the
/// screen (in order), and the work to do next.
#[derive(Debug)]
pub struct MonitorStep {
    pub link: MonitorLink,
    pub events: Vec<SerialMonitorEvent>,
    pub work: MonitorWork,
}

/// The views of a step's events.
pub open spec fn event_views(events: Seq<SerialMonitorEvent>) -> Seq<MonitorEventView> {
    events.map_values(|e: SerialMonitorEvent| e@)
}

/// Milliseconds to wait before searching again.
pub open spec fn retry_delay_ms() -> u64 {
    1000
}

/// How long opening the port may take, in milliseconds.
pub open spec fn open_timeout_ms() -> u64 {
    2000
}

/// The error shown when only the bootloader is present.
pub open spec fn bootloader_only_text(port: Seq<char>) -> Seq<char> {
    "Failed to find ClearCore serial port, but found the bootloader at "@ + port
        + ". Power cycle clearcore to exit bootloader mode"@
}

/// The error shown when neither the ClearCore nor its bootloader is present.
pub open spec fn not_found_text(error: Seq<char>) -> Seq<char> {
    "Failed to find ClearCore serial port: "@ + error
}

/// The work that a state waits on.
pub open spec fn pending_work(link: LinkView) -> WorkView {
    match link {
        LinkView::FindingSerial => WorkView::FindPort(UsbId::spec_clearcore_serial()),
        LinkView::FindingBootloader => WorkView::FindPort(UsbId::spec_clearcore_bootloader()),
        LinkView::Opening(p) => WorkView::OpenPort(
            p,
            SerialConfig::spec_serial_monitor().baud_rate,
            open_timeout_ms(),
        ),
        LinkView::Reading => WorkView::ReadLine,
        LinkView::RetryWait => WorkView::Sleep(retry_delay_ms()),
        LinkView::ReconnectWait => WorkView::Sleep(retry_delay_ms()),
        LinkView::Stopped => WorkView::Stop,
    }
}

/// A step that moves to `link`, reports `events`, and asks for the work `link` waits on.
pub open spec fn moves_to(link: LinkView, events: Seq<MonitorEventView>) -> (
    LinkView,
    Seq<MonitorEventView>,
    WorkView,
) {
    (link, events, pending_work(link))
}

/// One state change reported to the screen.
pub open spec fn reports(state: ConnectionView) -> Seq<MonitorEventView> {
    seq![MonitorEventView::StateChange(state)]
}

/// The connection loop: from each state, what an input leads to. An input that a
/// state does not wait for changes nothing (and asks again for the awaited work);
/// a listener that is gone ends the loop from any state.
pub open spec fn step_spec(link: LinkView, input: InputView) -> (LinkView, Seq<MonitorEventView>, WorkView) {
    match (link, input) {
        (_, InputView::ListenerGone) => moves_to(LinkView::Stopped, seq![]),
        (LinkView::FindingSerial, InputView::PortFound(p)) => moves_to(
            LinkView::Opening(p),
            reports(ConnectionView::Connecting(p)),
        ),
        (LinkView::FindingSerial, InputView::PortNotFound(_)) => moves_to(LinkView::FindingBootloader, seq![]),
        (LinkView::FindingBootloader, InputView::PortFound(p)) => moves_to(
            LinkView::RetryWait,
            reports(ConnectionView::Error(bootloader_only_text(p))),
        ),
        (LinkView::FindingBootloader, InputView::PortNotFound(e)) => moves_to(
            LinkView::RetryWait,
            reports(ConnectionView::Error(not_found_text(e))),
        ),
        (LinkView::Opening(p), InputView::Opened) => moves_to(
            LinkView::Reading,
            reports(ConnectionView::Connected(p)),
        ),
        (LinkView::Opening(_), InputView::OpenFailed(e)) => moves_to(
            LinkView::ReconnectWait,
            reports(ConnectionView::Error(e)),
        ),
        (LinkView::Reading, InputView::Line(l)) => moves_to(LinkView::Reading, seq![MonitorEventView::Data(l)]),
        (LinkView::Reading, InputView::EndOfStream) => moves_to(
            LinkView::ReconnectWait,
            reports(ConnectionView::Error("Device disconnected"@)),
        ),
        (LinkView::Reading, InputView::ReadFailed(e)) => moves_to(
            LinkView::ReconnectWait,
            reports(ConnectionView::Error(e)),
        ),
        (LinkView::RetryWait, InputView::Slept) => moves_to(LinkView::FindingSerial, seq![]),
        (LinkView::ReconnectWait, InputView::Slept) => moves_to(
            LinkView::FindingSerial,
            reports(ConnectionView::Searching),
        ),
        (l, _) => moves_to(l, seq![]),
    }
}

/// The step in which the loop starts: it reports `Searching` and looks for the port.
pub open spec fn start_spec() -> (LinkView, Seq<MonitorEventView>, WorkView) {
    moves_to(LinkView::FindingSerial, reports(ConnectionView::Searching))
}

impl MonitorStep {
    /// The step as views.
    pub open spec fn views(self) -> (LinkView, Seq<MonitorEventView>, WorkView) {
        (self.link@, event_views(self.events@), self.work@)
    }
}

fn work_for(link: &MonitorLink) -> (w: MonitorWork)
    ensures
        w@ == pending_work(link@),
{
    match link {
        MonitorLink::FindingSerial => MonitorWork::FindPort(UsbId::clearcore_serial()),
        MonitorLink::FindingBootloader => MonitorWork::FindPort(UsbId::clearcore_bootloader()),
        MonitorLink::Opening(p) => MonitorWork::OpenPort {
            port_name: p.clone(),
            baud_rate: SerialConfig::serial_monitor().baud_rate,
            timeout_ms: 2000,
        },
        MonitorLink::Reading => MonitorWork::ReadLine,
        MonitorLink::RetryWait => MonitorWork::Sleep(1000),
        MonitorLink::ReconnectWait => MonitorWork::Sleep(1000),
        MonitorLink::Stopped => MonitorWork::Stop,
    }
}

fn step_to(link: MonitorLink, events: Vec<SerialMonitorEvent>) -> (s: MonitorStep)
    ensures
        s.views() == moves_to(link@, event_views(events@)),
{
    let work = work_for(&link);
    MonitorStep { link, events, work }
}

fn report(state: MonitorConnectionState) -> (events: Vec<SerialMonitorEvent>)
    ensures
        event_views(events@) == reports(state@),
{
    let mut events: Vec<SerialMonitorEvent> = Vec::new();
    events.push(SerialMonitorEvent::StateChange(state));
    assert(event_views(events@) =~= reports(state@));
    events
}

impl MonitorLink {
    /// The first step of the loop.
    pub fn start() -> (s: MonitorStep)
        ensures
            s.views() == start_spec(),
    {
        step_to(MonitorLink::FindingSerial, report(MonitorConnectionState::Searching))
    }

    /// The next step of the loop, given what came of the work this state asked for.
    pub fn step(self, input: MonitorInput) -> (s: MonitorStep)
        ensures
            s.views() == step_spec(self@, input@),
    {
        let none: Vec<SerialMonitorEvent> = Vec::new();
        assert(event_views(none@) =~= seq![]);
        match (self, input) {
            (_, MonitorInput::ListenerGone) => step_to(MonitorLink::Stopped, none),
            (MonitorLink::FindingSerial, MonitorInput::PortFound(p)) => {
                let name = p.clone();
                step_to(MonitorLink::Opening(p), report(MonitorConnectionState::Connecting(name)))
            },
            (MonitorLink::FindingSerial, MonitorInput::PortNotFound(_)) => step_to(
                MonitorLink::FindingBootloader,
                none,
            ),
            (MonitorLink::FindingBootloader, MonitorInput::PortFound(p)) => {
                let mut text = String::from_str("Failed to find ClearCore serial port, but found the bootloader at ");
                text.append(p.as_str());
                text.append(". Power cycle clearcore to exit bootloader mode");
                assert(text@ =~= bootloader_only_text(p@));
                step_to(MonitorLink::RetryWait, report(MonitorConnectionState::Error(text)))
            },
            (MonitorLink::FindingBootloader, MonitorInput::PortNotFound(e)) => {
                let mut text = String::from_str("Failed to find ClearCore serial port: ");
                text.append(e.as_str());
                step_to(MonitorLink::RetryWait, report(MonitorConnectionState::Error(text)))
            },
            (MonitorLink::Opening(p), MonitorInput::Opened) => step_to(
                MonitorLink::Reading,
                report(MonitorConnectionState::Connected(p)),
            ),
            (MonitorLink::Opening(_), MonitorInput::OpenFailed(e)) => step_to(
                MonitorLink::ReconnectWait,
                report(MonitorConnectionState::Error(e)),
            ),
            (MonitorLink::Reading, MonitorInput::Line(l)) => {
                let mut events: Vec<SerialMonitorEvent> = Vec::new();
                events.push(SerialMonitorEvent::Data(l));
                assert(event_views(events@) =~= seq![MonitorEventView::Data(l@)]);
                step_to(MonitorLink::Reading, events)
            },
            (MonitorLink::Reading, MonitorInput::EndOfStream) => step_to(
                MonitorLink::ReconnectWait,
                report(MonitorConnectionState::Error(String::from_str("Device disconnected"))),
            ),
            (MonitorLink::Reading, MonitorInput::ReadFailed(e)) => step_to(
                MonitorLink::ReconnectWait,
                report(MonitorConnectionState::Error(e)),
            ),
            (MonitorLink::RetryWait, MonitorInput::Slept) => step_to(MonitorLink::FindingSerial, none),
            (MonitorLink::ReconnectWait, MonitorInput::Slept) => step_to(
                MonitorLink::FindingSerial,
                report(MonitorConnectionState::Searching),
            ),
            (l, _) => step_to(l, none),
        }
    }
}


/// Auto-reconnect: when a connection ends or fails to open, the monitor reports the
/// error, waits, reports that it is searching again and looks for the serial port.
pub proof fn lost_connection_is_searched_again(link: LinkView, input: InputView)
    requires
        (link is Reading && (input is EndOfStream || input is ReadFailed)) || (link is Opening
            && input is OpenFailed),
    ensures
        ({
            let (l1, e1, w1) = step_spec(link, input);
            let (l2, e2, w2) = step_spec(l1, InputView::Slept);
            &&& e1.len() == 1
            &&& e1[0] matches MonitorEventView::StateChange(ConnectionView::Error(_))
            &&& w1 == WorkView::Sleep(retry_delay_ms())
            &&& l2 is FindingSerial
            &&& e2 == reports(ConnectionView::Searching)
            &&& w2 == WorkView::FindPort(UsbId::spec_clearcore_serial())
        }),
{
}

/// A failed search is retried after a wait, without a new `Searching` report.
pub proof fn failed_search_is_retried(input: InputView)
    requires
        input is PortFound || input is PortNotFound,
    ensures
        ({
            let (l1, e1, w1) = step_spec(LinkView::FindingBootloader, input);
            let (l2, e2, w2) = step_spec(l1, InputView::Slept);
            &&& e1.len() == 1
            &&& e1[0] matches MonitorEventView::StateChange(ConnectionView::Error(_))
            &&& w1 == WorkView::Sleep(retry_delay_ms())
            &&& l2 is FindingSerial
            &&& e2.len() == 0
            &&& w2 == WorkView::FindPort(UsbId::spec_clearcore_serial())
        }),
{
}

/// `Connected` is reported only right after the port opened, and names that port.
pub proof fn connected_only_after_open(link: LinkView, input: InputView, port: Seq<char>)
    requires
        step_spec(link, input).1.contains(MonitorEventView::StateChange(ConnectionView::Connected(port))),
    ensures
        link == LinkView::Opening(port),
        input is Opened,
        step_spec(link, input).0 is Reading,
{
    let e = step_spec(link, input).1;
    let i = choose|i: int| 0 <= i < e.len() && e[i] == MonitorEventView::StateChange(ConnectionView::Connected(port));
    assert(e[i] == MonitorEventView::StateChange(ConnectionView::Connected(port)));
}

/// Device data reaches the screen only while the port is being read, one line per
/// step, as it was read; reading goes on after it.
pub proof fn data_only_while_reading(link: LinkView, input: InputView, line: Seq<char>)
    requires
        step_spec(link, input).1.contains(MonitorEventView::Data(line)),
    ensures
        link is Reading,
        input == InputView::Line(line),
        step_spec(link, input).0 is Reading,
        step_spec(link, input).2 is ReadLine,
{
    let e = step_spec(link, input).1;
    let i = choose|i: int| 0 <= i < e.len() && e[i] == MonitorEventView::Data(line);
    assert(e[i] == MonitorEventView::Data(line));
}

/// Once the screen stopped listening, the loop stays stopped and reports nothing.
pub proof fn stopped_stays_stopped(input: InputView)
    ensures
        step_spec(LinkView::Stopped, input) == moves_to(LinkView::Stopped, seq![]),
{
}

/// When only the bootloader is found, the error names its port and says how to leave it.
pub proof fn bootloader_only_is_explained(port: Seq<char>)
    ensures
        step_spec(LinkView::FindingBootloader, InputView::PortFound(port)).1 == reports(
            ConnectionView::Error(bootloader_only_text(port)),
        ),
        bootloader_only_text(port).subrange(66, 66 + port.len() as int) == port,
{
    reveal_strlit("Failed to find ClearCore serial port, but found the bootloader at ");
    assert(bootloader_only_text(port).subrange(66, 66 + port.len() as int) =~= port);
}

/// The state in which the loop ends and the events it sends, from `link` on, when
/// the work it asks for brings `inputs`, in order.
pub open spec fn run_from(link: LinkView, inputs: Seq<InputView>) -> (LinkView, Seq<MonitorEventView>)
    decreases inputs.len(),
{
    if inputs.len() == 0 {
        (link, seq![])
    } else {
        let (next, events, _) = step_spec(link, inputs[0]);
        let (last, later) = run_from(next, inputs.drop_first());
        (last, events + later)
    }
}

/// Every event that the loop sends from its start, when its work brings `inputs`.
pub open spec fn event_trace(inputs: Seq<InputView>) -> Seq<MonitorEventView> {
    start_spec().1 + run_from(start_spec().0, inputs).1
}

/// `event` reports a connection.
pub open spec fn is_connected_event(event: MonitorEventView) -> bool {
    event matches MonitorEventView::StateChange(ConnectionView::Connected(_))
}

/// Each `Connected(n)` in `trace` comes right after `Connecting(n)` for the same port.
pub open spec fn connected_follows_connecting(trace: Seq<MonitorEventView>) -> bool {
    forall|k: int|
        0 <= k < trace.len() ==> (#[trigger] trace[k] matches MonitorEventView::StateChange(
            ConnectionView::Connected(n),
        ) ==> k >= 1 && trace[k - 1] == MonitorEventView::StateChange(ConnectionView::Connecting(n)))
}

/// `trace` has reported a connection, and nothing but data since.
pub open spec fn connection_open(trace: Seq<MonitorEventView>) -> bool {
    exists|j: int|
        0 <= j < trace.len() && #[trigger] is_connected_event(trace[j]) && forall|i: int|
            j < i < trace.len() ==> (#[trigger] trace[i]) is Data
}

/// Data in `trace` comes only after a `Connected` and before the next state change.
pub open spec fn data_within_connection(trace: Seq<MonitorEventView>) -> bool {
    forall|k: int| 0 <= k < trace.len() && (#[trigger] trace[k]) is Data ==> connection_open(trace.take(k))
}

/// What holds of the events sent so far in each state of the loop.
spec fn trace_inv(link: LinkView, trace: Seq<MonitorEventView>) -> bool {
    &&& connected_follows_connecting(trace)
    &&& data_within_connection(trace)
    &&& (link matches LinkView::Opening(n) ==> trace.len() >= 1 && trace.last()
        == MonitorEventView::StateChange(ConnectionView::Connecting(n)))
    &&& (link is Reading ==> connection_open(trace))
}

proof fn lemma_trace_push(trace: Seq<MonitorEventView>, event: MonitorEventView)
    requires
        connected_follows_connecting(trace),
        data_within_connection(trace),
        event matches MonitorEventView::StateChange(ConnectionView::Connected(n)) ==> trace.len() >= 1
            && trace.last() == MonitorEventView::StateChange(ConnectionView::Connecting(n)),
        event is Data ==> connection_open(trace),
    ensures
        connected_follows_connecting(trace.push(event)),
        data_within_connection(trace.push(event)),
{
    let t = trace.push(event);
    assert forall|k: int| 0 <= k < t.len() && (#[trigger] t[k]) is Data implies connection_open(t.take(k)) by {
        if k < trace.len() {
            assert(t.take(k) =~= trace.take(k));
            assert(trace[k] == t[k]);
        } else {
            assert(t.take(k) =~= trace);
        }
    }
    assert forall|k: int|
        0 <= k < t.len() implies (#[trigger] t[k] matches MonitorEventView::StateChange(
        ConnectionView::Connected(n),
    ) ==> k >= 1 && t[k - 1] == MonitorEventView::StateChange(ConnectionView::Connecting(n))) by {
        if k < trace.len() {
            assert(trace[k] == t[k]);
            if k >= 1 {
                assert(trace[k - 1] == t[k - 1]);
            }
        }
    }
}

proof fn lemma_trace_step(link: LinkView, trace: Seq<MonitorEventView>, input: InputView)
    requires
        trace_inv(link, trace),
    ensures
        trace_inv(step_spec(link, input).0, trace + step_spec(link, input).1),
{
    let (next, events, _) = step_spec(link, input);
    if events.len() == 0 {
        assert(trace + events =~= trace);
    } else {
        assert(events.len() == 1);
        let event = events[0];
        assert(trace + events =~= trace.push(event));
        if event is Data {
            assert(link is Reading);
        }
        lemma_trace_push(trace, event);
        let t = trace.push(event);
        if next is Reading {
            if event is Data {
                let j = choose|j: int|
                    0 <= j < trace.len() && #[trigger] is_connected_event(trace[j]) && forall|i: int|
                        j < i < trace.len() ==> (#[trigger] trace[i]) is Data;
                assert(t[j] == trace[j]);
                assert forall|i: int| j < i < t.len() implies (#[trigger] t[i]) is Data by {
                    if i < trace.len() {
                        assert(t[i] == trace[i]);
                    }
                }
                assert(is_connected_event(t[j]));
            } else {
                assert(is_connected_event(t[trace.len() as int]));
            }
        }
    }
}

proof fn lemma_trace_run(link: LinkView, trace: Seq<MonitorEventView>, inputs: Seq<InputView>)
    requires
        trace_inv(link, trace),
    ensures
        connected_follows_connecting(trace + run_from(link, inputs).1),
        data_within_connection(trace + run_from(link, inputs).1),
    decreases inputs.len(),
{
    if inputs.len() == 0 {
        assert(trace + run_from(link, inputs).1 =~= trace);
    } else {
        let (next, events, _) = step_spec(link, inputs[0]);
        lemma_trace_step(link, trace, inputs[0]);
        lemma_trace_run(next, trace + events, inputs.drop_first());
        assert(trace + run_from(link, inputs).1 =~= (trace + events) + run_from(next, inputs.drop_first()).1);
    }
}

/// The monitor's events, whatever its work brings: the first reports `Searching`;
/// each `Connected(n)` comes right after `Connecting(n)` for the same port; and data
/// comes only after a `Connected`, before the next state change.
pub proof fn event_trace_is_well_formed(inputs: Seq<InputView>)
    ensures
        event_trace(inputs).len() >= 1,
        event_trace(inputs)[0] == MonitorEventView::StateChange(ConnectionView::Searching),
        connected_follows_connecting(event_trace(inputs)),
        data_within_connection(event_trace(inputs)),
{
    let start = reports(ConnectionView::Searching);
    assert forall|k: int| 0 <= k < start.len() && (#[trigger] start[k]) is Data implies connection_open(
        start.take(k),
    ) by {}
    assert(trace_inv(LinkView::FindingSerial, start));
    lemma_trace_run(LinkView::FindingSerial, start, inputs);
}

/// Once the loop has stopped, it sends nothing more.
proof fn lemma_stopped_is_silent(inputs: Seq<InputView>)
    ensures
        run_from(LinkView::Stopped, inputs).1.len() == 0,
    decreases inputs.len(),
{
    if inputs.len() > 0 {
        lemma_stopped_is_silent(inputs.drop_first());
    }
}

/// While the loop waits to reconnect, the next event it sends, if any, is `Searching`.
proof fn lemma_reconnect_wait_searches(inputs: Seq<InputView>)
    ensures
        run_from(LinkView::ReconnectWait, inputs).1.len() == 0 || run_from(LinkView::ReconnectWait, inputs).1[0]
            == MonitorEventView::StateChange(ConnectionView::Searching),
    decreases inputs.len(),
{
    if inputs.len() > 0 {
        let input = inputs[0];
        let rest = inputs.drop_first();
        if input is ListenerGone {
            lemma_stopped_is_silent(rest);
            assert(run_from(LinkView::ReconnectWait, inputs).1 =~= run_from(LinkView::Stopped, rest).1);
        } else if input is Slept {
            let later = run_from(LinkView::FindingSerial, rest).1;
            assert(run_from(LinkView::ReconnectWait, inputs).1 == reports(ConnectionView::Searching) + later);
            assert((reports(ConnectionView::Searching) + later)[0] == MonitorEventView::StateChange(
                ConnectionView::Searching,
            ));
        } else {
            lemma_reconnect_wait_searches(rest);
            assert(run_from(LinkView::ReconnectWait, inputs).1 =~= run_from(LinkView::ReconnectWait, rest).1);
        }
    }
}

/// A port that fails to open is reported as `Error` with the failure's text; the loop
/// then waits a second, and the next event it sends, if any, is `Searching`.
pub proof fn open_failure_is_reported_then_searched(port: Seq<char>, error: Seq<char>, later: Seq<InputView>)
    ensures
        step_spec(LinkView::Opening(port), InputView::OpenFailed(error)).2 == WorkView::Sleep(retry_delay_ms()),
        ({
            let events = run_from(LinkView::Opening(port), seq![InputView::OpenFailed(error)] + later).1;
            &&& events.len() >= 1
            &&& events[0] == MonitorEventView::StateChange(ConnectionView::Error(error))
            &&& events.len() == 1 || events[1] == MonitorEventView::StateChange(ConnectionView::Searching)
        }),
{
    let inputs = seq![InputView::OpenFailed(error)] + later;
    assert(inputs[0] == InputView::OpenFailed(error));
    assert(inputs.drop_first() =~= later);
    lemma_reconnect_wait_searches(later);
    let rest = run_from(LinkView::ReconnectWait, later).1;
    assert(run_from(LinkView::Opening(port), inputs).1 == reports(ConnectionView::Error(error)) + rest);
    if rest.len() > 0 {
        assert((reports(ConnectionView::Error(error)) + rest)[1] == rest[0]);
    }
}

} // verus!
