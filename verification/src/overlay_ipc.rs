//! The overlay sidecar's channel to its web page: the scripts it runs in the
//! page, the messages the page sends back over a websocket, and what the
//! sidecar does with each of them. The browser and the sockets stay with the
//! caller.
use crate::text::{decimal, parse_unsigned, parse_unsigned_decimal, push_decimal, push_str};
use base64::Engine;
use rand::distr::SampleString;
use vstd::prelude::*;

verus! {

/// The functions that the page can call, by the number that it sends.
#[derive(Clone, Copy, Debug, PartialEq, Eq, Structural)]
pub enum FuntionCall {
    SetSleepMpde,
    OnUiReady,
    SyncState,
    SendEventVoid,
    SendEventString,
    SendEventBool,
    SendEventInt,
    SendEventDouble,
    SendEventJson,
    SendEvent,
    AddNotification,
    ShowToolTip,
    Dispose,
    GetDebugTranslations,
    Close,
}

/// The number of a function.
pub open spec fn call_number(f: FuntionCall) -> u8 {
    match f {
        FuntionCall::SetSleepMpde => 0,
        FuntionCall::OnUiReady => 1,
        FuntionCall::SyncState => 2,
        FuntionCall::SendEventVoid => 3,
        FuntionCall::SendEventString => 4,
        FuntionCall::SendEventBool => 5,
        FuntionCall::SendEventInt => 6,
        FuntionCall::SendEventDouble => 7,
        FuntionCall::SendEventJson => 8,
        FuntionCall::SendEvent => 9,
        FuntionCall::AddNotification => 10,
        FuntionCall::ShowToolTip => 11,
        FuntionCall::Dispose => 12,
        FuntionCall::GetDebugTranslations => 13,
        FuntionCall::Close => 14,
    }
}

impl FuntionCall {
    /// The number of the function.
    pub fn id(self) -> (res: u8)
        ensures
            res == call_number(self),
    {
        match self {
            FuntionCall::SetSleepMpde => 0,
            FuntionCall::OnUiReady => 1,
            FuntionCall::SyncState => 2,
            FuntionCall::SendEventVoid => 3,
            FuntionCall::SendEventString => 4,
            FuntionCall::SendEventBool => 5,
            FuntionCall::SendEventInt => 6,
            FuntionCall::SendEventDouble => 7,
            FuntionCall::SendEventJson => 8,
            FuntionCall::SendEvent => 9,
            FuntionCall::AddNotification => 10,
            FuntionCall::ShowToolTip => 11,
            FuntionCall::Dispose => 12,
            FuntionCall::GetDebugTranslations => 13,
            FuntionCall::Close => 14,
        }
    }

    /// The function with the given number; `None` for a number that names none.
    pub fn from_id(id: u8) -> (res: Option<FuntionCall>)
        ensures
            res matches Some(f) ==> call_number(f) == id,
            res is None <==> id > 14,
    {
        match id {
            0 => Some(FuntionCall::SetSleepMpde),
            1 => Some(FuntionCall::OnUiReady),
            2 => Some(FuntionCall::SyncState),
            3 => Some(FuntionCall::SendEventVoid),
            4 => Some(FuntionCall::SendEventString),
            5 => Some(FuntionCall::SendEventBool),
            6 => Some(FuntionCall::SendEventInt),
            7 => Some(FuntionCall::SendEventDouble),
            8 => Some(FuntionCall::SendEventJson),
            9 => Some(FuntionCall::SendEvent),
            10 => Some(FuntionCall::AddNotification),
            11 => Some(FuntionCall::ShowToolTip),
            12 => Some(FuntionCall::Dispose),
            13 => Some(FuntionCall::GetDebugTranslations),
            14 => Some(FuntionCall::Close),
            _ => None,
        }
    }
}

/// A message received on the websocket.
#[derive(Clone, Debug)]
pub enum WsMessage {
    Text(String),
    Close,
    Other,
}

/// What the receive loop does with a message.
#[derive(Clone, Debug)]
pub enum IpcStep {
    /// Leave the loop.
    Stop,
    /// Report that the message is not text, and go on.
    NotText,
    /// Decode the text.
    Decode(String),
}

/// The receive loop stops when the sidecar is being killed or the page
/// closes the socket, and reports messages that are not text.
pub fn ipc_step(killed: bool, msg: WsMessage) -> (res: IpcStep)
    ensures
        killed ==> res is Stop,
        !killed ==> match msg {
            WsMessage::Close => res is Stop,
            WsMessage::Other => res is NotText,
            WsMessage::Text(t) => res matches IpcStep::Decode(u) && u@ == t@,
        },
{
    if killed {
        return IpcStep::Stop;
    }
    match msg {
        WsMessage::Close => IpcStep::Stop,
        WsMessage::Other => IpcStep::NotText,
        WsMessage::Text(t) => IpcStep::Decode(t),
    }
}

/// A decoded call: the number the page sent, the function it names if any,
/// and the text after the first ':' if there is one.
#[derive(Clone, Debug)]
pub struct IpcRequest {
    pub call_id: u8,
    pub call: Option<FuntionCall>,
    pub payload: Option<String>,
}

/// The message did not start with a number from 0 to 255.
#[derive(Clone, Debug)]
pub struct IpcDecodeError {
    pub call_id: String,
}

/// The position of the first ':' in `s`, if any.
pub open spec fn first_colon(s: Seq<char>, i: int) -> bool {
    &&& 0 <= i < s.len()
    &&& s[i] == ':'
    &&& forall|k: int| 0 <= k < i ==> s[k] != ':'
}

/// The text before the first ':' (all of it when there is none).
pub open spec fn head_of(s: Seq<char>) -> Seq<char> {
    if exists|i: int| first_colon(s, i) {
        s.subrange(0, choose|i: int| first_colon(s, i))
    } else {
        s
    }
}

/// The text after the first ':', when there is one.
pub open spec fn tail_of(s: Seq<char>) -> Option<Seq<char>> {
    if exists|i: int| first_colon(s, i) {
        Some(s.subrange((choose|i: int| first_colon(s, i)) + 1, s.len() as int))
    } else {
        None
    }
}

proof fn lemma_first_colon_unique(s: Seq<char>, i: int, j: int)
    requires
        first_colon(s, i),
        first_colon(s, j),
    ensures
        i == j,
{
}

/// Splits a message at its first ':' and reads the number before it.
pub fn decode_ipc_message(text: &str) -> (res: Result<IpcRequest, IpcDecodeError>)
    ensures
        match parse_unsigned(head_of(text@), 255) {
            Some(id) => res matches Ok(r) && r.call_id == id && (r.call matches Some(f)
                ==> call_number(f) == id) && (r.call is None <==> id > 14) && match tail_of(
                text@,
            ) {
                Some(t) => r.payload matches Some(p) && p@ == t,
                None => r.payload is None,
            },
            None => res matches Err(e) && e.call_id@ == head_of(text@),
        },
{
    let n = text.unicode_len();
    let mut i: usize = 0;
    while i < n
        invariant
            n == text@.len(),
            i <= n,
            forall|k: int| 0 <= k < i ==> text@[k] != ':',
        ensures
            i <= n,
            forall|k: int| 0 <= k < i ==> text@[k] != ':',
            i < n ==> text@[i as int] == ':',
        decreases n - i,
    {
        if text.get_char(i) == ':' {
            break;
        }
        i = i + 1;
    }
    let head = text.substring_char(0, i);
    let payload = if i < n {
        proof {
            assert(first_colon(text@, i as int));
            let c = choose|j: int| first_colon(text@, j);
            lemma_first_colon_unique(text@, i as int, c);
        }
        Some(text.substring_char(i + 1, n).to_owned())
    } else {
        proof {
            assert forall|j: int| !first_colon(text@, j) by {}
            assert(text@.subrange(0, n as int) =~= text@);
        }
        None
    };
    match parse_unsigned_decimal(head, 255) {
        Some(id) => Ok(IpcRequest { call_id: id as u8, call: FuntionCall::from_id(id as u8), payload }),
        None => Err(IpcDecodeError { call_id: head.to_owned() }),
    }
}

/// The typed data that an event forwarded to the core carries.
#[derive(Clone, Copy, Debug, PartialEq, Eq, Structural)]
pub enum EventDataKind {
    Void,
    String,
    Bool,
    Int,
    Double,
    Json,
}

/// What the sidecar does for a call from the page.
#[derive(Clone, Copy, Debug, PartialEq, Eq, Structural)]
pub enum IpcAction {
    /// Send the last state received from the core to the page.
    SendState,
    /// Nothing to do.
    Nothing,
    /// Ask the core to show a notification and answer the page.
    ForwardNotification,
    /// Hide the dashboard.
    HideDashboard,
    /// Forward an event to the core, with data of this kind.
    ForwardEvent(EventDataKind),
    /// Report a call that the sidecar does not implement.
    Unimplemented,
}

/// The action for a call: a page that became ready gets the state once the
/// core has sent one; tool tips and disposal need nothing; notifications and
/// events go to the core; closing hides the dashboard; the other calls (and
/// unknown numbers) are not implemented.
pub open spec fn action_for(call: Option<FuntionCall>, state_known: bool) -> IpcAction {
    match call {
        Some(FuntionCall::OnUiReady) => if state_known {
            IpcAction::SendState
        } else {
            IpcAction::Nothing
        },
        Some(FuntionCall::ShowToolTip) => IpcAction::Nothing,
        Some(FuntionCall::AddNotification) => IpcAction::ForwardNotification,
        Some(FuntionCall::Close) => IpcAction::HideDashboard,
        Some(FuntionCall::Dispose) => IpcAction::Nothing,
        Some(FuntionCall::SendEventBool) => IpcAction::ForwardEvent(EventDataKind::Bool),
        Some(FuntionCall::SendEventInt) => IpcAction::ForwardEvent(EventDataKind::Int),
        Some(FuntionCall::SendEventDouble) => IpcAction::ForwardEvent(EventDataKind::Double),
        Some(FuntionCall::SendEventJson) => IpcAction::ForwardEvent(EventDataKind::Json),
        Some(FuntionCall::SendEventString) => IpcAction::ForwardEvent(EventDataKind::String),
        Some(FuntionCall::SendEventVoid) => IpcAction::ForwardEvent(EventDataKind::Void),
        _ => IpcAction::Unimplemented,
    }
}

/// The action for a call (see `action_for`).
pub fn ipc_action(call: Option<FuntionCall>, state_known: bool) -> (res: IpcAction)
    ensures
        res == action_for(call, state_known),
        forall|k: EventDataKind| call == Some(event_call(k)) ==> res == IpcAction::ForwardEvent(k),
        res matches IpcAction::ForwardEvent(k) ==> call == Some(event_call(k)),
        call == Some(FuntionCall::AddNotification) <==> res == IpcAction::ForwardNotification,
        call == Some(FuntionCall::Close) <==> res == IpcAction::HideDashboard,
        res == IpcAction::SendState <==> (call == Some(FuntionCall::OnUiReady) && state_known),
{
    match call {
        Some(FuntionCall::OnUiReady) => if state_known {
            IpcAction::SendState
        } else {
            IpcAction::Nothing
        },
        Some(FuntionCall::ShowToolTip) => IpcAction::Nothing,
        Some(FuntionCall::AddNotification) => IpcAction::ForwardNotification,
        Some(FuntionCall::Close) => IpcAction::HideDashboard,
        Some(FuntionCall::Dispose) => IpcAction::Nothing,
        Some(FuntionCall::SendEventBool) => IpcAction::ForwardEvent(EventDataKind::Bool),
        Some(FuntionCall::SendEventInt) => IpcAction::ForwardEvent(EventDataKind::Int),
        Some(FuntionCall::SendEventDouble) => IpcAction::ForwardEvent(EventDataKind::Double),
        Some(FuntionCall::SendEventJson) => IpcAction::ForwardEvent(EventDataKind::Json),
        Some(FuntionCall::SendEventString) => IpcAction::ForwardEvent(EventDataKind::String),
        Some(FuntionCall::SendEventVoid) => IpcAction::ForwardEvent(EventDataKind::Void),
        _ => IpcAction::Unimplemented,
    }
}

/// `pat` occurs in `s` at `i`.
pub open spec fn occurs_at(s: Seq<char>, pat: Seq<char>, i: int) -> bool {
    0 <= i && i + pat.len() <= s.len() && s.subrange(i, i + pat.len()) == pat
}

/// `i` is the first occurrence of `pat` in `s`.
pub open spec fn first_occurrence(s: Seq<char>, pat: Seq<char>, i: int) -> bool {
    occurs_at(s, pat, i) && forall|j: int| 0 <= j < i ==> !occurs_at(s, pat, j)
}

/// The page script with its first "WS_ADDR" replaced by the websocket
/// address on the given port.
pub open spec fn ipc_script_for(script: Seq<char>, port: u16, i: int) -> Seq<char> {
    script.subrange(0, i) + "localhost:"@ + decimal(port as nat) + script.subrange(
        i + "WS_ADDR"@.len(),
        script.len() as int,
    )
}

/// Fills the websocket address into the page script: its first "WS_ADDR"
/// becomes "localhost:" and the port.
pub fn get_ipc_script(script: &str, port: u16) -> (res: String)
    requires
        exists|i: int| occurs_at(script@, "WS_ADDR"@, i),
    ensures
        exists|i: int|
            first_occurrence(script@, "WS_ADDR"@, i) && res@ == ipc_script_for(script@, port, i),
{
    let pat = "WS_ADDR";
    let n = script.unicode_len();
    let m = pat.unicode_len();
    proof {
        reveal_strlit("WS_ADDR");
    }
    let mut i: usize = 0;
    let ghost w = choose|i: int| occurs_at(script@, "WS_ADDR"@, i);
    loop
        invariant
            n == script@.len(),
            m == pat@.len(),
            pat@ == "WS_ADDR"@,
            occurs_at(script@, pat@, w),
            i <= w,
            forall|j: int| 0 <= j < i ==> !occurs_at(script@, pat@, j),
        decreases w - i,
    {
        let mut matched = true;
        let mut k: usize = 0;
        while k < m
            invariant
                n == script@.len(),
                m == pat@.len(),
                occurs_at(script@, pat@, w),
                i <= w,
                k <= m,
                matched ==> forall|q: int| 0 <= q < k ==> script@[i + q] == pat@[q],
                !matched ==> !occurs_at(script@, pat@, i as int),
            decreases m - k,
        {
            if matched {
                if script.get_char(i + k) != pat.get_char(k) {
                    assert(script@.subrange(i as int, i + m)[k as int] != pat@[k as int]);
                    matched = false;
                }
            }
            k = k + 1;
        }
        if matched {
            assert(script@.subrange(i as int, i + m) =~= pat@);
            let before = script.substring_char(0, i);
            let after = script.substring_char(i + m, n);
            let mut out = String::new();
            push_str(&mut out, before);
            push_str(&mut out, "localhost:");
            push_decimal(&mut out, port as u64);
            push_str(&mut out, after);
            assert(first_occurrence(script@, "WS_ADDR"@, i as int));
            assert(out@ =~= ipc_script_for(script@, port, i as int));
            return out;
        }
        i = i + 1;
    }
}

/// The script that hides the dashboard.
pub fn hide_dashboard_script() -> (res: String)
    ensures
        res@ == "window.OyasumiIPCIn.hideDashboard();"@,
{
    "window.OyasumiIPCIn.hideDashboard();".to_owned()
}

/// The script that shows the dashboard.
pub fn show_dashboard_script() -> (res: String)
    ensures
        res@ == "window.OyasumiIPCIn.showDashboard();"@,
{
    "window.OyasumiIPCIn.showDashboard();".to_owned()
}

/// The script that shows a tool tip (an empty one for `None`).
pub fn show_tool_tip_script(string: Option<&str>) -> (res: String)
    ensures
        res@ == "window.OyasumiIPCIn.showToolTip("@ + match string {
            Some(s) => s@,
            None => Seq::<char>::empty(),
        } + ");"@,
{
    let mut out = "window.OyasumiIPCIn.showToolTip(".to_owned();
    match string {
        Some(s) => push_str(&mut out, s),
        None => {},
    }
    push_str(&mut out, ");");
    out
}

/// The arguments of a notification, as the page's script reads them.
pub open spec fn notification_args(id: Seq<char>, message: Seq<char>, duration_ms: u64) -> Seq<char> {
    "{id:\""@ + id + "\",message:\""@ + message + "\",duration:"@ + decimal(duration_ms as nat)
        + "}"@
}

/// The script that shows a notification with the given id, message and
/// duration.
pub fn add_notification_script(id: &str, message: &str, duration_ms: u64) -> (res: String)
    ensures
        res@ == "window.OyasumiIPCIn.addNotification("@ + notification_args(
            id@,
            message@,
            duration_ms,
        ) + ");"@,
{
    let mut out = "window.OyasumiIPCIn.addNotification(".to_owned();
    push_str(&mut out, "{id:\"");
    push_str(&mut out, id);
    push_str(&mut out, "\",message:\"");
    push_str(&mut out, message);
    push_str(&mut out, "\",duration:");
    push_decimal(&mut out, duration_ms);
    push_str(&mut out, "}");
    push_str(&mut out, ");");
    assert(out@ =~= "window.OyasumiIPCIn.addNotification("@ + notification_args(
        id@,
        message@,
        duration_ms,
    ) + ");"@);
    out
}

/// The script that removes a notification.
pub fn clear_notification_script(id: &str) -> (res: String)
    ensures
        res@ == "window.OyasumiIPCIn.clearNotification(\""@ + id@ + "\");"@,
{
    let mut out = "window.OyasumiIPCIn.clearNotification(\"".to_owned();
    push_str(&mut out, id);
    push_str(&mut out, "\");");
    out
}

/// The character of a 6-bit value in the standard base64 alphabet.
pub open spec fn base64_char(v: int) -> char {
    if v < 26 {
        ('A' as int + v) as char
    } else if v < 52 {
        ('a' as int + (v - 26)) as char
    } else if v < 62 {
        ('0' as int + (v - 52)) as char
    } else if v == 62 {
        '+'
    } else {
        '/'
    }
}

/// Standard base64 (RFC 4648, with '=' padding): each group of three bytes
/// becomes four characters; a last group of one or two bytes is padded.
pub open spec fn base64_standard(b: Seq<u8>) -> Seq<char>
    decreases b.len(),
{
    if b.len() == 0 {
        seq![]
    } else if b.len() == 1 {
        seq![base64_char(b[0] as int / 4), base64_char((b[0] % 4) * 16), '=', '=']
    } else if b.len() == 2 {
        seq![
            base64_char(b[0] as int / 4),
            base64_char((b[0] % 4) * 16 + b[1] / 16),
            base64_char((b[1] % 16) * 4),
            '=',
        ]
    } else {
        seq![
            base64_char(b[0] as int / 4),
            base64_char((b[0] % 4) * 16 + b[1] / 16),
            base64_char((b[1] % 16) * 4 + b[2] / 64),
            base64_char(b[2] as int % 64),
        ] + base64_standard(b.subrange(3, b.len() as int))
    }
}

/// Calls `base64`'s `BASE64_STANDARD.encode`. The contract claims that the
/// result is the standard base64 encoding of the bytes, with padding.
#[verifier::external_body]
pub fn base64_encode(bytes: &[u8]) -> (res: String)
    ensures
        res@ == base64_standard(bytes@),
{
    base64::prelude::BASE64_STANDARD.encode(bytes)
}

/// The script that hands the page the sidecar state, given as its encoded
/// protocol buffer bytes.
pub fn set_state_script(encoded_state: &[u8]) -> (res: String)
    ensures
        res@ == "window.OyasumiIPCIn.setState(\""@ + base64_standard(encoded_state@) + "\");"@,
{
    let mut out = "window.OyasumiIPCIn.setState(\"".to_owned();
    let encoded = base64_encode(encoded_state);
    push_str(&mut out, encoded.as_str());
    push_str(&mut out, "\");");
    out
}

/// Whether every character is an ASCII letter.
pub open spec fn ascii_letters(s: Seq<char>) -> bool {
    forall|i: int| 0 <= i < s.len() ==> ('A' <= #[trigger] s[i] <= 'Z' || 'a' <= s[i] <= 'z')
}

/// Calls `rand`'s `Alphabetic.sample_string(&mut rand::rng(), 16)`. The
/// contract claims only what every outcome has: sixteen ASCII letters.
#[verifier::external_body]
pub fn random_notification_id() -> (res: String)
    ensures
        res@.len() == 16,
        ascii_letters(res@),
{
    rand::distr::Alphabetic.sample_string(&mut rand::rng(), 16)
}

/// A notification to show: its id and the script that shows it.
pub struct NotificationScript {
    pub id: String,
    pub script: String,
}

/// A new notification: a fresh id of sixteen letters, and the script that
/// shows the message under that id for the given time.
pub fn add_notification(message: &str, duration_ms: u64) -> (res: NotificationScript)
    ensures
        res.id@.len() == 16,
        ascii_letters(res.id@),
        res.script@ == "window.OyasumiIPCIn.addNotification("@ + notification_args(
            res.id@,
            message@,
            duration_ms,
        ) + ");"@,
{
    let id = random_notification_id();
    let script = add_notification_script(id.as_str(), message, duration_ms);
    NotificationScript { id, script }
}

/// A notification that the core asks the sidecar to show.
pub struct OverlayIPCAddNotification {
    pub message: String,
    pub duration_ms: u64,
}

/// The call with which the page sends an event carrying data of kind `k`.
pub open spec fn event_call(k: EventDataKind) -> FuntionCall {
    match k {
        EventDataKind::Void => FuntionCall::SendEventVoid,
        EventDataKind::String => FuntionCall::SendEventString,
        EventDataKind::Bool => FuntionCall::SendEventBool,
        EventDataKind::Int => FuntionCall::SendEventInt,
        EventDataKind::Double => FuntionCall::SendEventDouble,
        EventDataKind::Json => FuntionCall::SendEventJson,
    }
}

/// Each typed event call is forwarded to the core with data of its own kind,
/// whatever the state; and an event is forwarded only for the call of its kind.
pub proof fn law_events_keep_their_kind(k: EventDataKind, call: Option<FuntionCall>, state_known: bool)
    ensures
        action_for(Some(event_call(k)), state_known) == IpcAction::ForwardEvent(k),
        action_for(call, state_known) == IpcAction::ForwardEvent(k) ==> call == Some(event_call(k)),
{
}

/// Notifications go to the core, a close hides the dashboard, and the state
/// is sent exactly when a ready page asks and a state is known; each of these
/// actions comes from its call alone.
pub proof fn law_page_calls_and_their_actions(call: Option<FuntionCall>, state_known: bool)
    ensures
        action_for(call, state_known) == IpcAction::ForwardNotification <==> call == Some(
            FuntionCall::AddNotification,
        ),
        action_for(call, state_known) == IpcAction::HideDashboard <==> call == Some(FuntionCall::Close),
        action_for(call, state_known) == IpcAction::SendState <==> (call == Some(FuntionCall::OnUiReady)
            && state_known),
        call is None ==> action_for(call, state_known) == IpcAction::Unimplemented,
{
}

/// Distinct functions have distinct numbers, so a number names at most one.
pub proof fn law_call_numbers_distinct(f: FuntionCall, g: FuntionCall)
    requires
        call_number(f) == call_number(g),
    ensures
        f == g,
{
}

/// Base64 turns every started group of three bytes into four characters.
pub proof fn law_base64_length(b: Seq<u8>)
    ensures
        base64_standard(b).len() == 4 * ((b.len() + 2) / 3),
    decreases b.len(),
{
    if b.len() >= 3 {
        law_base64_length(b.subrange(3, b.len() as int));
    }
}

} // verus!
