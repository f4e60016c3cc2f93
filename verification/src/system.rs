//! Small pieces of the core's system integration: command output for the
//! user interface, sound file locations, controller bindings used for
//! activity detection, GPU profiles through LACT, the Bigscreen Beyond's
//! HID reports and the VRCX notification pipe.
use crate::text::{
    decimal, push_decimal, push_str, seq_ends_with, str_ends_with, string_from_utf8_lossy,
    utf8_lossy,
};
use crate::power::Output;
use vstd::prelude::*;

verus! {

/// Whether the process runs with administrator rights. On Linux a user may
/// be allowed privileged actions without being root, so this is decided per
/// action and reported as `false`.
pub fn is_elevated() -> (res: bool)
    ensures
        !res,
{
    false
}

impl Output {
    /// The output of a finished command: its streams decoded leniently as
    /// UTF-8, and its exit code (0 when it was ended by a signal).
    pub fn from_process(stdout: &[u8], stderr: &[u8], code: Option<i32>) -> (res: Output)
        ensures
            res.stdout@ == utf8_lossy(stdout@),
            res.stderr@ == utf8_lossy(stderr@),
            res.status == match code {
                Some(c) => c,
                None => 0i32,
            },
    {
        Output {
            stdout: string_from_utf8_lossy(stdout),
            stderr: string_from_utf8_lossy(stderr),
            status: match code {
                Some(c) => c,
                None => 0,
            },
        }
    }
}

/// The file of a sound in the resource directory.
pub fn sound_file_path(resources: &str, sound: &str) -> (res: String)
    ensures
        res@ == resources@ + "/sounds/"@ + sound@ + ".ogg"@,
{
    let mut p = resources.to_owned();
    push_str(&mut p, "/sounds/");
    push_str(&mut p, sound);
    push_str(&mut p, ".ogg");
    p
}

/// Whether a controller input counts as user activity: buttons ("click"),
/// thumbsticks and their axes, and trigger values. Grips do not count, to
/// avoid false positives.
pub open spec fn activity_binding(path: Seq<char>) -> bool {
    seq_ends_with(path, "click"@) || seq_ends_with(path, "thumbstick"@) || seq_ends_with(
        path,
        "thumbstick/x"@,
    ) || seq_ends_with(path, "thumbstick/y"@) || seq_ends_with(path, "trigger/value"@)
}

/// Whether a controller input counts as user activity (see `activity_binding`).
pub fn is_activity_binding(path: &str) -> (res: bool)
    ensures
        res == activity_binding(path@),
{
    str_ends_with(path, "click") || str_ends_with(path, "thumbstick") || str_ends_with(
        path,
        "thumbstick/x",
    ) || str_ends_with(path, "thumbstick/y") || str_ends_with(path, "trigger/value")
}

/// Where the core takes its controller bindings from.
#[derive(Clone, Copy, Debug, PartialEq, Eq, Structural)]
pub struct BindingsSource {
    /// Write the default bindings to the user's file first.
    pub write_default_file: bool,
    /// Use the built-in defaults rather than read the user's file.
    pub use_defaults: bool,
}

/// Where the bindings come from: in a development tree the built-in defaults
/// are used; otherwise the user's file, which is first created with the
/// defaults when missing.
pub fn bindings_source(file_exists: bool, in_dev_tree: bool) -> (res: BindingsSource)
    ensures
        res.write_default_file == (!file_exists && !in_dev_tree),
        res.use_defaults == in_dev_tree,
{
    BindingsSource { write_default_file: !file_exists && !in_dev_tree, use_defaults: in_dev_tree }
}

/// The kinds of action that a bindings profile can map the microphone switch to.
#[derive(Clone, Copy, Debug, PartialEq, Eq, Structural)]
pub enum ParsedActionKind {
    MetaSwitch,
    Disabled,
    Linear,
    PoseSource,
    Haptic,
}

/// What happens to a profile's microphone switch action.
#[derive(Clone, Copy, Debug, PartialEq, Eq, Structural)]
pub enum ActionDisposition {
    /// The action is used.
    Keep,
    /// The action is skipped silently.
    Skip,
    /// The action has the wrong format: it is skipped with a warning.
    WarnAndSkip,
}

/// Only switch actions serve as microphone switches; disabled ones are
/// skipped; any other kind is a configuration mistake.
pub fn mic_action_disposition(kind: ParsedActionKind) -> (res: ActionDisposition)
    ensures
        res == match kind {
            ParsedActionKind::MetaSwitch => ActionDisposition::Keep,
            ParsedActionKind::Disabled => ActionDisposition::Skip,
            _ => ActionDisposition::WarnAndSkip,
        },
{
    match kind {
        ParsedActionKind::MetaSwitch => ActionDisposition::Keep,
        ParsedActionKind::Disabled => ActionDisposition::Skip,
        _ => ActionDisposition::WarnAndSkip,
    }
}

/// Why a GPU profile operation through the LACT daemon failed.
#[derive(Clone, Copy, Debug, PartialEq, Eq, Structural)]
pub enum GpuProfileError {
    UnknownError,
    InvalidProfileIndex,
    ExeCannotExecute,
}

/// The next step of setting a GPU profile.
#[derive(Clone, Copy, Debug, PartialEq, Eq, Structural)]
pub enum LactStep {
    /// Nothing more to do: success.
    Done,
    /// List the daemon's profiles.
    ListProfiles,
}

/// The first step of setting a profile: without a daemon connection the
/// daemon cannot be run; an empty profile name needs nothing more.
pub fn set_lact_profile_start(profile: &String, connected: bool) -> (res: Result<
    LactStep,
    GpuProfileError,
>)
    ensures
        !connected ==> res == Err::<LactStep, GpuProfileError>(GpuProfileError::ExeCannotExecute),
        connected && profile@.len() == 0 ==> res == Ok::<LactStep, GpuProfileError>(LactStep::Done),
        connected && profile@.len() > 0 ==> res == Ok::<LactStep, GpuProfileError>(
            LactStep::ListProfiles,
        ),
{
    if !connected {
        Err(GpuProfileError::ExeCannotExecute)
    } else if profile.as_str().unicode_len() == 0 {
        Ok(LactStep::Done)
    } else {
        Ok(LactStep::ListProfiles)
    }
}

/// The profile to select, from the daemon's list (`None` when listing
/// failed): the listed profile of that name.
pub fn choose_lact_profile(profile: &String, listed: &Option<Vec<String>>) -> (res: Result<
    String,
    GpuProfileError,
>)
    ensures
        listed is None ==> res == Err::<String, GpuProfileError>(GpuProfileError::UnknownError),
        listed matches Some(v) ==> (if exists|i: int| 0 <= i < v@.len() && (#[trigger] v@[i])@ == profile@ {
            res matches Ok(s) && s@ == profile@
        } else {
            res == Err::<String, GpuProfileError>(GpuProfileError::InvalidProfileIndex)
        }),
{
    match listed {
        None => Err(GpuProfileError::UnknownError),
        Some(v) => {
            let mut i: usize = 0;
            while i < v.len()
                invariant
                    listed is Some && listed->0@ == v@,
                    i <= v@.len(),
                    forall|k: int| 0 <= k < i ==> (#[trigger] v@[k])@ != profile@,
                decreases v@.len() - i,
            {
                if v[i] == *profile {
                    return Ok(v[i].clone());
                }
                i = i + 1;
            }
            Err(GpuProfileError::InvalidProfileIndex)
        },
    }
}

/// The daemon's profiles: the daemon cannot be run without a connection, and
/// a failed listing is an unknown error.
pub fn get_lact_profiles(connected: bool, listed: Option<Vec<String>>) -> (res: Result<
    Vec<String>,
    GpuProfileError,
>)
    ensures
        !connected ==> res == Err::<Vec<String>, GpuProfileError>(GpuProfileError::ExeCannotExecute),
        connected && listed is None ==> res == Err::<Vec<String>, GpuProfileError>(
            GpuProfileError::UnknownError,
        ),
        connected && listed is Some ==> res == Ok::<Vec<String>, GpuProfileError>(listed->0),
{
    if !connected {
        return Err(GpuProfileError::ExeCannotExecute);
    }
    match listed {
        Some(v) => Ok(v),
        None => Err(GpuProfileError::UnknownError),
    }
}

/// The feature report that sets the Bigscreen Beyond's LED colour.
pub fn set_led_color(r: u8, g: u8, b: u8) -> (res: Vec<u8>)
    ensures
        res@ == seq![0u8, 0x4cu8, r, g, b],
{
    vec![0, 0x4c, r, g, b]
}

/// The feature report that sets the Beyond's fan speed, in percent; speeds
/// above 100 are refused.
pub fn set_fan_speed(speed: u8) -> (res: Result<Vec<u8>, String>)
    ensures
        speed > 100 ==> (res matches Err(e) && e@ == "OUT_OF_BOUNDS"@),
        speed <= 100 ==> (res matches Ok(v) && v@ == seq![0u8, 0x46u8, speed]),
{
    if speed > 100 {
        return Err("OUT_OF_BOUNDS".to_owned());
    }
    Ok(vec![0, 0x46, speed])
}

/// The feature report that sets the Beyond's brightness, a ten-bit value
/// sent high byte first; larger values are refused.
pub fn set_brightness(brightness: u16) -> (res: Result<Vec<u8>, String>)
    ensures
        brightness >= 0x400 ==> (res matches Err(e) && e@ == "OUT_OF_BOUNDS"@),
        brightness < 0x400 ==> (res matches Ok(v) && v@ == seq![
            0u8,
            0x49u8,
            (brightness / 256) as u8,
            (brightness % 256) as u8,
        ]),
{
    if brightness >= 0x0400 {
        return Err("OUT_OF_BOUNDS".to_owned());
    }
    let hi = (brightness / 256) as u8;
    let lo = (brightness % 256) as u8;
    Ok(vec![0, 0x49, hi, lo])
}

/// The sum of the character codes of a text.
pub open spec fn char_code_sum(s: Seq<char>) -> nat
    decreases s.len(),
{
    if s.len() == 0 {
        0
    } else {
        char_code_sum(s.drop_last()) + (s.last() as u32) as nat
    }
}

/// The user name that the pipe is named after: empty when it is unknown.
pub open spec fn user_name(username: Option<&str>) -> Seq<char> {
    match username {
        Some(u) => u@,
        None => Seq::<char>::empty(),
    }
}

/// The named pipe on which VRCX listens for the given user: its number is
/// the sum of the character codes of the user name (empty when unknown),
/// which must fit in 32 bits.
pub fn get_pipe_path(username: Option<&str>) -> (res: String)
    requires
        char_code_sum(user_name(username)) <= u32::MAX,
    ensures
        res@ == "\\\\.\\pipe\\vrcx-ipc-"@ + decimal(char_code_sum(user_name(username))),
{
    let name = match username {
        Some(u) => u,
        None => "",
    };
    proof {
        reveal_strlit("");
        assert(name@ == user_name(username));
    }
    let n = name.unicode_len();
    let mut sum: u64 = 0;
    let mut i: usize = 0;
    while i < n
        invariant
            n == name@.len(),
            name@ == user_name(username),
            char_code_sum(name@) <= u32::MAX,
            i <= n,
            sum == char_code_sum(name@.take(i as int)),
        decreases n - i,
    {
        assert(name@.take(i + 1).drop_last() =~= name@.take(i as int));
        let c = name.get_char(i);
        assert(name@.take(i + 1).last() == c);
        proof {
            lemma_char_code_sum_prefix(name@, i + 1);
        }
        sum = sum + (c as u32) as u64;
        i = i + 1;
    }
    assert(name@.take(n as int) =~= name@);
    let mut p = "\\\\.\\pipe\\vrcx-ipc-".to_owned();
    push_decimal(&mut p, sum);
    p
}

proof fn lemma_char_code_sum_prefix(s: Seq<char>, i: int)
    requires
        0 <= i <= s.len(),
    ensures
        char_code_sum(s.take(i)) <= char_code_sum(s),
    decreases s.len() - i,
{
    if i < s.len() {
        lemma_char_code_sum_prefix(s, i + 1);
        assert(s.take(i + 1).drop_last() =~= s.take(i));
    } else {
        assert(s.take(i) =~= s);
    }
}

/// Why a message could not be handed to VRCX.
#[derive(Clone, Debug)]
pub enum VrcxNotificationSenderError {
    UnableToConnect(String),
    NotConnected,
    SendFailed(String),
}

/// The kind of event sent to VRCX.
#[derive(Clone, Copy, Debug, PartialEq, Eq, Structural)]
pub enum EventType {
    VrcxMessage,
}

/// The kind of VRCX message.
#[derive(Clone, Copy, Debug, PartialEq, Eq, Structural)]
pub enum MessageType {
    External,
}

/// A message for VRCX's notification pipe.
#[derive(Clone, Debug)]
pub struct VrcxMsg {
    pub type_: EventType,
    pub msg_type: Option<MessageType>,
    pub data: Option<String>,
    pub notify: bool,
    pub user_id: Option<String>,
    pub display_name: Option<String>,
}

/// Whether the pipe to VRCX is open (the pipe itself belongs to the caller).
pub struct NotificationSender {
    pub connected: bool,
}

/// Tries to connect the sender at start-up: `attempt` is the outcome of
/// opening the pipe. A failure is only noted, and a pipe that is already open
/// stays open.
pub fn init(sender: &mut NotificationSender, attempt: Result<(), VrcxNotificationSenderError>)
    ensures
        final(sender).connected == (old(sender).connected || attempt is Ok),
{
    let _ = sender.connect(attempt);
}

impl NotificationSender {
    /// A sender with no pipe open.
    pub fn new() -> (res: NotificationSender)
        ensures
            !res.connected,
    {
        NotificationSender { connected: false }
    }

    /// Records an attempt to open the pipe (`attempt` is its outcome): a
    /// success opens it; a failure is returned and leaves the sender as it
    /// was.
    pub fn connect(&mut self, attempt: Result<(), VrcxNotificationSenderError>) -> (res: Result<
        (),
        VrcxNotificationSenderError,
    >)
        ensures
            final(self).connected == (old(self).connected || attempt is Ok),
            res == attempt,
    {
        if attempt.is_ok() {
            self.connected = true;
        }
        attempt
    }

    /// The message to write for a text from OyasumiVR: an external VRCX
    /// message that does not notify, from "OyasumiVR"; fails when no pipe is
    /// open.
    pub fn send_msg(&self, msg: String) -> (res: Result<VrcxMsg, VrcxNotificationSenderError>)
        ensures
            !self.connected ==> res matches Err(VrcxNotificationSenderError::NotConnected),
            self.connected ==> (res matches Ok(m) && m.type_ == EventType::VrcxMessage && m.msg_type
                == Some(MessageType::External) && (m.data matches Some(d) && d@ == msg@) && !m.notify
                && m.user_id is None && (m.display_name matches Some(n) && n@ == "OyasumiVR"@)),
    {
        if !self.connected {
            return Err(VrcxNotificationSenderError::NotConnected);
        }
        Ok(
            VrcxMsg {
                type_: EventType::VrcxMessage,
                msg_type: Some(MessageType::External),
                data: Some(msg),
                notify: false,
                user_id: None,
                display_name: Some("OyasumiVR".to_owned()),
            },
        )
    }

    /// A write to the pipe failed: a broken pipe closes the connection and
    /// reports it as not connected; any other failure is reported as is.
    pub fn write_failed(&mut self, broken_pipe: bool, error: String) -> (res: VrcxNotificationSenderError)
        ensures
            broken_pipe ==> !final(self).connected && res is NotConnected,
            !broken_pipe ==> final(self).connected == old(self).connected,
            !broken_pipe ==> (res matches VrcxNotificationSenderError::SendFailed(e) && e@ == error@),
    {
        if broken_pipe {
            self.connected = false;
            VrcxNotificationSenderError::NotConnected
        } else {
            VrcxNotificationSenderError::SendFailed(error)
        }
    }
}

/// Whether the Steam client is connected: this build has no Steam support.
pub fn steam_active() -> (res: bool)
    ensures
        !res,
{
    false
}

/// An achievement's state: this build has no Steam support.
pub fn steam_achievement_get(achievement_id: &String) -> (res: Result<bool, String>)
    ensures
        res matches Err(e) && e@ == "STEAM_SUPPORT_DISABLED"@,
{
    Err("STEAM_SUPPORT_DISABLED".to_owned())
}

/// What setting an achievement to a state takes.
#[derive(Clone, Copy, Debug, PartialEq, Eq, Structural)]
pub enum AchievementChange {
    /// It already has that state.
    Unchanged,
    /// Unlock it, then store the statistics.
    Unlock,
    /// Lock it again, then store the statistics.
    Clear,
}

/// What setting an achievement whose state is `current` to `unlocked` takes.
pub fn achievement_change(current: bool, unlocked: bool) -> (res: AchievementChange)
    ensures
        current == unlocked ==> res == AchievementChange::Unchanged,
        current != unlocked && unlocked ==> res == AchievementChange::Unlock,
        current != unlocked && !unlocked ==> res == AchievementChange::Clear,
{
    if current == unlocked {
        AchievementChange::Unchanged
    } else if unlocked {
        AchievementChange::Unlock
    } else {
        AchievementChange::Clear
    }
}

/// Setting an achievement: without Steam support there is nothing to do.
pub fn steam_achievement_set(achievement_id: &String, unlocked: bool) -> (res: Result<(), String>)
    ensures
        res is Ok,
{
    Ok(())
}

} // verus!
