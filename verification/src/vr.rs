//! The VR side of the core: the models shared with the user interface, the
//! decisions of the OpenXR polling loops, head-shake detection switches and
//! the sliding window of the sleep detector. The OpenXR runtime and the
//! floating-point pose arithmetic stay with the caller.
use std::collections::VecDeque;
use vstd::prelude::*;

verus! {

/// Frame limits of an application.
#[derive(Clone, Copy, Debug, PartialEq, Eq, Structural)]
pub struct OVRFrameLimits {
    pub additional_frames_to_predict: u8,
    pub frames_to_throttle: u8,
}

#[derive(Clone, Copy, Debug, PartialEq, Eq, Structural)]
pub enum TrackedControllerRole {
    Invalid,
    LeftHand,
    RightHand,
    OptOut,
    Treadmill,
    Stylus,
}

#[derive(Clone, Copy, Debug, PartialEq, Eq, Structural)]
pub enum OVRHandleType {
    HandPrimary,
    HandSecondary,
    Head,
    Gamepad,
    Treadmill,
    Stylus,
    FootLeft,
    FootRight,
    ShoulderLeft,
    ShoulderRight,
    ElbowLeft,
    ElbowRight,
    KneeLeft,
    KneeRight,
    WristLeft,
    WristRight,
    AnkleLeft,
    AnkleRight,
    Waist,
    Chest,
    Camera,
    Keyboard,
}

/// The name of a handle type: the name of its variant.
pub open spec fn handle_type_name(h: OVRHandleType) -> Seq<char> {
    match h {
        OVRHandleType::HandPrimary => "HandPrimary"@,
        OVRHandleType::HandSecondary => "HandSecondary"@,
        OVRHandleType::Head => "Head"@,
        OVRHandleType::Gamepad => "Gamepad"@,
        OVRHandleType::Treadmill => "Treadmill"@,
        OVRHandleType::Stylus => "Stylus"@,
        OVRHandleType::FootLeft => "FootLeft"@,
        OVRHandleType::FootRight => "FootRight"@,
        OVRHandleType::ShoulderLeft => "ShoulderLeft"@,
        OVRHandleType::ShoulderRight => "ShoulderRight"@,
        OVRHandleType::ElbowLeft => "ElbowLeft"@,
        OVRHandleType::ElbowRight => "ElbowRight"@,
        OVRHandleType::KneeLeft => "KneeLeft"@,
        OVRHandleType::KneeRight => "KneeRight"@,
        OVRHandleType::WristLeft => "WristLeft"@,
        OVRHandleType::WristRight => "WristRight"@,
        OVRHandleType::AnkleLeft => "AnkleLeft"@,
        OVRHandleType::AnkleRight => "AnkleRight"@,
        OVRHandleType::Waist => "Waist"@,
        OVRHandleType::Chest => "Chest"@,
        OVRHandleType::Camera => "Camera"@,
        OVRHandleType::Keyboard => "Keyboard"@,
    }
}

impl OVRHandleType {
    /// The name of the handle type.
    pub fn as_str(self) -> (res: &'static str)
        ensures
            res@ == handle_type_name(self),
    {
        match self {
            OVRHandleType::HandPrimary => "HandPrimary",
            OVRHandleType::HandSecondary => "HandSecondary",
            OVRHandleType::Head => "Head",
            OVRHandleType::Gamepad => "Gamepad",
            OVRHandleType::Treadmill => "Treadmill",
            OVRHandleType::Stylus => "Stylus",
            OVRHandleType::FootLeft => "FootLeft",
            OVRHandleType::FootRight => "FootRight",
            OVRHandleType::ShoulderLeft => "ShoulderLeft",
            OVRHandleType::ShoulderRight => "ShoulderRight",
            OVRHandleType::ElbowLeft => "ElbowLeft",
            OVRHandleType::ElbowRight => "ElbowRight",
            OVRHandleType::KneeLeft => "KneeLeft",
            OVRHandleType::KneeRight => "KneeRight",
            OVRHandleType::WristLeft => "WristLeft",
            OVRHandleType::WristRight => "WristRight",
            OVRHandleType::AnkleLeft => "AnkleLeft",
            OVRHandleType::AnkleRight => "AnkleRight",
            OVRHandleType::Waist => "Waist",
            OVRHandleType::Chest => "Chest",
            OVRHandleType::Camera => "Camera",
            OVRHandleType::Keyboard => "Keyboard",
        }
    }

    /// Every handle type, in declaration order.
    pub fn all() -> (res: Vec<OVRHandleType>)
        ensures
            res@ == seq![
                OVRHandleType::HandPrimary,
                OVRHandleType::HandSecondary,
                OVRHandleType::Head,
                OVRHandleType::Gamepad,
                OVRHandleType::Treadmill,
                OVRHandleType::Stylus,
                OVRHandleType::FootLeft,
                OVRHandleType::FootRight,
                OVRHandleType::ShoulderLeft,
                OVRHandleType::ShoulderRight,
                OVRHandleType::ElbowLeft,
                OVRHandleType::ElbowRight,
                OVRHandleType::KneeLeft,
                OVRHandleType::KneeRight,
                OVRHandleType::WristLeft,
                OVRHandleType::WristRight,
                OVRHandleType::AnkleLeft,
                OVRHandleType::AnkleRight,
                OVRHandleType::Waist,
                OVRHandleType::Chest,
                OVRHandleType::Camera,
                OVRHandleType::Keyboard,
            ],
    {
        vec![
            OVRHandleType::HandPrimary,
            OVRHandleType::HandSecondary,
            OVRHandleType::Head,
            OVRHandleType::Gamepad,
            OVRHandleType::Treadmill,
            OVRHandleType::Stylus,
            OVRHandleType::FootLeft,
            OVRHandleType::FootRight,
            OVRHandleType::ShoulderLeft,
            OVRHandleType::ShoulderRight,
            OVRHandleType::ElbowLeft,
            OVRHandleType::ElbowRight,
            OVRHandleType::KneeLeft,
            OVRHandleType::KneeRight,
            OVRHandleType::WristLeft,
            OVRHandleType::WristRight,
            OVRHandleType::AnkleLeft,
            OVRHandleType::AnkleRight,
            OVRHandleType::Waist,
            OVRHandleType::Chest,
            OVRHandleType::Camera,
            OVRHandleType::Keyboard,
        ]
    }
}

#[derive(Clone, Copy, Debug, PartialEq, Eq, Structural)]
pub enum TrackedDeviceClass {
    Invalid,
    HMD,
    Controller,
    GenericTracker,
    TrackingReference,
    DisplayRedirect,
}

/// The state of the connection to the OpenXR runtime.
#[derive(Clone, Copy, Debug, PartialEq, Eq, Structural)]
pub enum VRStatus {
    Inactive,
    Initializing,
    Initialized,
}

/// The name of a status (its variant name).
pub open spec fn status_name(s: VRStatus) -> Seq<char> {
    match s {
        VRStatus::Inactive => "Inactive"@,
        VRStatus::Initializing => "Initializing"@,
        VRStatus::Initialized => "Initialized"@,
    }
}

/// The status as the user interface receives it: the name in upper case.
pub open spec fn status_text(s: VRStatus) -> Seq<char> {
    match s {
        VRStatus::Inactive => "INACTIVE"@,
        VRStatus::Initializing => "INITIALIZING"@,
        VRStatus::Initialized => "INITIALIZED"@,
    }
}

impl VRStatus {
    /// The name of the status.
    pub fn to_display_string(self) -> (res: String)
        ensures
            res@ == status_name(self),
    {
        match self {
            VRStatus::Inactive => "Inactive".to_owned(),
            VRStatus::Initializing => "Initializing".to_owned(),
            VRStatus::Initialized => "Initialized".to_owned(),
        }
    }

    /// The status as the user interface receives it (`vr_status`).
    pub fn vr_status(self) -> (res: String)
        ensures
            res@ == status_text(self),
    {
        match self {
            VRStatus::Inactive => "INACTIVE".to_owned(),
            VRStatus::Initializing => "INITIALIZING".to_owned(),
            VRStatus::Initialized => "INITIALIZED".to_owned(),
        }
    }
}

/// Whether the user is awake, about to sleep, or asleep.
#[derive(Clone, Copy, Debug, PartialEq, Eq, Structural)]
pub enum SleepState {
    Awake,
    Preparing,
    Sleeping,
}

impl SleepState {
    /// The state with the number under which the user interface sends it:
    /// 1 awake, 2 preparing, 3 sleeping.
    pub fn from_code(code: u8) -> (res: Option<SleepState>)
        ensures
            res == (if code == 1 {
                Some(SleepState::Awake)
            } else if code == 2 {
                Some(SleepState::Preparing)
            } else if code == 3 {
                Some(SleepState::Sleeping)
            } else {
                None
            }),
    {
        match code {
            1 => Some(SleepState::Awake),
            2 => Some(SleepState::Preparing),
            3 => Some(SleepState::Sleeping),
            _ => None,
        }
    }
}

/// The events of the OpenXR runner that matter to the core.
#[derive(Clone, Copy, Debug, PartialEq, Eq, Structural)]
pub enum XrEvent {
    SessionEnded,
    Killed,
    Started,
    Other,
}

/// The status that an event of the runner leads to, if any.
pub open spec fn status_after(ev: XrEvent) -> Option<VRStatus> {
    match ev {
        XrEvent::SessionEnded | XrEvent::Killed => Some(VRStatus::Inactive),
        XrEvent::Started => Some(VRStatus::Initialized),
        XrEvent::Other => None,
    }
}

/// The status that an event of the runner leads to: an ended or killed
/// session makes VR inactive, a started one initialized.
pub fn status_after_event(ev: XrEvent) -> (res: Option<VRStatus>)
    ensures
        res == status_after(ev),
        res == Some(VRStatus::Inactive) <==> (ev == XrEvent::SessionEnded || ev == XrEvent::Killed),
        res == Some(VRStatus::Initialized) <==> ev == XrEvent::Started,
        res is None <==> ev == XrEvent::Other,
{
    match ev {
        XrEvent::SessionEnded | XrEvent::Killed => Some(VRStatus::Inactive),
        XrEvent::Started => Some(VRStatus::Initialized),
        XrEvent::Other => None,
    }
}

/// What one poll of the OpenXR runner reported.
#[derive(Clone, Copy, Debug, PartialEq, Eq, Structural)]
pub enum PollResult {
    Success,
    SuccessNoRender,
    UserNotPresent,
    Starting,
    Exit,
    SessionLost,
}

/// How long the core waits after a poll before the next one, in milliseconds:
/// nothing after a rendered frame, a second while the user is away, ten
/// seconds after the runtime exited, a tenth of a second while it starts and
/// a minute when it does not render.
pub open spec fn core_poll_delay(r: PollResult) -> u64 {
    match r {
        PollResult::Success => 0,
        PollResult::UserNotPresent => 1000,
        PollResult::Exit => 10000,
        PollResult::Starting => 100,
        PollResult::SuccessNoRender => 60000,
        PollResult::SessionLost => 0,
    }
}

/// The core's wait after a poll (see `core_poll_delay`).
pub fn core_poll_delay_ms(r: PollResult) -> (res: u64)
    ensures
        res == core_poll_delay(r),
        r == PollResult::UserNotPresent ==> res == 1000,
        r == PollResult::Exit ==> res == 10000,
        r == PollResult::Starting ==> res == 100,
        r == PollResult::SuccessNoRender ==> res == 60000,
        r == PollResult::Success ==> res == 0,
{
    match r {
        PollResult::Success => 0,
        PollResult::UserNotPresent => 1000,
        PollResult::Exit => 10000,
        PollResult::Starting => 100,
        PollResult::SuccessNoRender => 60000,
        PollResult::SessionLost => 0,
    }
}

/// The next step of the overlay's render loop.
#[derive(Clone, Copy, Debug, PartialEq, Eq, Structural)]
pub enum LoopStep {
    /// Poll again after waiting this many milliseconds.
    Continue(u64),
    /// Leave the loop.
    Stop,
}

/// The overlay's render loop: it stops when the overlay is being killed or
/// the session ended or was lost; otherwise it polls again, after a frame's
/// time when nothing was rendered and after a second while the user is away.
pub open spec fn overlay_step(killed: bool, r: PollResult, frame_time_ms: u64) -> LoopStep {
    if killed {
        LoopStep::Stop
    } else {
        match r {
            PollResult::Success => LoopStep::Continue(0),
            PollResult::SuccessNoRender => LoopStep::Continue(frame_time_ms),
            PollResult::UserNotPresent => LoopStep::Continue(1000),
            PollResult::Starting => LoopStep::Continue(0),
            PollResult::Exit | PollResult::SessionLost => LoopStep::Stop,
        }
    }
}

/// The overlay's render loop step (see `overlay_step`).
pub fn overlay_poll_step(killed: bool, r: PollResult, frame_time_ms: u64) -> (res: LoopStep)
    ensures
        res == overlay_step(killed, r, frame_time_ms),
        res == LoopStep::Stop <==> (killed || r == PollResult::Exit || r == PollResult::SessionLost),
        !killed && r == PollResult::SuccessNoRender ==> res == LoopStep::Continue(frame_time_ms),
        !killed && r == PollResult::UserNotPresent ==> res == LoopStep::Continue(1000),
        !killed && (r == PollResult::Success || r == PollResult::Starting) ==> res
            == LoopStep::Continue(0),
{
    if killed {
        return LoopStep::Stop;
    }
    match r {
        PollResult::Success => LoopStep::Continue(0),
        PollResult::SuccessNoRender => LoopStep::Continue(frame_time_ms),
        PollResult::UserNotPresent => LoopStep::Continue(1000),
        PollResult::Starting => LoopStep::Continue(0),
        PollResult::Exit | PollResult::SessionLost => LoopStep::Stop,
    }
}

/// Whether head poses are read: only while VR is initialized.
pub fn should_track_pose(status: VRStatus) -> (res: bool)
    ensures
        res == (status == VRStatus::Initialized),
{
    status == VRStatus::Initialized
}

/// The two switches of head-shake detection: whether a detection task runs,
/// and whether it has been asked to stop.
pub struct GestureDetection {
    pub running: bool,
    pub abort: bool,
}

/// The switches after a request to stop.
pub open spec fn stopped(g: GestureDetection) -> GestureDetection {
    GestureDetection { running: g.running, abort: g.abort || g.running }
}

/// The switches and the loop step after one pass of the detection task.
pub open spec fn detection_pass(g: GestureDetection, frame_time_ms: u64) -> (GestureDetection, LoopStep) {
    if g.abort {
        (GestureDetection { running: false, abort: g.abort }, LoopStep::Stop)
    } else {
        (g, LoopStep::Continue(frame_time_ms))
    }
}

impl GestureDetection {
    /// Nothing runs.
    pub fn new() -> (res: GestureDetection)
        ensures
            !res.running,
            !res.abort,
    {
        GestureDetection { running: false, abort: false }
    }

    /// Asks a running detection to stop; does nothing when none runs.
    pub fn stop_head_shake_detection(&mut self)
        ensures
            *final(self) == stopped(*old(self)),
    {
        if self.running {
            self.abort = true;
        }
    }

    /// A detection task starts.
    pub fn start(&mut self)
        ensures
            final(self).running,
            !final(self).abort,
    {
        self.running = true;
        self.abort = false;
    }

    /// Whether the running task must leave its loop.
    pub fn should_stop(&self) -> (res: bool)
        ensures
            res == self.abort,
    {
        self.abort
    }

    /// The task left its loop.
    pub fn finished(&mut self)
        ensures
            !final(self).running,
            final(self).abort == old(self).abort,
    {
        self.running = false;
    }

    /// One pass of the detection task's loop: once asked to stop it leaves
    /// the loop and is finished; otherwise it reads a pose and waits a frame.
    pub fn detection_step(&mut self, frame_time_ms: u64) -> (res: LoopStep)
        ensures
            (*final(self), res) == detection_pass(*old(self), frame_time_ms),
    {
        if self.abort {
            self.running = false;
            LoopStep::Stop
        } else {
            LoopStep::Continue(frame_time_ms)
        }
    }
}

/// Whether sleep detection is on.
pub struct SleepDetection {
    pub enabled: bool,
}

impl SleepDetection {
    /// Turns sleep detection on or off; returns whether the detector's start
    /// time must be reset, which is when it is turned on after being off.
    pub fn vr_sleep_detection_enabled(&mut self, value: bool) -> (reset: bool)
        ensures
            final(self).enabled == value,
            reset == (!old(self).enabled && value),
    {
        let reset = !self.enabled && value;
        self.enabled = value;
        reset
    }
}

/// How many samples the sleep detector keeps: fifteen minutes of samples
/// taken every 300 ms.
pub const EVENT_COUNT: usize = 3000;

/// How many of the latest samples cover the last ten seconds.
pub const LAST_10_SECS_EVENT_COUNT: usize = 33;

/// The interval between two state reports, in milliseconds.
pub const STATE_REPORT_INTERVAL_MS: u64 = 10000;

/// The window after one more sample: the sample is added at the end, and the
/// oldest one leaves when the window would exceed `EVENT_COUNT`.
pub open spec fn window_after<D>(w: Seq<D>, d: D) -> Seq<D> {
    if w.len() + 1 > EVENT_COUNT {
        w.push(d).drop_first()
    } else {
        w.push(d)
    }
}

/// The sliding window of the sleep detector, the last head position and the
/// times of its reports. A sample is what the caller measures between the
/// last position and the new one (the distance moved); the window keeps the
/// latest ones.
pub struct SleepDetector<D, P> {
    pub distances: VecDeque<D>,
    pub last_pos: P,
    pub start_time: u64,
    pub last_log: u64,
    pub next_state_report: u64,
}

impl<D, P> SleepDetector<D, P> {
    /// The window holds at most `EVENT_COUNT` samples.
    pub open spec fn well_formed(&self) -> bool {
        self.distances@.len() <= EVENT_COUNT
    }

    /// An empty detector started at `now` (milliseconds since the epoch),
    /// with the head at `origin`.
    pub fn new(now: u64, origin: P) -> (res: SleepDetector<D, P>)
        ensures
            res.well_formed(),
            res.last_pos == origin,
            res.distances@.len() == 0,
            res.start_time == now,
            res.last_log == 0,
            res.next_state_report == 0,
    {
        SleepDetector {
            distances: VecDeque::new(),
            last_pos: origin,
            start_time: now,
            last_log: 0,
            next_state_report: 0,
        }
    }

    /// Adds the sample measured from the last position to `position`, taken
    /// at `now`, and makes `position` the last one. Returns whether a state
    /// report is due, which is when `now` is past the scheduled report time;
    /// the report is then logged at `now` and the next one scheduled ten
    /// seconds later.
    pub fn log_pose(&mut self, distance: D, position: P, now: u64) -> (report: bool)
        requires
            old(self).well_formed(),
            now > old(self).next_state_report ==> now <= u64::MAX - STATE_REPORT_INTERVAL_MS,
        ensures
            final(self).well_formed(),
            final(self).distances@ == window_after(old(self).distances@, distance),
            final(self).last_pos == position,
            final(self).start_time == old(self).start_time,
            report == (now > old(self).next_state_report),
            report ==> final(self).last_log == now && final(self).next_state_report == now
                + STATE_REPORT_INTERVAL_MS,
            !report ==> final(self).last_log == old(self).last_log && final(self).next_state_report
                == old(self).next_state_report,
    {
        self.last_pos = position;
        self.distances.push_back(distance);
        if self.distances.len() > EVENT_COUNT {
            self.distances.pop_front();
        }
        if now > self.next_state_report {
            self.last_log = now;
            self.next_state_report = now + STATE_REPORT_INTERVAL_MS;
            true
        } else {
            false
        }
    }

    /// Where the samples of the last ten seconds begin in the window: the
    /// latest `LAST_10_SECS_EVENT_COUNT` samples, or all when there are fewer.
    pub fn last_10_seconds_start(&self) -> (res: usize)
        ensures
            res == (if self.distances@.len() > LAST_10_SECS_EVENT_COUNT {
                self.distances@.len() - LAST_10_SECS_EVENT_COUNT
            } else {
                0
            }),
    {
        if self.distances.len() > LAST_10_SECS_EVENT_COUNT {
            self.distances.len() - LAST_10_SECS_EVENT_COUNT
        } else {
            0
        }
    }

    /// Restarts the detection period at `now`, when detection is turned back on.
    pub fn reset_start_time(&mut self, now: u64)
        ensures
            final(self).start_time == now,
            final(self).distances@ == old(self).distances@,
            final(self).last_pos == old(self).last_pos,
            final(self).last_log == old(self).last_log,
            final(self).next_state_report == old(self).next_state_report,
    {
        self.start_time = now;
    }
}

/// An ended or killed session makes VR inactive, a started one makes it
/// initialized, and no other event changes the status.
pub proof fn law_status_follows_session(ev: XrEvent)
    ensures
        status_after(ev) == Some(VRStatus::Inactive) <==> (ev == XrEvent::SessionEnded || ev
            == XrEvent::Killed),
        status_after(ev) == Some(VRStatus::Initialized) <==> ev == XrEvent::Started,
        status_after(ev) is None <==> ev == XrEvent::Other,
{
}

/// The overlay's loop stops exactly when it is killed or the session is
/// over; otherwise it waits a frame when nothing was rendered and a second
/// while the user is away.
pub proof fn law_overlay_loop(killed: bool, r: PollResult, frame_time_ms: u64)
    ensures
        overlay_step(killed, r, frame_time_ms) == LoopStep::Stop <==> (killed || r == PollResult::Exit
            || r == PollResult::SessionLost),
        !killed && r == PollResult::SuccessNoRender ==> overlay_step(killed, r, frame_time_ms)
            == LoopStep::Continue(frame_time_ms),
        !killed && r == PollResult::UserNotPresent ==> overlay_step(killed, r, frame_time_ms)
            == LoopStep::Continue(1000),
{
}

/// Stopping a running detection ends it within one pass of its loop; when
/// nothing runs, stopping changes nothing.
pub proof fn law_stop_ends_detection(g: GestureDetection, frame_time_ms: u64)
    ensures
        g.running ==> detection_pass(stopped(g), frame_time_ms).1 == LoopStep::Stop,
        g.running ==> !detection_pass(stopped(g), frame_time_ms).0.running,
        !g.running ==> stopped(g) == g,
{
}

/// Logging a sample appends it to the window; once the window is full, the
/// oldest sample leaves first.
pub proof fn law_window_shape<D>(w: Seq<D>, d: D)
    requires
        w.len() <= EVENT_COUNT,
    ensures
        window_after(w, d) == (if w.len() < EVENT_COUNT {
            w.push(d)
        } else {
            w.drop_first().push(d)
        }),
        window_after(w, d).len() <= EVENT_COUNT,
{
    if w.len() == EVENT_COUNT {
        assert(w.push(d).drop_first() =~= w.drop_first().push(d));
    }
}

/// The window never holds more than `EVENT_COUNT` samples.
pub proof fn law_window_bounded<D>(w: Seq<D>, d: D)
    requires
        w.len() <= EVENT_COUNT,
    ensures
        window_after(w, d).len() <= EVENT_COUNT,
{
}

/// The window keeps the latest samples in order: the newest sample is last,
/// and the samples before it are the latest ones of the previous window.
pub proof fn law_window_keeps_latest<D>(w: Seq<D>, d: D)
    requires
        w.len() <= EVENT_COUNT,
    ensures
        window_after(w, d).last() == d,
        window_after(w, d).drop_last() == w.subrange(
            w.len() - (window_after(w, d).len() - 1),
            w.len() as int,
        ),
{
    if w.len() + 1 > EVENT_COUNT {
        assert(w.push(d).drop_first().drop_last() =~= w.subrange(1, w.len() as int));
    } else {
        assert(w.push(d).drop_last() =~= w.subrange(0, w.len() as int));
    }
}

} // verus!
