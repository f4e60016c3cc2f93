//! The overlay sidecar process: its command line, its development defaults,
//! the addresses it serves and connects to, its kill switch, and the gRPC
//! requests that change the dashboard and the microphone indicator.
use crate::overlay_config::DeviceRole;
use crate::overlay_ipc::OverlayIPCAddNotification;
use crate::text::{decimal, parse_unsigned, parse_unsigned_decimal, push_decimal, push_str};
use vstd::prelude::*;

verus! {

/// The core's gRPC port when both run from a development tree.
pub const CORE_GRPC_DEV_PORT: u16 = 5176;

/// The core's HTTP port in a development tree.
pub const CORE_HTTP_DEV_PORT: u16 = 5177;

/// The sidecar's gRPC port in a development tree.
pub const OVERLAY_SIDECAR_GRPC_DEV_PORT: u16 = 5174;

/// The sidecar's gRPC-web port in a development tree.
pub const OVERLAY_SIDECAR_GRPC_WEB_DEV_PORT: u16 = 5175;

/// The port of the user interface's development server.
pub const UI_DEV_PORT: u16 = 5173;

/// How the core was built.
#[derive(Clone, Copy, Debug, PartialEq, Eq, Structural)]
pub enum CoreMode {
    Dev,
    Release,
}

/// The mode the sidecar assumes for the core.
pub fn core_mode() -> (res: CoreMode)
    ensures
        res == CoreMode::Dev,
{
    CoreMode::Dev
}

/// The sidecar's command line: the core's gRPC port and process id, and
/// whether GPU acceleration is to be disabled.
#[derive(Clone, Copy, Debug, PartialEq, Eq, Structural)]
pub struct Args {
    pub core_grpc_port: u16,
    pub core_pid: u64,
    pub disable_gpu: bool,
}

/// Why the command line was refused.
#[derive(Clone, Debug)]
pub enum ArgsError {
    /// Not two or three arguments.
    Usage,
    /// The port is not a number from 0 to 65535.
    InvalidPort(String),
    /// The process id is not a 64-bit unsigned number.
    InvalidPid(String),
    /// Software rendering was asked for, which the sidecar does not offer.
    SoftwareRendering,
}

/// The flag that disables GPU acceleration.
pub open spec fn disable_gpu_flag() -> Seq<char> {
    "--disable-gpu-acceleration"@
}

/// What a command line (program name first) gives: two or three arguments;
/// the port and the process id as numbers; the optional third argument asks
/// for software rendering when it is the flag, which is refused; a port and
/// process id both zero select the core's development port.
pub open spec fn args_outcome(args: Seq<String>) -> Result<(u16, u64), (int, Seq<char>)> {
    if !(args.len() == 3 || args.len() == 4) {
        Err((0, Seq::empty()))
    } else if parse_unsigned(args[1]@, 0xffff) is None {
        Err((1, args[1]@))
    } else if parse_unsigned(args[2]@, 0xffff_ffff_ffff_ffff) is None {
        Err((2, args[2]@))
    } else if args.len() == 4 && args[3]@ == disable_gpu_flag() {
        Err((3, Seq::empty()))
    } else {
        let port = parse_unsigned(args[1]@, 0xffff)->0;
        let pid = parse_unsigned(args[2]@, 0xffff_ffff_ffff_ffff)->0;
        if port == 0 && pid == 0 {
            Ok((CORE_GRPC_DEV_PORT, 0))
        } else {
            Ok((port as u16, pid as u64))
        }
    }
}

/// An error as the number of the step of `args_outcome` that refused the command line, and
/// the argument it names.
pub open spec fn args_error_view(e: ArgsError) -> (int, Seq<char>) {
    match e {
        ArgsError::Usage => (0, Seq::empty()),
        ArgsError::InvalidPort(s) => (1, s@),
        ArgsError::InvalidPid(s) => (2, s@),
        ArgsError::SoftwareRendering => (3, Seq::empty()),
    }
}

impl Args {
    /// Reads the command line (see `args_outcome`).
    pub fn from_cli(args: &Vec<String>) -> (res: Result<Args, ArgsError>)
        ensures
            match args_outcome(args@) {
                Ok((port, pid)) => res == Ok::<Args, ArgsError>(
                    Args { core_grpc_port: port, core_pid: pid, disable_gpu: false },
                ),
                Err(v) => res matches Err(e) && args_error_view(e) == v,
            },
    {
        if !(args.len() == 3 || args.len() == 4) {
            return Err(ArgsError::Usage);
        }
        let port = match parse_unsigned_decimal(args[1].as_str(), 0xffff) {
            Some(p) => p as u16,
            None => return Err(ArgsError::InvalidPort(args[1].clone())),
        };
        let pid = match parse_unsigned_decimal(args[2].as_str(), 0xffff_ffff_ffff_ffff) {
            Some(p) => p,
            None => return Err(ArgsError::InvalidPid(args[2].clone())),
        };
        let flag = "--disable-gpu-acceleration".to_owned();
        let disable_gpu = args.len() == 4 && args[3] == flag;
        if disable_gpu {
            return Err(ArgsError::SoftwareRendering);
        }
        let mut a = Args { core_grpc_port: port, core_pid: pid, disable_gpu };
        if a.core_grpc_port == 0 && a.core_pid == 0 {
            a.core_grpc_port = CORE_GRPC_DEV_PORT;
        }
        Ok(a)
    }
}

/// The sidecar's kill switch: once set it stays set.
pub struct KillSwitch {
    pub killed: bool,
}

/// The process id that the sidecar watches: the core's, truncated to 32 bits.
pub open spec fn watched_pid(core_pid: u64) -> u32 {
    core_pid as u32
}

impl KillSwitch {
    pub fn new() -> (res: KillSwitch)
        ensures
            !res.killed,
    {
        KillSwitch { killed: false }
    }

    /// Sets the switch.
    pub fn kill(&mut self)
        ensures
            final(self).killed,
    {
        self.killed = true;
    }

    /// Whether the sidecar must stop: the switch is set, or the watched core
    /// process (when there is one) no longer exists; the latter sets the
    /// switch.
    pub fn killed(&mut self, core_pid: u64, core_alive: bool) -> (res: bool)
        ensures
            final(self).killed == (old(self).killed || (watched_pid(core_pid) != 0 && !core_alive)),
            res == final(self).killed,
    {
        let pid = core_pid as u32;
        if pid != 0 && !core_alive {
            self.killed = true;
        }
        self.killed
    }
}

/// The path whose existence tells that the core process is alive, when the
/// sidecar watches one.
pub fn core_process_path(core_pid: u64) -> (res: Option<String>)
    ensures
        watched_pid(core_pid) == 0 ==> res is None,
        watched_pid(core_pid) != 0 ==> (res matches Some(p) && p@ == "/proc/"@ + decimal(
            watched_pid(core_pid) as nat,
        )),
{
    let pid = core_pid as u32;
    if pid == 0 {
        return None;
    }
    let mut p = "/proc/".to_owned();
    push_decimal(&mut p, pid as u64);
    Some(p)
}

/// The URL of a local HTTP endpoint on the given port.
pub fn local_http_url(port: u64) -> (res: String)
    ensures
        res@ == "http://127.0.0.1:"@ + decimal(port as nat),
{
    let mut s = "http://127.0.0.1:".to_owned();
    push_decimal(&mut s, port);
    s
}

/// The socket address on which a local server listens.
pub fn local_address(port: u16) -> (res: String)
    ensures
        res@ == "127.0.0.1:"@ + decimal(port as nat),
{
    let mut s = "127.0.0.1:".to_owned();
    push_decimal(&mut s, port as u64);
    s
}

/// The gRPC port: the development one when no core process is watched,
/// else the free port that the caller picked.
pub fn grpc_server_port(core_pid: u64, picked: u16) -> (res: u16)
    ensures
        res == (if core_pid == 0 {
            OVERLAY_SIDECAR_GRPC_DEV_PORT
        } else {
            picked
        }),
{
    if core_pid == 0 {
        OVERLAY_SIDECAR_GRPC_DEV_PORT
    } else {
        picked
    }
}

/// The gRPC-web port: the development one when no core process is watched,
/// else the free port that the caller picked.
pub fn grpc_web_server_port(core_pid: u64, picked: u16) -> (res: u16)
    ensures
        res == (if core_pid == 0 {
            OVERLAY_SIDECAR_GRPC_WEB_DEV_PORT
        } else {
            picked
        }),
{
    if core_pid == 0 {
        OVERLAY_SIDECAR_GRPC_WEB_DEV_PORT
    } else {
        picked
    }
}

/// Whether the sidecar serves the user interface itself: not when the core
/// listens on port 0 (the development server serves it then).
pub fn serves_ui(core_grpc_port: u16) -> (res: bool)
    ensures
        res == (core_grpc_port != 0),
{
    core_grpc_port != 0
}

/// The directory of the user interface: the development build when no core
/// process is watched, else the installed one.
pub fn ui_directory(core_pid: u64) -> (res: &'static str)
    ensures
        core_pid == 0 ==> res@ == "../src-overlay-ui/build/"@,
        core_pid != 0 ==> res@ == "ui"@,
{
    if core_pid == 0 {
        "../src-overlay-ui/build/"
    } else {
        "ui"
    }
}

/// Whether the controller bindings come from the built-in defaults (no core
/// process watched) rather than from the user's bindings file.
pub fn uses_default_bindings(core_pid: u64) -> (res: bool)
    ensures
        res == (core_pid == 0),
{
    core_pid == 0
}

/// The page that the dashboard overlay loads.
pub fn dashboard_url(ui_port: u16, core_http_port: u32) -> (res: String)
    ensures
        res@ == "http://localhost:"@ + decimal(ui_port as nat) + "/dashboard?corePort="@ + decimal(
            core_http_port as nat,
        ),
{
    let mut s = "http://localhost:".to_owned();
    push_decimal(&mut s, ui_port as u64);
    push_str(&mut s, "/dashboard?corePort=");
    push_decimal(&mut s, core_http_port as u64);
    s
}

/// The device that the dashboard follows when shown: the headset.
pub fn openxr_show_hand() -> (res: DeviceRole)
    ensures
        res == DeviceRole::Hmd,
{
    DeviceRole::Hmd
}

/// Whether the dashboard is shown.
pub struct Dashboard {
    pub visible: bool,
}

/// What to do with the dashboard.
#[derive(Clone, Copy, Debug, PartialEq, Eq, Structural)]
pub enum DashboardCommand {
    Show,
    Hide,
}

impl Dashboard {
    /// The dashboard is being shown.
    pub fn show_dashboard(&mut self)
        ensures
            final(self).visible,
    {
        self.visible = true;
    }

    /// The dashboard is being hidden.
    pub fn hide_dashboard(&mut self)
        ensures
            !final(self).visible,
    {
        self.visible = false;
    }
}

/// The events of the overlay runner that concern the dashboard.
#[derive(Clone, Copy, Debug, PartialEq, Eq, Structural)]
pub enum OverlayEvent {
    /// The overlay became visible or invisible.
    VisibilityChanged { visible: bool },
    /// The overlay is fading out.
    Hiding,
    /// Any other event.
    Other,
}

/// What the page is told when the runner reports an event: an overlay that
/// became visible shows the dashboard, one that is hiding hides it.
pub fn openxr_callback(event: OverlayEvent) -> (res: Option<DashboardCommand>)
    ensures
        res == match event {
            OverlayEvent::VisibilityChanged { visible: true } => Some(DashboardCommand::Show),
            OverlayEvent::Hiding => Some(DashboardCommand::Hide),
            _ => None::<DashboardCommand>,
        },
{
    match event {
        OverlayEvent::VisibilityChanged { visible } => if visible {
            Some(DashboardCommand::Show)
        } else {
            None
        },
        OverlayEvent::Hiding => Some(DashboardCommand::Hide),
        OverlayEvent::Other => None,
    }
}

/// How the microphone indicator changes.
#[derive(Clone, Copy, Debug, PartialEq, Eq, Structural)]
pub enum MicIndicatorCommand {
    /// Show the state, then fade the indicator out.
    FadeOut { mute: bool },
    /// Show the unmuted state, fully opaque, without fading.
    ShowUnmuted,
}

/// The sidecar's gRPC service.
#[derive(Clone, Copy, Debug)]
pub struct GrpcServer {}

impl GrpcServer {
    /// Opening the overlay menu shows the dashboard.
    pub fn open_overlay_menu(&self) -> (res: DashboardCommand)
        ensures
            res == DashboardCommand::Show,
    {
        DashboardCommand::Show
    }

    /// Closing the overlay menu hides the dashboard.
    pub fn close_overlay_menu(&self) -> (res: DashboardCommand)
        ensures
            res == DashboardCommand::Hide,
    {
        DashboardCommand::Hide
    }

    /// Toggling hides a visible dashboard and shows a hidden one.
    pub fn toggle_overlay_menu(&self, dashboard: &Dashboard) -> (res: DashboardCommand)
        ensures
            res == (if dashboard.visible {
                DashboardCommand::Hide
            } else {
                DashboardCommand::Show
            }),
    {
        if dashboard.visible {
            DashboardCommand::Hide
        } else {
            DashboardCommand::Show
        }
    }

    /// The microphone state from the core: in hardware mode (0) the new
    /// state fades out; in any other mode the indicator shows unmuted.
    pub fn set_microphone_active(&self, mode: i32, active: bool) -> (res: MicIndicatorCommand)
        ensures
            res == (if mode == 0 {
                MicIndicatorCommand::FadeOut { mute: active }
            } else {
                MicIndicatorCommand::ShowUnmuted
            }),
    {
        if mode == 0 {
            MicIndicatorCommand::FadeOut { mute: active }
        } else {
            MicIndicatorCommand::ShowUnmuted
        }
    }

    /// A notification from the core, shown for `duration` milliseconds.
    pub fn add_notification(&self, message: String, duration: u32) -> (res: OverlayIPCAddNotification)
        ensures
            res.message@ == message@,
            res.duration_ms == duration as u64,
    {
        OverlayIPCAddNotification { message, duration_ms: duration as u64 }
    }
}

/// How long the microphone indicator takes to fade out, in milliseconds.
pub const MIC_FADE_MS: u64 = 2500;

/// How many steps the fade-out takes when each step lasts `step_ms`.
pub fn fade_step_count(step_ms: u64) -> (res: u64)
    requires
        step_ms > 0,
    ensures
        res == MIC_FADE_MS / step_ms,
{
    MIC_FADE_MS / step_ms
}

/// A command line naming port 0 and process 0 selects the core's
/// development port.
pub proof fn law_dev_command_line(args: Seq<String>)
    requires
        args.len() == 3,
        parse_unsigned(args[1]@, 0xffff) == Some(0nat),
        parse_unsigned(args[2]@, 0xffff_ffff_ffff_ffff) == Some(0nat),
    ensures
        args_outcome(args) == Ok::<(u16, u64), (int, Seq<char>)>((CORE_GRPC_DEV_PORT, 0u64)),
{
}

} // verus!
