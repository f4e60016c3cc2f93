//! The overlay sidecar's configuration: its defaults, and how a configuration
//! file overrides them.
//!
//! Lengths, positions and colours are 32-bit floats; the configuration carries
//! each as its IEEE-754 bit pattern (`f32::to_bits`) and never computes on
//! them. The caller reads the TOML file into an `OverlayConfigDocument`, and
//! evaluates framerate expressions such as "/2" with `parse_fps`, which
//! computes in floating point.
use vstd::prelude::*;

verus! {

/// The reference space in which an overlay is placed.
#[derive(Clone, Copy, Debug, PartialEq, Eq, Structural)]
pub enum ReferenceSpace {
    Stage,
    View,
    Local,
}

/// A tracked device that an overlay can follow.
#[derive(Clone, Copy, Debug, PartialEq, Eq, Structural)]
pub enum DeviceRole {
    Hmd,
    LeftHand,
    RightHand,
}

/// When and where the main overlay appears. Positions are `f32` bit patterns.
#[derive(Clone, Copy, Debug)]
pub enum ShowMode {
    /// Stay where it is.
    Keep,
    /// Appear at an offset from the device that the overlay's role callback
    /// names (the last used controller).
    DeviceCallback { pos: [u32; 3] },
    /// Appear at an offset from a fixed device.
    Device { role: DeviceRole, pos: [u32; 3] },
}

impl ShowMode {
    /// The name under which the configuration is logged.
    pub fn name(&self) -> (res: &'static str)
        ensures
            res@ == match self {
                ShowMode::Keep => "Keep"@,
                ShowMode::DeviceCallback { .. } => "DeviceCallback"@,
                ShowMode::Device { .. } => "Device"@,
            },
    {
        match self {
            ShowMode::Keep => "Keep",
            ShowMode::DeviceCallback { .. } => "DeviceCallback",
            ShowMode::Device { .. } => "Device",
        }
    }
}

/// The laser pointers of the controllers. Colours and speed are `f32` bit
/// patterns.
#[derive(Clone, Copy, Debug)]
pub struct PointersConfig {
    pub left_color: [u32; 4],
    pub right_color: [u32; 4],
    pub draw_only_when_on_overlay: bool,
    pub overlay_move_speed: u32,
}

/// The main (dashboard) overlay.
#[derive(Clone, Copy, Debug)]
pub struct MainOverlay {
    pub framerate: u8,
    pub position: [u32; 3],
    pub resolution: [u32; 2],
    pub size: [u32; 2],
    pub reference_space: ReferenceSpace,
    pub show_mode: ShowMode,
}

/// The notifications overlay.
#[derive(Clone, Copy, Debug)]
pub struct NotificationsOverlay {
    pub framerate: u8,
    pub position: [u32; 3],
    pub resolution: [u32; 2],
    pub size: [u32; 2],
    pub reference_space: ReferenceSpace,
}

/// The microphone mute indicator.
#[derive(Clone, Copy, Debug)]
pub struct MuteIndicatorOverlay {
    pub position: [u32; 3],
    pub size: [u32; 2],
    pub reference_space: ReferenceSpace,
}

/// Settings that are not read from the file.
#[derive(Clone, Copy, Debug, PartialEq, Eq, Structural)]
pub struct MiscSettings {}

/// The whole overlay configuration.
#[derive(Clone, Copy, Debug)]
pub struct OverlayConfig {
    pub pointers: PointersConfig,
    pub main_overlay: MainOverlay,
    pub notification_overlay: NotificationsOverlay,
    pub mute_indicator_overlay: MuteIndicatorOverlay,
}

/// Why a configuration could not be read.
#[derive(Clone, Debug)]
pub enum ConfigParseError {
    NotAShowMode(String),
    NotAReferenceSpace(String),
    FPSNotAnOperator(String),
    FPSNotANumber(String),
    FailedToParseToml,
}

/// The kinds of configuration error.
#[derive(Clone, Copy, Debug, PartialEq, Eq, Structural)]
pub enum ConfigErrorKind {
    NotAShowMode,
    NotAReferenceSpace,
    FPSNotAnOperator,
    FPSNotANumber,
    FailedToParseToml,
}

/// An error as its kind and the text that it names (empty for a TOML error).
pub open spec fn error_view(e: ConfigParseError) -> (ConfigErrorKind, Seq<char>) {
    match e {
        ConfigParseError::NotAShowMode(s) => (ConfigErrorKind::NotAShowMode, s@),
        ConfigParseError::NotAReferenceSpace(s) => (ConfigErrorKind::NotAReferenceSpace, s@),
        ConfigParseError::FPSNotAnOperator(s) => (ConfigErrorKind::FPSNotAnOperator, s@),
        ConfigParseError::FPSNotANumber(s) => (ConfigErrorKind::FPSNotANumber, s@),
        ConfigParseError::FailedToParseToml => (ConfigErrorKind::FailedToParseToml, Seq::empty()),
    }
}

/// The bit pattern of the `f32` 0.0.
pub const F32_ZERO: u32 = 0x0000_0000;

/// The bit pattern of the `f32` 1.0.
pub const F32_ONE: u32 = 0x3f80_0000;

/// The reference space that a name stands for.
pub open spec fn reference_space_of(s: Seq<char>) -> Option<ReferenceSpace> {
    if s == "stage"@ {
        Some(ReferenceSpace::Stage)
    } else if s == "view"@ {
        Some(ReferenceSpace::View)
    } else if s == "local"@ {
        Some(ReferenceSpace::Local)
    } else {
        None
    }
}

/// The show mode that a name stands for, at the given offset. Note that
/// "left_controller" follows the right hand and "right_controller" the left
/// one.
pub open spec fn show_mode_of(s: Seq<char>, pos: [u32; 3]) -> Option<ShowMode> {
    if s == "last_controller"@ {
        Some(ShowMode::DeviceCallback { pos })
    } else if s == "hmd"@ {
        Some(ShowMode::Device { role: DeviceRole::Hmd, pos })
    } else if s == "left_controller"@ {
        Some(ShowMode::Device { role: DeviceRole::RightHand, pos })
    } else if s == "right_controller"@ {
        Some(ShowMode::Device { role: DeviceRole::LeftHand, pos })
    } else if s == "keep"@ {
        Some(ShowMode::Keep)
    } else {
        None
    }
}

/// Reads a reference space name: "stage", "view" or "local".
pub fn parse_reference_space(str: &str) -> (res: Result<ReferenceSpace, ConfigParseError>)
    ensures
        match reference_space_of(str@) {
            Some(r) => res matches Ok(v) && v == r,
            None => res matches Err(e) && error_view(e) == (ConfigErrorKind::NotAReferenceSpace, str@),
        },
{
    let s = str.to_owned();
    if s == "stage".to_owned() {
        Ok(ReferenceSpace::Stage)
    } else if s == "view".to_owned() {
        Ok(ReferenceSpace::View)
    } else if s == "local".to_owned() {
        Ok(ReferenceSpace::Local)
    } else {
        Err(ConfigParseError::NotAReferenceSpace(s))
    }
}

/// Reads a show mode name at the given offset: "last_controller", "hmd",
/// "left_controller", "right_controller" or "keep".
pub fn parse_show_mode(str: &str, pos: [u32; 3]) -> (res: Result<ShowMode, ConfigParseError>)
    ensures
        match show_mode_of(str@, pos) {
            Some(m) => res matches Ok(v) && v == m,
            None => res matches Err(e) && error_view(e) == (ConfigErrorKind::NotAShowMode, str@),
        },
{
    let s = str.to_owned();
    if s == "last_controller".to_owned() {
        Ok(ShowMode::DeviceCallback { pos })
    } else if s == "hmd".to_owned() {
        Ok(ShowMode::Device { role: DeviceRole::Hmd, pos })
    } else if s == "left_controller".to_owned() {
        Ok(ShowMode::Device { role: DeviceRole::RightHand, pos })
    } else if s == "right_controller".to_owned() {
        Ok(ShowMode::Device { role: DeviceRole::LeftHand, pos })
    } else if s == "keep".to_owned() {
        Ok(ShowMode::Keep)
    } else {
        Err(ConfigParseError::NotAShowMode(s))
    }
}

/// The default configuration for a headset running at `fps` frames per
/// second: both overlays render at half that rate.
pub open spec fn default_config(fps: u8) -> OverlayConfig {
    OverlayConfig {
        pointers: PointersConfig {
            overlay_move_speed: 0x3c23_d70a,
            left_color: [F32_ONE, F32_ONE, F32_ONE, 0x3e4c_cccd],
            right_color: [F32_ONE, F32_ONE, F32_ONE, 0x3e4c_cccd],
            draw_only_when_on_overlay: true,
        },
        main_overlay: MainOverlay {
            framerate: (fps / 2) as u8,
            position: [F32_ZERO, F32_ZERO, 0xbecc_cccd],
            resolution: [1024, 1024],
            size: [0x3f19_999a, 0x3f19_999a],
            reference_space: ReferenceSpace::Stage,
            show_mode: ShowMode::DeviceCallback { pos: [F32_ZERO, F32_ZERO, 0xbecc_cccd] },
        },
        notification_overlay: NotificationsOverlay {
            framerate: (fps / 2) as u8,
            position: [F32_ZERO, 0xbe99_999a, 0xbf19_999a],
            resolution: [1024, 1024],
            size: [0x3f00_0000, 0x3f00_0000],
            reference_space: ReferenceSpace::View,
        },
        mute_indicator_overlay: MuteIndicatorOverlay {
            position: [0xbe99_999a, 0xbe99_999a, 0xbf19_999a],
            size: [0x3d23_d70a, 0x3d23_d70a],
            reference_space: ReferenceSpace::View,
        },
    }
}

impl OverlayConfig {
    /// The default configuration for `fps` frames per second.
    pub fn default(fps: u8) -> (res: OverlayConfig)
        ensures
            res == default_config(fps),
    {
        OverlayConfig {
            pointers: PointersConfig {
                overlay_move_speed: 0x3c23_d70a,
                left_color: [F32_ONE, F32_ONE, F32_ONE, 0x3e4c_cccd],
                right_color: [F32_ONE, F32_ONE, F32_ONE, 0x3e4c_cccd],
                draw_only_when_on_overlay: true,
            },
            main_overlay: MainOverlay {
                framerate: fps / 2,
                position: [F32_ZERO, F32_ZERO, 0xbecc_cccd],
                resolution: [1024, 1024],
                size: [0x3f19_999a, 0x3f19_999a],
                reference_space: ReferenceSpace::Stage,
                show_mode: ShowMode::DeviceCallback { pos: [F32_ZERO, F32_ZERO, 0xbecc_cccd] },
            },
            notification_overlay: NotificationsOverlay {
                framerate: fps / 2,
                position: [F32_ZERO, 0xbe99_999a, 0xbf19_999a],
                resolution: [1024, 1024],
                size: [0x3f00_0000, 0x3f00_0000],
                reference_space: ReferenceSpace::View,
            },
            mute_indicator_overlay: MuteIndicatorOverlay {
                position: [0xbe99_999a, 0xbe99_999a, 0xbf19_999a],
                size: [0x3d23_d70a, 0x3d23_d70a],
                reference_space: ReferenceSpace::View,
            },
        }
    }
}

/// A framerate given in the configuration file: a number, or an expression
/// such as "/2" that the caller has evaluated with `parse_fps` against the
/// headset's framerate.
#[derive(Debug)]
pub enum FramerateSetting {
    Number(i64),
    Expression(Result<u8, ConfigParseError>),
}

/// The `[main_overlay]` table of the file; absent keys are `None`.
#[derive(Debug)]
pub struct MainOverlaySection {
    pub framerate: Option<FramerateSetting>,
    pub position: Option<[u32; 3]>,
    pub resolution: Option<[i64; 2]>,
    pub size: Option<[u32; 2]>,
    pub reference_space: Option<String>,
    pub show_mode: Option<String>,
}

/// The `[notification_overlay]` table of the file.
#[derive(Debug)]
pub struct NotificationSection {
    pub framerate: Option<FramerateSetting>,
    pub position: Option<[u32; 3]>,
    pub resolution: Option<[i64; 2]>,
    pub size: Option<[u32; 2]>,
    pub reference_space: Option<String>,
}

/// The `[mute_indicator_overlay]` table of the file.
#[derive(Clone, Debug)]
pub struct MuteIndicatorSection {
    pub position: Option<[u32; 3]>,
    pub size: Option<[u32; 2]>,
    pub reference_space: Option<String>,
}

/// The `[pointers]` table of the file.
#[derive(Clone, Debug)]
pub struct PointersSection {
    pub left_color: Option<[u32; 4]>,
    pub right_color: Option<[u32; 4]>,
    pub draw_only_when_on_overlay: Option<bool>,
    pub overlay_move_speed: Option<u32>,
}

/// A configuration file, table by table.
#[derive(Debug)]
pub struct OverlayConfigDocument {
    pub main_overlay: Option<MainOverlaySection>,
    pub notification_overlay: Option<NotificationSection>,
    pub mute_indicator_overlay: Option<MuteIndicatorSection>,
    pub pointers: Option<PointersSection>,
}

/// The error that a framerate setting carries, if any.
pub open spec fn framerate_error(f: Option<FramerateSetting>) -> Option<(ConfigErrorKind, Seq<char>)> {
    match f {
        Some(FramerateSetting::Expression(Err(e))) => Some(error_view(e)),
        _ => None,
    }
}

/// The framerate after a setting: a number is truncated to 8 bits.
pub open spec fn framerate_after(f: Option<FramerateSetting>, current: u8) -> u8 {
    match f {
        Some(FramerateSetting::Number(n)) => n as u8,
        Some(FramerateSetting::Expression(Ok(v))) => v,
        _ => current,
    }
}

/// The error that a reference space name gives, if any.
pub open spec fn space_error(s: Option<String>) -> Option<(ConfigErrorKind, Seq<char>)> {
    match s {
        Some(t) => if reference_space_of(t@) is None {
            Some((ConfigErrorKind::NotAReferenceSpace, t@))
        } else {
            None
        },
        None => None,
    }
}

/// The reference space after a setting.
pub open spec fn space_after(s: Option<String>, current: ReferenceSpace) -> ReferenceSpace {
    match s {
        Some(t) => match reference_space_of(t@) {
            Some(r) => r,
            None => current,
        },
        None => current,
    }
}

/// A resolution read from the file, each number truncated to 32 bits.
pub open spec fn resolution_after(r: Option<[i64; 2]>, current: [u32; 2]) -> [u32; 2] {
    match r {
        Some(v) => [v[0] as u32, v[1] as u32],
        None => current,
    }
}

/// A value given in the file, or the current one.
pub open spec fn or_current<T>(o: Option<T>, current: T) -> T {
    match o {
        Some(v) => v,
        None => current,
    }
}

/// The first error of the main overlay table: its framerate, then its
/// reference space, then its show mode.
pub open spec fn main_error(m: MainOverlaySection) -> Option<(ConfigErrorKind, Seq<char>)> {
    if framerate_error(m.framerate) is Some {
        framerate_error(m.framerate)
    } else if space_error(m.reference_space) is Some {
        space_error(m.reference_space)
    } else {
        match m.show_mode {
            Some(t) => if show_mode_of(t@, [0, 0, 0]) is None {
                Some((ConfigErrorKind::NotAShowMode, t@))
            } else {
                None
            },
            None => None,
        }
    }
}

/// The first error of the notifications table: its framerate, then its
/// reference space.
pub open spec fn notification_error(n: NotificationSection) -> Option<(ConfigErrorKind, Seq<char>)> {
    if framerate_error(n.framerate) is Some {
        framerate_error(n.framerate)
    } else {
        space_error(n.reference_space)
    }
}

/// The first error of the file: the main overlay table, then the
/// notifications table, then the mute indicator table.
pub open spec fn document_error(doc: OverlayConfigDocument) -> Option<(ConfigErrorKind, Seq<char>)> {
    let m = match doc.main_overlay {
        Some(s) => main_error(s),
        None => None,
    };
    let n = match doc.notification_overlay {
        Some(s) => notification_error(s),
        None => None,
    };
    let u = match doc.mute_indicator_overlay {
        Some(s) => space_error(s.reference_space),
        None => None,
    };
    if m is Some {
        m
    } else if n is Some {
        n
    } else {
        u
    }
}

/// The main overlay after its table: each given key replaces the default;
/// the show mode is placed at the (possibly replaced) position.
pub open spec fn main_after(m: MainOverlay, s: MainOverlaySection) -> MainOverlay {
    let position = or_current(s.position, m.position);
    MainOverlay {
        framerate: framerate_after(s.framerate, m.framerate),
        position,
        resolution: resolution_after(s.resolution, m.resolution),
        size: or_current(s.size, m.size),
        reference_space: space_after(s.reference_space, m.reference_space),
        show_mode: match s.show_mode {
            Some(t) => match show_mode_of(t@, position) {
                Some(v) => v,
                None => m.show_mode,
            },
            None => m.show_mode,
        },
    }
}

/// The notifications overlay after its table.
pub open spec fn notification_after(n: NotificationsOverlay, s: NotificationSection) -> NotificationsOverlay {
    NotificationsOverlay {
        framerate: framerate_after(s.framerate, n.framerate),
        position: or_current(s.position, n.position),
        resolution: resolution_after(s.resolution, n.resolution),
        size: or_current(s.size, n.size),
        reference_space: space_after(s.reference_space, n.reference_space),
    }
}

/// The mute indicator after its table.
pub open spec fn mute_after(u: MuteIndicatorOverlay, s: MuteIndicatorSection) -> MuteIndicatorOverlay {
    MuteIndicatorOverlay {
        position: or_current(s.position, u.position),
        size: or_current(s.size, u.size),
        reference_space: space_after(s.reference_space, u.reference_space),
    }
}

/// The pointers after their table.
pub open spec fn pointers_after(p: PointersConfig, s: PointersSection) -> PointersConfig {
    PointersConfig {
        left_color: or_current(s.left_color, p.left_color),
        right_color: or_current(s.right_color, p.right_color),
        draw_only_when_on_overlay: or_current(s.draw_only_when_on_overlay, p.draw_only_when_on_overlay),
        overlay_move_speed: or_current(s.overlay_move_speed, p.overlay_move_speed),
    }
}

/// The configuration that a file gives: the defaults for `fps`, with each
/// table applied.
pub open spec fn config_from(doc: OverlayConfigDocument, fps: u8) -> OverlayConfig {
    let d = default_config(fps);
    OverlayConfig {
        main_overlay: match doc.main_overlay {
            Some(s) => main_after(d.main_overlay, s),
            None => d.main_overlay,
        },
        notification_overlay: match doc.notification_overlay {
            Some(s) => notification_after(d.notification_overlay, s),
            None => d.notification_overlay,
        },
        mute_indicator_overlay: match doc.mute_indicator_overlay {
            Some(s) => mute_after(d.mute_indicator_overlay, s),
            None => d.mute_indicator_overlay,
        },
        pointers: match doc.pointers {
            Some(s) => pointers_after(d.pointers, s),
            None => d.pointers,
        },
    }
}

/// `actual` is the value given in the file, or `default` when none is.
pub open spec fn given<T>(o: Option<T>, actual: T, default: T) -> bool {
    match o {
        Some(v) => actual == v,
        None => actual == default,
    }
}

/// `actual` is the framerate that the file gives: a number truncated to a
/// byte, or the value of an expression; `default` when none is given.
pub open spec fn framerate_given(f: Option<FramerateSetting>, actual: u8, default: u8) -> bool {
    match f {
        Some(FramerateSetting::Number(n)) => actual == n as u8,
        Some(FramerateSetting::Expression(Ok(v))) => actual == v,
        Some(FramerateSetting::Expression(Err(_))) => true,
        None => actual == default,
    }
}

/// `actual` is the reference space named in the file, or `default`.
pub open spec fn space_given(o: Option<String>, actual: ReferenceSpace, default: ReferenceSpace) -> bool {
    match o {
        Some(t) => reference_space_of(t@) == Some(actual),
        None => actual == default,
    }
}

/// `actual` is the resolution given in the file, each number truncated to 32
/// bits, or `default`.
pub open spec fn resolution_given(r: Option<[i64; 2]>, actual: [u32; 2], default: [u32; 2]) -> bool {
    match r {
        Some(v) => actual[0] == v[0] as u32 && actual[1] == v[1] as u32,
        None => actual == default,
    }
}

/// The configuration `c` takes every value that the file gives, and the
/// default `d` for every key the file leaves out.
pub open spec fn file_respected(doc: OverlayConfigDocument, d: OverlayConfig, c: OverlayConfig) -> bool {
    &&& match doc.main_overlay {
        Some(s) => {
            &&& framerate_given(s.framerate, c.main_overlay.framerate, d.main_overlay.framerate)
            &&& given(s.position, c.main_overlay.position, d.main_overlay.position)
            &&& resolution_given(s.resolution, c.main_overlay.resolution, d.main_overlay.resolution)
            &&& given(s.size, c.main_overlay.size, d.main_overlay.size)
            &&& space_given(s.reference_space, c.main_overlay.reference_space, d.main_overlay.reference_space)
            &&& match s.show_mode {
                Some(t) => show_mode_of(t@, c.main_overlay.position) == Some(c.main_overlay.show_mode),
                None => c.main_overlay.show_mode == d.main_overlay.show_mode,
            }
        },
        None => c.main_overlay == d.main_overlay,
    }
    &&& match doc.notification_overlay {
        Some(s) => {
            &&& framerate_given(s.framerate, c.notification_overlay.framerate, d.notification_overlay.framerate)
            &&& given(s.position, c.notification_overlay.position, d.notification_overlay.position)
            &&& resolution_given(s.resolution, c.notification_overlay.resolution, d.notification_overlay.resolution)
            &&& given(s.size, c.notification_overlay.size, d.notification_overlay.size)
            &&& space_given(
                s.reference_space,
                c.notification_overlay.reference_space,
                d.notification_overlay.reference_space,
            )
        },
        None => c.notification_overlay == d.notification_overlay,
    }
    &&& match doc.mute_indicator_overlay {
        Some(s) => {
            &&& given(s.position, c.mute_indicator_overlay.position, d.mute_indicator_overlay.position)
            &&& given(s.size, c.mute_indicator_overlay.size, d.mute_indicator_overlay.size)
            &&& space_given(
                s.reference_space,
                c.mute_indicator_overlay.reference_space,
                d.mute_indicator_overlay.reference_space,
            )
        },
        None => c.mute_indicator_overlay == d.mute_indicator_overlay,
    }
    &&& match doc.pointers {
        Some(s) => {
            &&& given(s.left_color, c.pointers.left_color, d.pointers.left_color)
            &&& given(s.right_color, c.pointers.right_color, d.pointers.right_color)
            &&& given(
                s.draw_only_when_on_overlay,
                c.pointers.draw_only_when_on_overlay,
                d.pointers.draw_only_when_on_overlay,
            )
            &&& given(s.overlay_move_speed, c.pointers.overlay_move_speed, d.pointers.overlay_move_speed)
        },
        None => c.pointers == d.pointers,
    }
}

/// A file without errors gives a configuration that takes every value the
/// file gives and the defaults for `fps` everywhere else.
pub proof fn law_file_values_used(doc: OverlayConfigDocument, fps: u8)
    requires
        document_error(doc) is None,
    ensures
        file_respected(doc, default_config(fps), config_from(doc, fps)),
{
    let c = config_from(doc, fps);
    let d = default_config(fps);
    match doc.main_overlay {
        Some(s) => {
            match s.show_mode {
                Some(t) => {
                    assert(show_mode_of(t@, c.main_overlay.position) is None <==> show_mode_of(
                        t@,
                        [0, 0, 0],
                    ) is None);
                },
                None => {},
            }
        },
        None => {},
    }
}

fn copy_error(e: &ConfigParseError) -> (res: ConfigParseError)
    ensures
        error_view(res) == error_view(*e),
{
    match e {
        ConfigParseError::NotAShowMode(s) => ConfigParseError::NotAShowMode(s.clone()),
        ConfigParseError::NotAReferenceSpace(s) => ConfigParseError::NotAReferenceSpace(s.clone()),
        ConfigParseError::FPSNotAnOperator(s) => ConfigParseError::FPSNotAnOperator(s.clone()),
        ConfigParseError::FPSNotANumber(s) => ConfigParseError::FPSNotANumber(s.clone()),
        ConfigParseError::FailedToParseToml => ConfigParseError::FailedToParseToml,
    }
}

fn apply_framerate(f: &Option<FramerateSetting>, current: u8) -> (res: Result<u8, ConfigParseError>)
    ensures
        match framerate_error(*f) {
            Some(v) => res matches Err(e) && error_view(e) == v,
            None => res == Ok::<u8, ConfigParseError>(framerate_after(*f, current)),
        },
{
    match f {
        Some(FramerateSetting::Number(n)) => Ok(*n as u8),
        Some(FramerateSetting::Expression(Ok(v))) => Ok(*v),
        Some(FramerateSetting::Expression(Err(e))) => Err(copy_error(e)),
        None => Ok(current),
    }
}

fn apply_space(s: &Option<String>, current: ReferenceSpace) -> (res: Result<
    ReferenceSpace,
    ConfigParseError,
>)
    ensures
        match space_error(*s) {
            Some(v) => res matches Err(e) && error_view(e) == v,
            None => res == Ok::<ReferenceSpace, ConfigParseError>(space_after(*s, current)),
        },
{
    match s {
        Some(t) => parse_reference_space(t.as_str()),
        None => Ok(current),
    }
}

fn apply_resolution(r: &Option<[i64; 2]>, current: [u32; 2]) -> (res: [u32; 2])
    ensures
        res == resolution_after(*r, current),
{
    match r {
        Some(v) => [v[0] as u32, v[1] as u32],
        None => current,
    }
}

fn apply_main(m: MainOverlay, s: &MainOverlaySection) -> (res: Result<MainOverlay, ConfigParseError>)
    ensures
        match main_error(*s) {
            Some(v) => res matches Err(e) && error_view(e) == v,
            None => res == Ok::<MainOverlay, ConfigParseError>(main_after(m, *s)),
        },
{
    let framerate = apply_framerate(&s.framerate, m.framerate)?;
    let position = match s.position {
        Some(p) => p,
        None => m.position,
    };
    let resolution = apply_resolution(&s.resolution, m.resolution);
    let size = match s.size {
        Some(v) => v,
        None => m.size,
    };
    let reference_space = apply_space(&s.reference_space, m.reference_space)?;
    let show_mode = match &s.show_mode {
        Some(t) => {
            let r = parse_show_mode(t.as_str(), position);
            proof {
                assert(show_mode_of(t@, position) is None <==> show_mode_of(t@, [0, 0, 0]) is None);
            }
            r?
        },
        None => m.show_mode,
    };
    Ok(MainOverlay { framerate, position, resolution, size, reference_space, show_mode })
}

fn apply_notification(n: NotificationsOverlay, s: &NotificationSection) -> (res: Result<
    NotificationsOverlay,
    ConfigParseError,
>)
    ensures
        match notification_error(*s) {
            Some(v) => res matches Err(e) && error_view(e) == v,
            None => res == Ok::<NotificationsOverlay, ConfigParseError>(notification_after(n, *s)),
        },
{
    let framerate = apply_framerate(&s.framerate, n.framerate)?;
    let position = match s.position {
        Some(p) => p,
        None => n.position,
    };
    let resolution = apply_resolution(&s.resolution, n.resolution);
    let size = match s.size {
        Some(v) => v,
        None => n.size,
    };
    let reference_space = apply_space(&s.reference_space, n.reference_space)?;
    Ok(NotificationsOverlay { framerate, position, resolution, size, reference_space })
}

fn apply_mute(u: MuteIndicatorOverlay, s: &MuteIndicatorSection) -> (res: Result<
    MuteIndicatorOverlay,
    ConfigParseError,
>)
    ensures
        match space_error(s.reference_space) {
            Some(v) => res matches Err(e) && error_view(e) == v,
            None => res == Ok::<MuteIndicatorOverlay, ConfigParseError>(mute_after(u, *s)),
        },
{
    let position = match s.position {
        Some(p) => p,
        None => u.position,
    };
    let size = match s.size {
        Some(v) => v,
        None => u.size,
    };
    let reference_space = apply_space(&s.reference_space, u.reference_space)?;
    Ok(MuteIndicatorOverlay { position, size, reference_space })
}

fn apply_pointers(p: PointersConfig, s: &PointersSection) -> (res: PointersConfig)
    ensures
        res == pointers_after(p, *s),
{
    PointersConfig {
        left_color: match s.left_color {
            Some(v) => v,
            None => p.left_color,
        },
        right_color: match s.right_color {
            Some(v) => v,
            None => p.right_color,
        },
        draw_only_when_on_overlay: match s.draw_only_when_on_overlay {
            Some(v) => v,
            None => p.draw_only_when_on_overlay,
        },
        overlay_move_speed: match s.overlay_move_speed {
            Some(v) => v,
            None => p.overlay_move_speed,
        },
    }
}

impl OverlayConfig {
    /// The configuration that a file gives for a headset running at
    /// `default_fps`: the first error of the file (see `document_error`), or
    /// the defaults with each table applied (see `config_from`).
    pub fn default_with_config(doc: &OverlayConfigDocument, default_fps: u8) -> (res: Result<
        OverlayConfig,
        ConfigParseError,
    >)
        ensures
            match document_error(*doc) {
                Some(v) => res matches Err(e) && error_view(e) == v,
                None => res == Ok::<OverlayConfig, ConfigParseError>(config_from(*doc, default_fps)),
            },
            res is Ok <==> document_error(*doc) is None,
            res matches Ok(c) ==> file_respected(*doc, default_config(default_fps), c),
    {
        proof {
            if document_error(*doc) is None {
                law_file_values_used(*doc, default_fps);
            }
        }
        let mut de = OverlayConfig::default(default_fps);
        if let Some(main) = &doc.main_overlay {
            de.main_overlay = apply_main(de.main_overlay, main)?;
        }
        if let Some(noti) = &doc.notification_overlay {
            de.notification_overlay = apply_notification(de.notification_overlay, noti)?;
        }
        if let Some(mute) = &doc.mute_indicator_overlay {
            de.mute_indicator_overlay = apply_mute(de.mute_indicator_overlay, mute)?;
        }
        if let Some(pointers) = &doc.pointers {
            de.pointers = apply_pointers(de.pointers, pointers);
        }
        Ok(de)
    }
}

/// The operators of a framerate expression such as "/2".
#[derive(Clone, Copy, Debug, PartialEq, Eq, Structural)]
pub enum FpsOperator {
    Add,
    Sub,
    Mul,
    Div,
}

/// The operator that a text names, if any.
pub open spec fn fps_operator_of(s: Seq<char>) -> Option<FpsOperator> {
    if s == "+"@ {
        Some(FpsOperator::Add)
    } else if s == "-"@ {
        Some(FpsOperator::Sub)
    } else if s == "*"@ {
        Some(FpsOperator::Mul)
    } else if s == "/"@ {
        Some(FpsOperator::Div)
    } else {
        None
    }
}

/// Reads the operator of a framerate expression: "+", "-", "*" or "/".
pub fn fps_operator(operator: &str) -> (res: Result<FpsOperator, ConfigParseError>)
    ensures
        match fps_operator_of(operator@) {
            Some(o) => res matches Ok(v) && v == o,
            None => res matches Err(e) && error_view(e) == (ConfigErrorKind::FPSNotAnOperator, operator@),
        },
{
    let s = operator.to_owned();
    if s == "+".to_owned() {
        Ok(FpsOperator::Add)
    } else if s == "-".to_owned() {
        Ok(FpsOperator::Sub)
    } else if s == "*".to_owned() {
        Ok(FpsOperator::Mul)
    } else if s == "/".to_owned() {
        Ok(FpsOperator::Div)
    } else {
        Err(ConfigParseError::FPSNotAnOperator(s))
    }
}

/// Splits a framerate expression after its first byte: the operator, then
/// the number. The first character must be a single byte (ASCII).
pub fn split_fps_expression(expression: &str) -> (res: (String, String))
    requires
        expression@.len() > 0,
        (expression@[0] as u32) < 0x80,
    ensures
        res.0@ == expression@.subrange(0, 1),
        res.1@ == expression@.subrange(1, expression@.len() as int),
{
    let n = expression.unicode_len();
    (expression.substring_char(0, 1).to_owned(), expression.substring_char(1, n).to_owned())
}

/// The error for a framerate expression whose number cannot be read.
pub fn fps_not_a_number(value: &str) -> (res: ConfigParseError)
    ensures
        error_view(res) == (ConfigErrorKind::FPSNotANumber, value@),
{
    ConfigParseError::FPSNotANumber(value.to_owned())
}

/// A file without tables gives the defaults.
pub proof fn law_empty_file_gives_defaults(fps: u8)
    ensures
        ({
            let doc = OverlayConfigDocument {
                main_overlay: None,
                notification_overlay: None,
                mute_indicator_overlay: None,
                pointers: None,
            };
            document_error(doc) is None && config_from(doc, fps) == default_config(fps)
        }),
{
}

/// By default both overlays render at half the headset's framerate.
pub proof fn law_default_half_rate(fps: u8)
    ensures
        default_config(fps).main_overlay.framerate == fps / 2,
        default_config(fps).notification_overlay.framerate == fps / 2,
{
}

/// A show mode from the file is placed at the position that the same file
/// gives for the main overlay.
pub proof fn law_show_mode_follows_position(m: MainOverlay, s: MainOverlaySection, p: [u32; 3])
    requires
        s.position == Some(p),
        s.show_mode matches Some(t) && show_mode_of(t@, p) is Some,
    ensures
        main_after(m, s).show_mode == show_mode_of(s.show_mode->0@, p)->0,
        main_after(m, s).position == p,
{
}

} // verus!
