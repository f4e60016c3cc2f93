//! PulseAudio device bookkeeping: the device list that the core shows, the
//! requests it sends for a device, and the sequence numbers of a connection.
//! The socket itself belongs to the caller, which performs each request that
//! the manager prepares and reports back what the server answered.
//!
//! Volumes are linear (1.0 is 100 %) 32-bit floats, carried as their bit
//! patterns (`f32::to_bits`): the library stores and reports them, and never
//! computes on them.
use crate::text::{seq_ends_with, string_from_utf8_lossy, str_ends_with, utf8_lossy};
use vstd::prelude::*;

verus! {

/// Whether a device records sound (a PulseAudio source) or plays it (a sink).
#[derive(PartialEq, Eq, Clone, Copy, Debug, Structural)]
pub enum AudioDeviceType {
    Capture,
    Render,
}

/// Why an operation on the audio device manager failed. The I/O and protocol
/// variants carry the text of the error that the connection reported.
#[derive(Debug)]
pub enum LinuxAudioError {
    PulseAudioUnavalible,
    IoError(String),
    PulseProtocolError(String),
    NotConnected,
    AudioDeviceNotFound,
    OutOfOrder,
}

impl LinuxAudioError {
    /// The connection answered out of order and must be dropped.
    pub fn is_out_of_order(&self) -> (res: bool)
        ensures
            res <==> self is OutOfOrder,
    {
        match self {
            LinuxAudioError::OutOfOrder => true,
            _ => false,
        }
    }
}

/// One audio device as the core tracks it.
#[derive(Clone, Debug)]
pub struct LinuxAudioDevice {
    pub id: String,
    pub name: String,
    pub device_type: AudioDeviceType,
    pub volume: u32,
    pub mute: bool,
    pub default: bool,
    pub index: u32,
}

impl LinuxAudioDevice {
    /// A copy of the device, field by field.
    pub fn copy_fields(&self) -> (res: LinuxAudioDevice)
        ensures
            res == *self,
    {
        LinuxAudioDevice {
            id: self.id.clone(),
            name: self.name.clone(),
            device_type: self.device_type,
            volume: self.volume,
            mute: self.mute,
            default: self.default,
            index: self.index,
        }
    }
}

/// A device as the user interface receives it.
#[derive(Clone, Debug)]
pub struct AudioDeviceDto {
    pub id: String,
    pub name: String,
    pub device_type: AudioDeviceType,
    pub volume: u32,
    pub mute: bool,
    pub default: bool,
    pub default_communications: bool,
}

/// The interface view of a tracked device: the same fields, and every device
/// counts as a default communications device.
pub open spec fn dto_of(d: LinuxAudioDevice, t: AudioDeviceDto) -> bool {
    &&& t.id@ == d.id@
    &&& t.name@ == d.name@
    &&& t.device_type == d.device_type
    &&& t.volume == d.volume
    &&& t.mute == d.mute
    &&& t.default == d.default
    &&& t.default_communications
}

impl AudioDeviceDto {
    pub fn from_device(value: LinuxAudioDevice) -> (res: AudioDeviceDto)
        ensures
            dto_of(value, res),
    {
        AudioDeviceDto {
            id: value.id,
            name: value.name,
            device_type: value.device_type,
            volume: value.volume,
            mute: value.mute,
            default: value.default,
            default_communications: true,
        }
    }
}

/// What the server reports of one source or sink: its name and description
/// as raw bytes, the linear volume of its first channel (as `f32` bits),
/// whether it is muted and its index.
#[derive(Clone, Debug)]
pub struct DeviceInfo {
    pub name: Vec<u8>,
    pub description: Option<Vec<u8>>,
    pub volume: u32,
    pub muted: bool,
    pub index: u32,
}

/// The description if there is one, else the name.
pub open spec fn display_bytes(info: DeviceInfo) -> Seq<u8> {
    match info.description {
        Some(d) => d@,
        None => info.name@,
    }
}

/// Whether `default_name` names this device.
pub open spec fn is_named(info: DeviceInfo, default_name: Option<Vec<u8>>) -> bool {
    match default_name {
        Some(n) => n@ == info.name@,
        None => false,
    }
}

/// The tracked device `d` is what `info` reports, as a device of type `kind`
/// that is the default one when `default_name` names it.
pub open spec fn device_of(
    d: LinuxAudioDevice,
    info: DeviceInfo,
    kind: AudioDeviceType,
    default_name: Option<Vec<u8>>,
) -> bool {
    &&& d.id@ == utf8_lossy(info.name@)
    &&& d.name@ == utf8_lossy(display_bytes(info))
    &&& d.device_type == kind
    &&& d.volume == info.volume
    &&& d.mute == info.muted
    &&& d.default == is_named(info, default_name)
    &&& d.index == info.index
}

/// A source whose name ends in ".monitor" only mirrors a sink's output.
pub open spec fn is_monitor(info: DeviceInfo) -> bool {
    seq_ends_with(utf8_lossy(info.name@), ".monitor"@)
}

/// The sources that are shown as devices, in server order: all but monitors.
pub open spec fn shown_sources(s: Seq<DeviceInfo>) -> Seq<DeviceInfo>
    decreases s.len(),
{
    if s.len() == 0 {
        seq![]
    } else if is_monitor(s.last()) {
        shown_sources(s.drop_last())
    } else {
        shown_sources(s.drop_last()).push(s.last())
    }
}

/// `devices` is the list built from the server's sources and sinks: the shown
/// sources as capture devices, then the sinks as render devices, each in
/// server order.
pub open spec fn device_list(
    devices: Seq<LinuxAudioDevice>,
    sources: Seq<DeviceInfo>,
    sinks: Seq<DeviceInfo>,
    default_source: Option<Vec<u8>>,
    default_sink: Option<Vec<u8>>,
) -> bool {
    let shown = shown_sources(sources);
    &&& devices.len() == shown.len() + sinks.len()
    &&& forall|i: int|
        0 <= i < shown.len() ==> device_of(
            #[trigger] devices[i],
            shown[i],
            AudioDeviceType::Capture,
            default_source,
        )
    &&& forall|j: int|
        0 <= j < sinks.len() ==> device_of(
            #[trigger] devices[shown.len() + j],
            sinks[j],
            AudioDeviceType::Render,
            default_sink,
        )
}

fn bytes_equal(a: &Vec<u8>, b: &Vec<u8>) -> (res: bool)
    ensures
        res <==> a@ == b@,
{
    if a.len() != b.len() {
        return false;
    }
    let mut i: usize = 0;
    while i < a.len()
        invariant
            a.len() == b.len(),
            i <= a.len(),
            forall|k: int| 0 <= k < i ==> a@[k] == b@[k],
        decreases a.len() - i,
    {
        if a[i] != b[i] {
            return false;
        }
        i = i + 1;
    }
    assert(a@ =~= b@);
    true
}

fn names_device(info: &DeviceInfo, default_name: &Option<Vec<u8>>) -> (res: bool)
    ensures
        res == is_named(*info, *default_name),
{
    match default_name {
        Some(n) => bytes_equal(n, &info.name),
        None => false,
    }
}

/// Builds the tracked device for one reported source or sink.
pub fn device_from_info(
    info: &DeviceInfo,
    kind: AudioDeviceType,
    default_name: &Option<Vec<u8>>,
) -> (res: LinuxAudioDevice)
    ensures
        device_of(res, *info, kind, *default_name),
{
    let id = string_from_utf8_lossy(info.name.as_slice());
    let name = match &info.description {
        Some(d) => string_from_utf8_lossy(d.as_slice()),
        None => string_from_utf8_lossy(info.name.as_slice()),
    };
    LinuxAudioDevice {
        id,
        name,
        device_type: kind,
        volume: info.volume,
        mute: info.muted,
        default: names_device(info, default_name),
        index: info.index,
    }
}

fn is_monitor_source(info: &DeviceInfo) -> (res: bool)
    ensures
        res == is_monitor(*info),
{
    let name = string_from_utf8_lossy(info.name.as_slice());
    str_ends_with(name.as_str(), ".monitor")
}

/// The device list for the server's sources and sinks (see `device_list`).
pub fn devices_from_lists(
    sources: &Vec<DeviceInfo>,
    sinks: &Vec<DeviceInfo>,
    default_source: &Option<Vec<u8>>,
    default_sink: &Option<Vec<u8>>,
) -> (res: Vec<LinuxAudioDevice>)
    ensures
        device_list(res@, sources@, sinks@, *default_source, *default_sink),
{
    let mut out: Vec<LinuxAudioDevice> = Vec::new();
    let mut i: usize = 0;
    while i < sources.len()
        invariant
            i <= sources.len(),
            out@.len() == shown_sources(sources@.take(i as int)).len(),
            forall|k: int|
                0 <= k < out@.len() ==> device_of(
                    #[trigger] out@[k],
                    shown_sources(sources@.take(i as int))[k],
                    AudioDeviceType::Capture,
                    *default_source,
                ),
        decreases sources.len() - i,
    {
        assert(sources@.take(i + 1).drop_last() =~= sources@.take(i as int));
        assert(sources@.take(i + 1).last() == sources@[i as int]);
        if !is_monitor_source(&sources[i]) {
            let d = device_from_info(&sources[i], AudioDeviceType::Capture, default_source);
            out.push(d);
        }
        i = i + 1;
    }
    assert(sources@.take(sources.len() as int) =~= sources@);
    let ghost shown_len = out@.len();
    let mut j: usize = 0;
    while j < sinks.len()
        invariant
            j <= sinks.len(),
            shown_len == shown_sources(sources@).len(),
            out@.len() == shown_len + j,
            forall|k: int|
                0 <= k < shown_len ==> device_of(
                    #[trigger] out@[k],
                    shown_sources(sources@)[k],
                    AudioDeviceType::Capture,
                    *default_source,
                ),
            forall|k: int|
                0 <= k < j ==> device_of(
                    #[trigger] out@[shown_len + k],
                    sinks@[k],
                    AudioDeviceType::Render,
                    *default_sink,
                ),
        decreases sinks.len() - j,
    {
        let d = device_from_info(&sinks[j], AudioDeviceType::Render, default_sink);
        out.push(d);
        proof {
            assert(out@[shown_len + j as int] == d);
        }
        j = j + 1;
    }
    out
}

/// Sequence numbers of the requests sent on one PulseAudio connection.
#[derive(Clone, Copy, Debug)]
pub struct SeqCounter {
    pub seq: u32,
}

impl SeqCounter {
    pub fn new() -> (res: SeqCounter)
        ensures
            res.seq == 0,
    {
        SeqCounter { seq: 0 }
    }

    /// Advances the counter (wrapping at `u32::MAX`) and returns the new value.
    pub fn next(&mut self) -> (res: u32)
        ensures
            final(self).seq == vstd::wrapping::u32_specs::wrapping_add(old(self).seq, 1),
            res == final(self).seq,
    {
        self.seq = self.seq.wrapping_add(1);
        self.seq
    }
}

/// The state of an authenticated connection: the protocol version that the
/// server agreed to, and the last sequence number used.
#[derive(Clone, Copy, Debug)]
pub struct AudioManagerConnectionInfo {
    pub protocol_version: u16,
    pub seq: SeqCounter,
}

/// A request to send on the connection: its sequence number and the protocol
/// version to encode it with.
#[derive(Clone, Copy, Debug, PartialEq, Eq, Structural)]
pub struct RequestHeader {
    pub seq: u32,
    pub protocol_version: u16,
}

/// Checks that a reply answers the request it follows: the server echoes the
/// request's sequence number, and any other number means that the replies
/// are out of order. This check is the library's own: it is what produces
/// `LinuxAudioError::OutOfOrder`, on which the core drops its manager.
pub fn check_reply(request: &RequestHeader, reply_seq: u32) -> (res: Result<(), LinuxAudioError>)
    ensures
        res is Ok <==> reply_seq == request.seq,
        res is Err ==> (res matches Err(LinuxAudioError::OutOfOrder)),
{
    if reply_seq == request.seq {
        Ok(())
    } else {
        Err(LinuxAudioError::OutOfOrder)
    }
}

/// A request about one tracked device: which device (its position in the
/// list), whether it is a source or a sink, and its server index.
#[derive(Clone, Copy, Debug)]
pub struct DeviceRequest {
    pub header: RequestHeader,
    pub position: usize,
    pub device_type: AudioDeviceType,
    pub index: u32,
}

/// The position of the first device with the given id.
pub open spec fn first_with_id(devices: Seq<LinuxAudioDevice>, id: Seq<char>, pos: int) -> bool {
    &&& 0 <= pos < devices.len()
    &&& devices[pos].id@ == id
    &&& forall|k: int| 0 <= k < pos ==> (#[trigger] devices[k]).id@ != id
}

/// The tracked devices and, once connected, the connection state.
pub struct LinuxAudioDeviceManager {
    pub devices: Vec<LinuxAudioDevice>,
    pub connection: Option<AudioManagerConnectionInfo>,
}

impl LinuxAudioDeviceManager {
    /// A manager with no devices and no connection.
    pub fn new() -> (res: LinuxAudioDeviceManager)
        ensures
            res.devices@.len() == 0,
            res.connection is None,
    {
        LinuxAudioDeviceManager { devices: Vec::new(), connection: None }
    }

    /// Records a connection whose authentication used the requests counted
    /// by `seq` and agreed on `protocol_version`.
    pub fn connect(&mut self, protocol_version: u16, seq: SeqCounter)
        ensures
            final(self).connection == Some(AudioManagerConnectionInfo { protocol_version, seq }),
            final(self).devices@ == old(self).devices@,
    {
        self.connection = Some(AudioManagerConnectionInfo { protocol_version, seq });
    }

    /// The header of the next request: fails when there is no connection,
    /// else advances the sequence number.
    pub fn next_request(&mut self) -> (res: Result<RequestHeader, LinuxAudioError>)
        ensures
            final(self).devices@ == old(self).devices@,
            match old(self).connection {
                None => (res matches Err(LinuxAudioError::NotConnected)) && final(self).connection
                    is None,
                Some(c) => {
                    let s = vstd::wrapping::u32_specs::wrapping_add(c.seq.seq, 1);
                    &&& res == Ok::<RequestHeader, LinuxAudioError>(
                        RequestHeader { seq: s, protocol_version: c.protocol_version },
                    )
                    &&& final(self).connection == Some(
                        AudioManagerConnectionInfo {
                            protocol_version: c.protocol_version,
                            seq: SeqCounter { seq: s },
                        },
                    )
                },
            },
    {
        match &mut self.connection {
            None => Err(LinuxAudioError::NotConnected),
            Some(c) => {
                let seq = c.seq.next();
                Ok(RequestHeader { seq, protocol_version: c.protocol_version })
            },
        }
    }

    /// Replaces the device list by the one built from the server's sources
    /// and sinks; without a connection it fails and keeps the list.
    pub fn refresh_devices(
        &mut self,
        sources: &Vec<DeviceInfo>,
        sinks: &Vec<DeviceInfo>,
        default_source: &Option<Vec<u8>>,
        default_sink: &Option<Vec<u8>>,
    ) -> (res: Result<(), LinuxAudioError>)
        ensures
            final(self).connection == old(self).connection,
            old(self).connection is None ==> (res matches Err(LinuxAudioError::NotConnected))
                && final(self).devices@ == old(self).devices@,
            old(self).connection is Some ==> res is Ok && device_list(
                final(self).devices@,
                sources@,
                sinks@,
                *default_source,
                *default_sink,
            ),
    {
        if self.connection.is_none() {
            return Err(LinuxAudioError::NotConnected);
        }
        self.devices = devices_from_lists(sources, sinks, default_source, default_sink);
        Ok(())
    }

    /// The tracked devices.
    pub fn devices(&self) -> (res: &[LinuxAudioDevice])
        ensures
            res@ == self.devices@,
    {
        self.devices.as_slice()
    }

    /// The tracked devices as the user interface receives them.
    pub fn device_dtos(&self) -> (res: Vec<AudioDeviceDto>)
        ensures
            res@.len() == self.devices@.len(),
            forall|i: int| 0 <= i < res@.len() ==> dto_of(self.devices@[i], #[trigger] res@[i]),
    {
        let mut out: Vec<AudioDeviceDto> = Vec::new();
        let mut i: usize = 0;
        while i < self.devices.len()
            invariant
                i <= self.devices@.len(),
                out@.len() == i,
                forall|k: int| 0 <= k < i ==> dto_of(self.devices@[k], #[trigger] out@[k]),
            decreases self.devices@.len() - i,
        {
            let d = self.devices[i].copy_fields();
            out.push(AudioDeviceDto::from_device(d));
            i = i + 1;
        }
        out
    }

    /// Prepares a request about the device with the given id: fails when
    /// there is no connection, then when no device has that id; otherwise
    /// advances the sequence number and names the first device with the id.
    pub fn device_request(&mut self, device_id: &String) -> (res: Result<DeviceRequest, LinuxAudioError>)
        ensures
            final(self).devices@ == old(self).devices@,
            old(self).connection is None ==> (res matches Err(LinuxAudioError::NotConnected)),
            old(self).connection is Some && (forall|k: int|
                0 <= k < old(self).devices@.len() ==> (#[trigger] old(self).devices@[k]).id@
                    != device_id@) ==> (res matches Err(LinuxAudioError::AudioDeviceNotFound)),
            res is Ok ==> old(self).connection is Some,
            res matches Ok(r) ==> {
                let c = old(self).connection->0;
                let s = vstd::wrapping::u32_specs::wrapping_add(c.seq.seq, 1);
                &&& first_with_id(old(self).devices@, device_id@, r.position as int)
                &&& r.device_type == old(self).devices@[r.position as int].device_type
                &&& r.index == old(self).devices@[r.position as int].index
                &&& r.header == RequestHeader { seq: s, protocol_version: c.protocol_version }
                &&& final(self).connection == Some(
                    AudioManagerConnectionInfo {
                        protocol_version: c.protocol_version,
                        seq: SeqCounter { seq: s },
                    },
                )
            },
            res is Err ==> final(self).connection == old(self).connection,
            res is Err ==> (res matches Err(LinuxAudioError::NotConnected)) || (res matches Err(
                LinuxAudioError::AudioDeviceNotFound,
            )),
            (res matches Err(LinuxAudioError::NotConnected)) ==> old(self).connection is None,
            (res matches Err(LinuxAudioError::AudioDeviceNotFound)) ==> old(self).connection is Some
                && forall|k: int|
                0 <= k < old(self).devices@.len() ==> (#[trigger] old(self).devices@[k]).id@
                    != device_id@,
    {
        if self.connection.is_none() {
            return Err(LinuxAudioError::NotConnected);
        }
        let mut pos: usize = 0;
        while pos < self.devices.len()
            invariant
                pos <= self.devices@.len(),
                forall|k: int| 0 <= k < pos ==> (#[trigger] self.devices@[k]).id@ != device_id@,
            ensures
                pos <= self.devices@.len(),
                forall|k: int| 0 <= k < pos ==> (#[trigger] self.devices@[k]).id@ != device_id@,
                pos < self.devices@.len() ==> self.devices@[pos as int].id@ == device_id@,
            decreases self.devices@.len() - pos,
        {
            if self.devices[pos].id == *device_id {
                break;
            }
            pos = pos + 1;
        }
        if pos == self.devices.len() {
            return Err(LinuxAudioError::AudioDeviceNotFound);
        }
        let device_type = self.devices[pos].device_type;
        let index = self.devices[pos].index;
        match self.next_request() {
            Ok(header) => Ok(DeviceRequest { header, position: pos, device_type, index }),
            Err(e) => Err(e),
        }
    }

    /// Records the volume that was requested for the device at `position`
    /// (linear, as `f32` bits), once the server accepted the request.
    pub fn set_volume_at(&mut self, position: usize, volume: u32)
        requires
            position < old(self).devices@.len(),
        ensures
            final(self).connection == old(self).connection,
            final(self).devices@.len() == old(self).devices@.len(),
            forall|k: int|
                0 <= k < old(self).devices@.len() && k != position ==> final(self).devices@[k]
                    == old(self).devices@[k],
            final(self).devices@[position as int] == (LinuxAudioDevice {
                volume,
                ..old(self).devices@[position as int]
            }),
    {
        let mut d = self.devices[position].copy_fields();
        d.volume = volume;
        self.devices.set(position, d);
    }

    /// Records a mute state sent for the device at `position`.
    pub fn set_mute_at(&mut self, position: usize, mute: bool)
        requires
            position < old(self).devices@.len(),
        ensures
            final(self).connection == old(self).connection,
            final(self).devices@.len() == old(self).devices@.len(),
            forall|k: int|
                0 <= k < old(self).devices@.len() && k != position ==> final(self).devices@[k]
                    == old(self).devices@[k],
            final(self).devices@[position as int] == (LinuxAudioDevice {
                mute,
                ..old(self).devices@[position as int]
            }),
    {
        let mut d = self.devices[position].copy_fields();
        d.mute = mute;
        self.devices.set(position, d);
    }
}

/// The devices that the user interface receives. `refreshed` is the outcome
/// of the refresh that was asked for, if one was. Without a manager there are
/// none; after a failed refresh there are none, and a manager whose replies
/// came out of order is dropped; otherwise they are the tracked devices.
pub fn get_audio_devices(
    manager: &mut Option<LinuxAudioDeviceManager>,
    refreshed: Option<Result<(), LinuxAudioError>>,
) -> (res: Vec<AudioDeviceDto>)
    ensures
        (*old(manager)) is None ==> res@.len() == 0 && (*final(manager)) is None,
        (*old(manager)) is Some ==> match refreshed {
            Some(Err(e)) => {
                &&& res@.len() == 0
                &&& e is OutOfOrder ==> (*final(manager)) is None
                &&& !(e is OutOfOrder) ==> *final(manager) == *old(manager)
            },
            _ => {
                &&& *final(manager) == *old(manager)
                &&& res@.len() == (*old(manager))->0.devices@.len()
                &&& forall|i: int|
                    0 <= i < res@.len() ==> dto_of((*old(manager))->0.devices@[i], #[trigger] res@[i])
            },
        },
{
    if manager.is_none() {
        return Vec::new();
    }
    let failed = match refreshed {
        Some(Err(e)) => Some(e.is_out_of_order()),
        _ => None,
    };
    match failed {
        Some(true) => {
            *manager = None;
            Vec::new()
        },
        Some(false) => Vec::new(),
        None => match manager {
            Some(m) => m.device_dtos(),
            None => Vec::new(),
        },
    }
}

/// What the core reports after a volume or mute command on a device.
#[derive(Debug)]
pub enum DeviceCommandReport {
    /// The command went through.
    Done,
    /// There is no manager to run it.
    NoManager,
    /// The server answered out of order: the manager is dropped.
    Dropped,
    /// The command failed with this error; the manager stays.
    Failed(LinuxAudioError),
}

/// Settles a volume or mute command whose outcome is `result`: without a
/// manager there was nothing to run; replies out of order drop the manager;
/// any other error is reported and the manager stays.
pub fn finish_device_command(
    manager: &mut Option<LinuxAudioDeviceManager>,
    result: Result<(), LinuxAudioError>,
) -> (res: DeviceCommandReport)
    ensures
        (*old(manager)) is None ==> res is NoManager && (*final(manager)) is None,
        (*old(manager)) is Some ==> match result {
            Ok(()) => res is Done && *final(manager) == *old(manager),
            Err(e) => if e is OutOfOrder {
                res is Dropped && (*final(manager)) is None
            } else {
                (res matches DeviceCommandReport::Failed(f) && f == e) && *final(manager)
                    == *old(manager)
            },
        },
{
    if manager.is_none() {
        return DeviceCommandReport::NoManager;
    }
    match result {
        Ok(()) => DeviceCommandReport::Done,
        Err(e) => if e.is_out_of_order() {
            *manager = None;
            DeviceCommandReport::Dropped
        } else {
            DeviceCommandReport::Failed(e)
        },
    }
}

/// Monitor sources never appear among the shown devices.
pub proof fn law_monitors_are_hidden(sources: Seq<DeviceInfo>)
    ensures
        forall|i: int| 0 <= i < shown_sources(sources).len() ==> !is_monitor(
            #[trigger] shown_sources(sources)[i],
        ),
    decreases sources.len(),
{
    if sources.len() > 0 {
        law_monitors_are_hidden(sources.drop_last());
        let prev = shown_sources(sources.drop_last());
        assert forall|i: int| 0 <= i < shown_sources(sources).len() implies !is_monitor(
            #[trigger] shown_sources(sources)[i],
        ) by {
            if i < prev.len() {
                assert(shown_sources(sources)[i] == prev[i]);
            }
        }
    }
}

/// Without monitor sources, every source is shown, in server order.
pub proof fn law_all_non_monitors_shown(sources: Seq<DeviceInfo>)
    requires
        forall|i: int| 0 <= i < sources.len() ==> !is_monitor(#[trigger] sources[i]),
    ensures
        shown_sources(sources) == sources,
    decreases sources.len(),
{
    if sources.len() > 0 {
        law_all_non_monitors_shown(sources.drop_last());
        assert(sources.drop_last().push(sources.last()) =~= sources);
    }
}

/// A volume recorded for the device at `position` (as `set_volume_at` does)
/// is the volume that the user interface then receives for it (as
/// `device_dtos` reports), and the other devices keep theirs.
pub proof fn law_recorded_volume_is_reported(
    before: Seq<LinuxAudioDevice>,
    after: Seq<LinuxAudioDevice>,
    position: int,
    volume: u32,
    dtos: Seq<AudioDeviceDto>,
)
    requires
        0 <= position < before.len(),
        after.len() == before.len(),
        after[position] == (LinuxAudioDevice { volume, ..before[position] }),
        forall|k: int| 0 <= k < before.len() && k != position ==> after[k] == before[k],
        dtos.len() == after.len(),
        forall|i: int| 0 <= i < dtos.len() ==> dto_of(after[i], #[trigger] dtos[i]),
    ensures
        dtos[position].volume == volume,
        dtos[position].id@ == before[position].id@,
        dtos[position].mute == before[position].mute,
        forall|k: int|
            0 <= k < dtos.len() && k != position ==> (#[trigger] dtos[k]).volume == before[k].volume,
{
    assert(dto_of(after[position], dtos[position]));
}

/// A mute state recorded for the device at `position` (as `set_mute_at`
/// does) is the state that the user interface then receives for it, and
/// the other devices keep theirs.
pub proof fn law_recorded_mute_is_reported(
    before: Seq<LinuxAudioDevice>,
    after: Seq<LinuxAudioDevice>,
    position: int,
    mute: bool,
    dtos: Seq<AudioDeviceDto>,
)
    requires
        0 <= position < before.len(),
        after.len() == before.len(),
        after[position] == (LinuxAudioDevice { mute, ..before[position] }),
        forall|k: int| 0 <= k < before.len() && k != position ==> after[k] == before[k],
        dtos.len() == after.len(),
        forall|i: int| 0 <= i < dtos.len() ==> dto_of(after[i], #[trigger] dtos[i]),
    ensures
        dtos[position].mute == mute,
        dtos[position].id@ == before[position].id@,
        dtos[position].volume == before[position].volume,
        forall|k: int|
            0 <= k < dtos.len() && k != position ==> (#[trigger] dtos[k]).mute == before[k].mute,
{
    assert(dto_of(after[position], dtos[position]));
}

} // verus!
