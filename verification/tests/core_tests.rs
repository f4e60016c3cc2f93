use oyasumivr::audio::{
    check_reply, finish_device_command, get_audio_devices, DeviceCommandReport, devices_from_lists, RequestHeader, AudioDeviceDto, AudioDeviceType, DeviceInfo, LinuxAudioDeviceManager,
    LinuxAudioError, SeqCounter,
};
use oyasumivr::notifications::{BusReply, InhibitState, IsInhibited};
use oyasumivr::osc::{
    osc_arguments, osc_arguments_valid, AddressChange, OSCMethodAccessType, OscArg,
    OscServiceKind, OscWhitelist, SupportedOscType, VrchatAddresses,
};
use oyasumivr::power::{
    known_profiles, LinuxPowerPolicyManager, Output, PowerPolicyProvider, PowerPolicyProviderEnum,
    PowerProfileDaemon, SetPolicyError, WindowsPowerPolicy, TLPCTL,
};
use oyasumivr::system::{
    achievement_change, bindings_source, choose_lact_profile, get_lact_profiles, get_pipe_path,
    init, is_activity_binding, is_elevated, mic_action_disposition, set_brightness,
    set_fan_speed, set_lact_profile_start, set_led_color, sound_file_path, steam_achievement_get,
    steam_achievement_set, steam_active, AchievementChange, ActionDisposition, GpuProfileError,
    LactStep, NotificationSender, ParsedActionKind, VrcxNotificationSenderError,
};
use oyasumivr::text::{
    parse_i32, parse_unsigned_decimal, string_from_utf8_lossy, to_lowercase, to_uppercase, trim,
    u64_to_decimal,
};
use oyasumivr::vr::{
    core_poll_delay_ms, overlay_poll_step, should_track_pose, status_after_event,
    GestureDetection, LoopStep, OVRHandleType, PollResult, SleepDetection, SleepDetector,
    SleepState, VRStatus, XrEvent, EVENT_COUNT,
};

fn info(name: &str, description: Option<&str>, volume: u32, muted: bool, index: u32) -> DeviceInfo {
    DeviceInfo {
        name: name.as_bytes().to_vec(),
        description: description.map(|d| d.as_bytes().to_vec()),
        volume,
        muted,
        index,
    }
}

#[test]
fn seq_counter_counts_and_wraps() {
    let mut c = SeqCounter::new();
    assert_eq!(c.next(), 1);
    assert_eq!(c.next(), 2);
    let mut w = SeqCounter { seq: u32::MAX };
    assert_eq!(w.next(), 0);
}

#[test]
fn device_list_hides_monitors_and_marks_defaults() {
    let sources = vec![
        info("alsa_input.mic", Some("Microphone"), 65536, false, 3),
        info("alsa_output.speakers.monitor", Some("Monitor of Speakers"), 100, false, 4),
    ];
    let sinks = vec![info("alsa_output.speakers", None, 32768, true, 7)];
    let devices = devices_from_lists(
        &sources,
        &sinks,
        &Some(b"alsa_input.mic".to_vec()),
        &Some(b"other".to_vec()),
    );
    assert_eq!(devices.len(), 2);
    assert_eq!(devices[0].id, "alsa_input.mic");
    assert_eq!(devices[0].name, "Microphone");
    assert_eq!(devices[0].device_type, AudioDeviceType::Capture);
    assert!(devices[0].default);
    assert_eq!(devices[0].index, 3);
    assert_eq!(devices[1].id, "alsa_output.speakers");
    assert_eq!(devices[1].name, "alsa_output.speakers");
    assert_eq!(devices[1].device_type, AudioDeviceType::Render);
    assert!(devices[1].mute);
    assert!(!devices[1].default);
    assert_eq!(devices[1].volume, 32768);
}

#[test]
fn invalid_utf8_names_are_read_leniently() {
    let sinks = vec![DeviceInfo {
        name: vec![b'a', 0xff, b'b'],
        description: None,
        volume: 0,
        muted: false,
        index: 0,
    }];
    let devices = devices_from_lists(&vec![], &sinks, &None, &None);
    assert_eq!(devices[0].id, "a\u{FFFD}b");
    assert_eq!(string_from_utf8_lossy(&[0xe2, 0x82, 0xac]), "€");
}

#[test]
fn requests_need_a_connection() {
    let mut m = LinuxAudioDeviceManager::new();
    assert!(matches!(
        m.refresh_devices(&vec![info("mic", None, 1, false, 10)], &vec![], &None, &None),
        Err(LinuxAudioError::NotConnected)
    ));
    assert_eq!(m.devices().len(), 0);
    assert!(matches!(m.next_request(), Err(LinuxAudioError::NotConnected)));
    assert!(matches!(
        m.device_request(&"x".to_string()),
        Err(LinuxAudioError::NotConnected)
    ));
}

#[test]
fn volume_and_mute_requests_name_the_first_matching_device() {
    let mut m = LinuxAudioDeviceManager::new();
    let mut seq = SeqCounter::new();
    seq.next();
    m.connect(32, seq);
    m.refresh_devices(
        &vec![info("mic", None, 1, false, 10)],
        &vec![info("spk", None, 2, false, 20)],
        &None,
        &None,
    )
    .unwrap();
    let req = m.device_request(&"spk".to_string()).unwrap();
    assert_eq!(req.position, 1);
    assert_eq!(req.index, 20);
    assert_eq!(req.device_type, AudioDeviceType::Render);
    assert_eq!(req.header.seq, 2);
    assert_eq!(req.header.protocol_version, 32);
    assert!(matches!(
        m.device_request(&"none".to_string()),
        Err(LinuxAudioError::AudioDeviceNotFound)
    ));
    m.set_volume_at(req.position, 0.5f32.to_bits());
    m.set_mute_at(0, true);
    let dtos = m.device_dtos();
    assert_eq!(f32::from_bits(dtos[1].volume), 0.5);
    assert!(dtos[0].mute);
    assert!(dtos[0].default_communications);
    assert_eq!(m.devices().len(), 2);
    let header = m.next_request().unwrap();
    assert_eq!(header.seq, 3);
}

#[test]
fn dto_copies_device_fields() {
    let d = devices_from_lists(&vec![info("m", Some("Mic"), 9, true, 1)], &vec![], &None, &None)
        .remove(0);
    let dto = AudioDeviceDto::from_device(d);
    assert_eq!(dto.id, "m");
    assert_eq!(dto.name, "Mic");
    assert_eq!(dto.volume, 9);
    assert!(dto.mute);
    assert!(!dto.default);
    assert!(dto.default_communications);
}

#[test]
fn out_of_order_error_drops_the_manager() {
    assert!(LinuxAudioError::OutOfOrder.is_out_of_order());
    assert!(!LinuxAudioError::NotConnected.is_out_of_order());
    let h = RequestHeader { seq: 5, protocol_version: 32 };
    assert!(check_reply(&h, 5).is_ok());
    assert!(matches!(check_reply(&h, 4), Err(LinuxAudioError::OutOfOrder)));
}

#[test]
fn inhibit_then_query_is_ours() {
    let mut s = InhibitState::new();
    assert_eq!(s.is_inibited(BusReply::Answered(true)), IsInhibited::ByOther);
    assert!(s.inhibit(BusReply::Answered(7)));
    assert_eq!(s.un_inhibit_token(), 7);
    assert_eq!(s.is_inibited(BusReply::Answered(true)), IsInhibited::ByOyasumi);
    assert_eq!(s.is_inibited(BusReply::Answered(false)), IsInhibited::NO);
    assert_eq!(s.is_inibited(BusReply::Answered(true)), IsInhibited::ByOther);
}

#[test]
fn failed_bus_calls() {
    let mut s = InhibitState::new();
    assert!(!s.inhibit(BusReply::Failed));
    assert_eq!(s.un_inhibit_token(), u32::MAX);
    assert!(s.inhibit(BusReply::Answered(3)));
    assert_eq!(s.is_inibited(BusReply::NotConnected), IsInhibited::Unknown);
    assert_eq!(s.un_inhibit_token(), 3);
    assert_eq!(s.is_inibited(BusReply::Failed), IsInhibited::Unknown);
    assert_eq!(s.un_inhibit_token(), u32::MAX);
    assert!(!s.inhibit(BusReply::NotConnected));
    assert!(s.un_inhibit(BusReply::Answered(())));
    assert!(!s.un_inhibit(BusReply::Failed));
    assert_eq!(IsInhibited::ByOther.code(), 2);
    assert_eq!(IsInhibited::Unknown.code(), 3);
}

#[test]
fn power_providers_in_order() {
    assert_eq!(
        LinuxPowerPolicyManager::get_providers(true, true),
        vec!["powerprofilesctl".to_string(), "tlpctl".to_string()]
    );
    assert_eq!(LinuxPowerPolicyManager::get_providers(false, true), vec!["tlpctl".to_string()]);
    assert!(LinuxPowerPolicyManager::get_providers(false, false).is_empty());
    assert_eq!(
        LinuxPowerPolicyManager::new(true, true).provider,
        Some(PowerPolicyProviderEnum::PowerProfileDaemon)
    );
    assert_eq!(
        LinuxPowerPolicyManager::new(false, true).provider,
        Some(PowerPolicyProviderEnum::TLPCTL)
    );
    assert_eq!(LinuxPowerPolicyManager::new(false, false).provider, None);
}

#[test]
fn provider_names_round_trip() {
    for p in [PowerPolicyProviderEnum::PowerProfileDaemon, PowerPolicyProviderEnum::TLPCTL] {
        assert_eq!(PowerPolicyProviderEnum::from_name(&p.name()), p);
        assert!(PowerPolicyProviderEnum::is_name(&p.name()));
    }
    assert!(!PowerPolicyProviderEnum::is_name(&"other".to_string()));
}

#[test]
fn set_policy_lowercases_and_checks_profiles() {
    let mut m = LinuxPowerPolicyManager::new(true, false);
    let c = m.set_policy("BALANCED".to_string()).unwrap();
    assert_eq!(c.program, "powerprofilesctl");
    assert_eq!(c.args, vec!["set".to_string(), "balanced".to_string()]);
    assert_eq!(m.set_policy("turbo".to_string()).unwrap_err(), SetPolicyError::UnknownProfile);
    let mut none = LinuxPowerPolicyManager::new(false, false);
    assert_eq!(none.set_policy("balanced".to_string()).unwrap_err(), SetPolicyError::NoProvider);
    let mut t = TLPCTL;
    assert_eq!(t.set_power_profile("Performance".to_string()).unwrap().program, "tlpctl");
    assert!(t.set_power_profile("".to_string()).is_err());
}

#[test]
fn set_provider_switches() {
    let mut m = LinuxPowerPolicyManager::new(true, false);
    m.set_provider("tlpctl".to_string());
    assert_eq!(m.provider, Some(PowerPolicyProviderEnum::TLPCTL));
    assert_eq!(m.current_profile_command().unwrap().args, vec!["get".to_string()]);
}

#[test]
fn current_profile_is_upper_case_and_trimmed() {
    let m = LinuxPowerPolicyManager::new(true, false);
    assert_eq!(m.get_current_profile(Some(b"balanced\n".to_vec())), "BALANCED");
    assert_eq!(m.get_current_profile(None), "");
    let none = LinuxPowerPolicyManager::new(false, false);
    assert_eq!(none.get_current_profile(Some(b"balanced".to_vec())), "");
    let p = m.active_system_power_policy(Some(b" performance ".to_vec())).unwrap();
    assert_eq!(p.guid, "PERFORMANCE");
    assert_eq!(p.name, "PERFORMANCE");
    assert_eq!(PowerProfileDaemon.get_current_profile(Some(b"x".to_vec())), Some("X".to_string()));
}

#[test]
fn listed_policies() {
    let m = LinuxPowerPolicyManager::new(false, true);
    let p = m.get_system_power_policies();
    let names: Vec<String> = p.iter().map(|x| x.name.clone()).collect();
    assert_eq!(names, vec!["power-saver", "balanced", "performance"]);
    assert_eq!(m.get_avalible_profiles(), known_profiles());
    assert!(LinuxPowerPolicyManager::new(false, false).get_system_power_policies().is_empty());
    let w = WindowsPowerPolicy::from_profile("eco".to_string());
    assert_eq!(w.guid, w.name);
}

#[test]
fn command_output_is_decoded() {
    let o = Output::from_process(b"ok", &[0xff], None);
    assert_eq!(o.stdout, "ok");
    assert_eq!(o.stderr, "\u{FFFD}");
    assert_eq!(o.status, 0);
    assert_eq!(Output::from_process(b"", b"", Some(3)).status, 3);
}

#[test]
fn whitelist_and_incoming_messages() {
    let mut w = OscWhitelist::new();
    w.extend(&vec!["/avatar/parameters/MuteSelf".to_string()]);
    w.extend(&vec!["/avatar/parameters/AFK".to_string()]);
    assert!(w.contains(&"/avatar/parameters/MuteSelf".to_string()));
    assert!(w.contains(&"/avatar/parameters/AFK".to_string()));
    assert!(!w.contains(&"/other".to_string()));
    let m = w
        .incoming_message("/avatar/parameters/AFK".to_string(), vec![OscArg::Int(-12)])
        .unwrap();
    assert_eq!(m.values[0].kind, SupportedOscType::Int);
    assert_eq!(m.values[0].value.as_deref(), Some("-12"));
    let b = w
        .incoming_message("/avatar/parameters/AFK".to_string(), vec![OscArg::Bool(true)])
        .unwrap();
    assert_eq!(b.values[0].value.as_deref(), Some("true"));
    assert!(w
        .incoming_message(
            "/avatar/parameters/AFK".to_string(),
            vec![OscArg::Int(1), OscArg::Int(2)]
        )
        .is_none());
    assert!(w.incoming_message("/x".to_string(), vec![]).is_none());
    assert!(w.accepts(&"/avatar/parameters/AFK".to_string(), 0));
}

#[test]
fn outgoing_arguments() {
    let types = vec![SupportedOscType::Int, SupportedOscType::Boolean, SupportedOscType::String];
    let values = vec!["+42".to_string(), "false".to_string(), "hi".to_string()];
    assert!(osc_arguments_valid(&types, &values));
    let args = osc_arguments(&types, values);
    assert!(matches!(args[0], OscArg::Int(42)));
    assert!(matches!(args[1], OscArg::Bool(false)));
    assert!(matches!(&args[2], OscArg::String(s) if s == "hi"));
    assert!(!osc_arguments_valid(&types, &vec!["x".to_string()]));
    assert!(!osc_arguments_valid(&vec![SupportedOscType::Boolean], &vec!["True".to_string()]));
    assert!(!osc_arguments_valid(&vec![], &vec!["1".to_string()]));
    assert!(osc_arguments_valid(&vec![SupportedOscType::Float], &vec!["anything".to_string()]));
}

#[test]
fn osc_type_codes() {
    for t in [
        SupportedOscType::Int,
        SupportedOscType::Float,
        SupportedOscType::Boolean,
        SupportedOscType::String,
    ] {
        assert_eq!(SupportedOscType::from_code(t.code()), Some(t));
    }
    assert_eq!(SupportedOscType::from_code(0), None);
    assert_eq!(SupportedOscType::from_code(5), None);
    assert_ne!(OSCMethodAccessType::Read, OSCMethodAccessType::Write);
}

#[test]
fn vrchat_services_are_recorded() {
    let mut a = VrchatAddresses::new();
    assert!(a.start_osc_server().is_none());
    assert!(a.on_connect(OscServiceKind::Osc, "Other-App", "1.2.3.4:9000".to_string()).is_none());
    let c = a
        .on_connect(OscServiceKind::Osc, "VRChat-Client-ABC", "127.0.0.1:9000".to_string())
        .unwrap();
    assert_eq!(c.event_name(), "VRC_OSC_ADDRESS_CHANGED");
    assert!(matches!(c, AddressChange::Osc(ref s) if s == "127.0.0.1:9000"));
    assert!(a.start_osc_server().is_none());
    let q = a.on_connect(OscServiceKind::OscQuery, "x", "127.0.0.1:9001".to_string()).unwrap();
    assert_eq!(q.event_name(), "VRC_OSCQUERY_ADDRESS_CHANGED");
    assert_eq!(
        a.start_osc_server(),
        Some(("127.0.0.1:9000".to_string(), "127.0.0.1:9001".to_string()))
    );
    assert_eq!(a.get_vrchat_oscquery_address().as_deref(), Some("127.0.0.1:9001"));
}

#[test]
fn vr_status_texts_and_events() {
    assert_eq!(VRStatus::Initializing.vr_status(), "INITIALIZING");
    assert_eq!(VRStatus::Inactive.to_display_string(), "Inactive");
    assert_eq!(status_after_event(XrEvent::Killed), Some(VRStatus::Inactive));
    assert_eq!(status_after_event(XrEvent::Started), Some(VRStatus::Initialized));
    assert_eq!(status_after_event(XrEvent::Other), None);
    assert!(should_track_pose(VRStatus::Initialized));
    assert!(!should_track_pose(VRStatus::Initializing));
    assert_eq!(SleepState::from_code(3), Some(SleepState::Sleeping));
    assert_eq!(SleepState::from_code(0), None);
    assert_eq!(OVRHandleType::all().len(), 22);
    assert_eq!(OVRHandleType::WristLeft.as_str(), "WristLeft");
}

#[test]
fn poll_loops() {
    assert_eq!(core_poll_delay_ms(PollResult::UserNotPresent), 1000);
    assert_eq!(core_poll_delay_ms(PollResult::Exit), 10000);
    assert_eq!(core_poll_delay_ms(PollResult::SuccessNoRender), 60000);
    assert_eq!(overlay_poll_step(false, PollResult::SuccessNoRender, 11), LoopStep::Continue(11));
    assert_eq!(overlay_poll_step(false, PollResult::SessionLost, 11), LoopStep::Stop);
    assert_eq!(overlay_poll_step(true, PollResult::Success, 11), LoopStep::Stop);
}

#[test]
fn head_shake_switches() {
    let mut g = GestureDetection::new();
    g.stop_head_shake_detection();
    assert!(!g.abort);
    g.start();
    g.stop_head_shake_detection();
    assert!(g.should_stop());
    g.finished();
    assert!(!g.running);
    let mut g = GestureDetection::new();
    g.start();
    assert_eq!(g.detection_step(11), LoopStep::Continue(11));
    assert!(g.running);
    g.stop_head_shake_detection();
    assert_eq!(g.detection_step(11), LoopStep::Stop);
    assert!(!g.running);
    let mut s = SleepDetection { enabled: false };
    assert!(s.vr_sleep_detection_enabled(true));
    assert!(!s.vr_sleep_detection_enabled(true));
    assert!(!s.vr_sleep_detection_enabled(false));
}

#[test]
fn sleep_detector_window_and_reports() {
    let mut d: SleepDetector<u32, (i32, i32)> = SleepDetector::new(1000, (0, 0));
    assert_eq!(d.last_pos, (0, 0));
    assert!(d.log_pose(1, (1, 0), 5));
    assert_eq!(d.last_pos, (1, 0));
    assert_eq!(d.last_log, 5);
    assert_eq!(d.next_state_report, 10005);
    assert!(!d.log_pose(2, (1, 2), 10005));
    assert!(d.log_pose(3, (1, 5), 10006));
    for i in 0..(EVENT_COUNT as u32) {
        d.log_pose(i, (0, i as i32), 10006);
    }
    assert_eq!(d.distances.len(), EVENT_COUNT);
    assert_eq!(*d.distances.back().unwrap(), EVENT_COUNT as u32 - 1);
    assert_eq!(*d.distances.front().unwrap(), 0);
    assert_eq!(d.last_10_seconds_start(), EVENT_COUNT - 33);
    d.reset_start_time(77);
    assert_eq!(d.start_time, 77);
    assert_eq!(d.last_pos, (0, EVENT_COUNT as i32 - 1));
}

#[test]
fn hardware_reports() {
    assert_eq!(set_led_color(1, 2, 3), vec![0, 0x4c, 1, 2, 3]);
    assert_eq!(set_fan_speed(100).unwrap(), vec![0, 0x46, 100]);
    assert_eq!(set_fan_speed(101).unwrap_err(), "OUT_OF_BOUNDS");
    assert_eq!(set_brightness(0x3ff).unwrap(), vec![0, 0x49, 3, 0xff]);
    assert_eq!(set_brightness(0x400).unwrap_err(), "OUT_OF_BOUNDS");
}

#[test]
fn lact_profiles() {
    assert_eq!(
        set_lact_profile_start(&"a".to_string(), false),
        Err(GpuProfileError::ExeCannotExecute)
    );
    assert_eq!(set_lact_profile_start(&"".to_string(), true), Ok(LactStep::Done));
    assert_eq!(set_lact_profile_start(&"a".to_string(), true), Ok(LactStep::ListProfiles));
    let listed = Some(vec!["quiet".to_string(), "fast".to_string()]);
    assert_eq!(choose_lact_profile(&"fast".to_string(), &listed), Ok("fast".to_string()));
    assert_eq!(
        choose_lact_profile(&"slow".to_string(), &listed),
        Err(GpuProfileError::InvalidProfileIndex)
    );
    assert_eq!(choose_lact_profile(&"fast".to_string(), &None), Err(GpuProfileError::UnknownError));
    assert_eq!(get_lact_profiles(true, None), Err(GpuProfileError::UnknownError));
    assert_eq!(get_lact_profiles(false, listed.clone()), Err(GpuProfileError::ExeCannotExecute));
    assert_eq!(get_lact_profiles(true, listed.clone()), Ok(listed.unwrap()));
}

#[test]
fn vrcx_pipe_and_sender() {
    assert_eq!(get_pipe_path(Some("ab")), "\\\\.\\pipe\\vrcx-ipc-195");
    assert_eq!(get_pipe_path(None), "\\\\.\\pipe\\vrcx-ipc-0");
    let mut s = NotificationSender::new();
    assert!(!s.connected);
    init(&mut s, Ok(()));
    assert!(s.connected);
    let m = s.send_msg("hello".to_string()).unwrap();
    assert_eq!(m.data.as_deref(), Some("hello"));
    assert_eq!(m.display_name.as_deref(), Some("OyasumiVR"));
    assert!(!m.notify);
    assert!(matches!(
        s.write_failed(false, "timeout".to_string()),
        VrcxNotificationSenderError::SendFailed(_)
    ));
    assert!(s.connected);
    assert!(matches!(s.write_failed(true, String::new()), VrcxNotificationSenderError::NotConnected));
    assert!(matches!(s.send_msg("x".to_string()), Err(VrcxNotificationSenderError::NotConnected)));
    let mut n = NotificationSender::new();
    init(&mut n, Err(VrcxNotificationSenderError::UnableToConnect("no".into())));
    assert!(!n.connected);
    // A failed attempt keeps a pipe that is already open.
    let mut live = NotificationSender::new();
    assert!(live.connect(Ok(())).is_ok());
    assert!(matches!(
        live.connect(Err(VrcxNotificationSenderError::UnableToConnect("busy".into()))),
        Err(VrcxNotificationSenderError::UnableToConnect(_))
    ));
    assert!(live.connected);
}

#[test]
fn small_system_helpers() {
    assert!(!is_elevated());
    assert_eq!(sound_file_path("/res", "bell"), "/res/sounds/bell.ogg");
    assert!(is_activity_binding("/user/hand/left/input/a/click"));
    assert!(is_activity_binding("/user/hand/right/input/thumbstick/y"));
    assert!(is_activity_binding("/user/hand/right/input/trigger/value"));
    assert!(!is_activity_binding("/user/hand/right/input/squeeze/value"));
    let b = bindings_source(false, false);
    assert!(b.write_default_file && !b.use_defaults);
    assert!(bindings_source(false, true).use_defaults);
    assert_eq!(mic_action_disposition(ParsedActionKind::MetaSwitch), ActionDisposition::Keep);
    assert_eq!(mic_action_disposition(ParsedActionKind::Disabled), ActionDisposition::Skip);
    assert_eq!(mic_action_disposition(ParsedActionKind::Haptic), ActionDisposition::WarnAndSkip);
    assert!(!steam_active());
    assert_eq!(steam_achievement_get(&"A".to_string()).unwrap_err(), "STEAM_SUPPORT_DISABLED");
    assert!(steam_achievement_set(&"A".to_string(), true).is_ok());
    assert_eq!(achievement_change(true, true), AchievementChange::Unchanged);
    assert_eq!(achievement_change(false, true), AchievementChange::Unlock);
    assert_eq!(achievement_change(true, false), AchievementChange::Clear);
}

#[test]
fn text_helpers() {
    assert_eq!(parse_unsigned_decimal("+255", 255), Some(255));
    assert_eq!(parse_unsigned_decimal("256", 255), None);
    assert_eq!(parse_unsigned_decimal("+", 255), None);
    assert_eq!(parse_unsigned_decimal("", 255), None);
    assert_eq!(parse_unsigned_decimal("0012", 255), Some(12));
    assert_eq!(parse_i32("-2147483648"), Some(i32::MIN));
    assert_eq!(parse_i32("2147483648"), None);
    assert_eq!(parse_i32("-"), None);
    assert_eq!(parse_i32("+-1"), None);
    assert_eq!(u64_to_decimal(0), "0");
    assert_eq!(u64_to_decimal(u64::MAX), u64::MAX.to_string());
    assert_eq!(to_lowercase("ÀB"), "àb");
    assert_eq!(to_uppercase("ab"), "AB");
    assert_eq!(trim("\t x \n"), "x");
    assert_eq!(trim("\u{3000}x y\u{a0}\u{2029}"), "x y");
    assert_eq!(trim("\u{1c}x"), "\u{1c}x");
}

fn connected_manager() -> LinuxAudioDeviceManager {
    let mut m = LinuxAudioDeviceManager::new();
    m.connect(32, SeqCounter::new());
    m.refresh_devices(&vec![info("mic", None, 1, false, 10)], &vec![], &None, &None).unwrap();
    m
}

#[test]
fn audio_command_outcomes() {
    let mut none: Option<LinuxAudioDeviceManager> = None;
    assert!(get_audio_devices(&mut none, Some(Ok(()))).is_empty());
    assert!(matches!(finish_device_command(&mut none, Ok(())), DeviceCommandReport::NoManager));

    let mut m = Some(connected_manager());
    assert_eq!(get_audio_devices(&mut m, None)[0].id, "mic");
    assert_eq!(get_audio_devices(&mut m, Some(Ok(()))).len(), 1);
    assert!(get_audio_devices(&mut m, Some(Err(LinuxAudioError::NotConnected))).is_empty());
    assert!(m.is_some());
    assert!(get_audio_devices(&mut m, Some(Err(LinuxAudioError::OutOfOrder))).is_empty());
    assert!(m.is_none());

    let mut m = Some(connected_manager());
    assert!(matches!(finish_device_command(&mut m, Ok(())), DeviceCommandReport::Done));
    assert!(matches!(
        finish_device_command(&mut m, Err(LinuxAudioError::AudioDeviceNotFound)),
        DeviceCommandReport::Failed(LinuxAudioError::AudioDeviceNotFound)
    ));
    assert!(m.is_some());
    assert!(matches!(
        finish_device_command(&mut m, Err(LinuxAudioError::OutOfOrder)),
        DeviceCommandReport::Dropped
    ));
    assert!(m.is_none());
}
