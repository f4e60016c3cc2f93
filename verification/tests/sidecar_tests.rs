use oyasumivr::overlay_config::{
    fps_not_a_number, fps_operator, parse_reference_space, parse_show_mode, split_fps_expression,
    ConfigParseError, DeviceRole, FpsOperator, FramerateSetting, MainOverlaySection,
    MuteIndicatorSection, NotificationSection, OverlayConfig, OverlayConfigDocument,
    PointersSection, ReferenceSpace, ShowMode,
};
use oyasumivr::overlay_ipc::{
    add_notification, add_notification_script, base64_encode, clear_notification_script,
    decode_ipc_message, get_ipc_script, hide_dashboard_script, ipc_action, ipc_step,
    random_notification_id, set_state_script, show_dashboard_script, show_tool_tip_script,
    EventDataKind, FuntionCall, IpcAction, IpcStep, WsMessage,
};
use oyasumivr::sidecar::{
    core_mode, core_process_path, openxr_callback, OverlayEvent, dashboard_url, fade_step_count, grpc_server_port,
    grpc_web_server_port, local_address, local_http_url, openxr_show_hand, serves_ui,
    ui_directory, uses_default_bindings, Args, ArgsError, CoreMode, Dashboard, DashboardCommand,
    GrpcServer, KillSwitch, MicIndicatorCommand, CORE_GRPC_DEV_PORT,
    OVERLAY_SIDECAR_GRPC_DEV_PORT, OVERLAY_SIDECAR_GRPC_WEB_DEV_PORT,
};

fn empty_document() -> OverlayConfigDocument {
    OverlayConfigDocument {
        main_overlay: None,
        notification_overlay: None,
        mute_indicator_overlay: None,
        pointers: None,
    }
}

fn empty_main() -> MainOverlaySection {
    MainOverlaySection {
        framerate: None,
        position: None,
        resolution: None,
        size: None,
        reference_space: None,
        show_mode: None,
    }
}

fn bits3(v: [f32; 3]) -> [u32; 3] {
    [v[0].to_bits(), v[1].to_bits(), v[2].to_bits()]
}

#[test]
fn default_config_values() {
    let c = OverlayConfig::default(90);
    assert_eq!(c.main_overlay.framerate, 45);
    assert_eq!(c.notification_overlay.framerate, 45);
    assert_eq!(c.main_overlay.position, bits3([0.0, 0.0, -0.4]));
    assert_eq!(c.main_overlay.resolution, [1024, 1024]);
    assert_eq!(c.main_overlay.size, [0.6f32.to_bits(), 0.6f32.to_bits()]);
    assert_eq!(c.main_overlay.reference_space, ReferenceSpace::Stage);
    assert!(matches!(c.main_overlay.show_mode, ShowMode::DeviceCallback { pos } if pos == bits3([0.0, 0.0, -0.4])));
    assert_eq!(c.notification_overlay.position, bits3([0.0, -0.3, -0.6]));
    assert_eq!(c.notification_overlay.size, [0.5f32.to_bits(), 0.5f32.to_bits()]);
    assert_eq!(c.notification_overlay.reference_space, ReferenceSpace::View);
    assert_eq!(c.mute_indicator_overlay.position, bits3([-0.3, -0.3, -0.6]));
    assert_eq!(c.mute_indicator_overlay.size, [0.04f32.to_bits(), 0.04f32.to_bits()]);
    assert_eq!(c.mute_indicator_overlay.reference_space, ReferenceSpace::View);
    assert_eq!(c.pointers.overlay_move_speed, 0.01f32.to_bits());
    assert_eq!(c.pointers.left_color, [1.0f32.to_bits(), 1.0f32.to_bits(), 1.0f32.to_bits(), 0.2f32.to_bits()]);
    assert_eq!(c.pointers.right_color, c.pointers.left_color);
    assert!(c.pointers.draw_only_when_on_overlay);
    assert_eq!(OverlayConfig::default(75).main_overlay.framerate, 37);
}

#[test]
fn empty_file_gives_defaults() {
    let c = OverlayConfig::default_with_config(&empty_document(), 120).unwrap();
    assert_eq!(c.main_overlay.framerate, 60);
    assert_eq!(c.notification_overlay.framerate, 60);
    assert_eq!(c.main_overlay.reference_space, ReferenceSpace::Stage);
}

#[test]
fn file_values_replace_defaults() {
    let mut doc = empty_document();
    let mut main = empty_main();
    main.framerate = Some(FramerateSetting::Number(300));
    main.position = Some(bits3([0.1, 0.2, -1.0]));
    main.resolution = Some([512, 4294967297]);
    main.reference_space = Some("local".to_string());
    main.show_mode = Some("left_controller".to_string());
    doc.main_overlay = Some(main);
    doc.notification_overlay = Some(NotificationSection {
        framerate: Some(FramerateSetting::Expression(Ok(30))),
        position: None,
        resolution: None,
        size: Some([0.25f32.to_bits(), 0.25f32.to_bits()]),
        reference_space: Some("stage".to_string()),
    });
    doc.mute_indicator_overlay = Some(MuteIndicatorSection {
        position: None,
        size: None,
        reference_space: Some("view".to_string()),
    });
    doc.pointers = Some(PointersSection {
        left_color: None,
        right_color: Some([0, 0, 0, 0]),
        draw_only_when_on_overlay: Some(false),
        overlay_move_speed: None,
    });
    let c = OverlayConfig::default_with_config(&doc, 90).unwrap();
    // 300 does not fit in a byte: it is truncated to 44.
    assert_eq!(c.main_overlay.framerate, 44);
    assert_eq!(c.main_overlay.resolution, [512, 1]);
    assert_eq!(c.main_overlay.reference_space, ReferenceSpace::Local);
    assert!(matches!(
        c.main_overlay.show_mode,
        ShowMode::Device { role: DeviceRole::RightHand, pos } if pos == bits3([0.1, 0.2, -1.0])
    ));
    assert_eq!(c.notification_overlay.framerate, 30);
    assert_eq!(c.notification_overlay.reference_space, ReferenceSpace::Stage);
    assert_eq!(c.notification_overlay.size, [0.25f32.to_bits(), 0.25f32.to_bits()]);
    assert_eq!(c.notification_overlay.position, bits3([0.0, -0.3, -0.6]));
    assert_eq!(c.mute_indicator_overlay.reference_space, ReferenceSpace::View);
    assert_eq!(c.pointers.right_color, [0, 0, 0, 0]);
    assert!(!c.pointers.draw_only_when_on_overlay);
    assert_eq!(c.pointers.overlay_move_speed, 0.01f32.to_bits());
}

#[test]
fn first_file_error_is_reported() {
    let mut doc = empty_document();
    let mut main = empty_main();
    main.reference_space = Some("floor".to_string());
    main.show_mode = Some("nowhere".to_string());
    doc.main_overlay = Some(main);
    doc.mute_indicator_overlay = Some(MuteIndicatorSection {
        position: None,
        size: None,
        reference_space: Some("ceiling".to_string()),
    });
    match OverlayConfig::default_with_config(&doc, 90) {
        Err(ConfigParseError::NotAReferenceSpace(s)) => assert_eq!(s, "floor"),
        other => panic!("unexpected {:?}", other.is_ok()),
    }

    let mut doc = empty_document();
    let mut main = empty_main();
    main.show_mode = Some("nowhere".to_string());
    doc.main_overlay = Some(main);
    match OverlayConfig::default_with_config(&doc, 90) {
        Err(ConfigParseError::NotAShowMode(s)) => assert_eq!(s, "nowhere"),
        other => panic!("unexpected {:?}", other.is_ok()),
    }

    let mut doc = empty_document();
    doc.notification_overlay = Some(NotificationSection {
        framerate: Some(FramerateSetting::Expression(Err(ConfigParseError::FPSNotAnOperator(
            "%".to_string(),
        )))),
        position: None,
        resolution: None,
        size: None,
        reference_space: Some("bad".to_string()),
    });
    match OverlayConfig::default_with_config(&doc, 90) {
        Err(ConfigParseError::FPSNotAnOperator(s)) => assert_eq!(s, "%"),
        other => panic!("unexpected {:?}", other.is_ok()),
    }

    let mut doc = empty_document();
    doc.mute_indicator_overlay = Some(MuteIndicatorSection {
        position: None,
        size: None,
        reference_space: Some("ceiling".to_string()),
    });
    match OverlayConfig::default_with_config(&doc, 90) {
        Err(ConfigParseError::NotAReferenceSpace(s)) => assert_eq!(s, "ceiling"),
        other => panic!("unexpected {:?}", other.is_ok()),
    }
}

#[test]
fn names_and_operators() {
    assert_eq!(parse_reference_space("stage").unwrap(), ReferenceSpace::Stage);
    assert_eq!(parse_reference_space("view").unwrap(), ReferenceSpace::View);
    assert_eq!(parse_reference_space("local").unwrap(), ReferenceSpace::Local);
    assert!(matches!(parse_reference_space("Stage"), Err(ConfigParseError::NotAReferenceSpace(s)) if s == "Stage"));
    let p = [1, 2, 3];
    assert!(matches!(parse_show_mode("last_controller", p), Ok(ShowMode::DeviceCallback { pos }) if pos == p));
    assert!(matches!(parse_show_mode("hmd", p), Ok(ShowMode::Device { role: DeviceRole::Hmd, .. })));
    assert!(matches!(parse_show_mode("right_controller", p), Ok(ShowMode::Device { role: DeviceRole::LeftHand, .. })));
    assert!(matches!(parse_show_mode("keep", p), Ok(ShowMode::Keep)));
    assert!(matches!(parse_show_mode("", p), Err(ConfigParseError::NotAShowMode(s)) if s.is_empty()));
    assert_eq!(ShowMode::Keep.name(), "Keep");
    assert_eq!(ShowMode::Device { role: DeviceRole::Hmd, pos: p }.name(), "Device");
    assert_eq!(fps_operator("+").unwrap(), FpsOperator::Add);
    assert_eq!(fps_operator("-").unwrap(), FpsOperator::Sub);
    assert_eq!(fps_operator("*").unwrap(), FpsOperator::Mul);
    assert_eq!(fps_operator("/").unwrap(), FpsOperator::Div);
    assert!(matches!(fps_operator("x"), Err(ConfigParseError::FPSNotAnOperator(s)) if s == "x"));
    assert_eq!(split_fps_expression("/2.5"), ("/".to_string(), "2.5".to_string()));
    assert_eq!(split_fps_expression("+"), ("+".to_string(), String::new()));
    assert!(matches!(fps_not_a_number("abc"), ConfigParseError::FPSNotANumber(s) if s == "abc"));
}

#[test]
fn ipc_messages_are_decoded() {
    let r = decode_ipc_message("10:{\"message\":\"hi\"}").unwrap();
    assert_eq!(r.call_id, 10);
    assert_eq!(r.call, Some(FuntionCall::AddNotification));
    assert_eq!(r.payload.as_deref(), Some("{\"message\":\"hi\"}"));
    let r = decode_ipc_message("1").unwrap();
    assert_eq!(r.call, Some(FuntionCall::OnUiReady));
    assert_eq!(r.payload, None);
    let r = decode_ipc_message("200:a:b").unwrap();
    assert_eq!(r.call_id, 200);
    assert_eq!(r.call, None);
    assert_eq!(r.payload.as_deref(), Some("a:b"));
    assert_eq!(decode_ipc_message("abc:1").unwrap_err().call_id, "abc");
    assert_eq!(decode_ipc_message("256:x").unwrap_err().call_id, "256");
    assert_eq!(decode_ipc_message("").unwrap_err().call_id, "");
    for id in 0..=14u8 {
        assert_eq!(FuntionCall::from_id(id).unwrap().id(), id);
    }
    assert_eq!(FuntionCall::from_id(15), None);
}

#[test]
fn ipc_receive_loop_and_actions() {
    assert!(matches!(ipc_step(true, WsMessage::Text("1".to_string())), IpcStep::Stop));
    assert!(matches!(ipc_step(false, WsMessage::Close), IpcStep::Stop));
    assert!(matches!(ipc_step(false, WsMessage::Other), IpcStep::NotText));
    assert!(matches!(ipc_step(false, WsMessage::Text("1".to_string())), IpcStep::Decode(t) if t == "1"));
    assert_eq!(ipc_action(Some(FuntionCall::OnUiReady), true), IpcAction::SendState);
    assert_eq!(ipc_action(Some(FuntionCall::OnUiReady), false), IpcAction::Nothing);
    assert_eq!(ipc_action(Some(FuntionCall::Close), true), IpcAction::HideDashboard);
    assert_eq!(ipc_action(Some(FuntionCall::AddNotification), true), IpcAction::ForwardNotification);
    assert_eq!(
        ipc_action(Some(FuntionCall::SendEventJson), true),
        IpcAction::ForwardEvent(EventDataKind::Json)
    );
    assert_eq!(ipc_action(Some(FuntionCall::SyncState), true), IpcAction::Unimplemented);
    assert_eq!(ipc_action(None, true), IpcAction::Unimplemented);
}

#[test]
fn page_scripts() {
    assert_eq!(
        get_ipc_script("const a = 'ws://WS_ADDR'; // WS_ADDR", 4000),
        "const a = 'ws://localhost:4000'; // WS_ADDR"
    );
    assert_eq!(hide_dashboard_script(), "window.OyasumiIPCIn.hideDashboard();");
    assert_eq!(show_dashboard_script(), "window.OyasumiIPCIn.showDashboard();");
    assert_eq!(show_tool_tip_script(Some("'hi'")), "window.OyasumiIPCIn.showToolTip('hi');");
    assert_eq!(show_tool_tip_script(None), "window.OyasumiIPCIn.showToolTip();");
    assert_eq!(
        add_notification_script("abc", "Hello", 3000),
        "window.OyasumiIPCIn.addNotification({id:\"abc\",message:\"Hello\",duration:3000});"
    );
    assert_eq!(clear_notification_script("abc"), "window.OyasumiIPCIn.clearNotification(\"abc\");");
    assert_eq!(set_state_script(b"Man"), "window.OyasumiIPCIn.setState(\"TWFu\");");
}

#[test]
fn base64_and_random_ids() {
    assert_eq!(base64_encode(b""), "");
    assert_eq!(base64_encode(b"M"), "TQ==");
    assert_eq!(base64_encode(b"Ma"), "TWE=");
    assert_eq!(base64_encode(b"Man"), "TWFu");
    assert_eq!(base64_encode(&[0xff, 0xfe]), "//4=");
    let id = random_notification_id();
    assert_eq!(id.len(), 16);
    assert!(id.chars().all(|c| c.is_ascii_alphabetic()));
    let n = add_notification("Hi", 500);
    assert_eq!(n.id.len(), 16);
    assert_eq!(
        n.script,
        format!("window.OyasumiIPCIn.addNotification({{id:\"{}\",message:\"Hi\",duration:500}});", n.id)
    );
}

fn cli(args: &[&str]) -> Vec<String> {
    args.iter().map(|s| s.to_string()).collect()
}

#[test]
fn command_line() {
    assert_eq!(
        Args::from_cli(&cli(&["sidecar", "5000", "1234"])).unwrap(),
        Args { core_grpc_port: 5000, core_pid: 1234, disable_gpu: false }
    );
    assert_eq!(
        Args::from_cli(&cli(&["sidecar", "0", "0"])).unwrap(),
        Args { core_grpc_port: CORE_GRPC_DEV_PORT, core_pid: 0, disable_gpu: false }
    );
    assert_eq!(
        Args::from_cli(&cli(&["sidecar", "0", "7", "other"])).unwrap(),
        Args { core_grpc_port: 0, core_pid: 7, disable_gpu: false }
    );
    assert!(matches!(Args::from_cli(&cli(&["sidecar", "1"])), Err(ArgsError::Usage)));
    assert!(matches!(Args::from_cli(&cli(&["sidecar", "1", "2", "3", "4"])), Err(ArgsError::Usage)));
    assert!(matches!(Args::from_cli(&cli(&["sidecar", "70000", "1"])), Err(ArgsError::InvalidPort(s)) if s == "70000"));
    assert!(matches!(Args::from_cli(&cli(&["sidecar", "1", "-1"])), Err(ArgsError::InvalidPid(s)) if s == "-1"));
    assert!(matches!(
        Args::from_cli(&cli(&["sidecar", "1", "2", "--disable-gpu-acceleration"])),
        Err(ArgsError::SoftwareRendering)
    ));
}

#[test]
fn kill_switch_and_process_watch() {
    let mut k = KillSwitch::new();
    assert!(!k.killed(0, false));
    assert!(!k.killed(42, true));
    assert!(k.killed(42, false));
    assert!(k.killed(42, true));
    let mut k = KillSwitch::new();
    k.kill();
    assert!(k.killed);
    assert_eq!(core_process_path(0), None);
    assert_eq!(core_process_path(1234).as_deref(), Some("/proc/1234"));
    assert_eq!(core_process_path((1u64 << 32) + 5).as_deref(), Some("/proc/5"));
    assert_eq!(core_process_path(1u64 << 32), None);
}

#[test]
fn ports_and_addresses() {
    assert_eq!(core_mode(), CoreMode::Dev);
    assert_eq!(local_http_url(5177), "http://127.0.0.1:5177");
    assert_eq!(local_address(80), "127.0.0.1:80");
    assert_eq!(grpc_server_port(0, 9000), OVERLAY_SIDECAR_GRPC_DEV_PORT);
    assert_eq!(grpc_server_port(1, 9000), 9000);
    assert_eq!(grpc_web_server_port(0, 9001), OVERLAY_SIDECAR_GRPC_WEB_DEV_PORT);
    assert_eq!(grpc_web_server_port(1, 9001), 9001);
    assert!(!serves_ui(0));
    assert!(serves_ui(5176));
    assert_eq!(ui_directory(0), "../src-overlay-ui/build/");
    assert_eq!(ui_directory(9), "ui");
    assert!(uses_default_bindings(0));
    assert!(!uses_default_bindings(9));
    assert_eq!(dashboard_url(5173, 5177), "http://localhost:5173/dashboard?corePort=5177");
    assert_eq!(openxr_show_hand(), DeviceRole::Hmd);
}

#[test]
fn grpc_requests() {
    let server = GrpcServer {};
    let mut d = Dashboard { visible: false };
    assert_eq!(server.open_overlay_menu(), DashboardCommand::Show);
    assert_eq!(server.close_overlay_menu(), DashboardCommand::Hide);
    assert_eq!(server.toggle_overlay_menu(&d), DashboardCommand::Show);
    d.show_dashboard();
    assert_eq!(server.toggle_overlay_menu(&d), DashboardCommand::Hide);
    d.hide_dashboard();
    assert!(!d.visible);
    assert_eq!(server.set_microphone_active(0, true), MicIndicatorCommand::FadeOut { mute: true });
    assert_eq!(server.set_microphone_active(1, true), MicIndicatorCommand::ShowUnmuted);
    let n = server.add_notification("Hello".to_string(), 1500);
    assert_eq!(n.message, "Hello");
    assert_eq!(n.duration_ms, 1500);
    assert_eq!(fade_step_count(16), 156);
    assert_eq!(fade_step_count(2500), 1);
    assert_eq!(openxr_callback(OverlayEvent::VisibilityChanged { visible: true }), Some(DashboardCommand::Show));
    assert_eq!(openxr_callback(OverlayEvent::VisibilityChanged { visible: false }), None);
    assert_eq!(openxr_callback(OverlayEvent::Hiding), Some(DashboardCommand::Hide));
    assert_eq!(openxr_callback(OverlayEvent::Other), None);
}
