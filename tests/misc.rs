use lan_mouse_grab::fingerprint::{fingerprint_of_digest, get_fingerprint};
use lan_mouse_grab::gatt::{
    ble_uuid, characteristics, report_map, report_reference_descriptor, Characteristic,
    NotifierSlot,
};
use lan_mouse_grab::gpu::{
    get_status, is_external_output, is_offload_mode, DaemonState, GpuState, ProcessInfo,
};

#[test]
fn fingerprint_of_abc() {
    assert_eq!(
        get_fingerprint(b"abc"),
        "ba:78:16:bf:8f:01:cf:ea:41:41:40:de:5d:ae:22:23:b0:03:61:a3:96:17:7a:9c:b4:10:ff:61:f2:00:15:ad"
    );
}

#[test]
fn fingerprint_of_empty_input() {
    assert_eq!(
        get_fingerprint(b""),
        "e3:b0:c4:42:98:fc:1c:14:9a:fb:f4:c8:99:6f:b9:24:27:ae:41:e4:64:9b:93:4c:a4:95:99:1b:78:52:b8:55"
    );
}

#[test]
fn digest_rendering() {
    assert_eq!(fingerprint_of_digest(&[0x0a, 0xff, 0x10]), "0a:ff:10");
    assert_eq!(fingerprint_of_digest(&[]), "");
}

#[test]
fn uuid_of_hid_service() {
    assert_eq!(ble_uuid(0x1812), 0x0000_1812_0000_1000_8000_0080_5f9b_34fb);
}

#[test]
fn report_map_layout() {
    let m = report_map();
    assert_eq!(m.len(), 101);
    assert_eq!(&m[..8], &[0x05, 0x01, 0x09, 0x06, 0xA1, 0x01, 0x85, 0x01]);
    assert_eq!(m[m.len() - 1], 0xC0);
    assert_eq!(report_reference_descriptor(2, 1), vec![2, 1]);
}

#[test]
fn characteristic_reads() {
    let kb = vec![2u8, 0, 4, 0, 0, 0, 0, 0];
    let mouse = vec![1u8, 5, 6, 7];
    assert_eq!(characteristics().len(), 8);
    assert_eq!(Characteristic::ProtocolMode.read_value(&kb, &mouse), Some(vec![1]));
    assert_eq!(Characteristic::HidInformation.read_value(&kb, &mouse), Some(vec![0x11, 0x01, 0x00, 0x02]));
    assert_eq!(Characteristic::BootMouseInput.read_value(&kb, &mouse), Some(vec![1, 5, 6]));
    assert_eq!(Characteristic::Report(2).read_value(&kb, &mouse), Some(mouse.clone()));
    assert_eq!(Characteristic::Report(1).read_value(&kb, &mouse), Some(kb.clone()));
    assert_eq!(Characteristic::ControlPoint.read_value(&kb, &mouse), None);
    assert_eq!(Characteristic::Report(1).uuid16(), 0x2A4D);
    assert!(Characteristic::ControlPoint.writable());
    assert!(!Characteristic::ReportMap.notifies());
}

#[test]
fn failed_notify_clears_only_its_slot() {
    let mut kb: NotifierSlot<u32> = NotifierSlot::new();
    let mut mouse: NotifierSlot<u32> = NotifierSlot::new();
    assert!(kb.endpoint().is_none());
    kb.subscribe(1);
    mouse.subscribe(2);
    kb.notify_finished(false);
    mouse.notify_finished(true);
    assert!(kb.endpoint().is_none());
    assert_eq!(mouse.endpoint().copied(), Some(2));
}

#[test]
fn offload_modes() {
    assert!(is_offload_mode("default"));
    assert!(is_offload_mode("prime-ready"));
    assert!(is_offload_mode(""));
    assert!(!is_offload_mode("nvidia-sync"));
    assert!(!is_offload_mode("defaults"));
}

#[test]
fn external_outputs() {
    assert!(!is_external_output("eDP-1"));
    assert!(is_external_output("HDMI-A-1"));
}

#[test]
fn status_reports_control() {
    let procs = vec![ProcessInfo { pid: 42, name: "game".to_string() }];
    let st = get_status(true, false, Some("D3cold".to_string()), true, procs, "nvidia-sync".to_string());
    assert!(!st.can_control);
    assert_eq!(st.blocking_processes[0].pid, 42);
    let st = get_status(true, true, None, false, Vec::new(), "default".to_string());
    assert!(st.can_control);
}

#[test]
fn default_daemon_state() {
    let d = DaemonState::default();
    assert_eq!(d.gpu_state, GpuState::Disabled);
    assert_eq!(d.previous_state, None);
}
