use msquic::settings::{ServerResumptionLevel, Settings, QUIC_SETTINGS};

#[test]
fn test_bit_field() {
    let s = Settings::new()
        .set_PeerBidiStreamCount(3)
        .set_PeerUnidiStreamCount(4);
    assert_eq!(3, s.as_ffi_ref().PeerBidiStreamCount);
    assert_eq!(4, s.as_ffi_ref().PeerUnidiStreamCount);
}

#[test]
fn new_settings_mark_nothing() {
    let s = Settings::new();
    let raw: &QUIC_SETTINGS = s.as_ffi_ref();
    assert!(!raw.IsSet.PeerBidiStreamCount);
    assert!(!raw.IsSet.IdleTimeoutMs);
    assert!(!raw.IsSet.ServerResumptionLevel);
    assert_eq!(raw.PeerBidiStreamCount, 0);
    assert_eq!(raw.IdleTimeoutMs, 0);
    assert_eq!(*Settings::default().as_ffi_ref(), *raw);
}

#[test]
fn a_setter_marks_its_own_entry_only() {
    let s = Settings::new().set_IdleTimeoutMs(500);
    let raw = s.as_ffi_ref();
    assert!(raw.IsSet.IdleTimeoutMs);
    assert_eq!(raw.IdleTimeoutMs, 500);
    assert!(!raw.IsSet.HandshakeIdleTimeoutMs);
    assert!(!raw.IsSet.PeerBidiStreamCount);
    let s = s.set_PeerBidiStreamCount(1);
    let raw = s.as_ffi_ref();
    assert!(raw.IsSet.IdleTimeoutMs);
    assert_eq!(raw.IdleTimeoutMs, 500);
    assert!(raw.IsSet.PeerBidiStreamCount);
    assert_eq!(raw.PeerBidiStreamCount, 1);
}

#[test]
fn switches_hold_one_when_set() {
    let s = Settings::new()
        .set_SendBufferingEnabled()
        .set_DatagramReceiveEnabled()
        .set_HyStartEnabled();
    let raw = s.as_ffi_ref();
    assert!(raw.IsSet.SendBufferingEnabled);
    assert_eq!(raw.SendBufferingEnabled, 1);
    assert_eq!(raw.DatagramReceiveEnabled, 1);
    assert_eq!(raw.HyStartEnabled, 1);
    assert_eq!(raw.PacingEnabled, 0);
    assert!(!raw.IsSet.PacingEnabled);
}

#[test]
fn server_resumption_level_is_stored_as_its_native_integer() {
    let s = Settings::new().set_ServerResumptionLevel(ServerResumptionLevel::ResumeAndZerortt);
    assert!(s.as_ffi_ref().IsSet.ServerResumptionLevel);
    assert_eq!(s.as_ffi_ref().ServerResumptionLevel, 2);
    let s = s.set_ServerResumptionLevel(ServerResumptionLevel::ResumeOnly);
    assert_eq!(s.as_ffi_ref().ServerResumptionLevel, 1);
    assert_eq!(u32::from(ServerResumptionLevel::NoResume), 0);
}
