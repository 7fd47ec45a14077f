use openlid::mode::{LidState, PowerSource};
use openlid::platform::{
    lid_from_clamshell, power_source_from_reading, proxy_error, status_reply, toggle_reply,
    PlatformError, ReplySlot,
};

#[test]
fn platform_error_texts() {
    assert_eq!(PlatformError::Native("boom".to_string()).message(), "platform call failed: boom");
    assert_eq!(PlatformError::HelperUnavailable.message(), "helper unavailable");
    assert_eq!(PlatformError::Io("denied".to_string()).message(), "io: denied");
}

#[test]
fn helper_replies() {
    assert_eq!(toggle_reply(true, Some("ignored".to_string())), Ok(()));
    assert_eq!(
        toggle_reply(false, Some("pmset failed".to_string())),
        Err(PlatformError::Native("pmset failed".to_string()))
    );
    assert_eq!(
        toggle_reply(false, None),
        Err(PlatformError::Native("helper reported failure with no error message".to_string()))
    );
    assert_eq!(status_reply(true, true, None), Ok(true));
    assert_eq!(status_reply(true, false, None), Ok(false));
    assert!(status_reply(false, true, None).is_err());
    assert_eq!(
        proxy_error("Couldn't communicate with a helper application."),
        PlatformError::Native("xpc proxy error: Couldn't communicate with a helper application.".to_string())
    );
}

#[test]
fn reply_slot_delivers_only_the_first_value() {
    let mut slot = ReplySlot::new();
    assert!(slot.fill());
    assert!(!slot.fill());
    assert!(!slot.fill());
}

#[test]
fn power_source_readings() {
    assert_eq!(power_source_from_reading(None, Some(40)), PowerSource::Ac);
    assert_eq!(power_source_from_reading(Some("AC Power"), Some(40)), PowerSource::Ac);
    assert_eq!(
        power_source_from_reading(Some("Battery Power"), Some(40)),
        PowerSource::Battery { percent: 40 }
    );
    assert_eq!(
        power_source_from_reading(Some("Battery Power"), None),
        PowerSource::Battery { percent: 100 }
    );
    assert_eq!(
        power_source_from_reading(Some("Battery Power"), Some(250)),
        PowerSource::Battery { percent: 100 }
    );
    assert_eq!(
        power_source_from_reading(Some("InternalBattery"), Some(-3)),
        PowerSource::Battery { percent: 0 }
    );
}

#[test]
fn clamshell_readings() {
    assert_eq!(lid_from_clamshell(Some(true)), LidState::Closed);
    assert_eq!(lid_from_clamshell(Some(false)), LidState::Open);
    assert_eq!(lid_from_clamshell(None), LidState::Open);
}
