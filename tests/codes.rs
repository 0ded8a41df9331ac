use sim800::{
    BatteryChargeStatus, CallDirection, CallMode, CallMultiparty, CallState, NetworkRegistrationMode,
    NetworkRegistrationStatus, OperatorSelectionFormat, OperatorSelectionMode, PhoneActivityStatus,
    SignalQualityErrorRate, SignalQualityRssi, SmsMessageStatus, SmsMessageStorage,
};

#[test]
fn signal_strength_table() {
    assert_eq!(SignalQualityRssi::from_code(0), Some(SignalQualityRssi::Value(-115)));
    assert_eq!(SignalQualityRssi::from_code(1), Some(SignalQualityRssi::Value(-111)));
    for code in 2u8..=30 {
        let expected = -110 + 2 * code as i32 - 4;
        assert_eq!(SignalQualityRssi::from_code(code), Some(SignalQualityRssi::Value(expected as i8)));
    }
    assert_eq!(SignalQualityRssi::from_code(2), Some(SignalQualityRssi::Value(-110)));
    assert_eq!(SignalQualityRssi::from_code(30), Some(SignalQualityRssi::Value(-54)));
    assert_eq!(SignalQualityRssi::from_code(31), Some(SignalQualityRssi::Value(-52)));
    assert_eq!(SignalQualityRssi::from_code(99), Some(SignalQualityRssi::Unknown));
    for code in (32u8..99).chain(100..=255) {
        assert_eq!(SignalQualityRssi::from_code(code), None);
    }
}

#[test]
fn error_rate_table() {
    let values = [0u8, 2, 4, 8, 16, 32, 64, 128];
    for (code, v) in values.iter().enumerate() {
        assert_eq!(SignalQualityErrorRate::from_code(code as u8), Some(SignalQualityErrorRate::Value(*v)));
    }
    assert_eq!(SignalQualityErrorRate::from_code(99), Some(SignalQualityErrorRate::Unknown));
    assert_eq!(SignalQualityErrorRate::from_code(8), None);
    assert_eq!(SignalQualityErrorRate::from_code(98), None);
}

#[test]
fn status_tables() {
    assert_eq!(OperatorSelectionMode::from_code(0), Some(OperatorSelectionMode::Automatic));
    assert_eq!(OperatorSelectionMode::from_code(1), Some(OperatorSelectionMode::Manual));
    for c in 2..=4 {
        assert_eq!(OperatorSelectionMode::from_code(c), Some(OperatorSelectionMode::Unknown));
    }
    assert_eq!(OperatorSelectionMode::from_code(5), None);

    assert_eq!(OperatorSelectionFormat::from_code(0), Some(OperatorSelectionFormat::LongAlphanumeric));
    assert_eq!(OperatorSelectionFormat::from_code(1), Some(OperatorSelectionFormat::ShortAlphanumeric));
    assert_eq!(OperatorSelectionFormat::from_code(2), Some(OperatorSelectionFormat::Numeric));
    assert_eq!(OperatorSelectionFormat::from_code(3), None);

    assert_eq!(NetworkRegistrationMode::from_code(0), Some(NetworkRegistrationMode::DisableRegistration));
    assert_eq!(NetworkRegistrationMode::from_code(1), Some(NetworkRegistrationMode::EnableRegistration));
    assert_eq!(NetworkRegistrationMode::from_code(2), Some(NetworkRegistrationMode::EnableLocationRegistration));
    assert_eq!(NetworkRegistrationMode::from_code(3), None);

    assert_eq!(NetworkRegistrationStatus::from_code(0), None);
    assert_eq!(NetworkRegistrationStatus::from_code(1), Some(NetworkRegistrationStatus::Registered));
    assert_eq!(NetworkRegistrationStatus::from_code(2), Some(NetworkRegistrationStatus::SearchingOperator));
    assert_eq!(NetworkRegistrationStatus::from_code(3), Some(NetworkRegistrationStatus::RegistratonDenied));
    assert_eq!(NetworkRegistrationStatus::from_code(4), Some(NetworkRegistrationStatus::Unknown));
    assert_eq!(NetworkRegistrationStatus::from_code(5), Some(NetworkRegistrationStatus::RegisteredRoaming));
    assert_eq!(NetworkRegistrationStatus::from_code(6), None);

    assert_eq!(PhoneActivityStatus::from_code(0), Some(PhoneActivityStatus::Ready));
    assert_eq!(PhoneActivityStatus::from_code(1), None);
    assert_eq!(PhoneActivityStatus::from_code(2), Some(PhoneActivityStatus::Unknown));
    assert_eq!(PhoneActivityStatus::from_code(3), Some(PhoneActivityStatus::Ringing));
    assert_eq!(PhoneActivityStatus::from_code(4), Some(PhoneActivityStatus::CallInProgress));
    assert_eq!(PhoneActivityStatus::from_code(5), None);

    assert_eq!(BatteryChargeStatus::from_code(0), Some(BatteryChargeStatus::NotCharging));
    assert_eq!(BatteryChargeStatus::from_code(1), Some(BatteryChargeStatus::Charging));
    assert_eq!(BatteryChargeStatus::from_code(2), Some(BatteryChargeStatus::Finished));
    assert_eq!(BatteryChargeStatus::from_code(3), None);
}

#[test]
fn call_tables() {
    assert_eq!(CallDirection::from_code(0), Some(CallDirection::MobileOriginated));
    assert_eq!(CallDirection::from_code(1), Some(CallDirection::MobileTerminated));
    assert_eq!(CallDirection::from_code(2), None);
    let states = [
        CallState::Active,
        CallState::Held,
        CallState::Dialing,
        CallState::Alerting,
        CallState::Incoming,
        CallState::Waiting,
        CallState::Disconnect,
    ];
    for (c, s) in states.iter().enumerate() {
        assert_eq!(CallState::from_code(c as u8), Some(*s));
    }
    assert_eq!(CallState::from_code(7), None);
    assert_eq!(CallMode::from_code(0), Some(CallMode::Voice));
    assert_eq!(CallMode::from_code(1), Some(CallMode::Data));
    assert_eq!(CallMode::from_code(2), Some(CallMode::Fax));
    assert_eq!(CallMode::from_code(3), None);
    assert_eq!(CallMultiparty::from_code(0), Some(CallMultiparty::NoMultiparty));
    assert_eq!(CallMultiparty::from_code(1), Some(CallMultiparty::Multiparty));
    assert_eq!(CallMultiparty::from_code(2), None);
}

#[test]
fn message_text_tables() {
    let s = |t: &str| t.chars().collect::<Vec<char>>();
    assert_eq!(SmsMessageStatus::from_text(&s("REC UNREAD")), Some(SmsMessageStatus::ReceivedUnread));
    assert_eq!(SmsMessageStatus::from_text(&s("REC READ")), Some(SmsMessageStatus::ReceivedRead));
    assert_eq!(SmsMessageStatus::from_text(&s("STO UNSEND")), Some(SmsMessageStatus::StoredUnsent));
    assert_eq!(SmsMessageStatus::from_text(&s("STO SEND")), Some(SmsMessageStatus::StoredSent));
    assert_eq!(SmsMessageStatus::from_text(&s("ALL")), None);
    assert_eq!(SmsMessageStorage::from_text(&s("SM")), Some(SmsMessageStorage::Sim));
    assert_eq!(SmsMessageStorage::from_text(&s("ME")), Some(SmsMessageStorage::Phone));
    assert_eq!(SmsMessageStorage::from_text(&s("MT")), None);
}
