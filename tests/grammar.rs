use sim800::{
    parse, BatteryChargeStatus, CallDirection, CallMode, CallMultiparty, CallState, EquipmentErrorSource,
    MobileEquipmentError, NetworkRegistrationMode, NetworkRegistrationStatus, OperatorSelectionFormat,
    OperatorSelectionMode, ParseResult, PhoneActivityStatus, Response, SignalQualityErrorRate,
    SignalQualityRssi, SmsMessageStatus, SmsMessageStorage, Timestamp,
};

fn stamp() -> Timestamp {
    Timestamp::new(2023, 1, 15, 9, 30, 0).unwrap()
}

fn examples() -> Vec<(&'static str, Response)> {
    vec![
        ("OK\r", Response::Okay),
        ("ERROR\r", Response::Error(MobileEquipmentError::Disabled)),
        (
            "+CME ERROR: 10\r",
            Response::Error(MobileEquipmentError::Code { source: EquipmentErrorSource::Mobile, code: 10 }),
        ),
        (
            "+CMS ERROR: 302\r",
            Response::Error(MobileEquipmentError::Code { source: EquipmentErrorSource::Service, code: 302 }),
        ),
        (
            "+CME ERROR: SIM not inserted\r",
            Response::Error(MobileEquipmentError::Message {
                source: EquipmentErrorSource::Mobile,
                message: "SIM not inserted".to_string(),
            }),
        ),
        (
            "+CMS ERROR: unknown error\r",
            Response::Error(MobileEquipmentError::Message {
                source: EquipmentErrorSource::Service,
                message: "unknown error".to_string(),
            }),
        ),
        ("Call Ready\r", Response::CallReady),
        ("SMS Ready\r", Response::SmsReady),
        ("RING\r", Response::Ring),
        ("NO CARRIER\r", Response::NoCarrier),
        (
            "+COPS: 0,0,\"Orange\"\r\r",
            Response::OperatorSelection {
                mode: OperatorSelectionMode::Automatic,
                format: Some(OperatorSelectionFormat::LongAlphanumeric),
                operator: Some("Orange".to_string()),
            },
        ),
        (
            "+COPS: 1\r\r",
            Response::OperatorSelection { mode: OperatorSelectionMode::Manual, format: None, operator: None },
        ),
        (
            "+CREG: 0,1\r\r",
            Response::NetworkRegistration {
                mode: NetworkRegistrationMode::DisableRegistration,
                status: NetworkRegistrationStatus::Registered,
                location: None,
                cell_id: None,
            },
        ),
        (
            "+CREG: 2,5,\"1A2B\",\"3C4D\"\r\r",
            Response::NetworkRegistration {
                mode: NetworkRegistrationMode::EnableLocationRegistration,
                status: NetworkRegistrationStatus::RegisteredRoaming,
                location: Some("1A2B".to_string()),
                cell_id: Some("3C4D".to_string()),
            },
        ),
        ("+CPAS: 3\r\r", Response::PhoneActivityStatus { status: PhoneActivityStatus::Ringing }),
        (
            "+CSQ: 20,0\r\r",
            Response::SignalQuality {
                rssi: SignalQualityRssi::Value(-74),
                error_rate: SignalQualityErrorRate::Value(0),
            },
        ),
        (
            "+CBC: 1,85,4100\r\r",
            Response::BatteryCharge { status: BatteryChargeStatus::Charging, level: 85, voltage: 4100 },
        ),
        (
            "+CMGL: 1,\"REC READ\",\"002B0034\",,\"23/01/15,09:30:00+08\"\r00480069\r\r",
            Response::ListSmsMessage {
                index: 1,
                status: SmsMessageStatus::ReceivedRead,
                address: "+4".to_string(),
                address_text: None,
                timestamp: stamp(),
                text: "Hi".to_string(),
            },
        ),
        (
            "+CMGR: \"REC UNREAD\",\"002B0034\",\"0041\",\"23/01/15,09:30:00+08\"\r00480069\r\r",
            Response::ReadSmsMessage {
                status: SmsMessageStatus::ReceivedUnread,
                address: "+4".to_string(),
                address_text: Some("A".to_string()),
                timestamp: stamp(),
                text: "Hi".to_string(),
            },
        ),
        ("+CMTI: \"SM\",3\r", Response::NewSmsMessage { storage: SmsMessageStorage::Sim, index: 3 }),
        (
            "+CLCC: 1,0,0,0,0,\"+48123\",145,\"Bob\"\r\r",
            Response::ListCurrentCalls {
                index: 1,
                direction: CallDirection::MobileOriginated,
                state: CallState::Active,
                mode: CallMode::Voice,
                multiparty: CallMultiparty::NoMultiparty,
                number: Some("+48123".to_string()),
                number_type: Some(145),
                name: Some("Bob".to_string()),
            },
        ),
        (
            "+CLCC: 2,1,4,1,1\r\r",
            Response::ListCurrentCalls {
                index: 2,
                direction: CallDirection::MobileTerminated,
                state: CallState::Incoming,
                mode: CallMode::Data,
                multiparty: CallMultiparty::Multiparty,
                number: None,
                number_type: None,
                name: None,
            },
        ),
        ("\r", Response::Empty),
    ]
}

#[test]
fn every_example_parses_whole() {
    for (text, expected) in examples() {
        match parse(text) {
            ParseResult::Success { response, tail } => {
                assert_eq!(response, expected, "{:?}", text);
                assert_eq!(tail, "", "{:?}", text);
            }
            other => panic!("{:?} gave {:?}", text, other),
        }
    }
}

#[test]
fn every_strict_prefix_is_incomplete() {
    for (text, _) in examples() {
        let chars: Vec<char> = text.chars().collect();
        for n in 1..chars.len() {
            let prefix: String = chars[..n].iter().collect();
            match parse(&prefix) {
                ParseResult::Incomplete => {}
                other => panic!("{:?} gave {:?}", prefix, other),
            }
        }
    }
}

#[test]
fn the_tail_after_a_frame_is_kept() {
    match parse("OK\r+CMTI: \"ME\",7\r") {
        ParseResult::Success { response, tail } => {
            assert_eq!(response, Response::Okay);
            assert_eq!(tail, "+CMTI: \"ME\",7\r");
        }
        other => panic!("{:?}", other),
    }
}

#[test]
fn unknown_text_is_malformed() {
    assert!(matches!(parse("HELLO\r"), ParseResult::Error(_)));
    assert!(matches!(parse("+CPAS: 1\r\r"), ParseResult::Error(_)));
    assert!(matches!(parse("+CSQ: 40,0\r\r"), ParseResult::Error(_)));
    assert!(matches!(parse("+CMTI: \"XX\",3\r"), ParseResult::Error(_)));
}

#[test]
fn oversized_error_code_reads_as_text() {
    match parse("+CME ERROR: 70000\r") {
        ParseResult::Success { response, .. } => assert_eq!(
            response,
            Response::Error(MobileEquipmentError::Message {
                source: EquipmentErrorSource::Mobile,
                message: "70000".to_string(),
            })
        ),
        other => panic!("{:?}", other),
    }
}

#[test]
fn empty_buffer_is_incomplete() {
    assert!(matches!(parse(""), ParseResult::Incomplete));
}

#[test]
fn empty_quotes_stand_for_themselves() {
    match parse("+COPS: 0,2,\"\"\r\r") {
        ParseResult::Success { response, .. } => assert_eq!(
            response,
            Response::OperatorSelection {
                mode: OperatorSelectionMode::Automatic,
                format: Some(OperatorSelectionFormat::Numeric),
                operator: Some("\"\"".to_string()),
            }
        ),
        other => panic!("{:?}", other),
    }
}

#[test]
fn timestamp_offset_is_read_and_not_applied() {
    let text = "+CMGR: \"STO SEND\",\"0031\",,\"23/01/15,09:30:00+08\"\r\r\r";
    match parse(text) {
        ParseResult::Success { response: Response::ReadSmsMessage { timestamp, status, text, .. }, .. } => {
            assert_eq!(status, SmsMessageStatus::StoredSent);
            assert_eq!(text, "");
            assert_eq!(timestamp.year, 2023);
            assert_eq!(timestamp.month, 1);
            assert_eq!(timestamp.day, 15);
            assert_eq!(timestamp.hour, 9);
            assert_eq!(timestamp.minute, 30);
            assert_eq!(timestamp.second, 0);
        }
        other => panic!("{:?}", other),
    }
}

#[test]
fn timestamp_out_of_range_is_malformed() {
    let bad_day = "+CMGR: \"REC READ\",\"0031\",,\"23/02/30,09:30:00+08\"\r0041\r\r";
    assert!(matches!(parse(bad_day), ParseResult::Error(_)));
    let bad_hour = "+CMGR: \"REC READ\",\"0031\",,\"23/02/10,24:30:00+08\"\r0041\r\r";
    assert!(matches!(parse(bad_hour), ParseResult::Error(_)));
    let leap_day = "+CMGR: \"REC READ\",\"0031\",,\"24/02/29,00:00:00-04\"\r0041\r\r";
    assert!(matches!(parse(leap_day), ParseResult::Success { .. }));
}

#[test]
fn timestamp_checks_the_calendar() {
    assert!(Timestamp::new(2023, 2, 29, 0, 0, 0).is_none());
    assert!(Timestamp::new(2024, 2, 29, 0, 0, 0).is_some());
    assert!(Timestamp::new(2023, 13, 1, 0, 0, 0).is_none());
    assert!(Timestamp::new(2023, 4, 31, 0, 0, 0).is_none());
    assert!(Timestamp::new(2023, 4, 30, 23, 59, 59).is_some());
    assert!(Timestamp::new(2023, 4, 30, 23, 60, 0).is_none());
}
