use sim800::{
    Drain, FrameEngine, FrameEvent, Keep, NetworkRegistrationMode, NetworkRegistrationStatus, Response,
    SmsMessageStatus,
};

fn feed(engine: &mut FrameEngine, bytes: &[u8]) -> Vec<FrameEvent> {
    let mut events = Vec::new();
    for &b in bytes {
        match engine.push_byte(b) {
            FrameEvent::Pending => {}
            other => events.push(other),
        }
    }
    events
}

fn responses(bytes: &[u8]) -> Vec<Response> {
    let mut engine = FrameEngine::new();
    feed(&mut engine, bytes)
        .into_iter()
        .filter_map(|e| match e {
            FrameEvent::Emitted(r) => Some(r),
            _ => None,
        })
        .collect()
}

fn drain(keep: Keep, rs: Vec<Response>) -> Drain {
    let mut d = Drain::new(keep);
    for r in rs {
        if d.accept(r) {
            break;
        }
    }
    assert!(d.is_done());
    d
}

#[test]
fn malformed_line_is_dropped_and_next_frame_recognised() {
    let mut engine = FrameEngine::new();
    let events = feed(&mut engine, b"GARBAGE\r\nOK\r\n");
    assert_eq!(events.len(), 2);
    match &events[0] {
        FrameEvent::Malformed { text } => assert_eq!(text, "GARBAGE\r"),
        other => panic!("{:?}", other),
    }
    match &events[1] {
        FrameEvent::Emitted(r) => assert_eq!(*r, Response::Okay),
        other => panic!("{:?}", other),
    }
}

#[test]
fn resynchronisation_emits_only_the_valid_frame() {
    let rs = responses(b"+XYZ: 1\r\n+CPAS: 0\r\n\r\n");
    assert_eq!(rs.len(), 1);
    assert!(matches!(rs[0], Response::PhoneActivityStatus { .. }));
}

#[test]
fn doubled_carriage_return_line_is_not_buffered() {
    // Joined to the pending frame, this line would complete it.
    let mut engine = FrameEngine::new();
    let events = feed(&mut engine, b"+CPAS: 0\r\n\r\r\n");
    assert!(events.is_empty());
    let events = feed(&mut engine, b"\r\n");
    assert_eq!(events.len(), 1);
    match &events[0] {
        FrameEvent::Emitted(r) => assert!(matches!(r, Response::PhoneActivityStatus { .. })),
        other => panic!("{:?}", other),
    }
}

#[test]
fn command_echo_is_swallowed() {
    let rs = responses(b"AT\r\r\nOK\r\n");
    assert_eq!(rs, vec![Response::Okay]);
}

#[test]
fn back_to_back_frames_on_one_line_are_both_emitted() {
    let mut engine = FrameEngine::new();
    let events = feed(&mut engine, b"RING\r");
    assert!(events.is_empty());
    let events = feed(&mut engine, b"\n");
    assert_eq!(events.len(), 1);
    let rs = responses(b"OK\rRING\r\nNO CARRIER\r\n");
    assert_eq!(rs[0], Response::Okay);
    assert_eq!(rs[1], Response::Ring);
}

#[test]
fn send_one_keeps_registration() {
    let rs = responses(b"AT+CREG?\r\r\n+CREG: 0,1\r\n\r\nOK\r\n");
    let last = drain(Keep::Last, rs).into_last();
    assert_eq!(
        last,
        Some(Response::NetworkRegistration {
            mode: NetworkRegistrationMode::DisableRegistration,
            status: NetworkRegistrationStatus::Registered,
            location: None,
            cell_id: None,
        })
    );
}

#[test]
fn send_list_keeps_messages_in_order() {
    let bytes = b"AT+CMGL=\"ALL\"\r\r\n\
+CMGL: 1,\"REC READ\",\"0031\",,\"23/01/15,09:30:00+08\"\r\n0041\r\n\r\n\
+CMGL: 2,\"REC UNREAD\",\"0032\",,\"23/01/16,10:00:00+08\"\r\n0042\r\n\r\n\
OK\r\n";
    let rs = responses(bytes);
    let kept = drain(Keep::All, rs).into_kept();
    assert_eq!(kept.len(), 2);
    match (&kept[0], &kept[1]) {
        (
            Response::ListSmsMessage { index: 1, status: s1, address: a1, text: t1, .. },
            Response::ListSmsMessage { index: 2, status: s2, address: a2, text: t2, .. },
        ) => {
            assert_eq!(*s1, SmsMessageStatus::ReceivedRead);
            assert_eq!(*s2, SmsMessageStatus::ReceivedUnread);
            assert_eq!(a1, "1");
            assert_eq!(a2, "2");
            assert_eq!(t1, "A");
            assert_eq!(t2, "B");
        }
        other => panic!("{:?}", other),
    }
}

#[test]
fn send_ends_at_bare_error() {
    let rs = responses(b"ERROR\r\n");
    let d = drain(Keep::Nothing, rs);
    assert!(d.into_kept().is_empty());
}

#[test]
fn drain_keeps_only_the_last() {
    let d = drain(Keep::Last, vec![Response::Ring, Response::CallReady, Response::Okay, Response::SmsReady]);
    assert_eq!(d.into_last(), Some(Response::CallReady));
}

#[test]
fn drain_stops_at_error() {
    let mut d = Drain::new(Keep::All);
    assert!(!d.accept(Response::Ring));
    assert!(d.accept(Response::Error(sim800::MobileEquipmentError::Disabled)));
    assert_eq!(d.into_kept(), vec![Response::Ring]);
}
