//! The response grammar: recognises one leading response in a buffer.
//!
//! Each recogniser here has a model (`sp_*`) over the characters of the
//! buffer, and an executable version that is proved to agree with it.
use vstd::prelude::*;
use crate::calendar::{Timestamp, is_calendar_date, is_clock_time};
use crate::codec::{decoded, decode_chars};
use crate::text::{chars_of, string_of};
use vstd::slice::slice_subrange;
use crate::scan::{
    Class, Stop, agrees, agrees_text, digits, hex_run, lemma_run_end, one_char, signed,
    sp_char, sp_digits, sp_hex, sp_signed, sp_tag, sp_until, tag, until,
};
use crate::response::{
    BatteryChargeStatus, CallDirection, CallMode, CallMultiparty, CallState, EquipmentErrorSource,
    ErrorModel, MobileEquipmentError, NetworkRegistrationMode, NetworkRegistrationStatus,
    OperatorSelectionFormat, OperatorSelectionMode, PhoneActivityStatus, Response, ResponseModel,
    SignalQualityErrorRate, SignalQualityRssi, SmsMessageStatus, SmsMessageStorage,
};

verus! {

pub open spec fn sp_u8(s: Seq<char>, i: int) -> Result<(u8, int), Stop> {
    match sp_digits(s, i, 255) {
        Ok((v, e)) => Ok((v as u8, e)),
        Err(x) => Err(x),
    }
}

pub open spec fn sp_u16(s: Seq<char>, i: int) -> Result<(u16, int), Stop> {
    match sp_digits(s, i, 65535) {
        Ok((v, e)) => Ok((v as u16, e)),
        Err(x) => Err(x),
    }
}

/// Quoted text; an empty pair of quotes stands for itself.
pub open spec fn sp_quoted(s: Seq<char>, i: int) -> Result<(Seq<char>, int), Stop> {
    match sp_tag(s, i, seq!['"', '"']) {
        Ok(j) => Ok((seq!['"', '"'], j)),
        Err(Stop::More) => Err(Stop::More),
        Err(Stop::Fail) => match sp_char(s, i, '"') {
            Err(x) => Err(x),
            Ok(j) => match sp_until(s, j, '"') {
                Err(x) => Err(x),
                Ok((t, k)) => match sp_char(s, k, '"') {
                    Err(x) => Err(x),
                    Ok(m) => Ok((t, m)),
                },
            },
        },
    }
}

/// Quoted encoded text, decoded.
pub open spec fn sp_quoted_hex(s: Seq<char>, i: int) -> Result<(Seq<char>, int), Stop> {
    match sp_char(s, i, '"') {
        Err(x) => Err(x),
        Ok(j) => match sp_hex(s, j) {
            Err(x) => Err(x),
            Ok((t, k)) => match sp_char(s, k, '"') {
                Err(x) => Err(x),
                Ok(m) => Ok((decoded(t), m)),
            },
        },
    }
}

/// Encoded text, decoded.
pub open spec fn sp_text_hex(s: Seq<char>, i: int) -> Result<(Seq<char>, int), Stop> {
    match sp_hex(s, i) {
        Err(x) => Err(x),
        Ok((t, k)) => Ok((decoded(t), k)),
    }
}

fn num_u8(s: &[char], i: usize) -> (r: Result<(u8, usize), Stop>)
    requires
        i <= s@.len(),
    ensures
        agrees(r, sp_u8(s@, i as int)),
        r matches Ok((_, n)) ==> i < n <= s@.len(),
{
    let r = digits(s, i, 255);
    proof {
        lemma_run_end(s@, i as int, Class::Digit);
    }
    match r {
        Ok((v, e)) => Ok((v as u8, e)),
        Err(x) => Err(x),
    }
}

fn num_u16(s: &[char], i: usize) -> (r: Result<(u16, usize), Stop>)
    requires
        i <= s@.len(),
    ensures
        agrees(r, sp_u16(s@, i as int)),
        r matches Ok((_, n)) ==> i < n <= s@.len(),
{
    let r = digits(s, i, 65535);
    proof {
        lemma_run_end(s@, i as int, Class::Digit);
    }
    match r {
        Ok((v, e)) => Ok((v as u16, e)),
        Err(x) => Err(x),
    }
}

fn quoted(s: &[char], i: usize) -> (r: Result<(Vec<char>, usize), Stop>)
    requires
        i <= s@.len(),
    ensures
        agrees_text(r, sp_quoted(s@, i as int)),
        r matches Ok((_, n)) ==> i < n <= s@.len(),
{
    match tag(s, i, &['"', '"']) {
        Ok(j) => {
            return Ok((vec!['"', '"'], j));
        },
        Err(Stop::More) => {
            return Err(Stop::More);
        },
        Err(Stop::Fail) => {},
    }
    let j = one_char(s, i, '"')?;
    let (t, k) = until(s, j, '"')?;
    proof {
        lemma_run_end(s@, j as int, Class::Not('"'));
    }
    let m = one_char(s, k, '"')?;
    Ok((t, m))
}

fn quoted_hex(s: &[char], i: usize) -> (r: Result<(Vec<char>, usize), Stop>)
    requires
        i <= s@.len(),
    ensures
        agrees_text(r, sp_quoted_hex(s@, i as int)),
        r matches Ok((_, n)) ==> i < n <= s@.len(),
{
    let j = one_char(s, i, '"')?;
    let (t, k) = hex_run(s, j)?;
    proof {
        lemma_run_end(s@, j as int, Class::Hex);
    }
    let m = one_char(s, k, '"')?;
    Ok((decode_chars(t.as_slice()), m))
}

fn text_hex(s: &[char], i: usize) -> (r: Result<(Vec<char>, usize), Stop>)
    requires
        i <= s@.len(),
    ensures
        agrees_text(r, sp_text_hex(s@, i as int)),
        r matches Ok((_, n)) ==> i <= n <= s@.len(),
{
    let (t, k) = hex_run(s, i)?;
    proof {
        lemma_run_end(s@, i as int, Class::Hex);
    }
    Ok((decode_chars(t.as_slice()), k))
}

/// A separator character followed by an unsigned byte.
pub open spec fn sp_sep_u8(s: Seq<char>, i: int, c: char) -> Result<(u8, int), Stop> {
    match sp_char(s, i, c) {
        Err(x) => Err(x),
        Ok(j) => sp_u8(s, j),
    }
}

/// A separator character followed by an unsigned 16-bit number.
pub open spec fn sp_sep_u16(s: Seq<char>, i: int, c: char) -> Result<(u16, int), Stop> {
    match sp_char(s, i, c) {
        Err(x) => Err(x),
        Ok(j) => sp_u16(s, j),
    }
}

/// The timestamp of the given fields, if they name a real date and time;
/// the year counts from 2000.
pub open spec fn timestamp_of(year: int, month: u8, day: u8, hour: u8, minute: u8, second: u8) -> Option<Timestamp> {
    let y = (2000 + year) as i32;
    if is_calendar_date(y, month, day) && is_clock_time(hour, minute, second) {
        Some(Timestamp { year: y, month, day, hour, minute, second })
    } else {
        None
    }
}

/// `"YY/MM/DD,HH:MM:SS+ZZ"`; the zone is read and not applied.
pub open spec fn sp_timestamp(s: Seq<char>, i: int) -> Result<(Timestamp, int), Stop> {
    match sp_char(s, i, '"') {
        Err(x) => Err(x),
        Ok(i1) => match sp_signed(s, i1, 32767, 32768) {
            Err(x) => Err(x),
            Ok((year, i2)) => match sp_sep_u8(s, i2, '/') {
                Err(x) => Err(x),
                Ok((month, i3)) => match sp_sep_u8(s, i3, '/') {
                    Err(x) => Err(x),
                    Ok((day, i4)) => match sp_sep_u8(s, i4, ',') {
                        Err(x) => Err(x),
                        Ok((hour, i5)) => match sp_sep_u8(s, i5, ':') {
                            Err(x) => Err(x),
                            Ok((minute, i6)) => match sp_sep_u8(s, i6, ':') {
                                Err(x) => Err(x),
                                Ok((second, i7)) => match sp_signed(s, i7, 127, 128) {
                                    Err(x) => Err(x),
                                    Ok((_zone, i8)) => match sp_char(s, i8, '"') {
                                        Err(x) => Err(x),
                                        Ok(i9) => match timestamp_of(year, month, day, hour, minute, second) {
                                            Some(t) => Ok((t, i9)),
                                            None => Err(Stop::Fail),
                                        },
                                    },
                                },
                            },
                        },
                    },
                },
            },
        },
    }
}

fn sep_u8(s: &[char], i: usize, c: char) -> (r: Result<(u8, usize), Stop>)
    requires
        i <= s@.len(),
    ensures
        agrees(r, sp_sep_u8(s@, i as int, c)),
        r matches Ok((_, n)) ==> i < n <= s@.len(),
{
    let j = one_char(s, i, c)?;
    num_u8(s, j)
}

fn sep_u16(s: &[char], i: usize, c: char) -> (r: Result<(u16, usize), Stop>)
    requires
        i <= s@.len(),
    ensures
        agrees(r, sp_sep_u16(s@, i as int, c)),
        r matches Ok((_, n)) ==> i < n <= s@.len(),
{
    let j = one_char(s, i, c)?;
    num_u16(s, j)
}

fn int_run(s: &[char], i: usize, high: u32, low: u32) -> (r: Result<(i32, usize), Stop>)
    requires
        i <= s@.len(),
        9 <= high <= 65536,
        9 <= low <= 65536,
    ensures
        match r {
            Ok((v, n)) => sp_signed(s@, i as int, high as nat, low as nat) == Ok::<(int, int), Stop>((v as int, n as int)),
            Err(e) => sp_signed(s@, i as int, high as nat, low as nat) == Err::<(int, int), Stop>(e),
        },
        r matches Ok((v, n)) ==> i < n <= s@.len() && -(low as int) <= v <= high,
{
    let r = signed(s, i, high, low);
    proof {
        lemma_run_end(s@, i as int, Class::Digit);
        if i < s@.len() {
            lemma_run_end(s@, i + 1, Class::Digit);
        }
    }
    match r {
        Ok((v, e)) => Ok((v, e)),
        Err(x) => Err(x),
    }
}

fn timestamp(s: &[char], i: usize) -> (r: Result<(Timestamp, usize), Stop>)
    requires
        i <= s@.len(),
    ensures
        agrees(r, sp_timestamp(s@, i as int)),
        r matches Ok((_, n)) ==> i < n <= s@.len(),
{
    let i1 = one_char(s, i, '"')?;
    let (year, i2) = int_run(s, i1, 32767, 32768)?;
    let (month, i3) = sep_u8(s, i2, '/')?;
    let (day, i4) = sep_u8(s, i3, '/')?;
    let (hour, i5) = sep_u8(s, i4, ',')?;
    let (minute, i6) = sep_u8(s, i5, ':')?;
    let (second, i7) = sep_u8(s, i6, ':')?;
    let (_zone, i8) = int_run(s, i7, 127, 128)?;
    let i9 = one_char(s, i8, '"')?;
    match Timestamp::new(2000 + year, month, day, hour, minute, second) {
        Some(t) => Ok((t, i9)),
        None => Err(Stop::Fail),
    }
}

pub open spec fn t_ok() -> Seq<char> {
    seq!['O', 'K', '\r']
}

pub open spec fn t_error() -> Seq<char> {
    seq!['E', 'R', 'R', 'O', 'R', '\r']
}

pub open spec fn t_cme() -> Seq<char> {
    seq!['+', 'C', 'M', 'E', ' ', 'E', 'R', 'R', 'O', 'R', ':', ' ']
}

pub open spec fn t_cms() -> Seq<char> {
    seq!['+', 'C', 'M', 'S', ' ', 'E', 'R', 'R', 'O', 'R', ':', ' ']
}

pub open spec fn t_call_ready() -> Seq<char> {
    seq!['C', 'a', 'l', 'l', ' ', 'R', 'e', 'a', 'd', 'y', '\r']
}

pub open spec fn t_sms_ready() -> Seq<char> {
    seq!['S', 'M', 'S', ' ', 'R', 'e', 'a', 'd', 'y', '\r']
}

pub open spec fn t_ring() -> Seq<char> {
    seq!['R', 'I', 'N', 'G', '\r']
}

pub open spec fn t_no_carrier() -> Seq<char> {
    seq!['N', 'O', ' ', 'C', 'A', 'R', 'R', 'I', 'E', 'R', '\r']
}

pub open spec fn t_cops() -> Seq<char> {
    seq!['+', 'C', 'O', 'P', 'S', ':', ' ']
}

pub open spec fn t_creg() -> Seq<char> {
    seq!['+', 'C', 'R', 'E', 'G', ':', ' ']
}

pub open spec fn t_cpas() -> Seq<char> {
    seq!['+', 'C', 'P', 'A', 'S', ':', ' ']
}

pub open spec fn t_csq() -> Seq<char> {
    seq!['+', 'C', 'S', 'Q', ':', ' ']
}

pub open spec fn t_cbc() -> Seq<char> {
    seq!['+', 'C', 'B', 'C', ':', ' ']
}

pub open spec fn t_cmgl() -> Seq<char> {
    seq!['+', 'C', 'M', 'G', 'L', ':', ' ']
}

pub open spec fn t_cmgr() -> Seq<char> {
    seq!['+', 'C', 'M', 'G', 'R', ':', ' ']
}

pub open spec fn t_cmti() -> Seq<char> {
    seq!['+', 'C', 'M', 'T', 'I', ':', ' ']
}

pub open spec fn t_clcc() -> Seq<char> {
    seq!['+', 'C', 'L', 'C', 'C', ':', ' ']
}

pub open spec fn t_end() -> Seq<char> {
    seq!['\r', '\r']
}

pub open spec fn agrees_response(r: Result<(Response, usize), Stop>, m: Result<(ResponseModel, int), Stop>) -> bool {
    match r {
        Ok((v, n)) => m == Ok::<(ResponseModel, int), Stop>((v@, n as int)),
        Err(e) => m == Err::<(ResponseModel, int), Stop>(e),
    }
}

/// The first alternative, unless it rejects the input.
pub open spec fn or_else(a: Result<(ResponseModel, int), Stop>, b: Result<(ResponseModel, int), Stop>) -> Result<(ResponseModel, int), Stop> {
    match a {
        Err(Stop::Fail) => b,
        _ => a,
    }
}

#[verifier::opaque]
pub open spec fn sp_literal(s: Seq<char>, i: int, t: Seq<char>, v: ResponseModel) -> Result<(ResponseModel, int), Stop> {
    match sp_tag(s, i, t) {
        Err(x) => Err(x),
        Ok(j) => Ok((v, j)),
    }
}

#[verifier::opaque]
pub open spec fn sp_error_code(s: Seq<char>, i: int, t: Seq<char>, source: EquipmentErrorSource) -> Result<(ResponseModel, int), Stop> {
    match sp_tag(s, i, t) {
        Err(x) => Err(x),
        Ok(i1) => match sp_u16(s, i1) {
            Err(x) => Err(x),
            Ok((code, i2)) => match sp_char(s, i2, '\r') {
                Err(x) => Err(x),
                Ok(i3) => Ok((ResponseModel::Error(ErrorModel::Code { source, code }), i3)),
            },
        },
    }
}

#[verifier::opaque]
pub open spec fn sp_error_message(s: Seq<char>, i: int, t: Seq<char>, source: EquipmentErrorSource) -> Result<(ResponseModel, int), Stop> {
    match sp_tag(s, i, t) {
        Err(x) => Err(x),
        Ok(i1) => match sp_until(s, i1, '\r') {
            Err(x) => Err(x),
            Ok((message, i2)) => match sp_char(s, i2, '\r') {
                Err(x) => Err(x),
                Ok(i3) => Ok((ResponseModel::Error(ErrorModel::Message { source, message }), i3)),
            },
        },
    }
}

/// `,<format>,"<operator>"` of an operator selection.
pub open spec fn sp_cops_extra(s: Seq<char>, i: int) -> Result<((u8, Seq<char>), int), Stop> {
    match sp_sep_u8(s, i, ',') {
        Err(x) => Err(x),
        Ok((format, i1)) => match sp_char(s, i1, ',') {
            Err(x) => Err(x),
            Ok(i2) => match sp_quoted(s, i2) {
                Err(x) => Err(x),
                Ok((operator, i3)) => Ok(((format, operator), i3)),
            },
        },
    }
}

pub open spec fn sp_cops_end(s: Seq<char>, i: int, mode: OperatorSelectionMode, extra: Option<(u8, Seq<char>)>) -> Result<(ResponseModel, int), Stop> {
    match sp_tag(s, i, t_end()) {
        Err(x) => Err(x),
        Ok(j) => match extra {
            None => Ok((ResponseModel::OperatorSelection { mode, format: None, operator: None }, j)),
            Some((f, operator)) => match OperatorSelectionFormat::spec_from_code(f) {
                None => Err(Stop::Fail),
                Some(format) => Ok((ResponseModel::OperatorSelection { mode, format: Some(format), operator: Some(operator) }, j)),
            },
        },
    }
}

/// `+COPS: <mode>[,<format>,"<operator>"]` and a doubled carriage return.
#[verifier::opaque]
pub open spec fn sp_cops(s: Seq<char>, i: int) -> Result<(ResponseModel, int), Stop> {
    match sp_tag(s, i, t_cops()) {
        Err(x) => Err(x),
        Ok(i1) => match sp_u8(s, i1) {
            Err(x) => Err(x),
            Ok((m, i2)) => match OperatorSelectionMode::spec_from_code(m) {
                None => Err(Stop::Fail),
                Some(mode) => match sp_cops_extra(s, i2) {
                    Err(Stop::More) => Err(Stop::More),
                    Err(Stop::Fail) => sp_cops_end(s, i2, mode, None),
                    Ok((x, i3)) => sp_cops_end(s, i3, mode, Some(x)),
                },
            },
        },
    }
}

/// `,"<location>","<cell>"` of a network registration.
pub open spec fn sp_creg_extra(s: Seq<char>, i: int) -> Result<((Seq<char>, Seq<char>), int), Stop> {
    match sp_char(s, i, ',') {
        Err(x) => Err(x),
        Ok(i1) => match sp_quoted(s, i1) {
            Err(x) => Err(x),
            Ok((location, i2)) => match sp_char(s, i2, ',') {
                Err(x) => Err(x),
                Ok(i3) => match sp_quoted(s, i3) {
                    Err(x) => Err(x),
                    Ok((cell, i4)) => Ok(((location, cell), i4)),
                },
            },
        },
    }
}

pub open spec fn sp_creg_end(s: Seq<char>, i: int, mode: NetworkRegistrationMode, status: NetworkRegistrationStatus, extra: Option<(Seq<char>, Seq<char>)>) -> Result<(ResponseModel, int), Stop> {
    match sp_tag(s, i, t_end()) {
        Err(x) => Err(x),
        Ok(j) => match extra {
            None => Ok((ResponseModel::NetworkRegistration { mode, status, location: None, cell_id: None }, j)),
            Some((l, c)) => Ok((ResponseModel::NetworkRegistration { mode, status, location: Some(l), cell_id: Some(c) }, j)),
        },
    }
}

/// `+CREG: <mode>,<status>[,"<location>","<cell>"]` and a doubled carriage return.
#[verifier::opaque]
pub open spec fn sp_creg(s: Seq<char>, i: int) -> Result<(ResponseModel, int), Stop> {
    match sp_tag(s, i, t_creg()) {
        Err(x) => Err(x),
        Ok(i1) => match sp_u8(s, i1) {
            Err(x) => Err(x),
            Ok((m, i2)) => match NetworkRegistrationMode::spec_from_code(m) {
                None => Err(Stop::Fail),
                Some(mode) => match sp_sep_u8(s, i2, ',') {
                    Err(x) => Err(x),
                    Ok((st, i3)) => match NetworkRegistrationStatus::spec_from_code(st) {
                        None => Err(Stop::Fail),
                        Some(status) => match sp_creg_extra(s, i3) {
                            Err(Stop::More) => Err(Stop::More),
                            Err(Stop::Fail) => sp_creg_end(s, i3, mode, status, None),
                            Ok((x, i4)) => sp_creg_end(s, i4, mode, status, Some(x)),
                        },
                    },
                },
            },
        },
    }
}

/// `+CPAS: <status>` and a doubled carriage return.
#[verifier::opaque]
pub open spec fn sp_cpas(s: Seq<char>, i: int) -> Result<(ResponseModel, int), Stop> {
    match sp_tag(s, i, t_cpas()) {
        Err(x) => Err(x),
        Ok(i1) => match sp_u8(s, i1) {
            Err(x) => Err(x),
            Ok((c, i2)) => match PhoneActivityStatus::spec_from_code(c) {
                None => Err(Stop::Fail),
                Some(status) => match sp_tag(s, i2, t_end()) {
                    Err(x) => Err(x),
                    Ok(i3) => Ok((ResponseModel::PhoneActivityStatus { status }, i3)),
                },
            },
        },
    }
}

/// `+CSQ: <rssi>,<ber>` and a doubled carriage return.
#[verifier::opaque]
pub open spec fn sp_csq(s: Seq<char>, i: int) -> Result<(ResponseModel, int), Stop> {
    match sp_tag(s, i, t_csq()) {
        Err(x) => Err(x),
        Ok(i1) => match sp_u8(s, i1) {
            Err(x) => Err(x),
            Ok((a, i2)) => match SignalQualityRssi::spec_from_code(a) {
                None => Err(Stop::Fail),
                Some(rssi) => match sp_sep_u8(s, i2, ',') {
                    Err(x) => Err(x),
                    Ok((b, i3)) => match SignalQualityErrorRate::spec_from_code(b) {
                        None => Err(Stop::Fail),
                        Some(error_rate) => match sp_tag(s, i3, t_end()) {
                            Err(x) => Err(x),
                            Ok(i4) => Ok((ResponseModel::SignalQuality { rssi, error_rate }, i4)),
                        },
                    },
                },
            },
        },
    }
}

/// `+CBC: <status>,<level>,<voltage>` and a doubled carriage return.
#[verifier::opaque]
pub open spec fn sp_cbc(s: Seq<char>, i: int) -> Result<(ResponseModel, int), Stop> {
    match sp_tag(s, i, t_cbc()) {
        Err(x) => Err(x),
        Ok(i1) => match sp_u8(s, i1) {
            Err(x) => Err(x),
            Ok((c, i2)) => match BatteryChargeStatus::spec_from_code(c) {
                None => Err(Stop::Fail),
                Some(status) => match sp_sep_u8(s, i2, ',') {
                    Err(x) => Err(x),
                    Ok((level, i3)) => match sp_sep_u16(s, i3, ',') {
                        Err(x) => Err(x),
                        Ok((voltage, i4)) => match sp_tag(s, i4, t_end()) {
                            Err(x) => Err(x),
                            Ok(i5) => Ok((ResponseModel::BatteryCharge { status, level, voltage }, i5)),
                        },
                    },
                },
            },
        },
    }
}

/// The fields of a stored message from its status on:
/// `"<status>","<address>",["<name>"],<timestamp>` then a carriage return,
/// the encoded body and a doubled carriage return.
pub open spec fn sp_message(s: Seq<char>, i: int) -> Result<((SmsMessageStatus, Seq<char>, Option<Seq<char>>, Timestamp, Seq<char>), int), Stop> {
    match sp_quoted(s, i) {
        Err(x) => Err(x),
        Ok((st, i1)) => match SmsMessageStatus::spec_from_text(st) {
            None => Err(Stop::Fail),
            Some(status) => match sp_char(s, i1, ',') {
                Err(x) => Err(x),
                Ok(i2) => match sp_quoted_hex(s, i2) {
                    Err(x) => Err(x),
                    Ok((address, i3)) => match sp_char(s, i3, ',') {
                        Err(x) => Err(x),
                        Ok(i4) => match sp_quoted_hex(s, i4) {
                            Err(Stop::More) => Err(Stop::More),
                            Err(Stop::Fail) => sp_message_rest(s, i4, status, address, None),
                            Ok((name, i5)) => sp_message_rest(s, i5, status, address, Some(name)),
                        },
                    },
                },
            },
        },
    }
}

pub open spec fn sp_message_rest(s: Seq<char>, i: int, status: SmsMessageStatus, address: Seq<char>, name: Option<Seq<char>>) -> Result<((SmsMessageStatus, Seq<char>, Option<Seq<char>>, Timestamp, Seq<char>), int), Stop> {
    match sp_char(s, i, ',') {
        Err(x) => Err(x),
        Ok(i1) => match sp_timestamp(s, i1) {
            Err(x) => Err(x),
            Ok((timestamp, i2)) => match sp_char(s, i2, '\r') {
                Err(x) => Err(x),
                Ok(i3) => match sp_text_hex(s, i3) {
                    Err(x) => Err(x),
                    Ok((text, i4)) => match sp_tag(s, i4, t_end()) {
                        Err(x) => Err(x),
                        Ok(i5) => Ok(((status, address, name, timestamp, text), i5)),
                    },
                },
            },
        },
    }
}

/// `+CMGL: <index>,` and the fields of a stored message.
#[verifier::opaque]
pub open spec fn sp_cmgl(s: Seq<char>, i: int) -> Result<(ResponseModel, int), Stop> {
    match sp_tag(s, i, t_cmgl()) {
        Err(x) => Err(x),
        Ok(i1) => match sp_u16(s, i1) {
            Err(x) => Err(x),
            Ok((index, i2)) => match sp_char(s, i2, ',') {
                Err(x) => Err(x),
                Ok(i3) => match sp_message(s, i3) {
                    Err(x) => Err(x),
                    Ok(((status, address, address_text, timestamp, text), i4)) => Ok(
                        (ResponseModel::ListSmsMessage { index, status, address, address_text, timestamp, text }, i4),
                    ),
                },
            },
        },
    }
}

/// `+CMGR: ` and the fields of a stored message.
#[verifier::opaque]
pub open spec fn sp_cmgr(s: Seq<char>, i: int) -> Result<(ResponseModel, int), Stop> {
    match sp_tag(s, i, t_cmgr()) {
        Err(x) => Err(x),
        Ok(i1) => match sp_message(s, i1) {
            Err(x) => Err(x),
            Ok(((status, address, address_text, timestamp, text), i2)) => Ok(
                (ResponseModel::ReadSmsMessage { status, address, address_text, timestamp, text }, i2),
            ),
        },
    }
}

/// `+CMTI: "<storage>",<index>` and a single carriage return.
#[verifier::opaque]
pub open spec fn sp_cmti(s: Seq<char>, i: int) -> Result<(ResponseModel, int), Stop> {
    match sp_tag(s, i, t_cmti()) {
        Err(x) => Err(x),
        Ok(i1) => match sp_quoted(s, i1) {
            Err(x) => Err(x),
            Ok((st, i2)) => match SmsMessageStorage::spec_from_text(st) {
                None => Err(Stop::Fail),
                Some(storage) => match sp_sep_u16(s, i2, ',') {
                    Err(x) => Err(x),
                    Ok((index, i3)) => match sp_char(s, i3, '\r') {
                        Err(x) => Err(x),
                        Ok(i4) => Ok((ResponseModel::NewSmsMessage { storage, index }, i4)),
                    },
                },
            },
        },
    }
}

/// `,"<number>",<type>,"<name>"` of a listed call.
pub open spec fn sp_clcc_extra(s: Seq<char>, i: int) -> Result<((Seq<char>, u16, Seq<char>), int), Stop> {
    match sp_char(s, i, ',') {
        Err(x) => Err(x),
        Ok(i1) => match sp_quoted(s, i1) {
            Err(x) => Err(x),
            Ok((number, i2)) => match sp_sep_u16(s, i2, ',') {
                Err(x) => Err(x),
                Ok((number_type, i3)) => match sp_char(s, i3, ',') {
                    Err(x) => Err(x),
                    Ok(i4) => match sp_quoted(s, i4) {
                        Err(x) => Err(x),
                        Ok((name, i5)) => Ok(((number, number_type, name), i5)),
                    },
                },
            },
        },
    }
}

/// The four codes of a listed call: direction, state, mode, multiparty.
pub open spec fn sp_clcc_codes(s: Seq<char>, i: int) -> Result<((CallDirection, CallState, CallMode, CallMultiparty), int), Stop> {
    match sp_sep_u8(s, i, ',') {
        Err(x) => Err(x),
        Ok((a, i1)) => match CallDirection::spec_from_code(a) {
            None => Err(Stop::Fail),
            Some(direction) => match sp_sep_u8(s, i1, ',') {
                Err(x) => Err(x),
                Ok((b, i2)) => match CallState::spec_from_code(b) {
                    None => Err(Stop::Fail),
                    Some(state) => match sp_sep_u8(s, i2, ',') {
                        Err(x) => Err(x),
                        Ok((c, i3)) => match CallMode::spec_from_code(c) {
                            None => Err(Stop::Fail),
                            Some(mode) => match sp_sep_u8(s, i3, ',') {
                                Err(x) => Err(x),
                                Ok((d, i4)) => match CallMultiparty::spec_from_code(d) {
                                    None => Err(Stop::Fail),
                                    Some(multiparty) => Ok(((direction, state, mode, multiparty), i4)),
                                },
                            },
                        },
                    },
                },
            },
        },
    }
}

pub open spec fn sp_clcc_end(s: Seq<char>, i: int, index: u16, codes: (CallDirection, CallState, CallMode, CallMultiparty), extra: Option<(Seq<char>, u16, Seq<char>)>) -> Result<(ResponseModel, int), Stop> {
    match sp_tag(s, i, t_end()) {
        Err(x) => Err(x),
        Ok(j) => {
            let (direction, state, mode, multiparty) = codes;
            match extra {
                None => Ok((ResponseModel::ListCurrentCalls { index, direction, state, mode, multiparty, number: None, number_type: None, name: None }, j)),
                Some((n, t, m)) => Ok((ResponseModel::ListCurrentCalls { index, direction, state, mode, multiparty, number: Some(n), number_type: Some(t), name: Some(m) }, j)),
            }
        },
    }
}

/// `+CLCC: <index>,<dir>,<state>,<mode>,<mpty>[,"<number>",<type>,"<name>"]`
/// and a doubled carriage return.
#[verifier::opaque]
pub open spec fn sp_clcc(s: Seq<char>, i: int) -> Result<(ResponseModel, int), Stop> {
    match sp_tag(s, i, t_clcc()) {
        Err(x) => Err(x),
        Ok(i1) => match sp_u16(s, i1) {
            Err(x) => Err(x),
            Ok((index, i2)) => match sp_clcc_codes(s, i2) {
                Err(x) => Err(x),
                Ok((codes, i3)) => match sp_clcc_extra(s, i3) {
                    Err(Stop::More) => Err(Stop::More),
                    Err(Stop::Fail) => sp_clcc_end(s, i3, index, codes, None),
                    Ok((x, i4)) => sp_clcc_end(s, i4, index, codes, Some(x)),
                },
            },
        },
    }
}

/// The grammar of one response at the start of `s`: the alternatives in
/// order of priority, each tried only where those before it reject.
pub open spec fn sp_response(s: Seq<char>) -> Result<(ResponseModel, int), Stop> {
    or_else(sp_literal(s, 0, t_ok(), ResponseModel::Okay),
    or_else(sp_literal(s, 0, t_error(), ResponseModel::Error(ErrorModel::Disabled)),
    or_else(or_else(sp_error_code(s, 0, t_cme(), EquipmentErrorSource::Mobile), sp_error_code(s, 0, t_cms(), EquipmentErrorSource::Service)),
    or_else(or_else(sp_error_message(s, 0, t_cme(), EquipmentErrorSource::Mobile), sp_error_message(s, 0, t_cms(), EquipmentErrorSource::Service)),
    or_else(sp_literal(s, 0, t_call_ready(), ResponseModel::CallReady),
    or_else(sp_literal(s, 0, t_sms_ready(), ResponseModel::SmsReady),
    or_else(sp_literal(s, 0, t_ring(), ResponseModel::Ring),
    or_else(sp_literal(s, 0, t_no_carrier(), ResponseModel::NoCarrier),
    or_else(sp_cops(s, 0),
    or_else(sp_creg(s, 0),
    or_else(sp_cpas(s, 0),
    or_else(sp_csq(s, 0),
    or_else(sp_cbc(s, 0),
    or_else(sp_cmgl(s, 0),
    or_else(sp_cmgr(s, 0),
    or_else(sp_cmti(s, 0),
    or_else(sp_clcc(s, 0),
    match sp_char(s, 0, '\r') {
        Err(x) => Err(x),
        Ok(j) => Ok((ResponseModel::Empty, j)),
    })))))))))))))))))
}

fn text(v: Vec<char>) -> (r: String)
    ensures
        r@ == v@,
{
    string_of(v.as_slice())
}

fn literal(s: &[char], i: usize, t: &[char], v: Response) -> (r: Result<(Response, usize), Stop>)
    requires
        i <= s@.len(),
    ensures
        agrees_response(r, sp_literal(s@, i as int, t@, v@)),
        r matches Ok((_, n)) ==> n <= s@.len(),
{
    proof {
        reveal(sp_literal);
    }
    let j = tag(s, i, t)?;
    Ok((v, j))
}

fn error_code(s: &[char], i: usize, t: &[char], source: EquipmentErrorSource) -> (r: Result<(Response, usize), Stop>)
    requires
        i <= s@.len(),
    ensures
        agrees_response(r, sp_error_code(s@, i as int, t@, source)),
        r matches Ok((_, n)) ==> n <= s@.len(),
{
    proof {
        reveal(sp_error_code);
    }
    let i1 = tag(s, i, t)?;
    let (code, i2) = num_u16(s, i1)?;
    let i3 = one_char(s, i2, '\r')?;
    Ok((Response::Error(MobileEquipmentError::Code { source, code }), i3))
}

fn error_message(s: &[char], i: usize, t: &[char], source: EquipmentErrorSource) -> (r: Result<(Response, usize), Stop>)
    requires
        i <= s@.len(),
    ensures
        agrees_response(r, sp_error_message(s@, i as int, t@, source)),
        r matches Ok((_, n)) ==> n <= s@.len(),
{
    proof {
        reveal(sp_error_message);
    }
    let i1 = tag(s, i, t)?;
    let (message, i2) = until(s, i1, '\r')?;
    proof {
        lemma_run_end(s@, i1 as int, Class::Not('\r'));
    }
    let i3 = one_char(s, i2, '\r')?;
    Ok((Response::Error(MobileEquipmentError::Message { source, message: text(message) }), i3))
}

fn cops(s: &[char], i: usize) -> (r: Result<(Response, usize), Stop>)
    requires
        i <= s@.len(),
    ensures
        agrees_response(r, sp_cops(s@, i as int)),
        r matches Ok((_, n)) ==> n <= s@.len(),
{
    proof {
        reveal(sp_cops);
    }
    let i1 = tag(s, i, &['+', 'C', 'O', 'P', 'S', ':', ' '])?;
    let (m, i2) = num_u8(s, i1)?;
    let mode = match OperatorSelectionMode::from_code(m) {
        Some(x) => x,
        None => return Err(Stop::Fail),
    };
    let extra = cops_extra(s, i2);
    let (extra, i3) = match extra {
        Ok((x, k)) => (Some(x), k),
        Err(Stop::Fail) => (None, i2),
        Err(Stop::More) => return Err(Stop::More),
    };
    let j = tag(s, i3, &['\r', '\r'])?;
    match extra {
        None => Ok((Response::OperatorSelection { mode, format: None, operator: None }, j)),
        Some((f, operator)) => match OperatorSelectionFormat::from_code(f) {
            None => Err(Stop::Fail),
            Some(format) => Ok((Response::OperatorSelection { mode, format: Some(format), operator: Some(text(operator)) }, j)),
        },
    }
}

fn cops_extra(s: &[char], i: usize) -> (r: Result<((u8, Vec<char>), usize), Stop>)
    requires
        i <= s@.len(),
    ensures
        match r {
            Ok(((f, o), n)) => sp_cops_extra(s@, i as int) == Ok::<((u8, Seq<char>), int), Stop>(((f, o@), n as int)) && n <= s@.len(),
            Err(e) => sp_cops_extra(s@, i as int) == Err::<((u8, Seq<char>), int), Stop>(e),
        },
{
    let (format, i1) = sep_u8(s, i, ',')?;
    let i2 = one_char(s, i1, ',')?;
    let (operator, i3) = quoted(s, i2)?;
    Ok(((format, operator), i3))
}

fn creg_extra(s: &[char], i: usize) -> (r: Result<((Vec<char>, Vec<char>), usize), Stop>)
    requires
        i <= s@.len(),
    ensures
        match r {
            Ok(((l, c), n)) => sp_creg_extra(s@, i as int) == Ok::<((Seq<char>, Seq<char>), int), Stop>(((l@, c@), n as int)) && n <= s@.len(),
            Err(e) => sp_creg_extra(s@, i as int) == Err::<((Seq<char>, Seq<char>), int), Stop>(e),
        },
{
    let i1 = one_char(s, i, ',')?;
    let (location, i2) = quoted(s, i1)?;
    let i3 = one_char(s, i2, ',')?;
    let (cell, i4) = quoted(s, i3)?;
    Ok(((location, cell), i4))
}

fn creg(s: &[char], i: usize) -> (r: Result<(Response, usize), Stop>)
    requires
        i <= s@.len(),
    ensures
        agrees_response(r, sp_creg(s@, i as int)),
        r matches Ok((_, n)) ==> n <= s@.len(),
{
    proof {
        reveal(sp_creg);
    }
    let i1 = tag(s, i, &['+', 'C', 'R', 'E', 'G', ':', ' '])?;
    let (m, i2) = num_u8(s, i1)?;
    let mode = match NetworkRegistrationMode::from_code(m) {
        Some(x) => x,
        None => return Err(Stop::Fail),
    };
    let (st, i3) = sep_u8(s, i2, ',')?;
    let status = match NetworkRegistrationStatus::from_code(st) {
        Some(x) => x,
        None => return Err(Stop::Fail),
    };
    let extra = creg_extra(s, i3);
    let (extra, i4) = match extra {
        Ok((x, k)) => (Some(x), k),
        Err(Stop::Fail) => (None, i3),
        Err(Stop::More) => return Err(Stop::More),
    };
    let j = tag(s, i4, &['\r', '\r'])?;
    match extra {
        None => Ok((Response::NetworkRegistration { mode, status, location: None, cell_id: None }, j)),
        Some((l, c)) => Ok((Response::NetworkRegistration { mode, status, location: Some(text(l)), cell_id: Some(text(c)) }, j)),
    }
}

fn cpas(s: &[char], i: usize) -> (r: Result<(Response, usize), Stop>)
    requires
        i <= s@.len(),
    ensures
        agrees_response(r, sp_cpas(s@, i as int)),
        r matches Ok((_, n)) ==> n <= s@.len(),
{
    proof {
        reveal(sp_cpas);
    }
    let i1 = tag(s, i, &['+', 'C', 'P', 'A', 'S', ':', ' '])?;
    let (c, i2) = num_u8(s, i1)?;
    let status = match PhoneActivityStatus::from_code(c) {
        Some(x) => x,
        None => return Err(Stop::Fail),
    };
    let i3 = tag(s, i2, &['\r', '\r'])?;
    Ok((Response::PhoneActivityStatus { status }, i3))
}

fn csq(s: &[char], i: usize) -> (r: Result<(Response, usize), Stop>)
    requires
        i <= s@.len(),
    ensures
        agrees_response(r, sp_csq(s@, i as int)),
        r matches Ok((_, n)) ==> n <= s@.len(),
{
    proof {
        reveal(sp_csq);
    }
    let i1 = tag(s, i, &['+', 'C', 'S', 'Q', ':', ' '])?;
    let (a, i2) = num_u8(s, i1)?;
    let rssi = match SignalQualityRssi::from_code(a) {
        Some(x) => x,
        None => return Err(Stop::Fail),
    };
    let (b, i3) = sep_u8(s, i2, ',')?;
    let error_rate = match SignalQualityErrorRate::from_code(b) {
        Some(x) => x,
        None => return Err(Stop::Fail),
    };
    let i4 = tag(s, i3, &['\r', '\r'])?;
    Ok((Response::SignalQuality { rssi, error_rate }, i4))
}

fn cbc(s: &[char], i: usize) -> (r: Result<(Response, usize), Stop>)
    requires
        i <= s@.len(),
    ensures
        agrees_response(r, sp_cbc(s@, i as int)),
        r matches Ok((_, n)) ==> n <= s@.len(),
{
    proof {
        reveal(sp_cbc);
    }
    let i1 = tag(s, i, &['+', 'C', 'B', 'C', ':', ' '])?;
    let (c, i2) = num_u8(s, i1)?;
    let status = match BatteryChargeStatus::from_code(c) {
        Some(x) => x,
        None => return Err(Stop::Fail),
    };
    let (level, i3) = sep_u8(s, i2, ',')?;
    let (voltage, i4) = sep_u16(s, i3, ',')?;
    let i5 = tag(s, i4, &['\r', '\r'])?;
    Ok((Response::BatteryCharge { status, level, voltage }, i5))
}

/// The executable fields of a stored message.
struct MessageFields {
    status: SmsMessageStatus,
    address: Vec<char>,
    name: Option<Vec<char>>,
    timestamp: Timestamp,
    text: Vec<char>,
}

pub open spec fn chars_view(o: Option<Vec<char>>) -> Option<Seq<char>> {
    match o {
        Some(t) => Some(t@),
        None => None,
    }
}

impl View for MessageFields {
    type V = (SmsMessageStatus, Seq<char>, Option<Seq<char>>, Timestamp, Seq<char>);

    closed spec fn view(&self) -> Self::V {
        (self.status, self.address@, chars_view(self.name), self.timestamp, self.text@)
    }
}

fn message(s: &[char], i: usize) -> (r: Result<(MessageFields, usize), Stop>)
    requires
        i <= s@.len(),
    ensures
        match r {
            Ok((f, n)) => sp_message(s@, i as int) == Ok::<((SmsMessageStatus, Seq<char>, Option<Seq<char>>, Timestamp, Seq<char>), int), Stop>((f@, n as int)) && n <= s@.len(),
            Err(e) => sp_message(s@, i as int) == Err::<((SmsMessageStatus, Seq<char>, Option<Seq<char>>, Timestamp, Seq<char>), int), Stop>(e),
        },
{
    let (st, i1) = quoted(s, i)?;
    let status = match SmsMessageStatus::from_text(st.as_slice()) {
        Some(x) => x,
        None => return Err(Stop::Fail),
    };
    let i2 = one_char(s, i1, ',')?;
    let (address, i3) = quoted_hex(s, i2)?;
    let i4 = one_char(s, i3, ',')?;
    let name = quoted_hex(s, i4);
    let (name, i5) = match name {
        Ok((x, k)) => (Some(x), k),
        Err(Stop::Fail) => (None, i4),
        Err(Stop::More) => return Err(Stop::More),
    };
    let j1 = one_char(s, i5, ',')?;
    let (timestamp, j2) = timestamp(s, j1)?;
    let j3 = one_char(s, j2, '\r')?;
    let (body, j4) = text_hex(s, j3)?;
    let j5 = tag(s, j4, &['\r', '\r'])?;
    Ok((MessageFields { status, address, name, timestamp, text: body }, j5))
}

fn opt_text(o: Option<Vec<char>>) -> (r: Option<String>)
    ensures
        crate::response::text_view(r) == chars_view(o),
{
    match o {
        Some(v) => Some(text(v)),
        None => None,
    }
}

fn cmgl(s: &[char], i: usize) -> (r: Result<(Response, usize), Stop>)
    requires
        i <= s@.len(),
    ensures
        agrees_response(r, sp_cmgl(s@, i as int)),
        r matches Ok((_, n)) ==> n <= s@.len(),
{
    proof {
        reveal(sp_cmgl);
    }
    let i1 = tag(s, i, &['+', 'C', 'M', 'G', 'L', ':', ' '])?;
    let (index, i2) = num_u16(s, i1)?;
    let i3 = one_char(s, i2, ',')?;
    let (f, i4) = message(s, i3)?;
    Ok((Response::ListSmsMessage {
        index,
        status: f.status,
        address: text(f.address),
        address_text: opt_text(f.name),
        timestamp: f.timestamp,
        text: text(f.text),
    }, i4))
}

fn cmgr(s: &[char], i: usize) -> (r: Result<(Response, usize), Stop>)
    requires
        i <= s@.len(),
    ensures
        agrees_response(r, sp_cmgr(s@, i as int)),
        r matches Ok((_, n)) ==> n <= s@.len(),
{
    proof {
        reveal(sp_cmgr);
    }
    let i1 = tag(s, i, &['+', 'C', 'M', 'G', 'R', ':', ' '])?;
    let (f, i2) = message(s, i1)?;
    Ok((Response::ReadSmsMessage {
        status: f.status,
        address: text(f.address),
        address_text: opt_text(f.name),
        timestamp: f.timestamp,
        text: text(f.text),
    }, i2))
}

fn cmti(s: &[char], i: usize) -> (r: Result<(Response, usize), Stop>)
    requires
        i <= s@.len(),
    ensures
        agrees_response(r, sp_cmti(s@, i as int)),
        r matches Ok((_, n)) ==> n <= s@.len(),
{
    proof {
        reveal(sp_cmti);
    }
    let i1 = tag(s, i, &['+', 'C', 'M', 'T', 'I', ':', ' '])?;
    let (st, i2) = quoted(s, i1)?;
    let storage = match SmsMessageStorage::from_text(st.as_slice()) {
        Some(x) => x,
        None => return Err(Stop::Fail),
    };
    let (index, i3) = sep_u16(s, i2, ',')?;
    let i4 = one_char(s, i3, '\r')?;
    Ok((Response::NewSmsMessage { storage, index }, i4))
}

fn clcc_extra(s: &[char], i: usize) -> (r: Result<((Vec<char>, u16, Vec<char>), usize), Stop>)
    requires
        i <= s@.len(),
    ensures
        match r {
            Ok(((a, t, b), n)) => sp_clcc_extra(s@, i as int) == Ok::<((Seq<char>, u16, Seq<char>), int), Stop>(((a@, t, b@), n as int)) && n <= s@.len(),
            Err(e) => sp_clcc_extra(s@, i as int) == Err::<((Seq<char>, u16, Seq<char>), int), Stop>(e),
        },
{
    let i1 = one_char(s, i, ',')?;
    let (number, i2) = quoted(s, i1)?;
    let (number_type, i3) = sep_u16(s, i2, ',')?;
    let i4 = one_char(s, i3, ',')?;
    let (name, i5) = quoted(s, i4)?;
    Ok(((number, number_type, name), i5))
}

fn clcc_codes(s: &[char], i: usize) -> (r: Result<((CallDirection, CallState, CallMode, CallMultiparty), usize), Stop>)
    requires
        i <= s@.len(),
    ensures
        agrees(r, sp_clcc_codes(s@, i as int)),
        r matches Ok((_, n)) ==> n <= s@.len(),
{
    let (a, i1) = sep_u8(s, i, ',')?;
    let direction = match CallDirection::from_code(a) {
        Some(x) => x,
        None => return Err(Stop::Fail),
    };
    let (b, i2) = sep_u8(s, i1, ',')?;
    let state = match CallState::from_code(b) {
        Some(x) => x,
        None => return Err(Stop::Fail),
    };
    let (c, i3) = sep_u8(s, i2, ',')?;
    let mode = match CallMode::from_code(c) {
        Some(x) => x,
        None => return Err(Stop::Fail),
    };
    let (d, i4) = sep_u8(s, i3, ',')?;
    let multiparty = match CallMultiparty::from_code(d) {
        Some(x) => x,
        None => return Err(Stop::Fail),
    };
    Ok(((direction, state, mode, multiparty), i4))
}

fn clcc(s: &[char], i: usize) -> (r: Result<(Response, usize), Stop>)
    requires
        i <= s@.len(),
    ensures
        agrees_response(r, sp_clcc(s@, i as int)),
        r matches Ok((_, n)) ==> n <= s@.len(),
{
    proof {
        reveal(sp_clcc);
    }
    let i1 = tag(s, i, &['+', 'C', 'L', 'C', 'C', ':', ' '])?;
    let (index, i2) = num_u16(s, i1)?;
    let (codes, i3) = clcc_codes(s, i2)?;
    let extra = clcc_extra(s, i3);
    let (extra, i4) = match extra {
        Ok((x, k)) => (Some(x), k),
        Err(Stop::Fail) => (None, i3),
        Err(Stop::More) => return Err(Stop::More),
    };
    let j = tag(s, i4, &['\r', '\r'])?;
    let (direction, state, mode, multiparty) = codes;
    match extra {
        None => Ok((Response::ListCurrentCalls { index, direction, state, mode, multiparty, number: None, number_type: None, name: None }, j)),
        Some((n, t, m)) => Ok((Response::ListCurrentCalls {
            index,
            direction,
            state,
            mode,
            multiparty,
            number: Some(text(n)),
            number_type: Some(t),
            name: Some(text(m)),
        }, j)),
    }
}

/// Recognises one response at the start of `s`, reporting how much of `s`
/// it takes.
pub fn parse_chars(s: &[char]) -> (r: Result<(Response, usize), Stop>)
    ensures
        agrees_response(r, sp_response(s@)),
        r matches Ok((_, n)) ==> n <= s@.len(),
{
    match literal(s, 0, &['O', 'K', '\r'], Response::Okay) {
        Err(Stop::Fail) => {},
        r => return r,
    }
    match literal(s, 0, &['E', 'R', 'R', 'O', 'R', '\r'], Response::Error(MobileEquipmentError::Disabled)) {
        Err(Stop::Fail) => {},
        r => return r,
    }
    match error_code(s, 0, &['+', 'C', 'M', 'E', ' ', 'E', 'R', 'R', 'O', 'R', ':', ' '], EquipmentErrorSource::Mobile) {
        Err(Stop::Fail) => {},
        r => return r,
    }
    match error_code(s, 0, &['+', 'C', 'M', 'S', ' ', 'E', 'R', 'R', 'O', 'R', ':', ' '], EquipmentErrorSource::Service) {
        Err(Stop::Fail) => {},
        r => return r,
    }
    match error_message(s, 0, &['+', 'C', 'M', 'E', ' ', 'E', 'R', 'R', 'O', 'R', ':', ' '], EquipmentErrorSource::Mobile) {
        Err(Stop::Fail) => {},
        r => return r,
    }
    match error_message(s, 0, &['+', 'C', 'M', 'S', ' ', 'E', 'R', 'R', 'O', 'R', ':', ' '], EquipmentErrorSource::Service) {
        Err(Stop::Fail) => {},
        r => return r,
    }
    match literal(s, 0, &['C', 'a', 'l', 'l', ' ', 'R', 'e', 'a', 'd', 'y', '\r'], Response::CallReady) {
        Err(Stop::Fail) => {},
        r => return r,
    }
    match literal(s, 0, &['S', 'M', 'S', ' ', 'R', 'e', 'a', 'd', 'y', '\r'], Response::SmsReady) {
        Err(Stop::Fail) => {},
        r => return r,
    }
    match literal(s, 0, &['R', 'I', 'N', 'G', '\r'], Response::Ring) {
        Err(Stop::Fail) => {},
        r => return r,
    }
    match literal(s, 0, &['N', 'O', ' ', 'C', 'A', 'R', 'R', 'I', 'E', 'R', '\r'], Response::NoCarrier) {
        Err(Stop::Fail) => {},
        r => return r,
    }
    match cops(s, 0) {
        Err(Stop::Fail) => {},
        r => return r,
    }
    match creg(s, 0) {
        Err(Stop::Fail) => {},
        r => return r,
    }
    match cpas(s, 0) {
        Err(Stop::Fail) => {},
        r => return r,
    }
    match csq(s, 0) {
        Err(Stop::Fail) => {},
        r => return r,
    }
    match cbc(s, 0) {
        Err(Stop::Fail) => {},
        r => return r,
    }
    match cmgl(s, 0) {
        Err(Stop::Fail) => {},
        r => return r,
    }
    match cmgr(s, 0) {
        Err(Stop::Fail) => {},
        r => return r,
    }
    match cmti(s, 0) {
        Err(Stop::Fail) => {},
        r => return r,
    }
    match clcc(s, 0) {
        Err(Stop::Fail) => {},
        r => return r,
    }
    let j = one_char(s, 0, '\r')?;
    Ok((Response::Empty, j))
}

/// What the grammar makes of a buffer.
#[derive(Debug, Clone)]
pub enum ParseResult {
    /// A response, and the part of the buffer after it.
    Success { response: Response, tail: String },
    /// The buffer ends before a response could be recognised.
    Incomplete,
    /// No response matches the start of the buffer.
    Error(String),
}

/// Recognises one leading response in `data`.
pub fn parse(data: &str) -> (r: ParseResult)
    ensures
        match sp_response(data@) {
            Ok((m, n)) => r matches ParseResult::Success { response, tail } && response@ == m
                && tail@ == data@.subrange(n, data@.len() as int),
            Err(Stop::More) => r is Incomplete,
            Err(Stop::Fail) => r is Error,
        },
{
    let cs = chars_of(data);
    match parse_chars(cs.as_slice()) {
        Ok((response, n)) => {
            let rest = slice_subrange(cs.as_slice(), n, cs.len());
            ParseResult::Success { response, tail: string_of(rest) }
        },
        Err(Stop::More) => ParseResult::Incomplete,
        Err(Stop::Fail) => ParseResult::Error(string_of(&['n', 'o', ' ', 'r', 'e', 's', 'p', 'o', 'n', 's', 'e', ' ', 'm', 'a', 't', 'c', 'h', 'e', 's'])),
    }
}

} // verus!
