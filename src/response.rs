//! The responses a modem sends, and the code tables of their fields.
use vstd::prelude::*;
use crate::calendar::Timestamp;

verus! {

#[derive(Debug, PartialEq, Eq, Hash, Clone, Copy, Structural)]
pub enum EquipmentErrorSource {
    Mobile,
    Service,
}

#[derive(Debug, PartialEq, Eq, Hash, Clone)]
pub enum MobileEquipmentError {
    Disabled,
    Code { source: EquipmentErrorSource, code: u16 },
    Message { source: EquipmentErrorSource, message: String },
}

#[derive(Debug, PartialEq, Eq, Hash, Clone, Copy, Structural)]
pub enum OperatorSelectionMode {
    Automatic,
    Manual,
    Unknown,
}

impl OperatorSelectionMode {
    pub open spec fn spec_from_code(code: u8) -> Option<Self> {
        if code == 0 {
            Some(Self::Automatic)
        } else if code == 1 {
            Some(Self::Manual)
        } else if 2 <= code <= 4 {
            Some(Self::Unknown)
        } else {
            None
        }
    }

    /// Decodes a wire code; `None` for a code outside the table.
    pub fn from_code(code: u8) -> (r: Option<Self>)
        ensures
            r == Self::spec_from_code(code),
    {
        match code {
            0 => Some(Self::Automatic),
            1 => Some(Self::Manual),
            2 | 3 | 4 => Some(Self::Unknown),
            _ => None,
        }
    }
}

#[derive(Debug, PartialEq, Eq, Hash, Clone, Copy, Structural)]
pub enum OperatorSelectionFormat {
    LongAlphanumeric,
    ShortAlphanumeric,
    Numeric,
}

impl OperatorSelectionFormat {
    pub open spec fn spec_from_code(code: u8) -> Option<Self> {
        if code == 0 {
            Some(Self::LongAlphanumeric)
        } else if code == 1 {
            Some(Self::ShortAlphanumeric)
        } else if code == 2 {
            Some(Self::Numeric)
        } else {
            None
        }
    }

    /// Decodes a wire code; `None` for a code outside the table.
    pub fn from_code(code: u8) -> (r: Option<Self>)
        ensures
            r == Self::spec_from_code(code),
    {
        match code {
            0 => Some(Self::LongAlphanumeric),
            1 => Some(Self::ShortAlphanumeric),
            2 => Some(Self::Numeric),
            _ => None,
        }
    }
}

#[derive(Debug, PartialEq, Eq, Hash, Clone, Copy, Structural)]
pub enum NetworkRegistrationMode {
    DisableRegistration,
    EnableRegistration,
    EnableLocationRegistration,
}

impl NetworkRegistrationMode {
    pub open spec fn spec_from_code(code: u8) -> Option<Self> {
        if code == 0 {
            Some(Self::DisableRegistration)
        } else if code == 1 {
            Some(Self::EnableRegistration)
        } else if code == 2 {
            Some(Self::EnableLocationRegistration)
        } else {
            None
        }
    }

    /// Decodes a wire code; `None` for a code outside the table.
    pub fn from_code(code: u8) -> (r: Option<Self>)
        ensures
            r == Self::spec_from_code(code),
    {
        match code {
            0 => Some(Self::DisableRegistration),
            1 => Some(Self::EnableRegistration),
            2 => Some(Self::EnableLocationRegistration),
            _ => None,
        }
    }
}

#[derive(Debug, PartialEq, Eq, Hash, Clone, Copy, Structural)]
pub enum NetworkRegistrationStatus {
    Registered,
    SearchingOperator,
    RegistratonDenied,
    Unknown,
    RegisteredRoaming,
}

impl NetworkRegistrationStatus {
    pub open spec fn spec_from_code(code: u8) -> Option<Self> {
        if code == 1 {
            Some(Self::Registered)
        } else if code == 2 {
            Some(Self::SearchingOperator)
        } else if code == 3 {
            Some(Self::RegistratonDenied)
        } else if code == 4 {
            Some(Self::Unknown)
        } else if code == 5 {
            Some(Self::RegisteredRoaming)
        } else {
            None
        }
    }

    /// Decodes a wire code; `None` for a code outside the table.
    pub fn from_code(code: u8) -> (r: Option<Self>)
        ensures
            r == Self::spec_from_code(code),
    {
        match code {
            1 => Some(Self::Registered),
            2 => Some(Self::SearchingOperator),
            3 => Some(Self::RegistratonDenied),
            4 => Some(Self::Unknown),
            5 => Some(Self::RegisteredRoaming),
            _ => None,
        }
    }
}

#[derive(Debug, PartialEq, Eq, Hash, Clone, Copy, Structural)]
pub enum PhoneActivityStatus {
    Ready,
    Unknown,
    Ringing,
    CallInProgress,
}

impl PhoneActivityStatus {
    pub open spec fn spec_from_code(code: u8) -> Option<Self> {
        if code == 0 {
            Some(Self::Ready)
        } else if code == 2 {
            Some(Self::Unknown)
        } else if code == 3 {
            Some(Self::Ringing)
        } else if code == 4 {
            Some(Self::CallInProgress)
        } else {
            None
        }
    }

    /// Decodes a wire code; `None` for a code outside the table.
    pub fn from_code(code: u8) -> (r: Option<Self>)
        ensures
            r == Self::spec_from_code(code),
    {
        match code {
            0 => Some(Self::Ready),
            2 => Some(Self::Unknown),
            3 => Some(Self::Ringing),
            4 => Some(Self::CallInProgress),
            _ => None,
        }
    }
}

/// Received signal strength, in dBm.
#[derive(Debug, PartialEq, Eq, Hash, Clone, Copy, Structural)]
pub enum SignalQualityRssi {
    Value(i8),
    Unknown,
}

impl SignalQualityRssi {
    pub open spec fn spec_from_code(code: u8) -> Option<Self> {
        if code == 0 {
            Some(Self::Value(-115i8))
        } else if code == 1 {
            Some(Self::Value(-111i8))
        } else if 2 <= code <= 30 {
            Some(Self::Value((-110 + 2 * code - 4) as i8))
        } else if code == 31 {
            Some(Self::Value(-52i8))
        } else if code == 99 {
            Some(Self::Unknown)
        } else {
            None
        }
    }

    /// Decodes a wire code; `None` for a code outside the table.
    pub fn from_code(code: u8) -> (r: Option<Self>)
        ensures
            r == Self::spec_from_code(code),
    {
        match code {
            0 => Some(Self::Value(-115)),
            1 => Some(Self::Value(-111)),
            31 => Some(Self::Value(-52)),
            99 => Some(Self::Unknown),
            2..=30 => Some(Self::Value(-110 + (code as i8) * 2 - 4)),
            _ => None,
        }
    }
}

/// Bit error rate, in hundredths of a percent.
#[derive(Debug, PartialEq, Eq, Hash, Clone, Copy, Structural)]
pub enum SignalQualityErrorRate {
    Value(u8),
    Unknown,
}

impl SignalQualityErrorRate {
    pub open spec fn spec_from_code(code: u8) -> Option<Self> {
        if code == 0 {
            Some(Self::Value(0))
        } else if code == 1 {
            Some(Self::Value(2))
        } else if code == 2 {
            Some(Self::Value(4))
        } else if code == 3 {
            Some(Self::Value(8))
        } else if code == 4 {
            Some(Self::Value(16))
        } else if code == 5 {
            Some(Self::Value(32))
        } else if code == 6 {
            Some(Self::Value(64))
        } else if code == 7 {
            Some(Self::Value(128))
        } else if code == 99 {
            Some(Self::Unknown)
        } else {
            None
        }
    }

    /// Decodes a wire code; `None` for a code outside the table.
    pub fn from_code(code: u8) -> (r: Option<Self>)
        ensures
            r == Self::spec_from_code(code),
    {
        match code {
            0 => Some(Self::Value(0)),
            1 => Some(Self::Value(2)),
            2 => Some(Self::Value(4)),
            3 => Some(Self::Value(8)),
            4 => Some(Self::Value(16)),
            5 => Some(Self::Value(32)),
            6 => Some(Self::Value(64)),
            7 => Some(Self::Value(128)),
            99 => Some(Self::Unknown),
            _ => None,
        }
    }
}

#[derive(Debug, PartialEq, Eq, Hash, Clone, Copy, Structural)]
pub enum BatteryChargeStatus {
    NotCharging,
    Charging,
    Finished,
}

impl BatteryChargeStatus {
    pub open spec fn spec_from_code(code: u8) -> Option<Self> {
        if code == 0 {
            Some(Self::NotCharging)
        } else if code == 1 {
            Some(Self::Charging)
        } else if code == 2 {
            Some(Self::Finished)
        } else {
            None
        }
    }

    /// Decodes a wire code; `None` for a code outside the table.
    pub fn from_code(code: u8) -> (r: Option<Self>)
        ensures
            r == Self::spec_from_code(code),
    {
        match code {
            0 => Some(Self::NotCharging),
            1 => Some(Self::Charging),
            2 => Some(Self::Finished),
            _ => None,
        }
    }
}

#[derive(Debug, PartialEq, Eq, Hash, Clone, Copy, Structural)]
pub enum SmsMessageStatus {
    ReceivedUnread,
    ReceivedRead,
    StoredUnsent,
    StoredSent,
}

impl SmsMessageStatus {
    pub open spec fn spec_from_text(t: Seq<char>) -> Option<Self> {
        if t == seq!['R', 'E', 'C', ' ', 'U', 'N', 'R', 'E', 'A', 'D'] {
            Some(Self::ReceivedUnread)
        } else if t == seq!['R', 'E', 'C', ' ', 'R', 'E', 'A', 'D'] {
            Some(Self::ReceivedRead)
        } else if t == seq!['S', 'T', 'O', ' ', 'U', 'N', 'S', 'E', 'N', 'D'] {
            Some(Self::StoredUnsent)
        } else if t == seq!['S', 'T', 'O', ' ', 'S', 'E', 'N', 'D'] {
            Some(Self::StoredSent)
        } else {
            None
        }
    }

    /// Decodes the wire text of a message status; `None` for any other text.
    pub fn from_text(t: &[char]) -> (r: Option<Self>)
        ensures
            r == Self::spec_from_text(t@),
    {
        if same_chars(t, &['R', 'E', 'C', ' ', 'U', 'N', 'R', 'E', 'A', 'D']) {
            Some(Self::ReceivedUnread)
        } else if same_chars(t, &['R', 'E', 'C', ' ', 'R', 'E', 'A', 'D']) {
            Some(Self::ReceivedRead)
        } else if same_chars(t, &['S', 'T', 'O', ' ', 'U', 'N', 'S', 'E', 'N', 'D']) {
            Some(Self::StoredUnsent)
        } else if same_chars(t, &['S', 'T', 'O', ' ', 'S', 'E', 'N', 'D']) {
            Some(Self::StoredSent)
        } else {
            None
        }
    }
}

#[derive(Debug, PartialEq, Eq, Hash, Clone, Copy, Structural)]
pub enum SmsMessageStorage {
    Sim,
    Phone,
}

impl SmsMessageStorage {
    pub open spec fn spec_from_text(t: Seq<char>) -> Option<Self> {
        if t == seq!['S', 'M'] {
            Some(Self::Sim)
        } else if t == seq!['M', 'E'] {
            Some(Self::Phone)
        } else {
            None
        }
    }

    /// Decodes the wire text of a storage area; `None` for any other text.
    pub fn from_text(t: &[char]) -> (r: Option<Self>)
        ensures
            r == Self::spec_from_text(t@),
    {
        if same_chars(t, &['S', 'M']) {
            Some(Self::Sim)
        } else if same_chars(t, &['M', 'E']) {
            Some(Self::Phone)
        } else {
            None
        }
    }
}

/// Whether two character buffers are equal.
pub fn same_chars(a: &[char], b: &[char]) -> (r: bool)
    ensures
        r == (a@ == b@),
{
    if a.len() != b.len() {
        return false;
    }
    let mut k: usize = 0;
    while k < a.len()
        invariant
            k <= a@.len(),
            a@.len() == b@.len(),
            a@.subrange(0, k as int) == b@.subrange(0, k as int),
        decreases a@.len() - k,
    {
        if a[k] != b[k] {
            assert(a@[k as int] != b@[k as int]);
            return false;
        }
        assert(a@.subrange(0, k + 1) =~= a@.subrange(0, k as int).push(a@[k as int]));
        assert(b@.subrange(0, k + 1) =~= b@.subrange(0, k as int).push(b@[k as int]));
        k = k + 1;
    }
    assert(a@ =~= a@.subrange(0, k as int));
    assert(b@ =~= b@.subrange(0, k as int));
    true
}

#[derive(Debug, PartialEq, Eq, Hash, Clone, Copy, Structural)]
pub enum CallDirection {
    MobileOriginated,
    MobileTerminated,
}

impl CallDirection {
    pub open spec fn spec_from_code(code: u8) -> Option<Self> {
        if code == 0 {
            Some(Self::MobileOriginated)
        } else if code == 1 {
            Some(Self::MobileTerminated)
        } else {
            None
        }
    }

    /// Decodes a wire code; `None` for a code outside the table.
    pub fn from_code(code: u8) -> (r: Option<Self>)
        ensures
            r == Self::spec_from_code(code),
    {
        match code {
            0 => Some(Self::MobileOriginated),
            1 => Some(Self::MobileTerminated),
            _ => None,
        }
    }
}

#[derive(Debug, PartialEq, Eq, Hash, Clone, Copy, Structural)]
pub enum CallState {
    Active,
    Held,
    Dialing,
    Alerting,
    Incoming,
    Waiting,
    Disconnect,
}

impl CallState {
    pub open spec fn spec_from_code(code: u8) -> Option<Self> {
        if code == 0 {
            Some(Self::Active)
        } else if code == 1 {
            Some(Self::Held)
        } else if code == 2 {
            Some(Self::Dialing)
        } else if code == 3 {
            Some(Self::Alerting)
        } else if code == 4 {
            Some(Self::Incoming)
        } else if code == 5 {
            Some(Self::Waiting)
        } else if code == 6 {
            Some(Self::Disconnect)
        } else {
            None
        }
    }

    /// Decodes a wire code; `None` for a code outside the table.
    pub fn from_code(code: u8) -> (r: Option<Self>)
        ensures
            r == Self::spec_from_code(code),
    {
        match code {
            0 => Some(Self::Active),
            1 => Some(Self::Held),
            2 => Some(Self::Dialing),
            3 => Some(Self::Alerting),
            4 => Some(Self::Incoming),
            5 => Some(Self::Waiting),
            6 => Some(Self::Disconnect),
            _ => None,
        }
    }
}

#[derive(Debug, PartialEq, Eq, Hash, Clone, Copy, Structural)]
pub enum CallMode {
    Voice,
    Data,
    Fax,
}

impl CallMode {
    pub open spec fn spec_from_code(code: u8) -> Option<Self> {
        if code == 0 {
            Some(Self::Voice)
        } else if code == 1 {
            Some(Self::Data)
        } else if code == 2 {
            Some(Self::Fax)
        } else {
            None
        }
    }

    /// Decodes a wire code; `None` for a code outside the table.
    pub fn from_code(code: u8) -> (r: Option<Self>)
        ensures
            r == Self::spec_from_code(code),
    {
        match code {
            0 => Some(Self::Voice),
            1 => Some(Self::Data),
            2 => Some(Self::Fax),
            _ => None,
        }
    }
}

#[derive(Debug, PartialEq, Eq, Hash, Clone, Copy, Structural)]
pub enum CallMultiparty {
    NoMultiparty,
    Multiparty,
}

impl CallMultiparty {
    pub open spec fn spec_from_code(code: u8) -> Option<Self> {
        if code == 0 {
            Some(Self::NoMultiparty)
        } else if code == 1 {
            Some(Self::Multiparty)
        } else {
            None
        }
    }

    /// Decodes a wire code; `None` for a code outside the table.
    pub fn from_code(code: u8) -> (r: Option<Self>)
        ensures
            r == Self::spec_from_code(code),
    {
        match code {
            0 => Some(Self::NoMultiparty),
            1 => Some(Self::Multiparty),
            _ => None,
        }
    }
}

/// One message of the device.
#[derive(Debug, PartialEq, Eq, Clone)]
pub enum Response {
    /// The bare acknowledgement `OK`.
    Okay,
    Error(MobileEquipmentError),
    OperatorSelection {
        mode: OperatorSelectionMode,
        format: Option<OperatorSelectionFormat>,
        operator: Option<String>,
    },
    NetworkRegistration {
        mode: NetworkRegistrationMode,
        status: NetworkRegistrationStatus,
        location: Option<String>,
        cell_id: Option<String>,
    },
    PhoneActivityStatus { status: PhoneActivityStatus },
    SignalQuality { rssi: SignalQualityRssi, error_rate: SignalQualityErrorRate },
    BatteryCharge { status: BatteryChargeStatus, level: u8, voltage: u16 },
    ListSmsMessage {
        index: u16,
        status: SmsMessageStatus,
        address: String,
        address_text: Option<String>,
        timestamp: Timestamp,
        text: String,
    },
    ReadSmsMessage {
        status: SmsMessageStatus,
        address: String,
        address_text: Option<String>,
        timestamp: Timestamp,
        text: String,
    },
    NewSmsMessage { storage: SmsMessageStorage, index: u16 },
    ListCurrentCalls {
        index: u16,
        direction: CallDirection,
        state: CallState,
        mode: CallMode,
        multiparty: CallMultiparty,
        number: Option<String>,
        number_type: Option<u16>,
        name: Option<String>,
    },
    CallReady,
    SmsReady,
    Ring,
    NoCarrier,
    Empty,
}

/// The model of [`MobileEquipmentError`], with text as characters.
pub enum ErrorModel {
    Disabled,
    Code { source: EquipmentErrorSource, code: u16 },
    Message { source: EquipmentErrorSource, message: Seq<char> },
}

/// The model of [`Response`], with text as characters.
pub enum ResponseModel {
    Okay,
    Error(ErrorModel),
    OperatorSelection {
        mode: OperatorSelectionMode,
        format: Option<OperatorSelectionFormat>,
        operator: Option<Seq<char>>,
    },
    NetworkRegistration {
        mode: NetworkRegistrationMode,
        status: NetworkRegistrationStatus,
        location: Option<Seq<char>>,
        cell_id: Option<Seq<char>>,
    },
    PhoneActivityStatus { status: PhoneActivityStatus },
    SignalQuality { rssi: SignalQualityRssi, error_rate: SignalQualityErrorRate },
    BatteryCharge { status: BatteryChargeStatus, level: u8, voltage: u16 },
    ListSmsMessage {
        index: u16,
        status: SmsMessageStatus,
        address: Seq<char>,
        address_text: Option<Seq<char>>,
        timestamp: Timestamp,
        text: Seq<char>,
    },
    ReadSmsMessage {
        status: SmsMessageStatus,
        address: Seq<char>,
        address_text: Option<Seq<char>>,
        timestamp: Timestamp,
        text: Seq<char>,
    },
    NewSmsMessage { storage: SmsMessageStorage, index: u16 },
    ListCurrentCalls {
        index: u16,
        direction: CallDirection,
        state: CallState,
        mode: CallMode,
        multiparty: CallMultiparty,
        number: Option<Seq<char>>,
        number_type: Option<u16>,
        name: Option<Seq<char>>,
    },
    CallReady,
    SmsReady,
    Ring,
    NoCarrier,
    Empty,
}

pub open spec fn text_view(o: Option<String>) -> Option<Seq<char>> {
    match o {
        Some(t) => Some(t@),
        None => None,
    }
}

impl View for MobileEquipmentError {
    type V = ErrorModel;

    open spec fn view(&self) -> ErrorModel {
        match self {
            MobileEquipmentError::Disabled => ErrorModel::Disabled,
            MobileEquipmentError::Code { source, code } => ErrorModel::Code { source: *source, code: *code },
            MobileEquipmentError::Message { source, message } => ErrorModel::Message { source: *source, message: message@ },
        }
    }
}

impl View for Response {
    type V = ResponseModel;

    open spec fn view(&self) -> ResponseModel {
        match self {
            Response::Okay => ResponseModel::Okay,
            Response::Error(e) => ResponseModel::Error(e@),
            Response::OperatorSelection { mode, format, operator } => ResponseModel::OperatorSelection {
                mode: *mode,
                format: *format,
                operator: text_view(*operator),
            },
            Response::NetworkRegistration { mode, status, location, cell_id } => ResponseModel::NetworkRegistration {
                mode: *mode,
                status: *status,
                location: text_view(*location),
                cell_id: text_view(*cell_id),
            },
            Response::PhoneActivityStatus { status } => ResponseModel::PhoneActivityStatus { status: *status },
            Response::SignalQuality { rssi, error_rate } => ResponseModel::SignalQuality { rssi: *rssi, error_rate: *error_rate },
            Response::BatteryCharge { status, level, voltage } => ResponseModel::BatteryCharge {
                status: *status,
                level: *level,
                voltage: *voltage,
            },
            Response::ListSmsMessage { index, status, address, address_text, timestamp, text } => ResponseModel::ListSmsMessage {
                index: *index,
                status: *status,
                address: address@,
                address_text: text_view(*address_text),
                timestamp: *timestamp,
                text: text@,
            },
            Response::ReadSmsMessage { status, address, address_text, timestamp, text } => ResponseModel::ReadSmsMessage {
                status: *status,
                address: address@,
                address_text: text_view(*address_text),
                timestamp: *timestamp,
                text: text@,
            },
            Response::NewSmsMessage { storage, index } => ResponseModel::NewSmsMessage { storage: *storage, index: *index },
            Response::ListCurrentCalls { index, direction, state, mode, multiparty, number, number_type, name } => ResponseModel::ListCurrentCalls {
                index: *index,
                direction: *direction,
                state: *state,
                mode: *mode,
                multiparty: *multiparty,
                number: text_view(*number),
                number_type: *number_type,
                name: text_view(*name),
            },
            Response::CallReady => ResponseModel::CallReady,
            Response::SmsReady => ResponseModel::SmsReady,
            Response::Ring => ResponseModel::Ring,
            Response::NoCarrier => ResponseModel::NoCarrier,
            Response::Empty => ResponseModel::Empty,
        }
    }
}

impl Response {
    /// Whether this response ends the answer to a command: an acknowledgement
    /// or an error.
    pub open spec fn spec_is_terminal(&self) -> bool {
        self is Okay || self is Error
    }

    pub fn is_terminal(&self) -> (r: bool)
        ensures
            r == self.spec_is_terminal(),
    {
        match self {
            Response::Okay | Response::Error(_) => true,
            _ => false,
        }
    }
}

} // verus!
