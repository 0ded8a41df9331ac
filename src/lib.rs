//! A client library for a modem's line-oriented command protocol: the
//! response grammar, the framing of the device's byte stream into
//! responses, and the correlation of responses with commands.
pub mod arguments;
pub mod calendar;
pub mod codec;
pub mod correlate;
pub mod frame;
pub mod grammar;
pub mod response;
pub mod scan;
pub mod text;

pub use arguments::Arguments;
pub use calendar::Timestamp;
pub use codec::ucs2_to_uft8;
pub use correlate::{Drain, Keep};
pub use frame::{FrameEngine, FrameEvent};
pub use grammar::{parse, ParseResult};
pub use response::{
    BatteryChargeStatus, CallDirection, CallMode, CallMultiparty, CallState, EquipmentErrorSource,
    MobileEquipmentError, NetworkRegistrationMode, NetworkRegistrationStatus, OperatorSelectionFormat,
    OperatorSelectionMode, PhoneActivityStatus, Response, SignalQualityErrorRate, SignalQualityRssi,
    SmsMessageStatus, SmsMessageStorage,
};
