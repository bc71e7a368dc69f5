//! The errors of the library's own logic.
use vstd::prelude::*;

verus! {

/// Why an operation of the library failed.
#[derive(Debug, Clone, PartialEq, Eq)]
pub enum Error {
    /// An XML document could not be read; the reader's message.
    Xml(String),
    /// The device offers no service of this type.
    UnsupportedService(String),
    /// The device answered a request with a status other than 2xx.
    FailedRequest { status: u16, body: String },
    /// The device did not report a room name.
    NoName,
    /// No device answered for this room.
    RoomNotFound(String),
    /// The device URL names its host by domain, or not at all, so no local
    /// address can be found to reach it from.
    NoIpInDeviceUrl(String),
    /// The device accepted a subscription but sent no usable `SID` header.
    SubscriptionFailedNoSid,
    /// A track list that should hold one track holds none.
    EmptyTrackMetaData,
    /// A track list that should hold one track holds more.
    MoreThanOneTrackMetaData,
}

} // verus!
