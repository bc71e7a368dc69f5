//! A client library for UPnP home-audio players: the GENA event subscription
//! machinery (callback framing, lease renewal, event delivery) together with
//! the device-description and track-metadata models it works on.
//!
//! Each module holds the logic and states it in contracts over spec
//! functions; the I/O that drives it (sockets, HTTP, timers, XML) lives
//! outside the library and hands it plain values.

pub mod device;
pub mod didl;
pub mod discovery;
pub mod error;
pub mod gena;
pub mod notify;
pub mod session;
pub mod stream;
pub mod text;
pub mod xmlstring;
pub mod zone;

pub use device::{DeviceList, DeviceSpec, Service, ServiceList};
pub use didl::{
    duration_to_hms, hms_to_duration, AlbumArtUri, AlbumTitle, Artist, Creator, DidlLite,
    MimeType, ObjectClass, QueueItemId, Res, Title, TrackMetaData, TrackMetaDataList, UpnpDuration,
    UpnpItem,
};
pub use discovery::{player_location, SONOS_URN};
pub use error::Error;
pub use gena::{
    probe_address, renew_or_cancel_sub, subscribe_request, subscription_id, timeout_value,
    DeviceHost, GenaMethod, GenaRequest, IpAddress,
};
pub use notify::{NotifyReader, ReadStep};
pub use session::{
    status_is_success, QueueProbe, Session, SessionAction, SessionEvent, SessionPhase,
    SubscriptionConfig,
};
pub use stream::{forward_decoded, Delivery, ReceiveState, SubscriptionMessage};
pub use text::{decimal_value, is_decimal, parse_decimal};
pub use xmlstring::{is_absent_value, DecodeXml, DecodeXmlString};
pub use zone::{Satellite, ZoneGroup, ZoneGroupMember, ZoneGroupState};
