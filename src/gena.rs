//! The GENA requests that a subscriber sends (SUBSCRIBE, its renewal, and
//! UNSUBSCRIBE), and what the answer to the first one means.
use vstd::prelude::*;

use crate::error::Error;
use crate::session::{is_success, renewal_interval_ms, status_is_success, Session, SubscriptionConfig};
use crate::text::{ascii_chars, decimal_text, is_visible_ascii, push_decimal, visible_ascii_text};

verus! {

/// The HTTP method of a GENA request.
#[derive(Clone, Copy, PartialEq, Eq, Structural, Debug)]
pub enum GenaMethod {
    Subscribe,
    Unsubscribe,
}

/// A request to the event-subscription URL of a service: its method and
/// headers, in order.
pub struct GenaRequest {
    pub method: GenaMethod,
    pub headers: Vec<(String, String)>,
}

/// The name and value of each header, as text.
pub open spec fn header_texts(headers: Seq<(String, String)>) -> Seq<(Seq<char>, Seq<char>)> {
    headers.map_values(|h: (String, String)| (h.0@, h.1@))
}

/// The value of the `TIMEOUT` header that asks for a lease of `seconds`.
pub open spec fn timeout_text(seconds: u32) -> Seq<char> {
    "Second-"@ + decimal_text(seconds as nat)
}

/// The value of the `TIMEOUT` header that asks for the configured lease.
pub fn timeout_value(config: &SubscriptionConfig) -> (r: String)
    ensures
        r@ == timeout_text(config.lease_seconds),
{
    let mut s = String::from_str("Second-");
    push_decimal(&mut s, config.lease_seconds as u64);
    s
}

/// Joins two strings.
fn joined(a: &str, b: &str) -> (r: String)
    ensures
        r@ == a@ + b@,
{
    let s = String::from_str(a);
    s.concat(b)
}

/// The first SUBSCRIBE: it names the callback address (`host:port`) that the
/// device is to send its NOTIFY requests to, and asks for the configured
/// lease.
pub fn subscribe_request(callback_addr: &str, config: &SubscriptionConfig) -> (r: GenaRequest)
    ensures
        r.method == GenaMethod::Subscribe,
        header_texts(r.headers@) == seq![
            ("CALLBACK"@, "<http://"@ + callback_addr@ + ">"@),
            ("NT"@, "upnp:event"@),
            ("TIMEOUT"@, timeout_text(config.lease_seconds)),
        ],
{
    let callback = joined(&joined("<http://", callback_addr), ">");
    let mut headers: Vec<(String, String)> = Vec::new();
    headers.push((String::from_str("CALLBACK"), callback));
    headers.push((String::from_str("NT"), String::from_str("upnp:event")));
    headers.push((String::from_str("TIMEOUT"), timeout_value(config)));
    assert(header_texts(headers@) =~= seq![
        ("CALLBACK"@, "<http://"@ + callback_addr@ + ">"@),
        ("NT"@, "upnp:event"@),
        ("TIMEOUT"@, timeout_text(config.lease_seconds)),
    ]);
    GenaRequest { method: GenaMethod::Subscribe, headers }
}

/// The request that renews the subscription `sid` (a SUBSCRIBE with the
/// identifier and the lease, and no callback), or, where `subscribe` is
/// false, cancels it (an UNSUBSCRIBE with the identifier alone).
pub fn renew_or_cancel_sub(subscribe: bool, sid: &str, config: &SubscriptionConfig) -> (r: GenaRequest)
    ensures
        subscribe ==> r.method == GenaMethod::Subscribe && header_texts(r.headers@) == seq![
            ("SID"@, sid@),
            ("TIMEOUT"@, timeout_text(config.lease_seconds)),
        ],
        !subscribe ==> r.method == GenaMethod::Unsubscribe && header_texts(r.headers@) == seq![
            ("SID"@, sid@),
        ],
{
    let mut headers: Vec<(String, String)> = Vec::new();
    headers.push((String::from_str("SID"), String::from_str(sid)));
    if subscribe {
        headers.push((String::from_str("TIMEOUT"), timeout_value(config)));
        assert(header_texts(headers@) =~= seq![
            ("SID"@, sid@),
            ("TIMEOUT"@, timeout_text(config.lease_seconds)),
        ]);
        GenaRequest { method: GenaMethod::Subscribe, headers }
    } else {
        assert(header_texts(headers@) =~= seq![("SID"@, sid@)]);
        GenaRequest { method: GenaMethod::Unsubscribe, headers }
    }
}

impl Session {
    /// The renewal request of this session.
    pub fn renewal_request(&self) -> (r: GenaRequest)
        ensures
            r.method == GenaMethod::Subscribe,
            header_texts(r.headers@) == seq![
                ("SID"@, self.sid@),
                ("TIMEOUT"@, timeout_text(self.config.lease_seconds)),
            ],
    {
        renew_or_cancel_sub(true, self.sid.as_str(), &self.config)
    }

    /// The cancellation request of this session.
    pub fn unsubscribe_request(&self) -> (r: GenaRequest)
        ensures
            r.method == GenaMethod::Unsubscribe,
            header_texts(r.headers@) == seq![("SID"@, self.sid@)],
    {
        renew_or_cancel_sub(false, self.sid.as_str(), &self.config)
    }
}

/// Whether the bytes of a `SID` header make a subscription identifier: not
/// empty, and text as `http` reads it.
pub open spec fn is_valid_sid(bytes: Seq<u8>) -> bool {
    bytes.len() > 0 && forall|i: int| 0 <= i < bytes.len() ==> is_visible_ascii(#[trigger] bytes[i])
}

/// What the answer to the first SUBSCRIBE means: the subscription identifier,
/// or why there is none. `sid` is the raw value of the `SID` header, if the
/// answer has one; `body` is the answer's body.
pub fn subscription_id(status: u16, sid: Option<&[u8]>, body: String) -> (r: Result<String, Error>)
    ensures
        !is_success(status) ==> r == Err::<String, Error>(Error::FailedRequest { status, body }),
        is_success(status) ==> match sid {
            Some(b) if is_valid_sid(b@) => r matches Ok(t) && t@ == ascii_chars(b@),
            _ => r == Err::<String, Error>(Error::SubscriptionFailedNoSid),
        },
{
    if !status_is_success(status) {
        return Err(Error::FailedRequest { status, body });
    }
    match sid {
        None => Err(Error::SubscriptionFailedNoSid),
        Some(bytes) => {
            if bytes.len() == 0 {
                return Err(Error::SubscriptionFailedNoSid);
            }
            match visible_ascii_text(bytes) {
                Some(t) => Ok(t),
                None => Err(Error::SubscriptionFailedNoSid),
            }
        },
    }
}

/// An IP address, as the number that its bits make, most significant first.
#[derive(Clone, Copy, PartialEq, Eq, Structural, Debug)]
pub enum IpAddress {
    V4(u32),
    V6(u128),
}

/// The host part of a device URL.
#[derive(Clone, PartialEq, Eq, Debug)]
pub enum DeviceHost {
    /// The URL has no host.
    Missing,
    /// The host is a domain name.
    Domain(String),
    /// The host is an IP address.
    Ip(IpAddress),
}

/// The address to open the probe connection to, which tells the local
/// address that the device is reached from: the device URL's IP address and
/// port (80 where the URL names none). A URL without an IP address fails
/// with `NoIpInDeviceUrl`, which carries the URL.
pub fn probe_address(host: &DeviceHost, port: Option<u16>, device_url: String) -> (r: Result<
    (IpAddress, u16),
    Error,
>)
    ensures
        match host {
            DeviceHost::Ip(ip) => r == Ok::<(IpAddress, u16), Error>(
                (*ip, match port {
                    Some(p) => p,
                    None => 80u16,
                }),
            ),
            _ => r == Err::<(IpAddress, u16), Error>(Error::NoIpInDeviceUrl(device_url)),
        },
{
    match host {
        DeviceHost::Ip(ip) => {
            let p = match port {
                Some(p) => p,
                None => 80,
            };
            Ok((*ip, p))
        },
        _ => Err(Error::NoIpInDeviceUrl(device_url)),
    }
}

} // verus!
