//! The device-description model: a device, the services it offers, and the
//! devices embedded in it.
use vstd::prelude::*;

verus! {

/// One service of a device, as its description lists it. The URLs are
/// relative to the device's description URL.
#[derive(Debug, Clone, PartialEq, Eq)]
pub struct Service {
    pub service_type: String,
    pub service_id: String,
    pub control_url: String,
    pub event_sub_url: String,
    pub scpd_url: String,
}

/// The services that a device lists.
#[derive(Debug)]
pub struct ServiceList {
    pub services: Vec<Service>,
}

/// The devices embedded in a device.
#[derive(Debug)]
pub struct DeviceList {
    pub devices: Vec<DeviceSpec>,
}

/// A device description.
#[derive(Debug)]
pub struct DeviceSpec {
    pub friendly_name: String,
    pub device_type: String,
    pub model_number: Option<String>,
    pub model_description: Option<String>,
    pub model_name: Option<String>,
    pub ssl_port: Option<u16>,
    pub service_list: Option<ServiceList>,
    pub device_list: Option<DeviceList>,
}

/// The services that `d` itself lists.
pub open spec fn own_services(d: DeviceSpec) -> Seq<Service> {
    match d.service_list {
        Some(list) => list.services@,
        None => Seq::empty(),
    }
}

/// The devices embedded in `d`.
pub open spec fn sub_devices(d: DeviceSpec) -> Seq<DeviceSpec> {
    match d.device_list {
        Some(list) => list.devices@,
        None => Seq::empty(),
    }
}

/// The first of `services`, from index `i` on, whose type is `ty`.
pub open spec fn first_of_type(services: Seq<Service>, ty: Seq<char>, i: int) -> Option<Service>
    decreases services.len() - i,
{
    if i < 0 || i >= services.len() {
        None
    } else if services[i].service_type@ == ty {
        Some(services[i])
    } else {
        first_of_type(services, ty, i + 1)
    }
}

/// The service of type `ty` that a search of `d` finds: the first that `d`
/// lists itself, else the first found in its embedded devices, searched in
/// order and each in the same way.
pub open spec fn find_service(d: DeviceSpec, ty: Seq<char>) -> Option<Service>
    decreases d, sub_devices(d).len() + 1,
{
    match first_of_type(own_services(d), ty, 0) {
        Some(s) => Some(s),
        None => find_in_devices(d, ty, 0),
    }
}

/// The service of type `ty` found in the devices embedded in `d`, from
/// index `i` on.
pub open spec fn find_in_devices(d: DeviceSpec, ty: Seq<char>, i: int) -> Option<Service>
    decreases d, sub_devices(d).len() - i,
{
    if i < 0 || i >= sub_devices(d).len() {
        None
    } else {
        proof {
            let list = d.device_list->Some_0;
            assert(decreases_to!(d => list.devices));
            assert(decreases_to!(list.devices => list.devices[i]));
        }
        match find_service(sub_devices(d)[i], ty) {
            Some(s) => Some(s),
            None => find_in_devices(d, ty, i + 1),
        }
    }
}

impl DeviceSpec {
    /// The services that this device itself lists.
    pub fn services(&self) -> (r: &[Service])
        ensures
            r@ == own_services(*self),
    {
        match &self.service_list {
            None => &[],
            Some(list) => list.services.as_slice(),
        }
    }

    /// The service of type `service_type`: the first that this device lists,
    /// else the first found in its embedded devices, searched in order.
    pub fn get_service(&self, service_type: &str) -> (r: Option<&Service>)
        ensures
            match r {
                Some(s) => find_service(*self, service_type@) == Some(*s),
                None => find_service(*self, service_type@) is None,
            },
    {
        let ty = String::from_str(service_type);
        self.find(&ty)
    }

    fn find(&self, ty: &String) -> (r: Option<&Service>)
        ensures
            match r {
                Some(s) => find_service(*self, ty@) == Some(*s),
                None => find_service(*self, ty@) is None,
            },
        decreases *self,
    {
        let own = self.services();
        let mut i: usize = 0;
        while i < own.len()
            invariant
                i <= own.len(),
                own@ == own_services(*self),
                first_of_type(own@, ty@, 0) == first_of_type(own@, ty@, i as int),
            decreases own.len() - i,
        {
            if own[i].service_type == *ty {
                return Some(&own[i]);
            }
            i = i + 1;
        }
        match &self.device_list {
            None => None,
            Some(list) => {
                let mut k: usize = 0;
                while k < list.devices.len()
                    invariant
                        k <= list.devices.len(),
                        list.devices@ == sub_devices(*self),
                        find_service(*self, ty@) == find_in_devices(*self, ty@, k as int),
                    decreases list.devices.len() - k,
                {
                    proof {
                        let l = self.device_list->Some_0;
                        assert(decreases_to!(*self => l.devices));
                        assert(decreases_to!(l.devices => l.devices[k as int]));
                    }
                    match list.devices[k].find(ty) {
                        Some(s) => {
                            return Some(s);
                        },
                        None => {},
                    }
                    k = k + 1;
                }
                None
            },
        }
    }
}

/// The URL, as text, that `url` makes of `reference` resolved against the
/// URL `base`, if `base` parses and the resolution succeeds.
pub uninterp spec fn resolved_url(base: Seq<char>, reference: Seq<char>) -> Option<Seq<char>>;

/// The URL, as text, that `url` makes of `text`, if it parses.
pub uninterp spec fn parsed_url(text: Seq<char>) -> Option<Seq<char>>;

/// Relies on `url::Url::join`: `reference` resolved against `base` (read
/// with `Url::parse`), in its serialised form; the result depends on the two
/// texts alone.
#[verifier::external_body]
fn url_join(base: &str, reference: &str) -> (r: Option<String>)
    ensures
        r matches Some(u) ==> resolved_url(base@, reference@) == Some(u@),
        r is None ==> resolved_url(base@, reference@) is None,
{
    let base = url::Url::parse(base).ok()?;
    base.join(reference).ok().map(|u| u.to_string())
}

/// Relies on `url::Url::parse`: `text` as a URL, in its serialised form; the
/// result depends on the text alone.
#[verifier::external_body]
fn url_parse(text: &str) -> (r: Option<String>)
    ensures
        r matches Some(u) ==> parsed_url(text@) == Some(u@),
        r is None ==> parsed_url(text@) is None,
{
    url::Url::parse(text).ok().map(|u| u.to_string())
}

/// The URL that `url` resolves to against `base`; where that fails, `url`
/// read on its own as an absolute URL; where that fails too, nothing.
pub open spec fn service_url(base: Seq<char>, url: Seq<char>) -> Option<Seq<char>> {
    match resolved_url(base, url) {
        Some(u) => Some(u),
        None => parsed_url(url),
    }
}

/// Whether `r` holds the URL `expected`.
pub open spec fn url_is(r: Option<String>, expected: Option<Seq<char>>) -> bool {
    match r {
        Some(u) => expected == Some(u@),
        None => expected is None,
    }
}

impl Service {
    fn join_url(&self, base_url: &str, url: &str) -> (r: Option<String>)
        ensures
            url_is(r, service_url(base_url@, url@)),
    {
        match url_join(base_url, url) {
            Some(u) => Some(u),
            None => url_parse(url),
        }
    }

    /// The control URL, resolved against the device URL `url`.
    pub fn control_url(&self, url: &str) -> (r: Option<String>)
        ensures
            url_is(r, service_url(url@, self.control_url@)),
    {
        self.join_url(url, self.control_url.as_str())
    }

    /// The event-subscription URL, resolved against the device URL `url`.
    pub fn event_sub_url(&self, url: &str) -> (r: Option<String>)
        ensures
            url_is(r, service_url(url@, self.event_sub_url@)),
    {
        self.join_url(url, self.event_sub_url.as_str())
    }

    /// The value of the `SOAPAction` header that invokes `action` on this
    /// service: `"<service type>#<action>"`, quotes included.
    pub fn soap_action(&self, action: &str) -> (r: String)
        ensures
            r@ == "\""@ + self.service_type@ + "#"@ + action@ + "\""@,
    {
        String::from_str("\"").concat(self.service_type.as_str()).concat("#").concat(action).concat("\"")
    }

    /// The URL of the service's control protocol description, resolved
    /// against the device URL `url`.
    pub fn scpd_url(&self, url: &str) -> (r: Option<String>)
        ensures
            url_is(r, service_url(url@, self.scpd_url@)),
    {
        self.join_url(url, self.scpd_url.as_str())
    }
}

} // verus!
