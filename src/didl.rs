//! Track metadata: the DIDL-Lite model that devices exchange, the friendlier
//! `TrackMetaData` form, the conversions between them, and the `H:MM:SS`
//! durations they carry.
use vstd::prelude::*;

use crate::error::Error;
use crate::text::{
    fields_of, decimal_text, is_decimal, decimal_value, numeral_bytes, parse_decimal,
    push_char, push_decimal, push_two_digits, split_on, texts, to_numeral_bytes,
    two_digit_text,
};

verus! {

/// The class of a DIDL-Lite object.
#[derive(Debug, Clone, Copy, Default, PartialEq, Eq, Structural)]
pub enum ObjectClass {
    #[default]
    MusicTrack,
    AudioBroadcast,
    PlayList,
    Container,
}

/// Seconds in a day, an hour and a minute, and one.
pub open spec fn hms_factor(j: int) -> nat {
    if j == 0 {
        1
    } else if j == 1 {
        60
    } else if j == 2 {
        3600
    } else {
        86400
    }
}

/// The seconds that the fields of a duration make, counting `fields` from
/// the last: the last is seconds, the one before minutes, then hours, then
/// days; fields before those are ignored. `None` where one of the counted
/// fields is not a number that fits in a `u64`.
pub open spec fn hms_sum(fields: Seq<Seq<u8>>, j: int) -> Option<nat>
    decreases 4 - j,
{
    if j < 0 || j >= 4 || j >= fields.len() {
        Some(0)
    } else {
        let f = fields[fields.len() - 1 - j];
        if is_decimal(f) && decimal_value(f) <= u64::MAX {
            match hms_sum(fields, j + 1) {
                Some(rest) => Some(decimal_value(f) * hms_factor(j) + rest),
                None => None,
            }
        } else {
            None
        }
    }
}

/// The seconds of a duration written `[D:]H:MM:SS` (fields separated by
/// `:`), or zero where a field is not a number or the total does not fit in
/// a `u64`.
pub open spec fn hms_seconds(hms: Seq<char>) -> u64 {
    match hms_sum(fields_of(hms, ':').map_values(|f: Seq<char>| numeral_bytes(f)), 0) {
        Some(t) if t <= u64::MAX => t as u64,
        _ => 0,
    }
}

/// The duration of `seconds` written as `HH:MM:SS`, preceded by the number
/// of days and a `:` where there is at least one day.
pub open spec fn hms_text(seconds: u64) -> Seq<char> {
    let days = seconds / 86400;
    let hours = (seconds % 86400) / 3600;
    let minutes = (seconds % 3600) / 60;
    let secs = seconds % 60;
    (if days > 0 {
        decimal_text(days as nat) + seq![':']
    } else {
        Seq::empty()
    }) + two_digit_text(hours as nat) + seq![':'] + two_digit_text(minutes as nat) + seq![':']
        + two_digit_text(secs as nat)
}

/// Writes a duration of `seconds` as `[D:]HH:MM:SS`.
pub fn duration_to_hms(seconds: u64) -> (r: String)
    ensures
        r@ == hms_text(seconds),
{
    let days = seconds / 86400;
    let mut result = String::new();
    if days > 0 {
        push_decimal(&mut result, days);
        push_char(&mut result, ':');
    }
    push_two_digits(&mut result, (seconds % 86400) / 3600);
    push_char(&mut result, ':');
    push_two_digits(&mut result, (seconds % 3600) / 60);
    push_char(&mut result, ':');
    push_two_digits(&mut result, seconds % 60);
    assert(result@ =~= hms_text(seconds));
    result
}

/// Reads a duration written `[D:]H:MM:SS` as seconds; zero where it cannot
/// be read.
pub fn hms_to_duration(hms: &str) -> (r: u64)
    ensures
        r == hms_seconds(hms@),
{
    let parts = split_on(hms, ':');
    let ghost fields = fields_of(hms@, ':').map_values(|f: Seq<char>| numeral_bytes(f));
    assert(fields.len() == parts@.len());
    let mut total: u64 = 0;
    let mut j: usize = 0;
    let factors: [u64; 4] = [1, 60, 3600, 86400];
    while j < 4 && j < parts.len()
        invariant
            j <= 4,
            j <= parts@.len(),
            fields.len() == parts@.len(),
            texts(parts@) == fields_of(hms@, ':'),
            fields == fields_of(hms@, ':').map_values(|f: Seq<char>| numeral_bytes(f)),
            factors@ == seq![1u64, 60, 3600, 86400],
            hms_sum(fields, 0) == match hms_sum(fields, j as int) {
                Some(rest) => Some((total + rest) as nat),
                None => None::<nat>,
            },
        decreases 4 - j,
    {
        let k = parts.len() - 1 - j;
        let bytes = to_numeral_bytes(&parts[k]);
        assert(bytes@ == fields[k as int]);
        let v = match parse_decimal(bytes.as_slice()) {
            Some(v) => v,
            None => {
                return 0;
            },
        };
        let factor = factors[j];
        assert(factor == hms_factor(j as int));
        if v > u64::MAX / factor {
            assert(v * factor > u64::MAX) by (nonlinear_arith)
                requires
                    v > u64::MAX / factor,
                    factor > 0,
            ;
            return 0;
        }
        assert(v * factor <= u64::MAX) by (nonlinear_arith)
            requires
                v <= u64::MAX / factor,
                factor > 0,
        ;
        let term = v * factor;
        if term > u64::MAX - total {
            return 0;
        }
        total = total + term;
        j = j + 1;
    }
    total
}

/// Track metadata in a friendlier form than DIDL-Lite. `duration` is in
/// seconds.
#[derive(Debug, Default, Clone, PartialEq, Eq)]
pub struct TrackMetaData {
    pub title: String,
    pub creator: Option<String>,
    pub album: Option<String>,
    pub duration: Option<u64>,
    pub url: String,
    pub mime_type: Option<String>,
    pub art_url: Option<String>,
    pub class: ObjectClass,
}

/// A list of tracks.
#[derive(Debug, Default, Clone, PartialEq, Eq)]
pub struct TrackMetaDataList {
    pub tracks: Vec<TrackMetaData>,
}

/// A DIDL-Lite document.
#[derive(Debug)]
pub struct DidlLite {
    pub item: Vec<UpnpItem>,
}

/// One item of a DIDL-Lite document.
#[derive(Debug)]
pub struct UpnpItem {
    pub id: String,
    pub parent_id: String,
    pub restricted: bool,
    pub res: Option<Res>,
    pub duration: Option<UpnpDuration>,
    pub album_art: Option<AlbumArtUri>,
    pub album_title: Option<AlbumTitle>,
    pub artist: Option<Artist>,
    pub creator: Option<Creator>,
    pub title: Option<Title>,
    pub class: Option<ObjectClass>,
    pub mime_type: Option<MimeType>,
    pub queue_item_id: Option<QueueItemId>,
}

/// The resource of an item: where to fetch it, in what protocol and format,
/// and how long it plays (`H:MM:SS`).
#[derive(Debug)]
pub struct Res {
    pub protocol_info: String,
    pub duration: String,
    pub url: String,
}

#[derive(Debug)]
pub struct MimeType {
    pub mime_type: String,
}

#[derive(Debug)]
pub struct AlbumArtUri {
    pub uri: String,
}

#[derive(Debug)]
pub struct AlbumTitle {
    pub album_title: String,
}

#[derive(Debug)]
pub struct Artist {
    pub artist: String,
}

/// A duration in seconds.
#[derive(Debug)]
pub struct UpnpDuration {
    pub duration: u64,
}

#[derive(Debug)]
pub struct Creator {
    pub artist: String,
}

#[derive(Debug)]
pub struct Title {
    pub title: String,
}

#[derive(Debug)]
pub struct QueueItemId {
    pub id: String,
}

/// The text of an optional string.
pub open spec fn opt_text(o: Option<String>) -> Option<Seq<char>> {
    match o {
        Some(t) => Some(t@),
        None => None,
    }
}

/// The format that a protocol-info string `proto:network:format:extra`
/// names: its third `:`-separated field, where it has one.
pub open spec fn protocol_format(protocol_info: Seq<char>) -> Option<Seq<char>> {
    let fields = fields_of(protocol_info, ':');
    if fields.len() > 2 {
        Some(fields[2])
    } else {
        None
    }
}

/// Whether `t` holds what the DIDL-Lite item `item` says of a track.
pub open spec fn is_track_of(t: TrackMetaData, item: UpnpItem) -> bool {
    &&& t.class == match item.class {
        Some(c) => c,
        None => ObjectClass::MusicTrack,
    }
    &&& opt_text(t.album) == match item.album_title {
        Some(a) => Some(a.album_title@),
        None => None,
    }
    &&& opt_text(t.creator) == match item.creator {
        Some(a) => Some(a.artist@),
        None => None,
    }
    &&& opt_text(t.art_url) == match item.album_art {
        Some(a) => Some(a.uri@),
        None => None,
    }
    &&& t.title@ == match item.title {
        Some(a) => a.title@,
        None => Seq::empty(),
    }
    &&& t.duration == match item.duration {
        Some(d) => Some(d.duration),
        None => match item.res {
            Some(r) => Some(hms_seconds(r.duration@)),
            None => None,
        },
    }
    &&& t.url@ == match item.res {
        Some(r) => r.url@,
        None => Seq::empty(),
    }
    &&& opt_text(t.mime_type) == match item.res {
        Some(r) => protocol_format(r.protocol_info@),
        None => None,
    }
}

/// The DIDL-Lite item that describes `t`: an item with identifier and parent
/// `-1`, restricted, whose resource is `t.url` served over HTTP in `t`'s
/// format (`audio/mpeg` where it names none) with `t`'s duration (empty where
/// it has none), and which carries `t`'s title, album, art and creator, the
/// creator also as artist.
pub open spec fn is_didl_item_of(item: UpnpItem, t: TrackMetaData) -> bool {
    &&& item.id@ == "-1"@
    &&& item.parent_id@ == "-1"@
    &&& item.restricted
    &&& item.queue_item_id is None
    &&& item.duration is None
    &&& item.class == Some(ObjectClass::MusicTrack)
    &&& match item.mime_type {
        Some(m) => t.mime_type matches Some(x) && m.mime_type@ == x@,
        None => t.mime_type is None,
    }
    &&& match item.res {
        Some(r) => {
            &&& r.protocol_info@ == "http-get:*:"@ + match t.mime_type {
                Some(x) => x@,
                None => "audio/mpeg"@,
            }
            &&& r.duration@ == match t.duration {
                Some(d) => hms_text(d),
                None => Seq::empty(),
            }
            &&& r.url@ == t.url@
        },
        None => false,
    }
    &&& match item.title {
        Some(x) => x.title@ == t.title@,
        None => false,
    }
    &&& match item.album_art {
        Some(x) => t.art_url matches Some(y) && x.uri@ == y@,
        None => t.art_url is None,
    }
    &&& match item.album_title {
        Some(x) => t.album matches Some(y) && x.album_title@ == y@,
        None => t.album is None,
    }
    &&& match item.creator {
        Some(x) => t.creator matches Some(y) && x.artist@ == y@,
        None => t.creator is None,
    }
    &&& match item.artist {
        Some(x) => t.creator matches Some(y) && x.artist@ == y@,
        None => t.creator is None,
    }
}

impl TrackMetaData {
    fn from_item(item: &UpnpItem) -> (r: TrackMetaData)
        ensures
            is_track_of(r, *item),
    {
        let (duration, url, mime_type) = match &item.res {
            Some(res) => {
                let d = match &item.duration {
                    Some(d) => d.duration,
                    None => hms_to_duration(res.duration.as_str()),
                };
                let fields = split_on(res.protocol_info.as_str(), ':');
                let mime = if fields.len() > 2 {
                    Some(fields[2].clone())
                } else {
                    None
                };
                (Some(d), res.url.clone(), mime)
            },
            None => {
                let d = match &item.duration {
                    Some(d) => Some(d.duration),
                    None => None,
                };
                (d, String::new(), None)
            },
        };
        TrackMetaData {
            title: match &item.title {
                Some(t) => t.title.clone(),
                None => String::new(),
            },
            creator: match &item.creator {
                Some(c) => Some(c.artist.clone()),
                None => None,
            },
            album: match &item.album_title {
                Some(a) => Some(a.album_title.clone()),
                None => None,
            },
            duration,
            url,
            mime_type,
            art_url: match &item.album_art {
                Some(a) => Some(a.uri.clone()),
                None => None,
            },
            class: match item.class {
                Some(c) => c,
                None => ObjectClass::MusicTrack,
            },
        }
    }

    /// The tracks that the items of a DIDL-Lite document describe, in order.
    pub fn from_didl(didl: &DidlLite) -> (r: Vec<TrackMetaData>)
        ensures
            r@.len() == didl.item@.len(),
            forall|i: int| 0 <= i < r@.len() ==> is_track_of(#[trigger] r@[i], didl.item@[i]),
    {
        let mut result: Vec<TrackMetaData> = Vec::new();
        let mut i: usize = 0;
        while i < didl.item.len()
            invariant
                i <= didl.item@.len(),
                result@.len() == i,
                forall|k: int| 0 <= k < i ==> is_track_of(#[trigger] result@[k], didl.item@[k]),
            decreases didl.item.len() - i,
        {
            result.push(TrackMetaData::from_item(&didl.item[i]));
            i = i + 1;
        }
        result
    }

    /// The DIDL-Lite document that describes this track alone.
    pub fn to_didl(&self) -> (r: DidlLite)
        ensures
            r.item@.len() == 1,
            is_didl_item_of(r.item@[0], *self),
    {
        let format = match &self.mime_type {
            Some(m) => m.clone(),
            None => String::from_str("audio/mpeg"),
        };
        let protocol_info = String::from_str("http-get:*:").concat(format.as_str());
        let duration = match self.duration {
            Some(d) => duration_to_hms(d),
            None => String::new(),
        };
        let item = UpnpItem {
            id: String::from_str("-1"),
            parent_id: String::from_str("-1"),
            restricted: true,
            res: Some(Res { protocol_info, duration, url: self.url.clone() }),
            duration: None,
            album_art: match &self.art_url {
                Some(u) => Some(AlbumArtUri { uri: u.clone() }),
                None => None,
            },
            album_title: match &self.album {
                Some(a) => Some(AlbumTitle { album_title: a.clone() }),
                None => None,
            },
            artist: match &self.creator {
                Some(a) => Some(Artist { artist: a.clone() }),
                None => None,
            },
            creator: match &self.creator {
                Some(a) => Some(Creator { artist: a.clone() }),
                None => None,
            },
            title: Some(Title { title: self.title.clone() }),
            class: Some(ObjectClass::MusicTrack),
            mime_type: match &self.mime_type {
                Some(m) => Some(MimeType { mime_type: m.clone() }),
                None => None,
            },
            queue_item_id: None,
        };
        let mut items: Vec<UpnpItem> = Vec::new();
        items.push(item);
        DidlLite { item: items }
    }

    /// The one track of a list that should hold exactly one.
    pub fn only_track(mut list: Vec<TrackMetaData>) -> (r: Result<TrackMetaData, Error>)
        ensures
            list@.len() == 1 ==> r == Ok::<TrackMetaData, Error>(list@[0]),
            list@.len() == 0 ==> r == Err::<TrackMetaData, Error>(Error::EmptyTrackMetaData),
            list@.len() > 1 ==> r == Err::<TrackMetaData, Error>(Error::MoreThanOneTrackMetaData),
    {
        if list.len() == 1 {
            match list.pop() {
                Some(t) => Ok(t),
                None => Err(Error::EmptyTrackMetaData),
            }
        } else if list.len() == 0 {
            Err(Error::EmptyTrackMetaData)
        } else {
            Err(Error::MoreThanOneTrackMetaData)
        }
    }
}

} // verus!
