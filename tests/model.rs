use sonos::{
    duration_to_hms, hms_to_duration, is_absent_value, parse_decimal, DecodeXmlString, DeviceList,
    DeviceSpec, DidlLite, Error, ObjectClass, Res, Service, ServiceList, Title, TrackMetaData,
    UpnpDuration, UpnpItem, ZoneGroup, ZoneGroupMember, ZoneGroupState,
};

#[test]
fn test_hms() {
    fn r(hms: &str, s: u64) {
        assert_eq!(hms_to_duration(hms), s);
        assert_eq!(duration_to_hms(s), hms);
    }

    r("00:02:31", 151);
    r("01:00:31", 3631);
    r("3:01:00:31", 262831);
}

#[test]
fn hms_edge_cases() {
    assert_eq!(duration_to_hms(0), "00:00:00");
    assert_eq!(duration_to_hms(86400), "1:00:00:00");
    assert_eq!(duration_to_hms(45 * 86400 + 59), "45:00:00:59");
    assert_eq!(hms_to_duration("1:12:44.000"), 0);
    assert_eq!(hms_to_duration("0:30:31"), 1831);
    assert_eq!(hms_to_duration("31"), 31);
    assert_eq!(hms_to_duration(""), 0);
    assert_eq!(hms_to_duration("9:1:00:00:05"), 86405);
    assert_eq!(hms_to_duration("x:00:05"), 0);
    assert_eq!(hms_to_duration("18446744073709551615"), u64::MAX);
    assert_eq!(hms_to_duration("1:18446744073709551615"), 0);
}

#[test]
fn decimal_parsing() {
    assert_eq!(parse_decimal(b"0"), Some(0));
    assert_eq!(parse_decimal(b"+42"), Some(42));
    assert_eq!(parse_decimal(b"18446744073709551615"), Some(u64::MAX));
    assert_eq!(parse_decimal(b"18446744073709551616"), None);
    assert_eq!(parse_decimal(b""), None);
    assert_eq!(parse_decimal(b"+"), None);
    assert_eq!(parse_decimal(b"-1"), None);
    assert_eq!(parse_decimal(b" 1"), None);
}

fn service(ty: &str) -> Service {
    Service {
        service_type: ty.to_string(),
        service_id: format!("id:{ty}"),
        control_url: format!("/{ty}/Control"),
        event_sub_url: format!("/{ty}/Event"),
        scpd_url: format!("/xml/{ty}.xml"),
    }
}

fn device(name: &str, services: Option<Vec<Service>>, devices: Option<Vec<DeviceSpec>>) -> DeviceSpec {
    DeviceSpec {
        friendly_name: name.to_string(),
        device_type: "urn:schemas-upnp-org:device:ZonePlayer:1".to_string(),
        model_number: None,
        model_description: None,
        model_name: None,
        ssl_port: None,
        service_list: services.map(|services| ServiceList { services }),
        device_list: devices.map(|devices| DeviceList { devices }),
    }
}

#[test]
fn get_service_searches_embedded_devices() {
    let media_server = device("server", Some(vec![service("ContentDirectory"), service("ConnectionManager")]), None);
    let mut renderer_cm = service("ConnectionManager");
    renderer_cm.control_url = "/MediaRenderer/ConnectionManager/Control".to_string();
    let renderer = device("renderer", Some(vec![service("AVTransport"), renderer_cm]), None);
    let root = device("root", Some(vec![service("AlarmClock")]), Some(vec![media_server, renderer]));

    assert_eq!(root.services().len(), 1);
    assert_eq!(root.get_service("AlarmClock").unwrap().service_id, "id:AlarmClock");
    assert_eq!(root.get_service("AVTransport").unwrap().service_id, "id:AVTransport");
    assert_eq!(
        root.get_service("ConnectionManager").unwrap().control_url,
        "/ConnectionManager/Control"
    );
    assert!(root.get_service("Queue").is_none());
    let bare = device("bare", None, None);
    assert!(bare.services().is_empty());
    assert!(bare.get_service("AlarmClock").is_none());
}

#[test]
fn service_urls_resolve_against_device_url() {
    let s = service("AlarmClock");
    let base = "http://192.168.1.157:1400/xml/device_description.xml";
    assert_eq!(s.control_url(base).as_deref(), Some("http://192.168.1.157:1400/AlarmClock/Control"));
    assert_eq!(s.event_sub_url(base).as_deref(), Some("http://192.168.1.157:1400/AlarmClock/Event"));
    assert_eq!(s.scpd_url(base).as_deref(), Some("http://192.168.1.157:1400/xml/AlarmClock.xml"));
    let mut absolute = service("X");
    absolute.control_url = "HTTP://10.0.0.1:1400".to_string();
    assert_eq!(absolute.control_url("not a url").as_deref(), Some("http://10.0.0.1:1400/"));
    assert_eq!(s.control_url("not a url"), None);
}

fn item() -> UpnpItem {
    UpnpItem {
        id: "1".to_string(),
        parent_id: "0".to_string(),
        restricted: true,
        res: Some(Res {
            protocol_info: "http-get:*:audio/flac:DLNA.ORG_PN=FLAC".to_string(),
            duration: "1:12:44".to_string(),
            url: "http://host/track.flac".to_string(),
        }),
        duration: None,
        album_art: None,
        album_title: None,
        artist: None,
        creator: None,
        title: Some(Title { title: "Late Nights".to_string() }),
        class: Some(ObjectClass::AudioBroadcast),
        mime_type: None,
        queue_item_id: None,
    }
}

#[test]
fn tracks_from_didl() {
    let mut second = item();
    second.res = None;
    second.title = None;
    second.class = None;
    second.duration = Some(UpnpDuration { duration: 4364 });
    let didl = DidlLite { item: vec![item(), second] };
    let tracks = TrackMetaData::from_didl(&didl);
    assert_eq!(
        tracks,
        vec![
            TrackMetaData {
                title: "Late Nights".to_string(),
                creator: None,
                album: None,
                duration: Some(4364),
                url: "http://host/track.flac".to_string(),
                mime_type: Some("audio/flac".to_string()),
                art_url: None,
                class: ObjectClass::AudioBroadcast,
            },
            TrackMetaData {
                title: String::new(),
                duration: Some(4364),
                class: ObjectClass::MusicTrack,
                ..Default::default()
            },
        ]
    );
}

#[test]
fn didl_from_track() {
    let track = TrackMetaData {
        title: "Track Title".to_string(),
        creator: Some("Some Guy".to_string()),
        album: Some("My Album".to_string()),
        duration: Some(1831),
        url: "http://track.mp3".to_string(),
        mime_type: None,
        art_url: Some("http://art".to_string()),
        class: ObjectClass::PlayList,
    };
    let didl = track.to_didl();
    assert_eq!(didl.item.len(), 1);
    let item = &didl.item[0];
    assert_eq!(item.id, "-1");
    assert_eq!(item.parent_id, "-1");
    assert!(item.restricted);
    let res = item.res.as_ref().unwrap();
    assert_eq!(res.protocol_info, "http-get:*:audio/mpeg");
    assert_eq!(res.duration, "00:30:31");
    assert_eq!(res.url, "http://track.mp3");
    assert_eq!(item.title.as_ref().unwrap().title, "Track Title");
    assert_eq!(item.creator.as_ref().unwrap().artist, "Some Guy");
    assert_eq!(item.artist.as_ref().unwrap().artist, "Some Guy");
    assert_eq!(item.album_title.as_ref().unwrap().album_title, "My Album");
    assert_eq!(item.album_art.as_ref().unwrap().uri, "http://art");
    assert_eq!(item.class, Some(ObjectClass::MusicTrack));
    assert!(item.mime_type.is_none());

    let flac = TrackMetaData { mime_type: Some("audio/flac".to_string()), ..Default::default() };
    let didl = flac.to_didl();
    assert_eq!(didl.item[0].res.as_ref().unwrap().protocol_info, "http-get:*:audio/flac");
    assert_eq!(didl.item[0].res.as_ref().unwrap().duration, "");
    assert_eq!(didl.item[0].mime_type.as_ref().unwrap().mime_type, "audio/flac");
}

#[test]
fn only_track_counts() {
    let t = TrackMetaData { title: "a".to_string(), ..Default::default() };
    assert_eq!(TrackMetaData::only_track(vec![t.clone()]), Ok(t.clone()));
    assert_eq!(TrackMetaData::only_track(vec![]), Err(Error::EmptyTrackMetaData));
    assert_eq!(TrackMetaData::only_track(vec![t.clone(), t]), Err(Error::MoreThanOneTrackMetaData));
}

fn member(uuid: &str) -> ZoneGroupMember {
    ZoneGroupMember {
        satellites: vec![],
        uuid: uuid.to_string(),
        location: format!("http://{uuid}/xml/device_description.xml"),
        zone_name: "Room".to_string(),
        icon: String::new(),
        configuration: "1".to_string(),
        software_version: "78.1-52020".to_string(),
        sw_gen: "2".to_string(),
        min_compatible_version: "77.0-00000".to_string(),
        legacy_compatible_version: "58.0-00000".to_string(),
        boot_seq: "145".to_string(),
        tv_configuration_error: "0".to_string(),
        hdmi_cec_available: 0,
        wireless_mode: 1,
        wireless_leaf_only: 0,
        channel_freq: 5220,
        behind_wifi_extender: 0,
        wifi_enabled: 1,
        eth_link: 0,
        orientation: 0,
        room_calibration_state: 4,
        secure_reg_state: 3,
        voice_config_state: 0,
        mic_enabled: 0,
        airplay_enabled: 1,
        idle_state: 1,
        more_info: String::new(),
        ssl_port: 1443,
        hhssl_port: 1843,
    }
}

#[test]
fn group_members_sorted_by_uuid() {
    let groups = vec![
        ZoneGroup {
            coordinator: "RINCON_B".to_string(),
            id: "RINCON_B:1".to_string(),
            members: vec![member("RINCON_C"), member("RINCON_A"), member("RINCON_B")],
        },
        ZoneGroup { coordinator: "RINCON_D".to_string(), id: "RINCON_D:2".to_string(), members: vec![] },
    ];
    let state = ZoneGroupState::from_groups(groups);
    assert_eq!(state.groups.len(), 2);
    let uuids: Vec<&str> = state.groups[0].members.iter().map(|m| m.uuid.as_str()).collect();
    assert_eq!(uuids, vec!["RINCON_A", "RINCON_B", "RINCON_C"]);
    assert_eq!(state.groups[0].coordinator, "RINCON_B");
    assert_eq!(state.groups[1].id, "RINCON_D:2");
}

#[test]
fn absent_string_values() {
    assert!(is_absent_value(""));
    assert!(is_absent_value(" \t\n\u{3000}"));
    assert!(is_absent_value("NOT_IMPLEMENTED"));
    assert!(!is_absent_value(" NOT_IMPLEMENTED"));
    assert!(!is_absent_value("<DIDL-Lite/>"));
}

#[test]
fn xml_string_into_inner() {
    assert_eq!(DecodeXmlString(Some(3)).into_inner(), Some(3));
    assert_eq!(DecodeXmlString::<u8>(None).into_inner(), None);
}

#[test]
fn soap_action_header() {
    assert_eq!(service("AVTransport").soap_action("Play"), "\"AVTransport#Play\"");
}
