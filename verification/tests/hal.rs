use microphone::hal::{
    default_input_device, enumerate_input_devices, finish_routing, global_address, input_streams_address,
    list_has_channels, set_queue_device, DeviceRoute, HalDevice, HalScan, HalSystem, InputQuery,
    InputReply, RouteCall, RouteReply, ScanReply, ScanRequest, TextQuery, TextReply,
    K_AUDIO_DEVICE_PROPERTY_DEVICE_UID, K_AUDIO_HARDWARE_PROPERTY_DEFAULT_INPUT_DEVICE,
    K_AUDIO_HARDWARE_PROPERTY_DEVICES, K_AUDIO_OBJECT_PROPERTY_NAME,
    K_AUDIO_QUEUE_PROPERTY_CURRENT_DEVICE,
};
use microphone::protocol::{Opening, Request};

fn device(id: u32, input: bool, uid: Option<&str>, name: Option<&str>) -> HalDevice {
    HalDevice {
        id,
        input,
        uid: uid.map(|s| s.to_string()),
        name: name.map(|s| s.to_string()),
    }
}

fn mac(default_id: u32, devices: Vec<HalDevice>) -> HalSystem {
    HalSystem {
        hal_loads: true,
        core_foundation_loads: true,
        default_rc: 0,
        default_id,
        size_rc: 0,
        size: devices.len() as u32 * 4,
        ids_rc: 0,
        devices,
    }
}

fn a_mac_with_a_mic() -> HalSystem {
    mac(
        47,
        vec![
            device(40, false, Some("BuiltInSpeakerDevice"), Some("Speakers")),
            device(47, true, Some("BuiltInMicrophoneDevice"), Some("MacBook Microphone")),
            device(52, true, Some("usb-0d8c"), None),
            device(60, true, None, Some("Nameless aggregate")),
        ],
    )
}

#[test]
fn enumerates_input_devices() {
    let devices = enumerate_input_devices(&a_mac_with_a_mic());
    for d in &devices {
        println!(
            "input device: name={:?} uid={:?} default={}",
            d.name, d.id, d.is_default
        );
    }
    assert!(
        !devices.is_empty(),
        "expected at least one input device on this Mac"
    );
    let defaults = devices.iter().filter(|d| d.is_default).count();
    assert!(
        defaults <= 1,
        "at most one device may be marked default, found {defaults}"
    );
    // A Mac with a mic should expose a default input.
    assert_eq!(
        defaults, 1,
        "expected exactly one default input device, found {defaults}"
    );
}

#[test]
fn hal_devices_are_listed_in_order() {
    let devices = enumerate_input_devices(&a_mac_with_a_mic());
    let listed: Vec<(&str, &str, bool)> = devices
        .iter()
        .map(|d| (d.id.as_str(), d.name.as_str(), d.is_default))
        .collect();
    assert_eq!(
        listed,
        vec![
            ("BuiltInMicrophoneDevice", "MacBook Microphone", true),
            ("usb-0d8c", "usb-0d8c", false),
        ]
    );
}

#[test]
fn any_failure_lists_nothing() {
    let failing: Vec<Box<dyn Fn(&mut HalSystem)>> = vec![
        Box::new(|s| s.hal_loads = false),
        Box::new(|s| s.core_foundation_loads = false),
        Box::new(|s| s.size_rc = 560_947_818),
        Box::new(|s| s.size = 0),
        Box::new(|s| s.ids_rc = -1),
        Box::new(|s| s.size += 4),
    ];
    for fail in &failing {
        let mut system = a_mac_with_a_mic();
        fail(&mut system);
        assert!(enumerate_input_devices(&system).is_empty());
    }
    assert!(enumerate_input_devices(&mac(47, vec![])).is_empty());
}

#[test]
fn a_failed_default_query_marks_no_device() {
    let mut system = a_mac_with_a_mic();
    system.default_rc = -1;
    let devices = enumerate_input_devices(&system);
    assert_eq!(devices.len(), 2);
    assert!(devices.iter().all(|d| !d.is_default));
    assert_eq!(default_input_device(0, 47), Some(47));
    assert_eq!(default_input_device(0, 0), None);
    assert_eq!(default_input_device(-1, 47), None);
}

#[test]
fn a_scan_asks_only_what_it_needs() {
    let mut scan = HalScan::new();
    let mut asked = Vec::new();
    while scan.request() != ScanRequest::Done {
        let request = scan.request();
        asked.push(request);
        scan = scan.reply(match request {
            ScanRequest::LoadHal | ScanRequest::LoadCoreFoundation => ScanReply::Loaded(true),
            ScanRequest::DefaultDevice => ScanReply::Default { rc: 0, id: 3 },
            ScanRequest::Size => ScanReply::Size { rc: 0, size: 14 },
            ScanRequest::Ids { .. } => ScanReply::Ids { rc: 0, ids: vec![1, 2, 3] },
            ScanRequest::IsInput { device } => ScanReply::Input(device != 1),
            ScanRequest::Uid { device } => {
                ScanReply::Text(if device == 2 { None } else { Some("uid".to_string()) })
            }
            ScanRequest::Name { .. } => ScanReply::Text(Some("name".to_string())),
            ScanRequest::Done => unreachable!(),
        });
    }
    assert_eq!(
        asked,
        vec![
            ScanRequest::LoadHal,
            ScanRequest::LoadCoreFoundation,
            ScanRequest::DefaultDevice,
            ScanRequest::Size,
            ScanRequest::Ids { count: 3 },
            ScanRequest::IsInput { device: 1 },
            ScanRequest::IsInput { device: 2 },
            ScanRequest::Uid { device: 2 },
            ScanRequest::IsInput { device: 3 },
            ScanRequest::Uid { device: 3 },
            ScanRequest::Name { device: 3 },
        ]
    );
    let devices = scan.into_devices();
    assert_eq!(devices.len(), 1);
    assert_eq!(devices[0].id, "uid");
    assert_eq!(devices[0].name, "name");
    assert!(devices[0].is_default);
}

fn buffer_list(channels: &[u32], wide: bool) -> Vec<u8> {
    let pointer = if wide { 8 } else { 4 };
    let mut bytes = (channels.len() as u32).to_le_bytes().to_vec();
    bytes.resize(pointer, 0xee);
    for count in channels {
        bytes.extend_from_slice(&count.to_le_bytes());
        bytes.extend_from_slice(&[0xee; 4]);
        bytes.extend(vec![0xee; pointer]);
    }
    bytes
}

#[test]
fn a_buffer_list_with_a_channel_is_an_input() {
    for wide in [false, true] {
        assert!(!list_has_channels(&buffer_list(&[], wide), wide));
        assert!(!list_has_channels(&buffer_list(&[0], wide), wide));
        assert!(!list_has_channels(&buffer_list(&[0, 0, 0], wide), wide));
        assert!(list_has_channels(&buffer_list(&[1], wide), wide));
        assert!(list_has_channels(&buffer_list(&[0, 0, 2], wide), wide));
        assert!(list_has_channels(&buffer_list(&[0x0100_0000], wide), wide));
        assert!(list_has_channels(&buffer_list(&[u32::MAX, 1], wide), wide));
        let mut short = buffer_list(&[0, 2], wide);
        short.pop();
        assert!(!list_has_channels(&short, wide));
    }
    assert!(!list_has_channels(&[], true));
    assert!(!list_has_channels(&[0, 0, 0, 0], true));
}

#[test]
fn a_device_is_an_input_only_where_each_question_is_answered() {
    let ask = |has: u8, rc: i32, size: u32, data_rc: i32, bytes: Vec<u8>| {
        let query = InputQuery::HasProperty
            .next(&InputReply::HasProperty(has), true)
            .next(&InputReply::Size { rc, size }, true);
        if let InputQuery::Data { size: asked } = query {
            assert_eq!(asked, size);
        }
        query.next(&InputReply::Data { rc: data_rc, bytes }, true)
    };
    let list = buffer_list(&[2], true);
    assert_eq!(ask(1, 0, 24, 0, list.clone()), InputQuery::Answer(true));
    assert_eq!(ask(0, 0, 24, 0, list.clone()), InputQuery::Answer(false));
    assert_eq!(ask(1, -1, 24, 0, list.clone()), InputQuery::Answer(false));
    assert_eq!(ask(1, 0, 3, 0, list.clone()), InputQuery::Answer(false));
    assert_eq!(ask(1, 0, 24, -1, list), InputQuery::Answer(false));
    assert_eq!(ask(1, 0, 24, 0, buffer_list(&[0], true)), InputQuery::Answer(false));
    let streams = input_streams_address();
    assert_eq!(streams.selector, u32::from_be_bytes(*b"slay"));
    assert_eq!(streams.scope, u32::from_be_bytes(*b"inpt"));
    assert_eq!(streams.element, 0);
}

fn answer(query: TextQuery) -> Option<String> {
    match query {
        TextQuery::Answer { text } => text,
        _ => panic!("no answer yet"),
    }
}

#[test]
fn a_text_is_taken_from_the_string_object_itself() {
    let query = TextQuery::HasProperty
        .next(&TextReply::HasProperty(1))
        .next(&TextReply::Value { rc: 0, null: false })
        .next(&TextReply::Pointer(Some(b"Studio Mic".to_vec())));
    assert!(matches!(query, TextQuery::Release { .. }));
    assert_eq!(answer(query.next(&TextReply::Released)).as_deref(), Some("Studio Mic"));
}

#[test]
fn a_text_is_copied_where_it_has_to_be() {
    let query = TextQuery::HasProperty
        .next(&TextReply::HasProperty(1))
        .next(&TextReply::Value { rc: 0, null: false })
        .next(&TextReply::Pointer(None))
        .next(&TextReply::Length(4));
    assert!(matches!(query, TextQuery::MaxSize { length: 4 }));
    let query = query.next(&TextReply::MaxSize(12));
    assert!(matches!(query, TextQuery::Copy { capacity: 13 }));
    let query = query.next(&TextReply::Copied { ok: 1, buffer: b"Mic\0\0\0".to_vec() });
    assert_eq!(answer(query.next(&TextReply::Released)).as_deref(), Some("Mic"));

    let query = TextQuery::MaxSize { length: 4 }.next(&TextReply::MaxSize(-1));
    assert!(matches!(query, TextQuery::Copy { capacity: 1 }));
    let query = query.next(&TextReply::Copied { ok: 0, buffer: vec![0] });
    assert!(matches!(query, TextQuery::Release { .. }));
    assert_eq!(answer(query.next(&TextReply::Released)), None);
}

#[test]
fn a_property_that_cannot_be_read_has_no_text() {
    assert_eq!(answer(TextQuery::HasProperty.next(&TextReply::HasProperty(0))), None);
    assert_eq!(answer(TextQuery::Value.next(&TextReply::Value { rc: -1, null: false })), None);
    assert_eq!(answer(TextQuery::Value.next(&TextReply::Value { rc: 0, null: true })), None);
}

#[test]
fn property_selectors_are_their_four_characters() {
    assert_eq!(K_AUDIO_HARDWARE_PROPERTY_DEVICES, u32::from_be_bytes(*b"dev#"));
    assert_eq!(
        K_AUDIO_HARDWARE_PROPERTY_DEFAULT_INPUT_DEVICE,
        u32::from_be_bytes(*b"dIn ")
    );
    assert_eq!(K_AUDIO_DEVICE_PROPERTY_DEVICE_UID, u32::from_be_bytes(*b"uid "));
    assert_eq!(K_AUDIO_OBJECT_PROPERTY_NAME, u32::from_be_bytes(*b"lnam"));
    assert_eq!(K_AUDIO_QUEUE_PROPERTY_CURRENT_DEVICE, u32::from_be_bytes(*b"aqcd"));
    let address = global_address(7);
    assert_eq!(address.selector, 7);
    assert_eq!(address.scope, u32::from_be_bytes(*b"glob"));
    assert_eq!(address.element, 0);
}

fn route(uid: &str, replies: Vec<RouteReply>) -> (Vec<RouteCall>, Opening<DeviceRoute>) {
    let mut replies = replies.into_iter();
    let mut routing = set_queue_device(uid);
    let mut calls = Vec::new();
    loop {
        match routing.request() {
            Request::Call(call) => {
                calls.push(call);
                routing = routing.answer(replies.next().unwrap());
            }
            Request::Release(call) => {
                calls.push(call);
                routing = routing.give_back();
            }
            Request::Opened | Request::Failed => return (calls, routing),
        }
    }
}

fn route_error(routing: &Opening<DeviceRoute>) -> String {
    match finish_routing(routing) {
        Ok(()) => panic!("the routing succeeded"),
        Err(message) => message,
    }
}

#[test]
fn a_queue_is_routed_to_a_device() {
    let set = RouteCall::SetProperty { property: K_AUDIO_QUEUE_PROPERTY_CURRENT_DEVICE };
    let (calls, routing) = route(
        "usb",
        vec![
            RouteReply::Loaded(Ok(())),
            RouteReply::Created { null: false },
            RouteReply::Status(0),
            RouteReply::Released,
        ],
    );
    assert_eq!(
        calls,
        vec![RouteCall::LoadCoreFoundation, RouteCall::CreateString, set, RouteCall::ReleaseString]
    );
    assert_eq!(routing.failure(), None);
    assert_eq!(finish_routing(&routing), Ok(()));
}

#[test]
fn a_failed_routing_tells_why_and_releases_the_string() {
    let set = RouteCall::SetProperty { property: K_AUDIO_QUEUE_PROPERTY_CURRENT_DEVICE };
    let (calls, routing) = route("usb", vec![RouteReply::Loaded(Err("no library".to_string()))]);
    assert_eq!(calls, vec![RouteCall::LoadCoreFoundation]);
    assert_eq!(route_error(&routing), "no library");

    let (calls, routing) = route("u\0b", vec![RouteReply::Loaded(Ok(()))]);
    assert_eq!(calls, vec![RouteCall::LoadCoreFoundation]);
    assert_eq!(route_error(&routing), "failed to create CFString for device UID \"u\\0b\"");

    let (calls, routing) = route(
        "usb",
        vec![RouteReply::Loaded(Ok(())), RouteReply::Created { null: true }],
    );
    assert_eq!(calls, vec![RouteCall::LoadCoreFoundation, RouteCall::CreateString]);
    assert_eq!(route_error(&routing), "failed to create CFString for device UID \"usb\"");

    let (calls, routing) = route(
        "usb",
        vec![
            RouteReply::Loaded(Ok(())),
            RouteReply::Created { null: false },
            RouteReply::Status(-66_683),
        ],
    );
    assert_eq!(
        calls,
        vec![RouteCall::LoadCoreFoundation, RouteCall::CreateString, set, RouteCall::ReleaseString]
    );
    assert_eq!(
        route_error(&routing),
        "AudioQueueSetProperty(CurrentDevice=\"usb\"): -66683"
    );
}

#[test]
fn a_routing_takes_no_reply_to_another_call() {
    let (calls, routing) = route("usb", vec![RouteReply::Released]);
    assert_eq!(calls, vec![RouteCall::LoadCoreFoundation]);
    assert_eq!(route_error(&routing), "unexpected reply");
    let (calls, routing) = route(
        "usb",
        vec![
            RouteReply::Loaded(Ok(())),
            RouteReply::Created { null: false },
            RouteReply::Released,
        ],
    );
    assert_eq!(calls.last(), Some(&RouteCall::ReleaseString));
    assert_eq!(route_error(&routing), "unexpected reply");
}

#[test]
fn routing_messages_show_the_uid() {
    assert_eq!(
        DeviceRoute::error_message(1, &RouteReply::Created { null: true }, "<uid>"),
        "failed to create CFString for device UID <uid>"
    );
    assert_eq!(
        DeviceRoute::error_message(2, &RouteReply::Status(-50), "<uid>"),
        "AudioQueueSetProperty(CurrentDevice=<uid>): -50"
    );
    assert_eq!(
        DeviceRoute::error_message(0, &RouteReply::Loaded(Err("gone".to_string())), "<uid>"),
        "gone"
    );
}
