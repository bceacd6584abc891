//! What the BlueZ layer makes of what it sees.

use aurisd::address::Address;
use aurisd::bluez::{
    a2dp_uuid, apple_host_id, device_path, link_facts, looks_like_airpods, model_id_of,
    object_under, page_begun, page_refusal, page_step, paged, pick_device, refused_claim,
    refused_connect, streaming_state, watch_ended, AudioWatch, Candidate, ClaimEnd, DeviceChange,
    DeviceWatch, LinkEvent, Modalias, PageFact, PageStep, A2DP_SINK_UUID, A2DP_SOURCE_UUID,
    TRANSPORT_IFACE,
};
use aurisd::rejoin::{LinkFacts, Outcome, Reason};

const HFP: &str = "0000111e-0000-1000-8000-00805f9b34fb";
const DEVICE: &str = "/org/bluez/hci0/dev_BC_80_4E_01_02_03";

fn addr(last: u8) -> Address {
    Address([0xBC, 0x80, 0x4E, 1, 2, last])
}

fn record(source: &str, vendor: u32) -> Modalias {
    Modalias {
        source: source.to_owned(),
        vendor,
        product: 0x201b,
    }
}

fn candidate(last: u8, paired: bool, modalias: Option<Modalias>, name: Option<&str>) -> Candidate {
    Candidate {
        address: addr(last),
        paired,
        modalias,
        name: name.map(str::to_owned),
    }
}

/// A short form of what a list of events says.
fn said(events: &[LinkEvent]) -> Vec<String> {
    events
        .iter()
        .map(|e| match e {
            LinkEvent::AudioTransport => "changed".to_owned(),
            LinkEvent::A2dpTransport { active, .. } => format!("a2dp {active}"),
            LinkEvent::HandsFreeTransport { transports } => format!("hands-free {transports}"),
            other => format!("{other:?}"),
        })
        .collect()
}

#[test]
fn an_apple_record_counts_only_in_the_bluetooth_numbering() {
    assert_eq!(apple_host_id(Some(&record("bluetooth", 0x4c))), Some(true));
    assert_eq!(apple_host_id(Some(&record("usb", 0x4c))), Some(false));
    assert_eq!(apple_host_id(Some(&record("bluetooth", 0x1d6b))), Some(false));
    assert_eq!(apple_host_id(None), None);
    assert_eq!(model_id_of(0x4c, 0x201b).as_deref(), Some("201B"));
    assert_eq!(model_id_of(0x4c, 0x2f).as_deref(), Some("002F"));
    assert_eq!(model_id_of(0x1d6b, 0x201b), None);
}

#[test]
fn a_pin_beats_every_candidate_and_the_first_paired_airpods_win_without_one() {
    let list = vec![
        candidate(1, true, None, Some("Keyboard")),
        candidate(2, false, None, Some("My AirPods")),
        candidate(3, true, None, Some("aIrPoDs of M")),
        candidate(4, true, Some(record("bluetooth", 0x4c)), None),
    ];
    assert!(looks_like_airpods(&list[1]));
    assert!(!looks_like_airpods(&list[0]));
    assert!(looks_like_airpods(&list[3]));
    assert_eq!(pick_device(None, &list), Some(addr(3)));
    assert_eq!(pick_device(Some(addr(9)), &list), Some(addr(9)));
    assert_eq!(pick_device(None, &Vec::new()), None);
    assert_eq!(device_path("hci0", addr(3)), DEVICE);
}

#[test]
fn a_changed_property_becomes_one_event() {
    let mut watch = DeviceWatch {
        adapter: addr(0),
        address: addr(3),
        pinned: true,
        connected: false,
    };
    assert!(matches!(
        watch.changed(DeviceChange::Connected(true)),
        Some(LinkEvent::Connected(true))
    ));
    assert!(watch.connected);
    for change in [
        DeviceChange::Name("Buds".into()),
        DeviceChange::Alias("Buds".into()),
    ] {
        let Some(LinkEvent::Identity { adapter, address, name, model_id, pinned }) =
            watch.changed(change)
        else {
            panic!("no identity");
        };
        assert_eq!((adapter, address, pinned), (addr(0), addr(3), true));
        assert_eq!((name.as_deref(), model_id), (Some("Buds"), None));
    }
    let Some(LinkEvent::Identity { name, model_id, .. }) = watch.changed(DeviceChange::Modalias {
        vendor: 0x4c,
        product: 0x201b,
    }) else {
        panic!("no identity");
    };
    assert_eq!((name, model_id.as_deref()), (None, Some("201B")));
    assert!(watch.changed(DeviceChange::Other).is_none());

    assert!(watch.reconciled(true).is_none());
    assert!(matches!(
        watch.reconciled(false),
        Some(LinkEvent::Connected(false))
    ));
    assert!(watch.reconciled(false).is_none());
}

#[test]
fn the_end_of_a_watch_is_no_evidence_about_a_powered_adapter() {
    assert!(matches!(watch_ended(Some(true)), LinkEvent::WatchEnded));
    assert!(matches!(watch_ended(Some(false)), LinkEvent::AdapterGone));
    assert!(matches!(watch_ended(None), LinkEvent::AdapterGone));
    assert_eq!(
        link_facts(Some(true), Some(false), Some(true)),
        Some(LinkFacts {
            powered: true,
            paired: false,
            blocked: true,
        })
    );
    assert_eq!(link_facts(Some(true), None, Some(true)), None);
}

#[test]
fn each_fact_rules_a_connect_out_with_its_own_word() {
    let refused = [
        (PageFact::Powered, false, "adapter_off"),
        (PageFact::Paired, false, "not_paired"),
        (PageFact::Blocked, true, "blocked"),
        (PageFact::Connected, true, "connected_by_other_means"),
        (PageFact::Wanted, false, "superseded"),
    ];
    for (fact, value, word) in refused {
        assert_eq!(page_refusal(fact, value), Some(word));
        assert_eq!(page_refusal(fact, !value), None);
    }
}

/// Where reading the facts leads: powered, paired, blocked, connected, wanted.
fn led(found: bool, values: [bool; 5]) -> PageStep {
    let mut step = page_begun(found);
    let mut read = 0;
    while let PageStep::Read(fact) = step {
        step = page_step(fact, values[read]);
        read += 1;
    }
    step
}

#[test]
fn a_connect_needs_every_fact_and_the_first_that_fails_is_said() {
    assert_eq!(led(true, [true, true, false, false, true]), PageStep::Connect);
    assert_eq!(
        led(false, [true, true, false, false, true]),
        PageStep::Refuse("adapter_gone")
    );
    assert_eq!(
        led(true, [true, true, true, true, false]),
        PageStep::Refuse("blocked")
    );
    assert_eq!(
        led(true, [true, true, false, false, false]),
        PageStep::Refuse("superseded")
    );
    assert_eq!(paged(Some(Outcome::Busy)), Outcome::Busy);
    assert_eq!(
        paged(None),
        Outcome::Failed("Device1.Connect timed out; it may still complete".into())
    );
}

#[test]
fn a_refused_profile_connect_is_success_busy_or_failed() {
    assert_eq!(refused_claim(true, false, "busy"), ClaimEnd::Connected);
    assert_eq!(refused_claim(false, true, ""), ClaimEnd::Busy);
    assert_eq!(refused_claim(false, false, "br-connection-busy"), ClaimEnd::Busy);
    assert_eq!(refused_claim(false, false, "refused"), ClaimEnd::Failed);
}

#[test]
fn a_refused_connect_is_busy_settled_or_failed() {
    assert_eq!(
        refused_connect(true, true, "busy", "x".into()),
        Outcome::NotReady("connected_by_other_means")
    );
    assert_eq!(refused_connect(false, true, "", "x".into()), Outcome::Busy);
    assert_eq!(
        refused_connect(false, false, "br-connection-busy", "x".into()),
        Outcome::Busy
    );
    assert_eq!(
        refused_connect(false, false, "page-timeout", "all of it".into()),
        Outcome::Failed("all of it".into())
    );
}

#[test]
fn reasons_are_read_by_their_full_name() {
    assert_eq!(Reason::from_bluez("org.bluez.Reason.Timeout"), Reason::Timeout);
    assert_eq!(Reason::from_bluez("org.bluez.Reason.Local"), Reason::Local);
    assert_eq!(Reason::from_bluez("org.bluez.Reason.Remote"), Reason::Remote);
    assert_eq!(
        Reason::from_bluez("org.bluez.Reason.Authentication"),
        Reason::Authentication
    );
    assert_eq!(Reason::from_bluez("org.bluez.Reason.Suspend"), Reason::Suspend);
    assert_eq!(Reason::from_bluez("Remote"), Reason::Unknown);
}

#[test]
fn a2dp_and_streaming_words() {
    assert!(a2dp_uuid(A2DP_SINK_UUID));
    assert!(a2dp_uuid(&A2DP_SOURCE_UUID.to_uppercase()));
    assert!(!a2dp_uuid(HFP));
    assert!(streaming_state("pending"));
    assert!(streaming_state("active"));
    assert!(!streaming_state("idle"));
    assert!(object_under(Some("/a/b/c"), "/a/b/"));
    assert!(!object_under(Some("/a/b"), "/a/b/"));
    assert!(!object_under(None, ""));
}

#[test]
fn the_audio_watch_says_each_change_once() {
    let fd = format!("{DEVICE}/fd0");
    let mut watch = AudioWatch::new(DEVICE);
    watch.seed(&fd, Some(A2DP_SINK_UUID), Some("idle"));
    watch.seed("/org/bluez/hci0/dev_00/fd0", Some(A2DP_SINK_UUID), Some("active"));
    assert_eq!(said(&watch.start()), ["a2dp false"]);

    let active = watch.properties_changed(Some(&fd), Some(TRANSPORT_IFACE), true, Some("active"));
    assert_eq!(said(&active), ["changed", "a2dp true"]);
    let again = watch.properties_changed(Some(&fd), Some(TRANSPORT_IFACE), true, Some("active"));
    assert_eq!(said(&again), ["changed"]);
    let volume = watch.properties_changed(Some(&fd), Some(TRANSPORT_IFACE), false, None);
    assert_eq!(said(&volume), Vec::<String>::new());
    let other = watch.properties_changed(Some(&fd), Some("org.bluez.Battery1"), true, Some("idle"));
    assert_eq!(said(&other), Vec::<String>::new());

    assert_eq!(said(&watch.removed(Some(&fd))), ["changed", "a2dp false"]);
    assert_eq!(said(&watch.removed(None)), Vec::<String>::new());
}

#[test]
fn audio_on_the_hands_free_profile_is_said_when_it_lands_there() {
    let fd = format!("{DEVICE}/fd1");
    let detail = format!("hands-free {fd} {HFP} streaming");
    let mut watch = AudioWatch::new(DEVICE);
    assert_eq!(said(&watch.start()), ["a2dp false"]);
    let landed = watch.added(Some(&fd), true, Some(HFP), Some("active"));
    assert_eq!(said(&landed), ["changed".to_owned(), detail.clone()]);
    let endpoint = watch.added(Some(&format!("{DEVICE}/sep1")), false, None, None);
    assert_eq!(said(&endpoint), ["changed"]);
    let left = watch.properties_changed(Some(&fd), Some(TRANSPORT_IFACE), true, Some("idle"));
    assert_eq!(said(&left), ["changed"]);
    let back = watch.properties_changed(Some(&fd), Some(TRANSPORT_IFACE), true, Some("pending"));
    assert_eq!(said(&back), ["changed".to_owned(), detail]);
}
