use station_server::connect::Action;
use station_server::connect::ConnectError;
use station_server::connect::ConnectionHandle;
use station_server::connect::Credentials;
use station_server::connect::Event;
use station_server::connect::IpInfo;
use station_server::connect::Sequencer;
use station_server::connect::Stage;
use station_server::connect::bring_up;
use station_server::AppContext;

fn assigned() -> IpInfo {
    IpInfo { addr: 0x0A00_0002, gateway: 0x0A00_0001 }
}

fn happy_events(probe_ok: bool) -> Vec<Event> {
    vec![
        Event::Wrapped(true),
        Event::Configured(true),
        Event::Started(true),
        Event::Associated(true),
        Event::AddressReported(Some(assigned())),
        Event::Probed(probe_ok),
    ]
}

#[test]
fn scenario_valid_credentials_reachable_ap() {
    let r = bring_up(b"home-net", b"secret-pass", &happy_events(true));
    let h = r.expect("a full run returns a handle");
    assert_eq!(h.ip.addr, 0x0A00_0002);
    assert_eq!(h.ip.gateway, 0x0A00_0001);
    assert_ne!(h.ip.addr, 0);
}

#[test]
fn probe_failure_does_not_change_outcome() {
    let ok = bring_up(b"home-net", b"secret-pass", &happy_events(true));
    let failed_probe = bring_up(b"home-net", b"secret-pass", &happy_events(false));
    let h1 = ok.expect("probe success run returns a handle");
    let h2 = failed_probe.expect("probe failure run still returns the handle");
    assert_eq!(h1.ip, h2.ip);
}

#[test]
fn scenario_oversized_ssid_fails_before_any_network_io() {
    let long_ssid = [b'a'; 33];
    // no notifications at all: the failure comes before the driver is asked
    // to do anything
    let r = bring_up(&long_ssid, b"secret-pass", &Vec::new());
    assert_eq!(r, Err(ConnectError::Config));
    // and the outcome is the same whatever notifications would have come
    let r2 = bring_up(&long_ssid, b"secret-pass", &happy_events(true));
    assert_eq!(r2, Err(ConnectError::Config));
}

#[test]
fn oversized_pass_fails_the_same_way() {
    let long_pass = [b'p'; 65];
    let r = bring_up(b"home-net", &long_pass, &happy_events(true));
    assert_eq!(r, Err(ConnectError::Config));
}

#[test]
fn credentials_at_the_bounds_are_accepted() {
    let ssid = [b's'; 32];
    let pass = [b'p'; 64];
    let c = Credentials::new(&ssid, &pass).expect("bounds are inclusive");
    assert_eq!(c.ssid().as_slice(), &ssid[..]);
    assert_eq!(c.pass().as_slice(), &pass[..]);
}

#[test]
fn credentials_over_the_bounds_are_rejected() {
    let ssid = [b's'; 33];
    let pass = [b'p'; 64];
    match Credentials::new(&ssid, &pass) {
        Err(ConnectError::Config) => {}
        _ => panic!("a 33-byte network identifier must be rejected"),
    }
    let ssid_ok = [b's'; 32];
    let pass_long = [b'p'; 65];
    match Credentials::new(&ssid_ok, &pass_long) {
        Err(ConnectError::Config) => {}
        _ => panic!("a 65-byte secret must be rejected"),
    }
}

#[test]
fn stage_failures_map_to_their_errors() {
    let cases: Vec<(Vec<Event>, ConnectError)> = vec![
        (vec![Event::Wrapped(false)], ConnectError::Init),
        (vec![Event::Wrapped(true), Event::Configured(false)], ConnectError::Config),
        (
            vec![Event::Wrapped(true), Event::Configured(true), Event::Started(false)],
            ConnectError::Start,
        ),
        (
            vec![
                Event::Wrapped(true),
                Event::Configured(true),
                Event::Started(true),
                Event::Associated(false),
            ],
            ConnectError::Assoc,
        ),
        (
            vec![
                Event::Wrapped(true),
                Event::Configured(true),
                Event::Started(true),
                Event::Associated(true),
                Event::AddressReported(None),
            ],
            ConnectError::Address,
        ),
    ];
    for (events, expected) in cases {
        let r = bring_up(b"home-net", b"secret-pass", &events);
        assert_eq!(r, Err(expected));
    }
}

#[test]
fn zero_address_counts_as_unassigned() {
    let mut events = happy_events(true);
    events[4] = Event::AddressReported(Some(IpInfo { addr: 0, gateway: 0x0A00_0001 }));
    let r = bring_up(b"home-net", b"secret-pass", &events);
    assert_eq!(r, Err(ConnectError::Address));
}

#[test]
fn actions_follow_the_stages_in_order() {
    let mut m = Sequencer::new();
    assert_eq!(m.next_action(), Action::WrapInterface);
    assert!(m.on_event(Event::Wrapped(true)).is_ok());
    assert_eq!(m.next_action(), Action::ApplyConfiguration);
    assert!(m.on_event(Event::Configured(true)).is_ok());
    assert_eq!(m.next_action(), Action::RequestStart);
    assert!(m.on_event(Event::Started(true)).is_ok());
    assert_eq!(m.next_action(), Action::RequestAssociation);
    assert!(m.on_event(Event::Associated(true)).is_ok());
    assert_eq!(m.next_action(), Action::AwaitAddress);
    assert!(m.on_event(Event::AddressReported(Some(assigned()))).is_ok());
    assert_eq!(m.next_action(), Action::ProbeGateway);
    assert!(m.on_event(Event::Probed(false)).is_ok());
    assert_eq!(m.next_action(), Action::Finished);
    assert_eq!(m.stage, Stage::Done);
}

#[test]
fn no_handle_before_the_run_is_done() {
    let mut m = Sequencer::new();
    assert!(m.finish().is_none());
    assert!(m.on_event(Event::Wrapped(true)).is_ok());
    assert!(m.finish().is_none());
}

#[test]
fn failed_stage_leaves_the_sequencer_where_it_was() {
    let mut m = Sequencer::new();
    assert!(m.on_event(Event::Wrapped(true)).is_ok());
    let r = m.on_event(Event::Configured(false));
    assert_eq!(r, Err(ConnectError::Config));
    assert_eq!(m.stage, Stage::Configuring);
}

#[test]
fn context_keeps_the_handle_and_the_mount_outcome() {
    let h = ConnectionHandle { ip: assigned() };
    let ctx = AppContext::new(h, false);
    assert_eq!(ctx.connection.ip, assigned());
    assert!(!ctx.mounted);
}
