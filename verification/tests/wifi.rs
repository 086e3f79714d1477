use intro_embedded::wifi::{
    announcement, client_plan, find_channel, settled, joined_address, link_ready, mixed_plan, ApIpStatus,
    ApStatus, BringupStep, ClientConnectionStatus, ClientIpStatus, ClientStatus, Credentials,
    Ipv4Address, JoinStep, MixedJoin, ScannedNetwork, StationBringup, WifiAction, WifiError,
    WifiEvent, WifiPlan, WifiStatus,
};

fn creds() -> Credentials {
    Credentials { ssid: "home".to_string(), password: "pw".to_string() }
}

fn net(ssid: &str, channel: u8) -> ScannedNetwork {
    ScannedNetwork { ssid: ssid.to_string(), channel }
}

fn joined_status(ip: Ipv4Address) -> WifiStatus {
    WifiStatus {
        client: ClientStatus::Started(ClientConnectionStatus::Connected(ClientIpStatus::Done(ip))),
        ap: ApStatus::Started(ApIpStatus::Done),
    }
}

#[test]
fn channel_of_first_matching_network() {
    let scan = vec![net("other", 3), net("home", 6), net("home", 11)];
    assert_eq!(find_channel(&scan, &"home".to_string()), Some(6));
    assert_eq!(find_channel(&scan, &"other".to_string()), Some(3));
    assert_eq!(find_channel(&scan, &"cafe".to_string()), None);
    assert_eq!(find_channel(&Vec::new(), &"home".to_string()), None);
}

#[test]
fn mixed_plan_pins_channels() {
    match mixed_plan(&creds(), Some(6)) {
        WifiPlan::Mixed(sta, ap) => {
            assert_eq!(sta.ssid, "home");
            assert_eq!(sta.password, "pw");
            assert_eq!(sta.channel, Some(6));
            assert_eq!(ap.ssid, "aptest");
            assert_eq!(ap.channel, 6);
        }
        WifiPlan::Client(_) => panic!("expected a mixed plan"),
    }
    match mixed_plan(&creds(), None) {
        WifiPlan::Mixed(sta, ap) => {
            assert_eq!(sta.channel, None);
            assert_eq!(ap.channel, 1);
        }
        WifiPlan::Client(_) => panic!("expected a mixed plan"),
    }
    match client_plan(&creds()) {
        WifiPlan::Client(sta) => {
            assert_eq!(sta.ssid, "home");
            assert_eq!(sta.password, "pw");
            assert_eq!(sta.channel, None);
        }
        WifiPlan::Mixed(_, _) => panic!("expected a client plan"),
    }
}

#[test]
fn joined_only_when_both_sides_are_up() {
    let ip = Ipv4Address(192, 168, 1, 42);
    assert_eq!(joined_address(&joined_status(ip)), Some(ip));
    let mut s = joined_status(ip);
    s.ap = ApStatus::Started(ApIpStatus::Waiting);
    assert_eq!(joined_address(&s), None);
    let mut s = joined_status(ip);
    s.client = ClientStatus::Started(ClientConnectionStatus::Connected(ClientIpStatus::Waiting));
    assert_eq!(joined_address(&s), None);
    let s = WifiStatus { client: ClientStatus::Stopped, ap: ApStatus::Stopped };
    assert_eq!(joined_address(&s), None);
}

#[test]
fn link_needs_connection_and_lease() {
    assert!(link_ready(true, Ipv4Address(10, 0, 0, 2)));
    assert!(link_ready(true, Ipv4Address(0, 0, 0, 1)));
    assert!(!link_ready(true, Ipv4Address(0, 0, 0, 0)));
    assert!(!link_ready(false, Ipv4Address(10, 0, 0, 2)));
}

#[test]
fn mdns_announcement() {
    let a = announcement("2023-01-15T10:00:00+01:00");
    assert_eq!(a.hostname, "hello-esp32");
    assert_eq!(a.instance, "Hello ESP32");
    assert_eq!(a.service, "_http");
    assert_eq!(a.protocol, "_tcp");
    assert_eq!(a.port, 80);
    assert_eq!(a.txt_key, "build-time");
    assert_eq!(a.txt_value, "2023-01-15T10:00:00+01:00");
}

#[test]
fn error_messages() {
    assert_eq!(WifiError::NotStarted.message(), Some("Wifi did not start"));
    assert_eq!(
        WifiError::NoLink.message(),
        Some("Wifi did not connect or did not receive a DHCP lease")
    );
    let status = WifiStatus { client: ClientStatus::Starting, ap: ApStatus::Stopped };
    let e = WifiError::UnexpectedStatus(status);
    assert_eq!(e.message(), Some("Unexpected Wifi status: "));
    assert_eq!(e.status(), Some(status));
    assert_eq!(WifiError::Platform.message(), None);
    assert_eq!(WifiError::NotStarted.status(), None);
}

#[test]
fn mixed_join_happy_path() {
    let ip = Ipv4Address(192, 168, 1, 42);
    let mut j = MixedJoin::new(creds());
    assert!(matches!(j.action(), WifiAction::ScanNetworks));
    j.on_event(WifiEvent::Scanned(vec![net("x", 2), net("home", 9)]));
    assert_eq!(j.step, JoinStep::Configure(Some(9)));
    match j.action() {
        WifiAction::ApplyPlan(WifiPlan::Mixed(sta, ap)) => {
            assert_eq!(sta.channel, Some(9));
            assert_eq!(ap.channel, 9);
        }
        _ => panic!("expected a mixed plan"),
    }
    j.on_event(WifiEvent::Done);
    assert!(matches!(j.action(), WifiAction::AwaitSettled(20000)));
    j.on_event(WifiEvent::Waited(true));
    assert!(matches!(j.action(), WifiAction::AwaitSettled(20000)));
    j.on_event(WifiEvent::SettleEnded(true, joined_status(ip)));
    assert!(matches!(j.action(), WifiAction::ReadStatus));
    j.on_event(WifiEvent::Status(joined_status(ip)));
    assert_eq!(j.step, JoinStep::Joined(ip));
    assert!(matches!(j.action(), WifiAction::Finished(Ok(a)) if a == ip));
    j.on_event(WifiEvent::Failed);
    assert_eq!(j.step, JoinStep::Joined(ip));
}

#[test]
fn mixed_join_failures() {
    let mut j = MixedJoin::new(creds());
    j.on_event(WifiEvent::Scanned(vec![]));
    assert_eq!(j.step, JoinStep::Configure(None));
    j.on_event(WifiEvent::Done);
    let connecting = WifiStatus {
        client: ClientStatus::Started(ClientConnectionStatus::Connecting),
        ap: ApStatus::Started(ApIpStatus::Done),
    };
    j.on_event(WifiEvent::SettleEnded(false, connecting));
    assert_eq!(j.step, JoinStep::Failed(WifiError::UnexpectedStatus(connecting)));

    let mut j = MixedJoin::new(creds());
    j.on_event(WifiEvent::Scanned(vec![]));
    j.on_event(WifiEvent::Done);
    let disconnected = WifiStatus {
        client: ClientStatus::Started(ClientConnectionStatus::Disconnected),
        ap: ApStatus::Started(ApIpStatus::Done),
    };
    j.on_event(WifiEvent::SettleEnded(true, disconnected));
    j.on_event(WifiEvent::Status(disconnected));
    assert_eq!(j.step, JoinStep::Failed(WifiError::UnexpectedStatus(disconnected)));
    match j.action() {
        WifiAction::Finished(Err(e)) => {
            assert_eq!(
                format!("{}{:?}", e.message().unwrap(), e.status().unwrap()),
                format!("Unexpected Wifi status: {:?}", disconnected)
            );
        }
        _ => panic!("expected a failed join"),
    }

    let mut j = MixedJoin::new(creds());
    j.on_event(WifiEvent::Failed);
    assert_eq!(j.step, JoinStep::Failed(WifiError::Platform));
}

#[test]
fn station_bringup_happy_path() {
    let ip = Ipv4Address(172, 20, 10, 3);
    let mut b = StationBringup::new(creds(), "build".to_string());
    match b.action() {
        WifiAction::ApplyPlan(WifiPlan::Client(sta)) => assert_eq!(sta.ssid, "home"),
        _ => panic!("expected a client plan"),
    }
    b.on_event(WifiEvent::Done);
    assert!(matches!(b.action(), WifiAction::StartRadio));
    b.on_event(WifiEvent::Done);
    assert!(matches!(b.action(), WifiAction::AwaitStarted(20000)));
    b.on_event(WifiEvent::Waited(true));
    assert!(matches!(b.action(), WifiAction::ConnectStation));
    b.on_event(WifiEvent::Done);
    assert!(matches!(b.action(), WifiAction::AwaitLink(20000)));
    b.on_event(WifiEvent::Waited(true));
    assert!(matches!(b.action(), WifiAction::FetchAddress));
    b.on_event(WifiEvent::Address(ip));
    match b.action() {
        WifiAction::Announce(a) => {
            assert_eq!(a.hostname, "hello-esp32");
            assert_eq!(a.txt_value, "build");
        }
        _ => panic!("expected an announcement"),
    }
    b.on_event(WifiEvent::Done);
    assert_eq!(b.step, BringupStep::Ready(ip));
    assert!(matches!(b.action(), WifiAction::Finished(Ok(a)) if a == ip));
}

#[test]
fn station_bringup_timeouts() {
    let mut b = StationBringup::new(creds(), String::new());
    b.on_event(WifiEvent::Done);
    b.on_event(WifiEvent::Done);
    b.on_event(WifiEvent::Waited(false));
    assert_eq!(b.step, BringupStep::Failed(WifiError::NotStarted));
    b.on_event(WifiEvent::Waited(true));
    assert_eq!(b.step, BringupStep::Failed(WifiError::NotStarted));

    let mut b = StationBringup::new(creds(), String::new());
    b.on_event(WifiEvent::Done);
    b.on_event(WifiEvent::Done);
    b.on_event(WifiEvent::Waited(true));
    b.on_event(WifiEvent::Done);
    b.on_event(WifiEvent::Waited(false));
    assert_eq!(b.step, BringupStep::Failed(WifiError::NoLink));

    let mut b = StationBringup::new(creds(), String::new());
    b.on_event(WifiEvent::Waited(true));
    assert_eq!(b.step, BringupStep::Configure);
    b.on_event(WifiEvent::Failed);
    assert_eq!(b.step, BringupStep::Failed(WifiError::Platform));
}

#[test]
fn settled_status() {
    let ip = Ipv4Address(10, 0, 0, 7);
    assert!(settled(&joined_status(ip)));
    assert!(settled(&WifiStatus { client: ClientStatus::Stopped, ap: ApStatus::Stopped }));
    assert!(settled(&WifiStatus {
        client: ClientStatus::Started(ClientConnectionStatus::Disconnected),
        ap: ApStatus::Started(ApIpStatus::Done),
    }));
    assert!(!settled(&WifiStatus { client: ClientStatus::Starting, ap: ApStatus::Stopped }));
    assert!(!settled(&WifiStatus {
        client: ClientStatus::Started(ClientConnectionStatus::Connecting),
        ap: ApStatus::Started(ApIpStatus::Done),
    }));
    assert!(!settled(&WifiStatus {
        client: ClientStatus::Started(ClientConnectionStatus::Connected(ClientIpStatus::Waiting)),
        ap: ApStatus::Started(ApIpStatus::Done),
    }));
    assert!(!settled(&WifiStatus {
        client: ClientStatus::Started(ClientConnectionStatus::Disconnected),
        ap: ApStatus::Started(ApIpStatus::Waiting),
    }));
    assert!(!settled(&WifiStatus {
        client: ClientStatus::Stopped,
        ap: ApStatus::Starting,
    }));
}
