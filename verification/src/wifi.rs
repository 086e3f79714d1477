//! Joining a Wi-Fi network in the two ESP32 web demos.
//!
//! The first demo scans for its access point to learn the channel, then
//! runs as a station and as an access point of its own on that channel, and
//! checks the final status of both. The later demo runs as a station only:
//! it starts the radio, connects, waits for a DHCP lease and announces its
//! web server over mDNS.
//!
//! The radio work is the platform's. [`MixedJoin`] and [`StationBringup`]
//! hold the decisions of the two demos: which step comes next, what to do
//! there, and when to give up.

use vstd::prelude::*;
use vstd::string::*;

verus! {

/// The name of the access point that the first demo opens itself.
pub const OWN_AP_SSID: &'static str = "aptest";

/// The channel of that access point when the scan did not find the network.
pub const DEFAULT_AP_CHANNEL: u8 = 1;

/// How long each wait for the radio lasts, in milliseconds.
pub const WIFI_WAIT_MS: u32 = 20000;

/// The host name that the later demo announces over mDNS.
pub const MDNS_HOSTNAME: &'static str = "hello-esp32";

/// The instance name of the announced web service.
pub const MDNS_INSTANCE: &'static str = "Hello ESP32";

/// The service type of the announced web service.
pub const MDNS_SERVICE: &'static str = "_http";

/// The protocol of the announced web service.
pub const MDNS_PROTOCOL: &'static str = "_tcp";

/// The port of the announced web service.
pub const MDNS_PORT: u16 = 80;

/// The key of the one TXT record of the announcement: the firmware's build time.
pub const MDNS_BUILD_TIME_KEY: &'static str = "build-time";

/// The network and password to join.
pub struct Credentials {
    pub ssid: String,
    pub password: String,
}

/// Credentials as values.
pub struct CredentialsView {
    pub ssid: Seq<char>,
    pub password: Seq<char>,
}

impl View for Credentials {
    type V = CredentialsView;

    open spec fn view(&self) -> CredentialsView {
        CredentialsView { ssid: self.ssid@, password: self.password@ }
    }
}

/// A network that a scan found.
pub struct ScannedNetwork {
    pub ssid: String,
    pub channel: u8,
}

/// A scanned network as values.
pub struct ScannedNetworkView {
    pub ssid: Seq<char>,
    pub channel: u8,
}

impl View for ScannedNetwork {
    type V = ScannedNetworkView;

    open spec fn view(&self) -> ScannedNetworkView {
        ScannedNetworkView { ssid: self.ssid@, channel: self.channel }
    }
}

/// The scan results as values.
pub open spec fn scan_view(scan: Seq<ScannedNetwork>) -> Seq<ScannedNetworkView> {
    scan.map_values(|n: ScannedNetwork| n@)
}

/// The channel of the first scanned network with the given name, if any.
pub open spec fn first_channel(scan: Seq<ScannedNetworkView>, ssid: Seq<char>) -> Option<u8>
    decreases scan.len(),
{
    if scan.len() == 0 {
        None
    } else if scan[0].ssid == ssid {
        Some(scan[0].channel)
    } else {
        first_channel(scan.drop_first(), ssid)
    }
}

/// The station side of a configuration.
pub struct StationConfig {
    pub ssid: String,
    pub password: String,
    pub channel: Option<u8>,
}

/// The access point side of a configuration (open, no password).
pub struct AccessPointConfig {
    pub ssid: String,
    pub channel: u8,
}

/// The radio configuration to apply.
pub enum WifiPlan {
    /// A station only.
    Client(StationConfig),
    /// A station and an access point at once.
    Mixed(StationConfig, AccessPointConfig),
}

pub struct StationConfigView {
    pub ssid: Seq<char>,
    pub password: Seq<char>,
    pub channel: Option<u8>,
}

pub struct AccessPointConfigView {
    pub ssid: Seq<char>,
    pub channel: u8,
}

pub enum WifiPlanView {
    Client(StationConfigView),
    Mixed(StationConfigView, AccessPointConfigView),
}

impl View for StationConfig {
    type V = StationConfigView;

    open spec fn view(&self) -> StationConfigView {
        StationConfigView { ssid: self.ssid@, password: self.password@, channel: self.channel }
    }
}

impl View for AccessPointConfig {
    type V = AccessPointConfigView;

    open spec fn view(&self) -> AccessPointConfigView {
        AccessPointConfigView { ssid: self.ssid@, channel: self.channel }
    }
}

impl View for WifiPlan {
    type V = WifiPlanView;

    open spec fn view(&self) -> WifiPlanView {
        match self {
            WifiPlan::Client(s) => WifiPlanView::Client(s@),
            WifiPlan::Mixed(s, a) => WifiPlanView::Mixed(s@, a@),
        }
    }
}

/// The configuration of the first demo: a station on the network, pinned to
/// the channel the scan found, beside an access point of its own on that
/// channel, or on channel 1 when the scan did not find the network.
pub open spec fn spec_mixed_plan(creds: CredentialsView, channel: Option<u8>) -> WifiPlanView {
    WifiPlanView::Mixed(
        StationConfigView { ssid: creds.ssid, password: creds.password, channel },
        AccessPointConfigView {
            ssid: OWN_AP_SSID@,
            channel: match channel {
                Some(c) => c,
                None => DEFAULT_AP_CHANNEL,
            },
        },
    )
}

/// The configuration of the later demo: a station on the network, on
/// whatever channel it uses.
pub open spec fn spec_client_plan(creds: CredentialsView) -> WifiPlanView {
    WifiPlanView::Client(
        StationConfigView { ssid: creds.ssid, password: creds.password, channel: None },
    )
}

/// How a join can fail.
#[derive(PartialEq, Eq, Structural, Clone, Copy, Debug)]
pub enum WifiError {
    /// The radio did not report itself started in time.
    NotStarted,
    /// The station did not connect, or got no DHCP lease, in time.
    NoLink,
    /// The radio did not settle in time, or settled in another state than
    /// joined; the status it was in then.
    UnexpectedStatus(WifiStatus),
    /// A call into the platform failed.
    Platform,
}

/// An IPv4 address, octet by octet.
#[derive(PartialEq, Eq, Structural, Clone, Copy, Debug)]
pub struct Ipv4Address(pub u8, pub u8, pub u8, pub u8);

/// The address state of the station.
#[derive(PartialEq, Eq, Structural, Clone, Copy, Debug)]
pub enum ClientIpStatus {
    Disabled,
    Waiting,
    Done(Ipv4Address),
}

/// The connection state of the station.
#[derive(PartialEq, Eq, Structural, Clone, Copy, Debug)]
pub enum ClientConnectionStatus {
    Disconnected,
    Connecting,
    Connected(ClientIpStatus),
}

/// The state of the station.
#[derive(PartialEq, Eq, Structural, Clone, Copy, Debug)]
pub enum ClientStatus {
    Stopped,
    Starting,
    Started(ClientConnectionStatus),
}

/// The address state of the access point.
#[derive(PartialEq, Eq, Structural, Clone, Copy, Debug)]
pub enum ApIpStatus {
    Disabled,
    Waiting,
    Done,
}

/// The state of the access point.
#[derive(PartialEq, Eq, Structural, Clone, Copy, Debug)]
pub enum ApStatus {
    Stopped,
    Starting,
    Started(ApIpStatus),
}

/// The state of the radio, station and access point.
#[derive(PartialEq, Eq, Structural, Clone, Copy, Debug)]
pub struct WifiStatus {
    pub client: ClientStatus,
    pub ap: ApStatus,
}

/// The address of the station when the first demo counts as joined: the
/// station is connected with an address and the access point is up.
pub open spec fn spec_joined_address(status: WifiStatus) -> Option<Ipv4Address> {
    match status.client {
        ClientStatus::Started(ClientConnectionStatus::Connected(ClientIpStatus::Done(ip))) => {
            match status.ap {
                ApStatus::Started(ApIpStatus::Done) => Some(ip),
                _ => None,
            }
        },
        _ => None,
    }
}

/// Whether the radio has settled, as the first demo waits for it: neither
/// the station nor the access point is starting, the station is not
/// connecting, and neither side is waiting for its address.
pub open spec fn spec_settled(status: WifiStatus) -> bool {
    let client_moving = match status.client {
        ClientStatus::Starting => true,
        ClientStatus::Started(ClientConnectionStatus::Connecting) => true,
        ClientStatus::Started(ClientConnectionStatus::Connected(ClientIpStatus::Waiting)) => true,
        _ => false,
    };
    let ap_moving = match status.ap {
        ApStatus::Starting => true,
        ApStatus::Started(ApIpStatus::Waiting) => true,
        _ => false,
    };
    !client_moving && !ap_moving
}

/// The unspecified address, that a station has before its DHCP lease.
pub open spec fn is_unspecified(ip: Ipv4Address) -> bool {
    ip.0 == 0 && ip.1 == 0 && ip.2 == 0 && ip.3 == 0
}

/// Whether the later demo's station is up: connected, with a leased address.
pub open spec fn spec_link_ready(connected: bool, ip: Ipv4Address) -> bool {
    connected && !is_unspecified(ip)
}

/// The mDNS announcement of the web server.
pub struct MdnsAnnouncement {
    pub hostname: &'static str,
    pub instance: &'static str,
    pub service: &'static str,
    pub protocol: &'static str,
    pub port: u16,
    pub txt_key: &'static str,
    pub txt_value: String,
}

pub struct MdnsAnnouncementView {
    pub hostname: Seq<char>,
    pub instance: Seq<char>,
    pub service: Seq<char>,
    pub protocol: Seq<char>,
    pub port: u16,
    pub txt_key: Seq<char>,
    pub txt_value: Seq<char>,
}

impl View for MdnsAnnouncement {
    type V = MdnsAnnouncementView;

    open spec fn view(&self) -> MdnsAnnouncementView {
        MdnsAnnouncementView {
            hostname: self.hostname@,
            instance: self.instance@,
            service: self.service@,
            protocol: self.protocol@,
            port: self.port,
            txt_key: self.txt_key@,
            txt_value: self.txt_value@,
        }
    }
}

/// The announcement: `hello-esp32`, an HTTP service "Hello ESP32" on TCP port
/// 80, with the firmware's build time in a TXT record.
pub open spec fn spec_announcement(build_time: Seq<char>) -> MdnsAnnouncementView {
    MdnsAnnouncementView {
        hostname: MDNS_HOSTNAME@,
        instance: MDNS_INSTANCE@,
        service: MDNS_SERVICE@,
        protocol: MDNS_PROTOCOL@,
        port: MDNS_PORT,
        txt_key: MDNS_BUILD_TIME_KEY@,
        txt_value: build_time,
    }
}

/// The channel of the first scanned network with the given name, as the
/// first demo looks for its access point.
pub fn find_channel(scan: &Vec<ScannedNetwork>, ssid: &String) -> (channel: Option<u8>)
    ensures
        channel == first_channel(scan_view(scan@), ssid@),
{
    let ghost all = scan_view(scan@);
    let mut i: usize = 0;
    assert(all.skip(0) =~= all);
    while i < scan.len()
        invariant
            i <= scan@.len(),
            all == scan_view(scan@),
            first_channel(all, ssid@) == first_channel(all.skip(i as int), ssid@),
        decreases scan@.len() - i,
    {
        let ghost rest = all.skip(i as int);
        assert(rest[0] == scan@[i as int]@);
        if scan[i].ssid == *ssid {
            return Some(scan[i].channel);
        }
        assert(rest.drop_first() =~= all.skip(i + 1));
        i = i + 1;
    }
    assert(all.skip(i as int) =~= Seq::<ScannedNetworkView>::empty());
    None
}

/// The configuration of the first demo for the channel that the scan found.
pub fn mixed_plan(creds: &Credentials, channel: Option<u8>) -> (plan: WifiPlan)
    ensures
        plan@ == spec_mixed_plan(creds@, channel),
{
    let ap_channel = match channel {
        Some(c) => c,
        None => DEFAULT_AP_CHANNEL,
    };
    WifiPlan::Mixed(
        StationConfig {
            ssid: creds.ssid.clone(),
            password: creds.password.clone(),
            channel,
        },
        AccessPointConfig { ssid: String::from_str(OWN_AP_SSID), channel: ap_channel },
    )
}

/// The configuration of the later demo.
pub fn client_plan(creds: &Credentials) -> (plan: WifiPlan)
    ensures
        plan@ == spec_client_plan(creds@),
{
    WifiPlan::Client(
        StationConfig {
            ssid: creds.ssid.clone(),
            password: creds.password.clone(),
            channel: None,
        },
    )
}

/// The station's address if the first demo has joined, else `None`.
pub fn joined_address(status: &WifiStatus) -> (ip: Option<Ipv4Address>)
    ensures
        ip == spec_joined_address(*status),
{
    match status.client {
        ClientStatus::Started(ClientConnectionStatus::Connected(ClientIpStatus::Done(ip))) => {
            match status.ap {
                ApStatus::Started(ApIpStatus::Done) => Some(ip),
                _ => None,
            }
        },
        _ => None,
    }
}

/// Whether the radio has settled, the condition of the first demo's wait.
pub fn settled(status: &WifiStatus) -> (r: bool)
    ensures
        r == spec_settled(*status),
{
    let client_moving = match status.client {
        ClientStatus::Starting => true,
        ClientStatus::Started(ClientConnectionStatus::Connecting) => true,
        ClientStatus::Started(ClientConnectionStatus::Connected(ClientIpStatus::Waiting)) => true,
        _ => false,
    };
    let ap_moving = match status.ap {
        ApStatus::Starting => true,
        ApStatus::Started(ApIpStatus::Waiting) => true,
        _ => false,
    };
    !client_moving && !ap_moving
}

/// Whether the later demo's station is connected and has left the
/// unspecified address 0.0.0.0 behind.
pub fn link_ready(connected: bool, ip: Ipv4Address) -> (ready: bool)
    ensures
        ready == spec_link_ready(connected, ip),
{
    connected && !(ip.0 == 0 && ip.1 == 0 && ip.2 == 0 && ip.3 == 0)
}

/// The mDNS announcement for a firmware built at `build_time`.
pub fn announcement(build_time: &str) -> (a: MdnsAnnouncement)
    ensures
        a@ == spec_announcement(build_time@),
{
    MdnsAnnouncement {
        hostname: MDNS_HOSTNAME,
        instance: MDNS_INSTANCE,
        service: MDNS_SERVICE,
        protocol: MDNS_PROTOCOL,
        port: MDNS_PORT,
        txt_key: MDNS_BUILD_TIME_KEY,
        txt_value: String::from_str(build_time),
    }
}

impl WifiError {
    /// The words the demos fail with. For an unexpected status they are the
    /// start of the message, which goes on with the status that the error
    /// holds, in its `Debug` form. A failed platform call is reported with
    /// the platform's own error instead.
    pub fn message(&self) -> (m: Option<&'static str>)
        ensures
            (m is None) == (*self == WifiError::Platform),
            *self == WifiError::NotStarted ==> m == Some("Wifi did not start"),
            *self == WifiError::NoLink ==> m == Some(
                "Wifi did not connect or did not receive a DHCP lease",
            ),
            *self is UnexpectedStatus ==> m == Some("Unexpected Wifi status: "),
    {
        match self {
            WifiError::NotStarted => Some("Wifi did not start"),
            WifiError::NoLink => Some("Wifi did not connect or did not receive a DHCP lease"),
            WifiError::UnexpectedStatus(_) => Some("Unexpected Wifi status: "),
            WifiError::Platform => None,
        }
    }

    /// The status that an unexpected-status error reports, if this is one.
    pub fn status(&self) -> (s: Option<WifiStatus>)
        ensures
            match *self {
                WifiError::UnexpectedStatus(st) => s == Some(st),
                _ => s is None,
            },
    {
        match self {
            WifiError::UnexpectedStatus(st) => Some(*st),
            _ => None,
        }
    }
}

/// What the board has to do next to join the network.
pub enum WifiAction {
    /// Scan for access points.
    ScanNetworks,
    /// Apply this configuration to the radio (for a mixed configuration
    /// the radio starts and the station connects with it).
    ApplyPlan(WifiPlan),
    /// Start the radio.
    StartRadio,
    /// Wait at most this many milliseconds for the radio to report itself started.
    AwaitStarted(u32),
    /// Connect the station to its access point.
    ConnectStation,
    /// Wait at most this many milliseconds for [`link_ready`] to hold.
    AwaitLink(u32),
    /// Wait at most this many milliseconds for the radio to settle (see [`settled`]).
    AwaitSettled(u32),
    /// Read the radio's status.
    ReadStatus,
    /// Read the station's address.
    FetchAddress,
    /// Announce the web server over mDNS.
    Announce(MdnsAnnouncement),
    /// Nothing more to do: joined with this address, or failed.
    Finished(Result<Ipv4Address, WifiError>),
}

pub enum WifiActionView {
    ScanNetworks,
    ApplyPlan(WifiPlanView),
    StartRadio,
    AwaitStarted(u32),
    ConnectStation,
    AwaitLink(u32),
    AwaitSettled(u32),
    ReadStatus,
    FetchAddress,
    Announce(MdnsAnnouncementView),
    Finished(Result<Ipv4Address, WifiError>),
}

impl View for WifiAction {
    type V = WifiActionView;

    open spec fn view(&self) -> WifiActionView {
        match self {
            WifiAction::ScanNetworks => WifiActionView::ScanNetworks,
            WifiAction::ApplyPlan(p) => WifiActionView::ApplyPlan(p@),
            WifiAction::StartRadio => WifiActionView::StartRadio,
            WifiAction::AwaitStarted(ms) => WifiActionView::AwaitStarted(*ms),
            WifiAction::ConnectStation => WifiActionView::ConnectStation,
            WifiAction::AwaitLink(ms) => WifiActionView::AwaitLink(*ms),
            WifiAction::AwaitSettled(ms) => WifiActionView::AwaitSettled(*ms),
            WifiAction::ReadStatus => WifiActionView::ReadStatus,
            WifiAction::FetchAddress => WifiActionView::FetchAddress,
            WifiAction::Announce(a) => WifiActionView::Announce(a@),
            WifiAction::Finished(r) => WifiActionView::Finished(*r),
        }
    }
}

/// What the board reports once it has performed the action.
pub enum WifiEvent {
    /// The action is done and gave nothing back.
    Done,
    /// The wait ended: `true` when the condition came true in time.
    Waited(bool),
    /// The wait for the radio to settle ended: `true` when it settled in
    /// time; and the status at the end of the wait.
    SettleEnded(bool, WifiStatus),
    /// The scan found these networks.
    Scanned(Vec<ScannedNetwork>),
    /// The radio is in this state.
    Status(WifiStatus),
    /// The station has this address.
    Address(Ipv4Address),
    /// The platform call failed.
    Failed,
}

pub enum WifiEventView {
    Done,
    Waited(bool),
    SettleEnded(bool, WifiStatus),
    Scanned(Seq<ScannedNetworkView>),
    Status(WifiStatus),
    Address(Ipv4Address),
    Failed,
}

impl View for WifiEvent {
    type V = WifiEventView;

    open spec fn view(&self) -> WifiEventView {
        match self {
            WifiEvent::Done => WifiEventView::Done,
            WifiEvent::Waited(b) => WifiEventView::Waited(*b),
            WifiEvent::SettleEnded(b, st) => WifiEventView::SettleEnded(*b, *st),
            WifiEvent::Scanned(v) => WifiEventView::Scanned(scan_view(v@)),
            WifiEvent::Status(s) => WifiEventView::Status(*s),
            WifiEvent::Address(ip) => WifiEventView::Address(*ip),
            WifiEvent::Failed => WifiEventView::Failed,
        }
    }
}

/// Where the first demo stands in joining.
#[derive(PartialEq, Eq, Structural, Clone, Copy, Debug)]
pub enum JoinStep {
    Scan,
    Configure(Option<u8>),
    AwaitSettled,
    ReadStatus,
    Joined(Ipv4Address),
    Failed(WifiError),
}

/// The first demo's join: scan, configure station and access point, wait for
/// the radio to settle, check that both are up.
pub struct MixedJoin {
    pub credentials: Credentials,
    pub step: JoinStep,
}

/// The action of the first demo's join at a step.
pub open spec fn spec_join_action(creds: CredentialsView, step: JoinStep) -> WifiActionView {
    match step {
        JoinStep::Scan => WifiActionView::ScanNetworks,
        JoinStep::Configure(channel) => WifiActionView::ApplyPlan(spec_mixed_plan(creds, channel)),
        JoinStep::AwaitSettled => WifiActionView::AwaitSettled(WIFI_WAIT_MS),
        JoinStep::ReadStatus => WifiActionView::ReadStatus,
        JoinStep::Joined(ip) => WifiActionView::Finished(Ok(ip)),
        JoinStep::Failed(e) => WifiActionView::Finished(Err(e)),
    }
}

/// The next step of the first demo's join. The final steps stay put; a
/// failed platform call fails the join; an event that does not answer the
/// current action changes nothing.
pub open spec fn spec_join_next(ssid: Seq<char>, step: JoinStep, event: WifiEventView) -> JoinStep {
    match step {
        JoinStep::Joined(_) => step,
        JoinStep::Failed(_) => step,
        _ => match event {
            WifiEventView::Failed => JoinStep::Failed(WifiError::Platform),
            _ => match step {
                JoinStep::Scan => match event {
                    WifiEventView::Scanned(networks) => JoinStep::Configure(
                        first_channel(networks, ssid),
                    ),
                    _ => step,
                },
                JoinStep::Configure(_) => match event {
                    WifiEventView::Done => JoinStep::AwaitSettled,
                    _ => step,
                },
                JoinStep::AwaitSettled => match event {
                    WifiEventView::SettleEnded(true, _) => JoinStep::ReadStatus,
                    WifiEventView::SettleEnded(false, status) => JoinStep::Failed(
                        WifiError::UnexpectedStatus(status),
                    ),
                    _ => step,
                },
                JoinStep::ReadStatus => match event {
                    WifiEventView::Status(status) => match spec_joined_address(status) {
                        Some(ip) => JoinStep::Joined(ip),
                        None => JoinStep::Failed(WifiError::UnexpectedStatus(status)),
                    },
                    _ => step,
                },
                _ => step,
            },
        },
    }
}

impl MixedJoin {
    /// A join that starts with a scan.
    pub fn new(credentials: Credentials) -> (j: MixedJoin)
        ensures
            j.credentials@ == credentials@,
            j.step == JoinStep::Scan,
    {
        MixedJoin { credentials, step: JoinStep::Scan }
    }

    /// The action to perform now.
    pub fn action(&self) -> (a: WifiAction)
        ensures
            a@ == spec_join_action(self.credentials@, self.step),
    {
        match self.step {
            JoinStep::Scan => WifiAction::ScanNetworks,
            JoinStep::Configure(channel) => WifiAction::ApplyPlan(
                mixed_plan(&self.credentials, channel),
            ),
            JoinStep::AwaitSettled => WifiAction::AwaitSettled(WIFI_WAIT_MS),
            JoinStep::ReadStatus => WifiAction::ReadStatus,
            JoinStep::Joined(ip) => WifiAction::Finished(Ok(ip)),
            JoinStep::Failed(e) => WifiAction::Finished(Err(e)),
        }
    }

    /// Moves on once the board has performed the current action.
    pub fn on_event(&mut self, event: WifiEvent)
        ensures
            final(self).credentials == old(self).credentials,
            final(self).step == spec_join_next(old(self).credentials.ssid@, old(self).step, event@),
    {
        let next = match self.step {
            JoinStep::Joined(_) => self.step,
            JoinStep::Failed(_) => self.step,
            _ => match event {
                WifiEvent::Failed => JoinStep::Failed(WifiError::Platform),
                WifiEvent::Scanned(networks) => match self.step {
                    JoinStep::Scan => JoinStep::Configure(
                        find_channel(&networks, &self.credentials.ssid),
                    ),
                    _ => self.step,
                },
                WifiEvent::Done => match self.step {
                    JoinStep::Configure(_) => JoinStep::AwaitSettled,
                    _ => self.step,
                },
                WifiEvent::SettleEnded(ok, status) => match self.step {
                    JoinStep::AwaitSettled => if ok {
                        JoinStep::ReadStatus
                    } else {
                        JoinStep::Failed(WifiError::UnexpectedStatus(status))
                    },
                    _ => self.step,
                },
                WifiEvent::Waited(_) => self.step,
                WifiEvent::Status(status) => match self.step {
                    JoinStep::ReadStatus => match joined_address(&status) {
                        Some(ip) => JoinStep::Joined(ip),
                        None => JoinStep::Failed(WifiError::UnexpectedStatus(status)),
                    },
                    _ => self.step,
                },
                WifiEvent::Address(_) => self.step,
            },
        };
        self.step = next;
    }
}

/// Where the later demo stands in bringing its station up.
#[derive(PartialEq, Eq, Structural, Clone, Copy, Debug)]
pub enum BringupStep {
    Configure,
    Start,
    AwaitStart,
    Connect,
    AwaitLink,
    FetchAddress,
    Announce(Ipv4Address),
    Ready(Ipv4Address),
    Failed(WifiError),
}

/// The later demo's bring-up: configure the station, start the radio, wait
/// until it is started, connect, wait for the link and the DHCP lease, read
/// the address and announce the web server.
pub struct StationBringup {
    pub credentials: Credentials,
    pub build_time: String,
    pub step: BringupStep,
}

/// The action of the later demo's bring-up at a step.
pub open spec fn spec_bringup_action(
    creds: CredentialsView,
    build_time: Seq<char>,
    step: BringupStep,
) -> WifiActionView {
    match step {
        BringupStep::Configure => WifiActionView::ApplyPlan(spec_client_plan(creds)),
        BringupStep::Start => WifiActionView::StartRadio,
        BringupStep::AwaitStart => WifiActionView::AwaitStarted(WIFI_WAIT_MS),
        BringupStep::Connect => WifiActionView::ConnectStation,
        BringupStep::AwaitLink => WifiActionView::AwaitLink(WIFI_WAIT_MS),
        BringupStep::FetchAddress => WifiActionView::FetchAddress,
        BringupStep::Announce(_) => WifiActionView::Announce(spec_announcement(build_time)),
        BringupStep::Ready(ip) => WifiActionView::Finished(Ok(ip)),
        BringupStep::Failed(e) => WifiActionView::Finished(Err(e)),
    }
}

/// The next step of the later demo's bring-up. The final steps stay put; a
/// failed platform call fails the bring-up; a wait that times out fails it
/// with its own error; an event that does not answer the current action
/// changes nothing.
pub open spec fn spec_bringup_next(step: BringupStep, event: WifiEventView) -> BringupStep {
    match step {
        BringupStep::Ready(_) => step,
        BringupStep::Failed(_) => step,
        _ => match event {
            WifiEventView::Failed => BringupStep::Failed(WifiError::Platform),
            WifiEventView::Done => match step {
                BringupStep::Configure => BringupStep::Start,
                BringupStep::Start => BringupStep::AwaitStart,
                BringupStep::Connect => BringupStep::AwaitLink,
                BringupStep::Announce(ip) => BringupStep::Ready(ip),
                _ => step,
            },
            WifiEventView::Waited(ok) => match step {
                BringupStep::AwaitStart => if ok {
                    BringupStep::Connect
                } else {
                    BringupStep::Failed(WifiError::NotStarted)
                },
                BringupStep::AwaitLink => if ok {
                    BringupStep::FetchAddress
                } else {
                    BringupStep::Failed(WifiError::NoLink)
                },
                _ => step,
            },
            WifiEventView::Address(ip) => match step {
                BringupStep::FetchAddress => BringupStep::Announce(ip),
                _ => step,
            },
            _ => step,
        },
    }
}

impl StationBringup {
    /// A bring-up that starts by configuring the station.
    pub fn new(credentials: Credentials, build_time: String) -> (b: StationBringup)
        ensures
            b.credentials@ == credentials@,
            b.build_time@ == build_time@,
            b.step == BringupStep::Configure,
    {
        StationBringup { credentials, build_time, step: BringupStep::Configure }
    }

    /// The action to perform now.
    pub fn action(&self) -> (a: WifiAction)
        ensures
            a@ == spec_bringup_action(self.credentials@, self.build_time@, self.step),
    {
        match self.step {
            BringupStep::Configure => WifiAction::ApplyPlan(client_plan(&self.credentials)),
            BringupStep::Start => WifiAction::StartRadio,
            BringupStep::AwaitStart => WifiAction::AwaitStarted(WIFI_WAIT_MS),
            BringupStep::Connect => WifiAction::ConnectStation,
            BringupStep::AwaitLink => WifiAction::AwaitLink(WIFI_WAIT_MS),
            BringupStep::FetchAddress => WifiAction::FetchAddress,
            BringupStep::Announce(_) => WifiAction::Announce(announcement(self.build_time.as_str())),
            BringupStep::Ready(ip) => WifiAction::Finished(Ok(ip)),
            BringupStep::Failed(e) => WifiAction::Finished(Err(e)),
        }
    }

    /// Moves on once the board has performed the current action.
    pub fn on_event(&mut self, event: WifiEvent)
        ensures
            final(self).credentials == old(self).credentials,
            final(self).build_time == old(self).build_time,
            final(self).step == spec_bringup_next(old(self).step, event@),
    {
        let step = self.step;
        let next = match step {
            BringupStep::Ready(_) => step,
            BringupStep::Failed(_) => step,
            _ => match event {
                WifiEvent::Failed => BringupStep::Failed(WifiError::Platform),
                WifiEvent::Done => match step {
                    BringupStep::Configure => BringupStep::Start,
                    BringupStep::Start => BringupStep::AwaitStart,
                    BringupStep::Connect => BringupStep::AwaitLink,
                    BringupStep::Announce(ip) => BringupStep::Ready(ip),
                    _ => step,
                },
                WifiEvent::Waited(ok) => match step {
                    BringupStep::AwaitStart => if ok {
                        BringupStep::Connect
                    } else {
                        BringupStep::Failed(WifiError::NotStarted)
                    },
                    BringupStep::AwaitLink => if ok {
                        BringupStep::FetchAddress
                    } else {
                        BringupStep::Failed(WifiError::NoLink)
                    },
                    _ => step,
                },
                WifiEvent::Address(ip) => match step {
                    BringupStep::FetchAddress => BringupStep::Announce(ip),
                    _ => step,
                },
                _ => step,
            },
        };
        self.step = next;
    }
}

/// The scan lookup finds the first network with the name, and only misses
/// when no scanned network has it.
pub proof fn lemma_first_channel_is_first_match(scan: Seq<ScannedNetworkView>, ssid: Seq<char>)
    ensures
        first_channel(scan, ssid) is None <==> forall|i: int|
            0 <= i < scan.len() ==> (#[trigger] scan[i]).ssid != ssid,
        first_channel(scan, ssid) matches Some(c) ==> exists|i: int|
            0 <= i < scan.len() && (#[trigger] scan[i]).ssid == ssid && scan[i].channel == c
                && forall|j: int| 0 <= j < i ==> (#[trigger] scan[j]).ssid != ssid,
    decreases scan.len(),
{
    if scan.len() > 0 {
        let rest = scan.drop_first();
        lemma_first_channel_is_first_match(rest, ssid);
        if scan[0].ssid != ssid {
            assert forall|i: int| 0 < i < scan.len() implies scan[i] == #[trigger] rest[i - 1] by {}
            if first_channel(scan, ssid) is None {
                assert forall|i: int| 0 <= i < scan.len() implies (#[trigger] scan[i]).ssid != ssid by {
                    if i > 0 {
                        assert(scan[i] == rest[i - 1]);
                    }
                }
            } else {
                let c = first_channel(scan, ssid)->0;
                let k = choose|k: int|
                    0 <= k < rest.len() && (#[trigger] rest[k]).ssid == ssid && rest[k].channel == c
                        && forall|j: int| 0 <= j < k ==> (#[trigger] rest[j]).ssid != ssid;
                assert(scan[k + 1] == rest[k]);
                assert forall|j: int| 0 <= j < k + 1 implies (#[trigger] scan[j]).ssid != ssid by {
                    if j > 0 {
                        assert(scan[j] == rest[j - 1]);
                    }
                }
            }
            if forall|i: int| 0 <= i < scan.len() ==> (#[trigger] scan[i]).ssid != ssid {
                assert forall|i: int| 0 <= i < rest.len() implies (#[trigger] rest[i]).ssid != ssid by {
                    assert(rest[i] == scan[i + 1]);
                }
            }
        }
    }
}

/// The first demo's own access point shares the station's channel when the
/// scan found the network, and uses channel 1 otherwise.
pub proof fn lemma_own_ap_follows_station(creds: CredentialsView, channel: Option<u8>)
    ensures
        spec_mixed_plan(creds, channel) matches WifiPlanView::Mixed(sta, ap) && sta.channel
            == channel && ap.ssid == OWN_AP_SSID@ && ap.channel == (match channel {
            Some(c) => c,
            None => DEFAULT_AP_CHANNEL,
        }) && sta.ssid == creds.ssid && sta.password == creds.password,
{
}

/// A station that is connected but still has 0.0.0.0 is not up.
pub proof fn lemma_no_link_without_lease(connected: bool)
    ensures
        !spec_link_ready(connected, Ipv4Address(0, 0, 0, 0)),
{
}

/// The first demo counts as joined only from a status read in which the
/// station is connected with that very address and its access point is up.
pub proof fn lemma_joined_only_from_status(
    ssid: Seq<char>,
    step: JoinStep,
    event: WifiEventView,
    ip: Ipv4Address,
)
    requires
        step != JoinStep::Joined(ip),
        spec_join_next(ssid, step, event) == JoinStep::Joined(ip),
    ensures
        step == JoinStep::ReadStatus,
        event matches WifiEventView::Status(status) && spec_joined_address(status) == Some(ip),
{
}

/// When everything goes right, the first demo configures the channel that
/// the scan found and ends joined with the address of the final status.
pub proof fn lemma_join_happy_path(
    creds: CredentialsView,
    networks: Seq<ScannedNetworkView>,
    settled_status: WifiStatus,
    status: WifiStatus,
    ip: Ipv4Address,
)
    requires
        spec_joined_address(status) == Some(ip),
    ensures
        ({
            let s1 = spec_join_next(creds.ssid, JoinStep::Scan, WifiEventView::Scanned(networks));
            let s2 = spec_join_next(creds.ssid, s1, WifiEventView::Done);
            let s3 = spec_join_next(creds.ssid, s2, WifiEventView::SettleEnded(true, settled_status));
            let s4 = spec_join_next(creds.ssid, s3, WifiEventView::Status(status));
            &&& spec_join_action(creds, s1) == WifiActionView::ApplyPlan(
                spec_mixed_plan(creds, first_channel(networks, creds.ssid)),
            )
            &&& spec_join_action(creds, s2) == WifiActionView::AwaitSettled(WIFI_WAIT_MS)
            &&& spec_join_action(creds, s3) == WifiActionView::ReadStatus
            &&& s4 == JoinStep::Joined(ip)
            &&& spec_join_action(creds, s4) == WifiActionView::Finished(Ok(ip))
        }),
{
}

/// When the first demo's join fails on the radio's state, the error keeps
/// that state: the status read, or the status when the settle wait ran out;
/// and it is reported as "Unexpected Wifi status: " followed by that status.
pub proof fn lemma_join_failure_keeps_status(ssid: Seq<char>, status: WifiStatus)
    ensures
        spec_join_next(ssid, JoinStep::AwaitSettled, WifiEventView::SettleEnded(false, status))
            == JoinStep::Failed(WifiError::UnexpectedStatus(status)),
        spec_joined_address(status) is None ==> spec_join_next(
            ssid,
            JoinStep::ReadStatus,
            WifiEventView::Status(status),
        ) == JoinStep::Failed(WifiError::UnexpectedStatus(status)),
{
}

/// A joined status is a settled one: the first demo's wait ends before a join.
pub proof fn lemma_joined_status_is_settled(status: WifiStatus)
    requires
        spec_joined_address(status) is Some,
    ensures
        spec_settled(status),
{
}

/// The later demo configures its station with its own network name and
/// password, on no fixed channel, as a station only.
pub proof fn lemma_bringup_configures_credentials(creds: CredentialsView, build_time: Seq<char>)
    ensures
        spec_bringup_action(creds, build_time, BringupStep::Configure) matches WifiActionView::ApplyPlan(
            WifiPlanView::Client(sta),
        ) && sta.ssid == creds.ssid && sta.password == creds.password && sta.channel is None,
{
}

/// The later demo announces `hello-esp32` with an HTTP service named
/// "Hello ESP32" over TCP on port 80, the web server's port, with the build
/// time it was given as the `build-time` TXT record.
pub proof fn lemma_bringup_announces_web_server(
    creds: CredentialsView,
    build_time: Seq<char>,
    ip: Ipv4Address,
)
    ensures
        spec_bringup_action(creds, build_time, BringupStep::Announce(ip)) matches WifiActionView::Announce(a)
            && a.port == 80 && a.hostname == "hello-esp32"@ && a.instance == "Hello ESP32"@
            && a.service == "_http"@ && a.protocol == "_tcp"@ && a.txt_key == "build-time"@
            && a.txt_value == build_time,
{
}

/// The other steps of the later demo: start the radio, wait up to 20 s for
/// it, connect, wait up to 20 s for the link, read the address; a ready
/// bring-up hands out the address it announced, a failed one its error.
pub proof fn lemma_bringup_step_actions(
    creds: CredentialsView,
    build_time: Seq<char>,
    ip: Ipv4Address,
    e: WifiError,
)
    ensures
        spec_bringup_action(creds, build_time, BringupStep::Start) == WifiActionView::StartRadio,
        spec_bringup_action(creds, build_time, BringupStep::AwaitStart)
            == WifiActionView::AwaitStarted(20000),
        spec_bringup_action(creds, build_time, BringupStep::Connect)
            == WifiActionView::ConnectStation,
        spec_bringup_action(creds, build_time, BringupStep::AwaitLink) == WifiActionView::AwaitLink(
            20000,
        ),
        spec_bringup_action(creds, build_time, BringupStep::FetchAddress)
            == WifiActionView::FetchAddress,
        spec_bringup_action(creds, build_time, BringupStep::Ready(ip)) == WifiActionView::Finished(
            Ok(ip),
        ),
        spec_bringup_action(creds, build_time, BringupStep::Failed(e)) == WifiActionView::Finished(
            Err(e),
        ),
{
}

/// The first demo configures a station with its own network name and
/// password, pinned to the channel the scan found, beside an open access
/// point named `aptest` on that channel, or on channel 1 when the scan did
/// not find the network.
pub proof fn lemma_join_configures_mixed(creds: CredentialsView, channel: Option<u8>)
    ensures
        spec_join_action(creds, JoinStep::Configure(channel)) matches WifiActionView::ApplyPlan(
            WifiPlanView::Mixed(sta, ap),
        ) && sta.ssid == creds.ssid && sta.password == creds.password && sta.channel == channel
            && ap.ssid == "aptest"@ && (channel matches Some(c) ==> ap.channel == c) && (channel is None
            ==> ap.channel == 1),
{
}

/// The other steps of the first demo: scan, wait up to 20 s for the radio
/// to settle, read its status; a joined join hands out its address, a failed
/// one its error.
pub proof fn lemma_join_step_actions(creds: CredentialsView, ip: Ipv4Address, e: WifiError)
    ensures
        spec_join_action(creds, JoinStep::Scan) == WifiActionView::ScanNetworks,
        spec_join_action(creds, JoinStep::AwaitSettled) == WifiActionView::AwaitSettled(20000),
        spec_join_action(creds, JoinStep::ReadStatus) == WifiActionView::ReadStatus,
        spec_join_action(creds, JoinStep::Joined(ip)) == WifiActionView::Finished(Ok(ip)),
        spec_join_action(creds, JoinStep::Failed(e)) == WifiActionView::Finished(Err(e)),
{
}

/// The radio has not settled while either side is still on its way: the
/// access point starting or waiting for its address, or the station
/// starting, connecting or waiting for its lease, whatever the other side's
/// state. Once neither side is on its way, it has settled.
pub proof fn lemma_settled_means_nothing_in_progress(s: WifiStatus)
    ensures
        (s.ap == ApStatus::Starting || s.ap == ApStatus::Started(ApIpStatus::Waiting))
            ==> !spec_settled(s),
        (s.client == ClientStatus::Starting || s.client == ClientStatus::Started(
            ClientConnectionStatus::Connecting,
        ) || s.client == ClientStatus::Started(
            ClientConnectionStatus::Connected(ClientIpStatus::Waiting),
        )) ==> !spec_settled(s),
        (s.ap == ApStatus::Stopped || s.ap == ApStatus::Started(ApIpStatus::Disabled) || s.ap
            == ApStatus::Started(ApIpStatus::Done)) && (s.client == ClientStatus::Stopped
            || s.client == ClientStatus::Started(ClientConnectionStatus::Disconnected)
            || s.client == ClientStatus::Started(
            ClientConnectionStatus::Connected(ClientIpStatus::Disabled),
        ) || s.client matches ClientStatus::Started(
            ClientConnectionStatus::Connected(ClientIpStatus::Done(_)),
        )) ==> spec_settled(s),
{
}

/// The first demo is joined exactly when its station is connected with an
/// address and its own access point is up, and then with that address.
pub proof fn lemma_joined_address_characterized(s: WifiStatus, ip: Ipv4Address)
    ensures
        spec_joined_address(s) == Some(ip) <==> (s.client == ClientStatus::Started(
            ClientConnectionStatus::Connected(ClientIpStatus::Done(ip)),
        ) && s.ap == ApStatus::Started(ApIpStatus::Done)),
        s.ap != ApStatus::Started(ApIpStatus::Done) ==> spec_joined_address(s) is None,
{
}

/// The link of the later demo is up exactly when the station is connected
/// and its address is not 0.0.0.0.
pub proof fn lemma_link_ready_characterized(connected: bool, ip: Ipv4Address)
    ensures
        spec_link_ready(connected, ip) <==> (connected && (ip.0 != 0 || ip.1 != 0 || ip.2 != 0
            || ip.3 != 0)),
{
}

/// The lookup finds the channel of a matching network at the front of the
/// scan, and skips a network with another name.
pub proof fn lemma_first_channel_steps(
    n: ScannedNetworkView,
    rest: Seq<ScannedNetworkView>,
    ssid: Seq<char>,
)
    ensures
        n.ssid == ssid ==> first_channel(seq![n] + rest, ssid) == Some(n.channel),
        n.ssid != ssid ==> first_channel(seq![n] + rest, ssid) == first_channel(rest, ssid),
        first_channel(Seq::empty(), ssid) is None,
{
    let s = seq![n] + rest;
    assert(s[0] == n);
    assert(s.drop_first() =~= rest);
}

/// Once the first demo's join is over, it stays over.
pub proof fn lemma_join_final(ssid: Seq<char>, step: JoinStep, event: WifiEventView)
    requires
        step is Joined || step is Failed,
    ensures
        spec_join_next(ssid, step, event) == step,
{
}

/// The later demo moves forward in one order only: it connects only after
/// the radio reported itself started, reads its address only after the link
/// and lease came up, announces only the address it read, and is ready only
/// after the announcement.
pub proof fn lemma_bringup_order(step: BringupStep, event: WifiEventView)
    ensures
        ({
            let next = spec_bringup_next(step, event);
            &&& (next == BringupStep::Connect && step != next) ==> (step == BringupStep::AwaitStart
                && event == WifiEventView::Waited(true))
            &&& (next == BringupStep::FetchAddress && step != next) ==> (step
                == BringupStep::AwaitLink && event == WifiEventView::Waited(true))
            &&& next matches BringupStep::Announce(ip) ==> (step == next || (step
                == BringupStep::FetchAddress && event == WifiEventView::Address(ip)))
            &&& next matches BringupStep::Ready(ip) ==> (step == next || (step
                == BringupStep::Announce(ip) && event == WifiEventView::Done))
        }),
{
}

/// A wait that times out fails the later demo's bring-up with the error of
/// that wait.
pub proof fn lemma_bringup_timeouts()
    ensures
        spec_bringup_next(BringupStep::AwaitStart, WifiEventView::Waited(false))
            == BringupStep::Failed(WifiError::NotStarted),
        spec_bringup_next(BringupStep::AwaitLink, WifiEventView::Waited(false))
            == BringupStep::Failed(WifiError::NoLink),
{
}

/// When everything goes right, the later demo goes through its steps in
/// order and ends ready with the address it read, having announced itself.
pub proof fn lemma_bringup_happy_path(ip: Ipv4Address)
    ensures
        ({
            let s1 = spec_bringup_next(BringupStep::Configure, WifiEventView::Done);
            let s2 = spec_bringup_next(s1, WifiEventView::Done);
            let s3 = spec_bringup_next(s2, WifiEventView::Waited(true));
            let s4 = spec_bringup_next(s3, WifiEventView::Done);
            let s5 = spec_bringup_next(s4, WifiEventView::Waited(true));
            let s6 = spec_bringup_next(s5, WifiEventView::Address(ip));
            let s7 = spec_bringup_next(s6, WifiEventView::Done);
            &&& s1 == BringupStep::Start
            &&& s2 == BringupStep::AwaitStart
            &&& s3 == BringupStep::Connect
            &&& s4 == BringupStep::AwaitLink
            &&& s5 == BringupStep::FetchAddress
            &&& s6 == BringupStep::Announce(ip)
            &&& s7 == BringupStep::Ready(ip)
        }),
{
}

/// Once the later demo's bring-up is over, it stays over.
pub proof fn lemma_bringup_final(step: BringupStep, event: WifiEventView)
    requires
        step is Ready || step is Failed,
    ensures
        spec_bringup_next(step, event) == step,
{
}

/// A failed platform call ends any bring-up or join that is still under way.
pub proof fn lemma_platform_failure_ends(ssid: Seq<char>, join: JoinStep, bringup: BringupStep)
    requires
        !(join is Joined || join is Failed),
        !(bringup is Ready || bringup is Failed),
    ensures
        spec_join_next(ssid, join, WifiEventView::Failed) == JoinStep::Failed(WifiError::Platform),
        spec_bringup_next(bringup, WifiEventView::Failed) == BringupStep::Failed(
            WifiError::Platform,
        ),
{
}

} // verus!
