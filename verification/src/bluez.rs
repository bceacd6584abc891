//! What BlueZ says about the AirPods: which device to work with, which media
//! transports it has, and how a connect ended.
use crate::address::Address;
use crate::models::{hex_padded, model_id, APPLE_VENDOR_ID};
use crate::rejoin::{LinkFacts, Outcome};
use crate::text::{
    ascii_lowercase, chars_of, contains_text, insert_line, join, joined, lines_sorted, lowered,
    occurs_in, same_text, starts_with, string_of, text_view, text_views,
};
use vstd::prelude::*;
use vstd::string::*;

verus! {

/// Something the BlueZ layer learned.
#[derive(Debug, Clone)]
pub enum LinkEvent {
    /// The device to work with, and the adapter to dial from.
    Identity {
        /// Local adapter address, for binding the L2CAP socket.
        adapter: Address,
        /// Accessory address.
        address: Address,
        /// Bluetooth name, if known.
        name: Option<String>,
        /// Upper-case hex product id from the DID modalias, if known.
        model_id: Option<String>,
        /// Whether the watcher selected this address from an explicit pin.
        /// This is only authority for an explicitly armed `connect-once`.
        pinned: bool,
    },
    /// BlueZ `Connected` for the classic link.
    Connected(bool),
    /// An audio profile endpoint or media transport under the device appeared,
    /// disappeared or changed `State`. The handoff hold uses it to tell a
    /// player resuming on a new sink from a user pressing play.
    AudioTransport,
    /// Whether an A2DP `MediaTransport1` under the device is `pending` or
    /// `active`, with every known transport as `path uuid state`. Sent when
    /// the watch starts and whenever it changes; the handoff uses it to tell
    /// a take-over whose audio never started.
    A2dpTransport {
        /// An A2DP transport is pending or active.
        active: bool,
        /// Each transport under the device, for the log.
        transports: String,
    },
    /// A non-A2DP (hands-free) `MediaTransport1` became pending or active:
    /// the audio is on the wrong profile. Logged only; no profile is changed.
    HandsFreeTransport {
        /// The hands-free transports, as `path uuid state`.
        transports: String,
    },
    /// Whether the local adapter's Device ID (`Modalias`) names Apple, which
    /// Apple hosts require before they take part in ownership handoff.
    /// `None` when the property is missing or unreadable.
    AdapterAppleId(Option<bool>),
    /// BlueZ `Device1.Disconnected(ss)` for the device, with the adapter and
    /// device state read when it arrived.
    Disconnected {
        /// Reason name, for example `org.bluez.Reason.Remote`.
        reason: String,
        /// Free-text message BlueZ sends with it.
        message: String,
        /// `None` when the state could not be read.
        facts: Option<LinkFacts>,
    },
    /// The adapter or bluetoothd went away; treat as disconnected.
    ///
    /// Only sent on evidence about the adapter itself: its object removed,
    /// `Adapter1.Powered` false, or the adapter unreadable. A watch that
    /// merely ended is [`LinkEvent::WatchEnded`].
    AdapterGone,
    /// The device property watch ended while the adapter was still there.
    ///
    /// BlueZ emits `InterfacesRemoved` for the device object whenever one of
    /// its profile interfaces (`Battery1`, `MediaControl1`, ...) goes away at
    /// disconnect, and that ends the whole watch with the device and the
    /// adapter still present. This says nothing about the link, the adapter,
    /// or a reconnect already scheduled; the watcher rebuilds itself.
    WatchEnded,
}

// ---------------------------------------------------------------------------
// Which device
// ---------------------------------------------------------------------------

/// A Device ID record: who assigned the vendor number, and the numbers.
#[derive(Debug, PartialEq, Eq)]
pub struct Modalias {
    /// `bluetooth` or `usb`.
    pub source: String,
    /// Vendor number.
    pub vendor: u32,
    /// Product number.
    pub product: u32,
}

/// The record names Apple, in the Bluetooth SIG's numbering.
pub open spec fn names_apple(record: Modalias) -> bool {
    record.source@ == "bluetooth"@ && record.vendor == APPLE_VENDOR_ID
}

/// Whether the record names Apple, in the Bluetooth SIG's numbering.
pub fn is_apple(record: &Modalias) -> (r: bool)
    ensures
        r == names_apple(*record),
{
    same_text(record.source.as_str(), "bluetooth") && record.vendor == APPLE_VENDOR_ID
}

/// Whether the local adapter's own record names Apple; `None` when it has none
/// that can be read.
pub fn apple_host_id(record: Option<&Modalias>) -> (r: Option<bool>)
    ensures
        r == match record {
            Some(m) => Some(names_apple(*m)),
            None => None,
        },
{
    match record {
        Some(m) => Some(is_apple(m)),
        None => None,
    }
}

/// The product id of an Apple record.
pub open spec fn product_of(vendor: u32, product: u32) -> Option<Seq<char>> {
    if vendor == APPLE_VENDOR_ID {
        Some(hex_padded(product as nat, 4))
    } else {
        None
    }
}

/// The product id of an Apple record, in upper-case hexadecimal.
pub fn model_id_of(vendor: u32, product: u32) -> (r: Option<String>)
    ensures
        text_view(r) == product_of(vendor, product),
{
    if vendor == APPLE_VENDOR_ID {
        Some(model_id(product))
    } else {
        None
    }
}

/// A device as BlueZ shows it.
#[derive(Debug, PartialEq, Eq)]
pub struct Candidate {
    /// Its address.
    pub address: Address,
    /// It is paired.
    pub paired: bool,
    /// Its Device ID record, if it has one that can be read.
    pub modalias: Option<Modalias>,
    /// Its name, if it has one that can be read.
    pub name: Option<String>,
}

/// The device looks like an AirPods-family accessory: its Device ID record
/// names Apple, or its name contains "AirPods" in any case.
pub open spec fn airpods_like(c: Candidate) -> bool {
    ||| c.modalias matches Some(m) && names_apple(m)
    ||| c.name matches Some(n) && occurs_in(lowered(n@), "airpods"@)
}

/// Whether the device looks like an AirPods-family accessory.
pub fn looks_like_airpods(c: &Candidate) -> (r: bool)
    ensures
        r == airpods_like(*c),
{
    if let Some(m) = &c.modalias {
        if is_apple(m) {
            return true;
        }
    }
    match &c.name {
        Some(n) => contains_text(ascii_lowercase(n.as_str()).as_str(), "airpods"),
        None => false,
    }
}

/// The device to watch: the pinned address if there is one, otherwise the
/// first paired device that looks like AirPods.
pub fn pick_device(pinned: Option<Address>, candidates: &Vec<Candidate>) -> (r: Option<Address>)
    ensures
        match pinned {
            Some(address) => r == Some(address),
            None => match r {
                Some(address) => exists|i: int|
                    0 <= i < candidates@.len() && (#[trigger] candidates@[i]).address == address
                        && candidates@[i].paired && airpods_like(candidates@[i]) && (forall|k: int|
                        0 <= k < i ==> !((#[trigger] candidates@[k]).paired && airpods_like(
                            candidates@[k],
                        ))),
                None => forall|k: int|
                    0 <= k < candidates@.len() ==> !((#[trigger] candidates@[k]).paired
                        && airpods_like(candidates@[k])),
            },
        },
{
    if let Some(address) = pinned {
        return Some(address);
    }
    let mut i: usize = 0;
    while i < candidates.len()
        invariant
            i <= candidates@.len(),
            pinned is None,
            forall|k: int|
                0 <= k < i ==> !((#[trigger] candidates@[k]).paired && airpods_like(
                    candidates@[k],
                )),
        decreases candidates@.len() - i,
    {
        if candidates[i].paired && looks_like_airpods(&candidates[i]) {
            return Some(candidates[i].address);
        }
        i += 1;
    }
    None
}

/// An address with underscores for colons.
pub open spec fn path_form(address: Seq<char>) -> Seq<char> {
    address.map_values(|c: char| if c == ':' { '_' } else { c })
}

/// The object path of a device under an adapter.
pub fn device_path(adapter_name: &str, address: Address) -> (r: String)
    ensures
        r@ == "/org/bluez/"@ + adapter_name@ + "/dev_"@ + path_form(address.text()),
{
    let text: String = address.to_string();
    let chars: Vec<char> = chars_of(text.as_str());
    let mut plain: Vec<char> = Vec::new();
    let mut i: usize = 0;
    while i < chars.len()
        invariant
            i <= chars.len(),
            chars@ == address.text(),
            plain@ == path_form(chars@).take(i as int),
        decreases chars.len() - i,
    {
        proof {
            assert(path_form(chars@).take(i + 1) =~= path_form(chars@).take(i as int).push(
                path_form(chars@)[i as int],
            ));
        }
        let c: char = chars[i];
        plain.push(
            if c == ':' {
                '_'
            } else {
                c
            },
        );
        i += 1;
    }
    proof {
        assert(path_form(chars@).take(i as int) =~= path_form(chars@));
    }
    let mut out: String = "/org/bluez/".to_owned();
    out.append(adapter_name);
    out.append("/dev_");
    out.append(string_of(plain.as_slice()).as_str());
    out
}

// ---------------------------------------------------------------------------
// Watching the device
// ---------------------------------------------------------------------------

/// A changed property of the watched device.
#[derive(Debug, PartialEq, Eq)]
pub enum DeviceChange {
    /// `Connected`.
    Connected(bool),
    /// `Name`.
    Name(String),
    /// `Alias`. BlueZ re-reads the remote name only when a link opens, and a
    /// rename usually surfaces here first.
    Alias(String),
    /// `Modalias`.
    Modalias {
        /// Vendor number.
        vendor: u32,
        /// Product number.
        product: u32,
    },
    /// Anything else.
    Other,
}

/// The device that is watched.
#[derive(Debug, Clone, Copy, PartialEq, Eq)]
pub struct DeviceWatch {
    /// Local adapter.
    pub adapter: Address,
    /// The device.
    pub address: Address,
    /// It was selected from an explicit pin.
    pub pinned: bool,
    /// Its link was up when last seen.
    pub connected: bool,
}

/// An identity event says exactly this.
pub open spec fn identifies(
    event: LinkEvent,
    watch: DeviceWatch,
    name: Option<Seq<char>>,
    product: Option<Seq<char>>,
) -> bool {
    event matches LinkEvent::Identity { adapter, address, name: n, model_id: p, pinned }
        && adapter == watch.adapter && address == watch.address && pinned == watch.pinned
        && text_view(n) == name && text_view(p) == product
}

impl DeviceWatch {
    /// Which device this is.
    pub fn identity(&self, name: Option<String>, model_id: Option<String>) -> (r: LinkEvent)
        ensures
            identifies(r, *self, text_view(name), text_view(model_id)),
    {
        LinkEvent::Identity {
            adapter: self.adapter,
            address: self.address,
            name,
            model_id,
            pinned: self.pinned,
        }
    }

    /// What a changed property says. The name and the alias are the same fact
    /// about the same device.
    pub fn changed(&mut self, change: DeviceChange) -> (r: Option<LinkEvent>)
        ensures
            match change {
                DeviceChange::Connected(v) => r == Some(LinkEvent::Connected(v)) && *final(self)
                    == (DeviceWatch { connected: v, ..*old(self) }),
                DeviceChange::Name(n) => *final(self) == *old(self) && (r matches Some(e)
                    && identifies(e, *old(self), Some(n@), None)),
                DeviceChange::Alias(n) => *final(self) == *old(self) && (r matches Some(e)
                    && identifies(e, *old(self), Some(n@), None)),
                DeviceChange::Modalias { vendor, product } => *final(self) == *old(self) && (
                r matches Some(e) && identifies(e, *old(self), None, product_of(vendor, product))),
                DeviceChange::Other => *final(self) == *old(self) && r is None,
            },
    {
        match change {
            DeviceChange::Connected(v) => {
                self.connected = v;
                Some(LinkEvent::Connected(v))
            },
            DeviceChange::Name(n) => Some(self.identity(Some(n), None)),
            DeviceChange::Alias(n) => Some(self.identity(Some(n), None)),
            DeviceChange::Modalias { vendor, product } => {
                let id = model_id_of(vendor, product);
                Some(self.identity(None, id))
            },
            DeviceChange::Other => None,
        }
    }

    /// A fresh read of `Connected`: a missed signal must not strand the
    /// session.
    pub fn reconciled(&mut self, actual: bool) -> (r: Option<LinkEvent>)
        ensures
            *final(self) == (DeviceWatch { connected: actual, ..*old(self) }),
            r == (if actual == old(self).connected {
                None
            } else {
                Some(LinkEvent::Connected(actual))
            }),
    {
        if actual == self.connected {
            return None;
        }
        self.connected = actual;
        Some(LinkEvent::Connected(actual))
    }
}

/// What the end of the device watch says, given the adapter's `Powered`, or
/// `None` when the adapter cannot be read. The end by itself is no evidence
/// about the adapter.
pub fn watch_ended(powered: Option<bool>) -> (r: LinkEvent)
    ensures
        r == (if powered == Some(true) {
            LinkEvent::WatchEnded
        } else {
            LinkEvent::AdapterGone
        }),
{
    match powered {
        Some(true) => LinkEvent::WatchEnded,
        _ => LinkEvent::AdapterGone,
    }
}

/// The adapter and the device, or `None` if any of it cannot be read.
pub fn link_facts(
    powered: Option<bool>,
    paired: Option<bool>,
    blocked: Option<bool>,
) -> (r: Option<LinkFacts>)
    ensures
        r == (if powered is Some && paired is Some && blocked is Some {
            Some(LinkFacts { powered: powered->0, paired: paired->0, blocked: blocked->0 })
        } else {
            None
        }),
{
    match (powered, paired, blocked) {
        (Some(powered), Some(paired), Some(blocked)) => Some(
            LinkFacts { powered, paired, blocked },
        ),
        _ => None,
    }
}

/// The arguments of a `Disconnected` signal. The message is optional, so that
/// a one-argument form still reports its reason.
pub fn disconnected_args(
    reason: Option<String>,
    message: Option<String>,
) -> (r: Option<(String, String)>)
    ensures
        match reason {
            Some(why) => r matches Some((a, b)) && a@ == why@ && b@ == (match message {
                Some(m) => m@,
                None => Seq::<char>::empty(),
            }),
            None => r is None,
        },
{
    match reason {
        Some(why) => Some(
            (
                why,
                match message {
                    Some(m) => m,
                    None => String::new(),
                },
            ),
        ),
        None => None,
    }
}

// ---------------------------------------------------------------------------
// Connecting
// ---------------------------------------------------------------------------

/// A fact that is read, in this order, before `Device1.Connect`.
#[derive(Debug, Clone, Copy, PartialEq, Eq, Structural)]
pub enum PageFact {
    /// The adapter is powered.
    Powered,
    /// The device is paired.
    Paired,
    /// The device is blocked.
    Blocked,
    /// The device is connected.
    Connected,
    /// The connect is still wanted.
    Wanted,
}

/// Why the value of a fact rules the connect out.
pub open spec fn page_rule(fact: PageFact, value: bool) -> Option<Seq<char>> {
    match fact {
        PageFact::Powered => if value {
            None
        } else {
            Some("adapter_off"@)
        },
        PageFact::Paired => if value {
            None
        } else {
            Some("not_paired"@)
        },
        PageFact::Blocked => if value {
            Some("blocked"@)
        } else {
            None
        },
        PageFact::Connected => if value {
            Some("connected_by_other_means"@)
        } else {
            None
        },
        PageFact::Wanted => if value {
            None
        } else {
            Some("superseded"@)
        },
    }
}

/// Why the value of a fact rules the connect out, if it does.
pub fn page_refusal(fact: PageFact, value: bool) -> (r: Option<&'static str>)
    ensures
        match r {
            Some(why) => page_rule(fact, value) == Some(why@),
            None => page_rule(fact, value) is None,
        },
{
    match fact {
        PageFact::Powered => if value {
            None
        } else {
            Some("adapter_off")
        },
        PageFact::Paired => if value {
            None
        } else {
            Some("not_paired")
        },
        PageFact::Blocked => if value {
            Some("blocked")
        } else {
            None
        },
        PageFact::Connected => if value {
            Some("connected_by_other_means")
        } else {
            None
        },
        PageFact::Wanted => if value {
            None
        } else {
            Some("superseded")
        },
    }
}

/// The fact that is read after this one.
pub open spec fn next_fact(fact: PageFact) -> Option<PageFact> {
    match fact {
        PageFact::Powered => Some(PageFact::Paired),
        PageFact::Paired => Some(PageFact::Blocked),
        PageFact::Blocked => Some(PageFact::Connected),
        PageFact::Connected => Some(PageFact::Wanted),
        PageFact::Wanted => None,
    }
}

/// What to do next on the way to `Device1.Connect`.
#[derive(Debug, Clone, Copy, PartialEq, Eq)]
pub enum PageStep {
    /// Read this fact.
    Read(PageFact),
    /// Call `Device1.Connect`, once.
    Connect,
    /// Do not connect, and why.
    Refuse(&'static str),
}

/// A step with its text read as a sequence.
#[verifier::ext_equal]
pub enum PageModel {
    /// See [`PageStep::Read`].
    Read(PageFact),
    /// See [`PageStep::Connect`].
    Connect,
    /// See [`PageStep::Refuse`].
    Refuse(Seq<char>),
}

impl View for PageStep {
    type V = PageModel;

    open spec fn view(&self) -> PageModel {
        match *self {
            PageStep::Read(fact) => PageModel::Read(fact),
            PageStep::Connect => PageModel::Connect,
            PageStep::Refuse(why) => PageModel::Refuse(why@),
        }
    }
}

/// What follows the value of a fact.
pub open spec fn page_after(fact: PageFact, value: bool) -> PageModel {
    match page_rule(fact, value) {
        Some(why) => PageModel::Refuse(why),
        None => match next_fact(fact) {
            Some(next) => PageModel::Read(next),
            None => PageModel::Connect,
        },
    }
}

/// How a connect begins, given whether the adapter is there.
pub fn page_begun(found: bool) -> (r: PageStep)
    ensures
        r@ == (if found {
            PageModel::Read(PageFact::Powered)
        } else {
            PageModel::Refuse("adapter_gone"@)
        }),
{
    if found {
        PageStep::Read(PageFact::Powered)
    } else {
        PageStep::Refuse("adapter_gone")
    }
}

/// What follows the value of a fact.
pub fn page_step(fact: PageFact, value: bool) -> (r: PageStep)
    ensures
        r@ == page_after(fact, value),
{
    if let Some(why) = page_refusal(fact, value) {
        return PageStep::Refuse(why);
    }
    match fact {
        PageFact::Powered => PageStep::Read(PageFact::Paired),
        PageFact::Paired => PageStep::Read(PageFact::Blocked),
        PageFact::Blocked => PageStep::Read(PageFact::Connected),
        PageFact::Connected => PageStep::Read(PageFact::Wanted),
        PageFact::Wanted => PageStep::Connect,
    }
}

/// Facts still to be read, this one with them.
pub open spec fn facts_left(fact: PageFact) -> nat {
    match fact {
        PageFact::Powered => 5,
        PageFact::Paired => 4,
        PageFact::Blocked => 3,
        PageFact::Connected => 2,
        PageFact::Wanted => 1,
    }
}

/// Where reading the facts leads, from one of them on.
pub open spec fn page_result(values: spec_fn(PageFact) -> bool, fact: PageFact) -> PageModel
    decreases facts_left(fact),
{
    match page_after(fact, values(fact)) {
        PageModel::Read(next) => page_result(values, next),
        step => step,
    }
}

/// `Device1.Connect` is called only when every fact allows it, and is then
/// called: the adapter is powered, the device paired, not blocked and not
/// connected, and the connect still wanted.
pub proof fn a_page_needs_every_fact(values: spec_fn(PageFact) -> bool)
    ensures
        page_result(values, PageFact::Powered) is Connect <==> values(PageFact::Powered) && values(
            PageFact::Paired,
        ) && !values(PageFact::Blocked) && !values(PageFact::Connected) && values(PageFact::Wanted),
{
    reveal_with_fuel(page_result, 6);
}

/// How a connect ended; `None` means that it did not end in time.
pub fn paged(ended: Option<Outcome>) -> (r: Outcome)
    ensures
        match ended {
            Some(outcome) => r == outcome,
            None => r matches Outcome::Failed(why) && why@
                == "Device1.Connect timed out; it may still complete"@,
        },
{
    match ended {
        Some(outcome) => outcome,
        None => Outcome::Failed("Device1.Connect timed out; it may still complete".to_owned()),
    }
}

/// A profile connect refused because the link is busy (`br-connection-busy`)
/// or another connect is in progress; worth retrying shortly.
pub fn profile_busy(in_progress: bool, message: &str) -> (r: bool)
    ensures
        r == (in_progress || occurs_in(message@, "busy"@)),
{
    in_progress || contains_text(message, "busy")
}

/// How `Device1.Connect` ended when BlueZ refused it: `already` says that the
/// device was connected already, `in_progress` that another connect is under
/// way, `message` is BlueZ's short text and `full` the whole error in words.
pub fn refused_connect(already: bool, in_progress: bool, message: &str, full: String) -> (r: Outcome)
    ensures
        if already {
            r matches Outcome::NotReady(why) && why@ == "connected_by_other_means"@
        } else if in_progress || occurs_in(message@, "busy"@) {
            r == Outcome::Busy
        } else {
            r == Outcome::Failed(full)
        },
{
    if already {
        Outcome::NotReady("connected_by_other_means")
    } else if profile_busy(in_progress, message) {
        Outcome::Busy
    } else {
        Outcome::Failed(full)
    }
}

/// How a try to connect the audio profile ended.
#[derive(Debug, Clone, Copy, PartialEq, Eq, Structural)]
pub enum ClaimEnd {
    /// The profile is connected.
    Connected,
    /// BlueZ is busy; worth another try shortly.
    Busy,
    /// Anything else.
    Failed,
    /// BlueZ did not answer in time.
    TimedOut,
}

/// How a profile connect that BlueZ refused ended. A profile that is already
/// connected is success.
pub fn refused_claim(already: bool, in_progress: bool, message: &str) -> (r: ClaimEnd)
    ensures
        r == (if already {
            ClaimEnd::Connected
        } else if in_progress || occurs_in(message@, "busy"@) {
            ClaimEnd::Busy
        } else {
            ClaimEnd::Failed
        }),
{
    if already {
        ClaimEnd::Connected
    } else if profile_busy(in_progress, message) {
        ClaimEnd::Busy
    } else {
        ClaimEnd::Failed
    }
}

// ---------------------------------------------------------------------------
// Media transports
// ---------------------------------------------------------------------------

/// The interface of a media transport.
pub const TRANSPORT_IFACE: &'static str = "org.bluez.MediaTransport1";

/// A2DP source, the local endpoint BlueZ names for headphones.
pub const A2DP_SOURCE_UUID: &'static str = "0000110a-0000-1000-8000-00805f9b34fb";

/// A2DP sink, the accessory side of stereo audio (remote profile UUID).
pub const A2DP_SINK_UUID: &'static str = "0000110b-0000-1000-8000-00805f9b34fb";

/// The UUID of an A2DP endpoint, in any case.
pub open spec fn names_a2dp(uuid: Seq<char>) -> bool {
    lowered(uuid) == A2DP_SOURCE_UUID@ || lowered(uuid) == A2DP_SINK_UUID@
}

/// A2DP source or sink.
pub fn a2dp_uuid(uuid: &str) -> (r: bool)
    ensures
        r == names_a2dp(uuid@),
{
    let low: String = ascii_lowercase(uuid);
    same_text(low.as_str(), A2DP_SOURCE_UUID) || same_text(low.as_str(), A2DP_SINK_UUID)
}

/// A state in which audio flows or is about to.
pub open spec fn streams(state: Seq<char>) -> bool {
    state == "pending"@ || state == "active"@
}

/// `MediaTransport1.State` values that mean audio flows or is about to.
pub fn streaming_state(state: &str) -> (r: bool)
    ensures
        r == streams(state@),
{
    same_text(state, "pending") || same_text(state, "active")
}

#[derive(Debug)]
struct Transport {
    path: String,
    uuid: String,
    a2dp: bool,
    active: bool,
}

/// One media transport, as mathematical values.
#[verifier::ext_equal]
pub struct TransportModel {
    /// Object path.
    pub path: Seq<char>,
    /// UUID in lower case.
    pub uuid: Seq<char>,
    /// It carries stereo audio.
    pub a2dp: bool,
    /// Audio flows or is about to.
    pub active: bool,
}

spec fn transport_view(t: Transport) -> TransportModel {
    TransportModel { path: t.path@, uuid: t.uuid@, a2dp: t.a2dp, active: t.active }
}

/// Media transports under the device, by object path. Hands-free transports
/// are kept as well as A2DP ones, so audio landing on the wrong profile is
/// visible in the log.
#[derive(Debug)]
pub struct AudioTransports {
    entries: Vec<Transport>,
}

/// The transport at a path, replaced where it is known, or put in front.
pub open spec fn transport_set(
    entries: Seq<TransportModel>,
    t: TransportModel,
) -> Seq<TransportModel>
    decreases entries.len(),
{
    if entries.len() == 0 {
        seq![t]
    } else if entries.last().path == t.path {
        entries.drop_last().push(t)
    } else {
        transport_set(entries.drop_last(), t).push(entries.last())
    }
}

/// Each path is known once.
pub open spec fn paths_differ(entries: Seq<TransportModel>) -> bool {
    forall|i: int, j: int|
        0 <= i < j < entries.len() ==> (#[trigger] entries[i]).path != (
        #[trigger] entries[j]).path
}

/// A transport with another state.
pub open spec fn with_state(t: TransportModel, path: Seq<char>, active: bool) -> TransportModel {
    if t.path == path {
        TransportModel { active, ..t }
    } else {
        t
    }
}

/// One transport as `path uuid state`.
pub open spec fn transport_line(t: TransportModel) -> Seq<char> {
    t.path + " "@ + t.uuid + " "@ + (if t.active {
        "streaming"@
    } else {
        "idle"@
    })
}

/// The transports kept by a rule, in order, each as a line.
pub open spec fn transport_lines(
    entries: Seq<TransportModel>,
    streaming_hands_free: bool,
) -> Seq<Seq<char>>
    decreases entries.len(),
{
    if entries.len() == 0 {
        Seq::empty()
    } else {
        let rest = transport_lines(entries.drop_last(), streaming_hands_free);
        if !streaming_hands_free || (!entries.last().a2dp && entries.last().active) {
            rest.push(transport_line(entries.last()))
        } else {
            rest
        }
    }
}

/// The transports as one text: sorted lines, or `none`. With
/// `streaming_hands_free` only those that stream and are not A2DP.
pub open spec fn transport_text(
    entries: Seq<TransportModel>,
    streaming_hands_free: bool,
) -> Seq<char> {
    let lines = transport_lines(entries, streaming_hands_free);
    if lines.len() == 0 {
        "none"@
    } else {
        joined(lines_sorted(lines))
    }
}

/// Some A2DP transport streams.
pub open spec fn a2dp_streams(entries: Seq<TransportModel>) -> bool {
    exists|i: int| 0 <= i < entries.len() && (#[trigger] entries[i]).a2dp && entries[i].active
}

/// Some transport that is not A2DP streams.
pub open spec fn hands_free_streams(entries: Seq<TransportModel>) -> bool {
    exists|i: int| 0 <= i < entries.len() && !(#[trigger] entries[i]).a2dp && entries[i].active
}

impl View for AudioTransports {
    type V = Seq<TransportModel>;

    closed spec fn view(&self) -> Seq<TransportModel> {
        self.entries@.map_values(|t: Transport| transport_view(t))
    }
}

proof fn set_keeps_paths(entries: Seq<TransportModel>, t: TransportModel)
    requires
        paths_differ(entries),
    ensures
        paths_differ(transport_set(entries, t)),
        forall|i: int|
            0 <= i < transport_set(entries, t).len() ==> (#[trigger] transport_set(
                entries,
                t,
            )[i]).path == t.path || exists|k: int|
                0 <= k < entries.len() && (#[trigger] entries[k]).path == transport_set(
                    entries,
                    t,
                )[i].path,
    decreases entries.len(),
{
    if entries.len() > 0 && entries.last().path != t.path {
        let head = entries.drop_last();
        set_keeps_paths(head, t);
        let r = transport_set(entries, t);
        let h = transport_set(head, t);
        assert forall|i: int| 0 <= i < r.len() implies (#[trigger] r[i]).path == t.path
            || exists|k: int|
            0 <= k < entries.len() && (#[trigger] entries[k]).path == r[i].path by {
            if i < h.len() {
                assert(r[i] == h[i]);
                if h[i].path != t.path {
                    let k = choose|k: int|
                        0 <= k < head.len() && (#[trigger] head[k]).path == h[i].path;
                    assert(entries[k].path == r[i].path);
                }
            } else {
                assert(entries[entries.len() - 1].path == r[i].path);
            }
        }
        assert forall|i: int, j: int| 0 <= i < j < r.len() implies (#[trigger] r[i]).path != (
        #[trigger] r[j]).path by {
            if j == h.len() {
                assert(r[i] == h[i]);
                if h[i].path != t.path {
                    let k = choose|k: int|
                        0 <= k < head.len() && (#[trigger] head[k]).path == h[i].path;
                    assert(entries[k] == head[k]);
                    assert(entries[k].path != entries[entries.len() - 1].path);
                }
            } else {
                assert(r[i] == h[i]);
                assert(r[j] == h[j]);
            }
        }
    } else if entries.len() > 0 {
        let r = transport_set(entries, t);
        assert forall|i: int, j: int| 0 <= i < j < r.len() implies (#[trigger] r[i]).path != (
        #[trigger] r[j]).path by {
            assert(entries[i].path != entries[j].path);
        }
    }
}

impl AudioTransports {
    /// Each path is known once.
    pub open spec fn wf(self) -> bool {
        paths_differ(self@)
    }

    /// No transport is known.
    pub fn new() -> (r: Self)
        ensures
            r.wf(),
            r@.len() == 0,
    {
        AudioTransports { entries: Vec::new() }
    }

    fn put(&mut self, t: Transport)
        ensures
            final(self)@ == transport_set(old(self)@, transport_view(t)),
    {
        let ghost before = self@;
        let ghost model = transport_view(t);
        let mut at: usize = self.entries.len();
        proof {
            assert(before.take(at as int) =~= before);
            assert(before.skip(at as int) =~= Seq::empty());
            assert(transport_set(before, model) + before.skip(at as int) =~= transport_set(
                before,
                model,
            ));
        }
        while at > 0
            invariant
                at <= self.entries@.len(),
                before == self@,
                before == old(self)@,
                model == transport_view(t),
                transport_set(before, model) == transport_set(before.take(at as int), model)
                    + before.skip(at as int),
            decreases at,
        {
            proof {
                let head = before.take(at as int);
                assert(head.last() == before[at - 1]);
                assert(head.drop_last() =~= before.take(at - 1));
            }
            if same_text(self.entries[at - 1].path.as_str(), t.path.as_str()) {
                self.entries.set(at - 1, t);
                proof {
                    assert(self@ =~= before.take(at - 1).push(model) + before.skip(at as int));
                    assert(transport_set(before.take(at as int), model) == before.take(
                        at - 1,
                    ).push(model));
                }
                return ;
            }
            proof {
                assert(transport_set(before.take(at - 1), model).push(before[at - 1])
                    + before.skip(at as int) =~= transport_set(before.take(at - 1), model)
                    + before.skip(at - 1));
            }
            at = at - 1;
        }
        self.entries.insert(0, t);
        proof {
            assert(before.take(0) =~= Seq::empty());
            assert(self@ =~= seq![model] + before.skip(0));
        }
    }

    /// A `MediaTransport1` appeared with these properties. One without a UUID
    /// is not kept.
    pub fn add(&mut self, path: &str, uuid: Option<&str>, state: Option<&str>)
        requires
            old(self).wf(),
        ensures
            final(self).wf(),
            final(self)@ == match uuid {
                Some(u) => transport_set(
                    old(self)@,
                    TransportModel {
                        path: path@,
                        uuid: lowered(u@),
                        a2dp: names_a2dp(lowered(u@)),
                        active: state matches Some(s) && streams(s@),
                    },
                ),
                None => old(self)@,
            },
    {
        let uuid: &str = match uuid {
            Some(u) => u,
            None => {
                return ;
            },
        };
        let low: String = ascii_lowercase(uuid);
        let a2dp = a2dp_uuid(low.as_str());
        let active = match state {
            Some(s) => streaming_state(s),
            None => false,
        };
        let t = Transport { path: path.to_owned(), uuid: low, a2dp, active };
        proof {
            set_keeps_paths(self@, transport_view(t));
        }
        self.put(t);
    }

    /// `PropertiesChanged` on a `MediaTransport1`. A change that carries no
    /// state, or is about a transport never added, is ignored.
    pub fn changed(&mut self, path: &str, state: Option<&str>)
        requires
            old(self).wf(),
        ensures
            final(self).wf(),
            final(self)@ == match state {
                Some(s) => old(self)@.map_values(
                    |t: TransportModel| with_state(t, path@, streams(s@)),
                ),
                None => old(self)@,
            },
    {
        let active = match state {
            Some(s) => streaming_state(s),
            None => {
                return ;
            },
        };
        let ghost before = self@;
        let ghost wanted = before.map_values(
            |t: TransportModel| with_state(t, path@, active),
        );
        let total: usize = self.entries.len();
        let mut i: usize = 0;
        while i < total
            invariant
                i <= total,
                total == self.entries@.len(),
                total == before.len(),
                wanted == before.map_values(|t: TransportModel| with_state(t, path@, active)),
                forall|k: int| 0 <= k < i ==> #[trigger] self@[k] == wanted[k],
                forall|k: int| i <= k < total ==> #[trigger] self@[k] == before[k],
            decreases total - i,
        {
            proof {
                assert(self@[i as int] == before[i as int]);
                assert(self@[i as int] == transport_view(self.entries@[i as int]));
            }
            let ghost now = self@;
            if same_text(self.entries[i].path.as_str(), path) {
                let uuid: String = self.entries[i].uuid.clone();
                let a2dp: bool = self.entries[i].a2dp;
                self.entries.set(i, Transport { path: path.to_owned(), uuid, a2dp, active });
                proof {
                    assert(self@ =~= now.update(i as int, wanted[i as int]));
                }
            }
            i += 1;
        }
        proof {
            assert(self@ =~= wanted);
            assert forall|a: int, b: int| 0 <= a < b < wanted.len() implies (
            #[trigger] wanted[a]).path != (#[trigger] wanted[b]).path by {
                assert(before[a].path != before[b].path);
            }
        }
    }

    /// The object at the path is gone.
    pub fn remove(&mut self, path: &str)
        requires
            old(self).wf(),
        ensures
            final(self).wf(),
            final(self)@ == old(self)@.filter(|t: TransportModel| t.path != path@),
    {
        let ghost before = self@;
        let ghost keep = |t: TransportModel| t.path != path@;
        let mut kept: Vec<Transport> = Vec::new();
        let mut old_entries: Vec<Transport> = Vec::new();
        std::mem::swap(&mut old_entries, &mut self.entries);
        let ghost all = old_entries@;
        proof {
            assert(before =~= all.map_values(|t: Transport| transport_view(t)));
            assert(before.take(0) =~= Seq::empty());
            assert(kept@.map_values(|t: Transport| transport_view(t)) =~= before.take(0).filter(
                keep,
            )) by {
                reveal(Seq::filter);
            }
        }
        for t in it: old_entries
            invariant
                it.seq() == all,
                before == all.map_values(|t: Transport| transport_view(t)),
                keep == (|t: TransportModel| t.path != path@),
                kept@.map_values(|t: Transport| transport_view(t)) == before.take(
                    it.index() as int,
                ).filter(keep),
        {
            let ghost i = it.index() as int;
            let ghost kept_before = kept@;
            proof {
                assert(before.take(i + 1).drop_last() =~= before.take(i));
                assert(before.take(i + 1).last() == transport_view(t));
                reveal(Seq::filter);
            }
            if !same_text(t.path.as_str(), path) {
                kept.push(t);
                proof {
                    assert(kept@.map_values(|t: Transport| transport_view(t))
                        =~= kept_before.map_values(|t: Transport| transport_view(t)).push(
                        transport_view(t),
                    ));
                }
            }
        }
        proof {
            assert(before.take(before.len() as int) =~= before);
        }
        self.entries = kept;
        proof {
            filter_keeps_paths(before, keep);
        }
    }

    /// An A2DP transport is pending or active.
    pub fn active(&self) -> (r: bool)
        ensures
            r == a2dp_streams(self@),
    {
        let mut i: usize = 0;
        while i < self.entries.len()
            invariant
                i <= self.entries@.len(),
                forall|k: int| 0 <= k < i ==> !((#[trigger] self@[k]).a2dp && self@[k].active),
            decreases self.entries@.len() - i,
        {
            proof {
                assert(self@[i as int] == transport_view(self.entries@[i as int]));
            }
            if self.entries[i].a2dp && self.entries[i].active {
                return true;
            }
            i += 1;
        }
        false
    }

    /// A non-A2DP transport is pending or active: the audio is on the
    /// hands-free profile.
    pub fn hands_free(&self) -> (r: bool)
        ensures
            r == hands_free_streams(self@),
    {
        let mut i: usize = 0;
        while i < self.entries.len()
            invariant
                i <= self.entries@.len(),
                forall|k: int| 0 <= k < i ==> !(!(#[trigger] self@[k]).a2dp && self@[k].active),
            decreases self.entries@.len() - i,
        {
            proof {
                assert(self@[i as int] == transport_view(self.entries@[i as int]));
            }
            if !self.entries[i].a2dp && self.entries[i].active {
                return true;
            }
            i += 1;
        }
        false
    }

    fn list(&self, streaming_hands_free: bool) -> (r: String)
        ensures
            r@ == transport_text(self@, streaming_hands_free),
    {
        let ghost all = self@;
        let mut lines: Vec<String> = Vec::new();
        let mut i: usize = 0;
        proof {
            assert(text_views(lines@) =~= Seq::empty());
            assert(all.take(0) =~= Seq::empty());
        }
        while i < self.entries.len()
            invariant
                i <= self.entries@.len(),
                all == self@,
                text_views(lines@) == lines_sorted(
                    transport_lines(all.take(i as int), streaming_hands_free),
                ),
                lines@.len() == transport_lines(all.take(i as int), streaming_hands_free).len(),
            decreases self.entries@.len() - i,
        {
            let t = &self.entries[i];
            let ghost model = transport_view(*t);
            let ghost before = transport_lines(all.take(i as int), streaming_hands_free);
            proof {
                let next = all.take(i + 1);
                assert(next.drop_last() =~= all.take(i as int));
                assert(next.last() == model);
                assert(before.push(transport_line(model)).drop_last() =~= before);
            }
            if !streaming_hands_free || (!t.a2dp && t.active) {
                let mut line: String = t.path.clone();
                line.append(" ");
                line.append(t.uuid.as_str());
                line.append(" ");
                line.append(
                    if t.active {
                        "streaming"
                    } else {
                        "idle"
                    },
                );
                proof {
                    assert(line@ =~= transport_line(model));
                }
                let ghost count = lines@.len();
                insert_line(&mut lines, line);
                proof {
                    inserted_length(lines_sorted(before), transport_line(model));
                    assert(text_views(lines@).len() == lines@.len());
                }
            }
            i += 1;
        }
        proof {
            assert(all.take(i as int) =~= all);
        }
        if lines.len() == 0 {
            "none".to_owned()
        } else {
            join(&lines)
        }
    }

    /// Every known transport as `path uuid state`, for the log.
    pub fn describe(&self) -> (r: String)
        ensures
            r@ == transport_text(self@, false),
    {
        self.list(false)
    }

    /// The transports that are pending or active and not A2DP.
    pub fn hands_free_detail(&self) -> (r: String)
        ensures
            r@ == transport_text(self@, true),
    {
        self.list(true)
    }
}

proof fn inserted_length(lines: Seq<Seq<char>>, line: Seq<char>)
    ensures
        crate::text::line_inserted(lines, line).len() == lines.len() + 1,
    decreases lines.len(),
{
    if lines.len() > 0 {
        inserted_length(lines.drop_last(), line);
    }
}

proof fn filter_keeps_paths(entries: Seq<TransportModel>, keep: spec_fn(TransportModel) -> bool)
    requires
        paths_differ(entries),
    ensures
        paths_differ(entries.filter(keep)),
        forall|i: int|
            0 <= i < entries.filter(keep).len() ==> exists|k: int|
                0 <= k < entries.len() && #[trigger] entries[k] == (#[trigger] entries.filter(
                    keep,
                )[i]),
    decreases entries.len(),
{
    reveal(Seq::filter);
    if entries.len() > 0 {
        let head = entries.drop_last();
        filter_keeps_paths(head, keep);
        let h = head.filter(keep);
        let r = entries.filter(keep);
        assert forall|i: int| 0 <= i < r.len() implies exists|k: int|
            0 <= k < entries.len() && #[trigger] entries[k] == (#[trigger] r[i]) by {
            if i < h.len() {
                assert(r[i] == h[i]);
                let k = choose|k: int| 0 <= k < head.len() && #[trigger] head[k] == h[i];
                assert(entries[k] == r[i]);
            } else {
                assert(entries[entries.len() - 1] == r[i]);
            }
        }
        assert forall|i: int, j: int| 0 <= i < j < r.len() implies (#[trigger] r[i]).path != (
        #[trigger] r[j]).path by {
            assert(r[i] == h[i]);
            let k = choose|k: int| 0 <= k < head.len() && #[trigger] head[k] == h[i];
            assert(entries[k] == r[i]);
            if j < h.len() {
                assert(r[j] == h[j]);
            } else {
                assert(r[j] == entries[entries.len() - 1]);
                assert(entries[k].path != entries[entries.len() - 1].path);
            }
        }
    }
}

/// What an event says about audio.
#[verifier::ext_equal]
pub enum AudioNews {
    /// See [`LinkEvent::AudioTransport`].
    Transport,
    /// See [`LinkEvent::A2dpTransport`].
    A2dp {
        /// An A2DP transport streams.
        active: bool,
        /// Every transport.
        transports: Seq<char>,
    },
    /// See [`LinkEvent::HandsFreeTransport`].
    HandsFree {
        /// The hands-free transports.
        transports: Seq<char>,
    },
}

/// What an event says about audio, if it is about audio.
pub open spec fn news_of(event: LinkEvent) -> Option<AudioNews> {
    match event {
        LinkEvent::AudioTransport => Some(AudioNews::Transport),
        LinkEvent::A2dpTransport { active, transports } => Some(
            AudioNews::A2dp { active, transports: transports@ },
        ),
        LinkEvent::HandsFreeTransport { transports } => Some(
            AudioNews::HandsFree { transports: transports@ },
        ),
        _ => None,
    }
}

/// What a list of events says about audio, in order.
pub open spec fn all_news(events: Seq<LinkEvent>) -> Seq<Option<AudioNews>> {
    events.map_values(|e: LinkEvent| news_of(e))
}

/// The news of the A2DP transport.
pub open spec fn a2dp_news(entries: Seq<TransportModel>) -> Option<AudioNews> {
    Some(
        AudioNews::A2dp { active: a2dp_streams(entries), transports: transport_text(entries, false) },
    )
}

/// The news of the hands-free transports.
pub open spec fn hands_free_news(entries: Seq<TransportModel>) -> Option<AudioNews> {
    Some(AudioNews::HandsFree { transports: transport_text(entries, true) })
}

/// What is said after a signal: that audio objects changed, if they did; the
/// A2DP state when it differs from what was said before; and the hands-free
/// transports when audio has just landed on one.
pub open spec fn said_after(
    relevant: bool,
    reported: bool,
    hands_free: bool,
    entries: Seq<TransportModel>,
) -> Seq<Option<AudioNews>> {
    let first = if relevant {
        seq![Some(AudioNews::Transport)]
    } else {
        Seq::empty()
    };
    let second = if a2dp_streams(entries) != reported {
        seq![a2dp_news(entries)]
    } else {
        Seq::empty()
    };
    let third = if hands_free_streams(entries) && !hands_free {
        seq![hands_free_news(entries)]
    } else {
        Seq::empty()
    };
    first + second + third
}

/// A path below the prefix.
pub open spec fn under(path: Option<&str>, prefix: Seq<char>) -> bool {
    path matches Some(p) && prefix.is_prefix_of(p@)
}

/// Whether a path is below the prefix.
pub fn object_under(path: Option<&str>, prefix: &str) -> (r: bool)
    ensures
        r == under(path, prefix@),
{
    match path {
        Some(p) => starts_with(&chars_of(p), prefix),
        None => false,
    }
}

/// The watch over the device's audio objects: what is known, and what was said
/// of it.
#[derive(Debug)]
pub struct AudioWatch {
    /// Object paths below the device begin with this.
    pub prefix: String,
    /// The known transports.
    pub transports: AudioTransports,
    /// The A2DP state that was said last.
    pub reported: bool,
    /// Audio was on a hands-free transport.
    pub hands_free: bool,
}

impl AudioWatch {
    /// The transports are well formed.
    pub open spec fn wf(self) -> bool {
        self.transports.wf()
    }

    /// A watch that knows nothing yet.
    pub fn new(device_path: &str) -> (r: Self)
        ensures
            r.wf(),
            r.prefix@ == device_path@ + "/"@,
            r.transports@.len() == 0,
            !r.reported,
            !r.hands_free,
    {
        let mut prefix: String = device_path.to_owned();
        prefix.append("/");
        AudioWatch { prefix, transports: AudioTransports::new(), reported: false, hands_free: false }
    }

    /// A media transport that was there when the watch began.
    pub fn seed(&mut self, path: &str, uuid: Option<&str>, state: Option<&str>)
        requires
            old(self).wf(),
        ensures
            final(self).wf(),
            final(self).prefix == old(self).prefix,
            final(self).reported == old(self).reported,
            final(self).hands_free == old(self).hands_free,
            final(self).transports@ == (if uuid is Some && under(Some(path), old(self).prefix@) {
                transport_set(
                    old(self).transports@,
                    TransportModel {
                        path: path@,
                        uuid: lowered(uuid->0@),
                        a2dp: names_a2dp(lowered(uuid->0@)),
                        active: state matches Some(s) && streams(s@),
                    },
                )
            } else {
                old(self).transports@
            }),
    {
        if object_under(Some(path), self.prefix.as_str()) {
            self.transports.add(path, uuid, state);
        }
    }

    /// Say what the watch begins with.
    pub fn start(&mut self) -> (r: Vec<LinkEvent>)
        requires
            old(self).wf(),
        ensures
            final(self).wf(),
            final(self).prefix == old(self).prefix,
            final(self).transports@ == old(self).transports@,
            final(self).reported == a2dp_streams(old(self).transports@),
            final(self).hands_free == hands_free_streams(old(self).transports@),
            all_news(r@) == seq![a2dp_news(old(self).transports@)] + (if hands_free_streams(
                old(self).transports@,
            ) {
                seq![hands_free_news(old(self).transports@)]
            } else {
                Seq::empty()
            }),
    {
        let mut out: Vec<LinkEvent> = Vec::new();
        self.reported = self.transports.active();
        self.hands_free = self.transports.hands_free();
        out.push(
            LinkEvent::A2dpTransport {
                active: self.reported,
                transports: self.transports.describe(),
            },
        );
        if self.hands_free {
            out.push(
                LinkEvent::HandsFreeTransport { transports: self.transports.hands_free_detail() },
            );
        }
        proof {
            assert(all_news(out@) =~= seq![a2dp_news(self.transports@)] + (
            if hands_free_streams(self.transports@) {
                seq![hands_free_news(self.transports@)]
            } else {
                Seq::empty()
            }));
        }
        out
    }

    fn report(&mut self, relevant: bool) -> (r: Vec<LinkEvent>)
        requires
            old(self).wf(),
        ensures
            final(self).wf(),
            final(self).prefix == old(self).prefix,
            final(self).transports@ == old(self).transports@,
            final(self).reported == a2dp_streams(old(self).transports@),
            final(self).hands_free == hands_free_streams(old(self).transports@),
            all_news(r@) == said_after(
                relevant,
                old(self).reported,
                old(self).hands_free,
                old(self).transports@,
            ),
    {
        let mut out: Vec<LinkEvent> = Vec::new();
        if relevant {
            out.push(LinkEvent::AudioTransport);
        }
        let active = self.transports.active();
        if active != self.reported {
            self.reported = active;
            out.push(
                LinkEvent::A2dpTransport { active, transports: self.transports.describe() },
            );
        }
        let now_hands_free = self.transports.hands_free();
        if now_hands_free && !self.hands_free {
            out.push(
                LinkEvent::HandsFreeTransport { transports: self.transports.hands_free_detail() },
            );
        }
        self.hands_free = now_hands_free;
        proof {
            assert(all_news(out@) =~= said_after(
                relevant,
                old(self).reported,
                old(self).hands_free,
                old(self).transports@,
            ));
        }
        out
    }

    /// `InterfacesAdded`: the object's path, and the UUID and state of its
    /// media transport interface, if it has one.
    pub fn added(
        &mut self,
        path: Option<&str>,
        transport: bool,
        uuid: Option<&str>,
        state: Option<&str>,
    ) -> (r: Vec<LinkEvent>)
        requires
            old(self).wf(),
        ensures
            final(self).wf(),
            final(self).prefix == old(self).prefix,
            final(self).transports@ == (if transport && uuid is Some && under(
                path,
                old(self).prefix@,
            ) {
                transport_set(
                    old(self).transports@,
                    TransportModel {
                        path: path->0@,
                        uuid: lowered(uuid->0@),
                        a2dp: names_a2dp(lowered(uuid->0@)),
                        active: state matches Some(s) && streams(s@),
                    },
                )
            } else {
                old(self).transports@
            }),
            final(self).reported == a2dp_streams(final(self).transports@),
            final(self).hands_free == hands_free_streams(final(self).transports@),
            all_news(r@) == said_after(
                under(path, old(self).prefix@),
                old(self).reported,
                old(self).hands_free,
                final(self).transports@,
            ),
    {
        if let Some(p) = path {
            if transport {
                self.seed(p, uuid, state);
            }
        }
        let relevant = object_under(path, self.prefix.as_str());
        self.report(relevant)
    }

    /// `InterfacesRemoved`: the object's path.
    pub fn removed(&mut self, path: Option<&str>) -> (r: Vec<LinkEvent>)
        requires
            old(self).wf(),
        ensures
            final(self).wf(),
            final(self).prefix == old(self).prefix,
            final(self).transports@ == (match path {
                Some(p) => old(self).transports@.filter(|t: TransportModel| t.path != p@),
                None => old(self).transports@,
            }),
            final(self).reported == a2dp_streams(final(self).transports@),
            final(self).hands_free == hands_free_streams(final(self).transports@),
            all_news(r@) == said_after(
                under(path, old(self).prefix@),
                old(self).reported,
                old(self).hands_free,
                final(self).transports@,
            ),
    {
        if let Some(p) = path {
            self.transports.remove(p);
        }
        let relevant = object_under(path, self.prefix.as_str());
        self.report(relevant)
    }

    /// `PropertiesChanged`: the object's path, the interface, whether `State`
    /// is among the changes, and its new value where that is a text.
    pub fn properties_changed(
        &mut self,
        path: Option<&str>,
        interface: Option<&str>,
        has_state: bool,
        state: Option<&str>,
    ) -> (r: Vec<LinkEvent>)
        requires
            old(self).wf(),
        ensures
            final(self).wf(),
            final(self).prefix == old(self).prefix,
            ({
                let ours = path is Some && (interface matches Some(i) && i@ == TRANSPORT_IFACE@);
                &&& final(self).transports@ == (if ours && state is Some {
                    old(self).transports@.map_values(
                        |t: TransportModel| with_state(t, path->0@, streams(state->0@)),
                    )
                } else {
                    old(self).transports@
                })
                &&& all_news(r@) == said_after(
                    ours && has_state && under(path, old(self).prefix@),
                    old(self).reported,
                    old(self).hands_free,
                    final(self).transports@,
                )
            }),
            final(self).reported == a2dp_streams(final(self).transports@),
            final(self).hands_free == hands_free_streams(final(self).transports@),
    {
        let ours = match interface {
            Some(i) => same_text(i, TRANSPORT_IFACE),
            None => false,
        };
        if let Some(p) = path {
            if ours {
                self.transports.changed(p, state);
            }
        }
        let relevant = ours && has_state && object_under(path, self.prefix.as_str());
        self.report(relevant)
    }
}

/// Once a signal was handled, what was said last is what holds: handling a
/// signal that changes nothing says nothing more of the streaming state.
pub proof fn the_streaming_state_is_said_once(entries: Seq<TransportModel>)
    ensures
        said_after(false, a2dp_streams(entries), hands_free_streams(entries), entries)
            == Seq::<Option<AudioNews>>::empty(),
{
}

} // verus!
