//! What single answers promise of their arguments.
use crate::aap::codec::{packet_of, DecodeError, Packet, PacketModel};
use crate::aap::session::command::{
    connect_once_answer, local_connected, pinned_refusal, PinnedLookup,
};
use crate::aap::session::link::{evidence_of, Evidence};
use crate::aap::session::{is_awaited, Awaited};
use crate::aap::socket::{send_outcome, Sent};
use crate::address::{address_from_text, Address};
use crate::audio_route::{drain_state, Drain};
use crate::ble::{
    advert_readings, aes128_encrypted, carries_hash, key_of, keys_for, observed, prand_block,
    resolves, Keys,
};
use crate::bluez::{
    airpods_like, link_facts, pick_device, refused_claim, refused_connect, watch_ended, Candidate,
    ClaimEnd, LinkEvent,
};
use crate::cache::load;
use crate::cli::{conclude, request_from_command, Command, Conclusion, HandoffChoice, Parsed};
use crate::ctl_proto::{Request, Response};
use crate::ctl_server::{queue_refusal, queued_answer, serve_request, Serving};
use crate::mpris::{reading_of, PlaybackReading};
use crate::rejoin::{LinkFacts, Outcome};
use crate::settings::valid_name;
use crate::state::{Battery, EarState};
use crate::store::Update;
use crate::text::{occurs_in, text_view};
use vstd::prelude::*;
use vstd::string::*;

verus! {

/// The device at this place is paired and looks like AirPods.
pub open spec fn fits(candidates: Seq<Candidate>, i: int) -> bool {
    0 <= i < candidates.len() && candidates[i].paired && airpods_like(candidates[i])
}

/// A pinned device is watched whatever is there. Without a pin some device is
/// watched exactly when one fits, and no one before it fits.
pub proof fn the_first_fitting_device_is_watched(
    pinned: Option<Address>,
    candidates: Vec<Candidate>,
    r: Option<Address>,
    i: int,
)
    requires
        call_ensures(pick_device, (pinned, &candidates), r),
    ensures
        pinned is Some ==> r == pinned,
        pinned is None && fits(candidates@, i) && (forall|k: int|
            0 <= k < i ==> !fits(candidates@, k)) ==> r == Some(candidates@[i].address),
        pinned is None && (forall|k: int| !fits(candidates@, k)) ==> r is None,
{
    if pinned is None {
        if r is Some {
            let j = choose|j: int|
                0 <= j < candidates@.len() && (#[trigger] candidates@[j]).address == r->0
                    && candidates@[j].paired && airpods_like(candidates@[j]) && (forall|k: int|
                    0 <= k < j ==> !((#[trigger] candidates@[k]).paired && airpods_like(
                        candidates@[k],
                    )));
            assert(fits(candidates@, j));
            if fits(candidates@, i) && i < j {
                assert(!(candidates@[i].paired && airpods_like(candidates@[i])));
            }
        } else if fits(candidates@, i) {
            assert(!(candidates@[i].paired && airpods_like(candidates@[i])));
        }
    }
}

/// A refused connect is busy, and worth another try, when another one is in
/// progress or BlueZ says busy; a link that is up already is nobody's failure.
pub proof fn a_refused_connect_says_why(
    already: bool,
    in_progress: bool,
    message: &str,
    full: String,
    r: Outcome,
    claim: ClaimEnd,
)
    requires
        call_ensures(refused_connect, (already, in_progress, message, full), r),
        call_ensures(refused_claim, (already, in_progress, message), claim),
    ensures
        already ==> (r matches Outcome::NotReady(why) && why@ == "connected_by_other_means"@),
        already <==> claim == ClaimEnd::Connected,
        r is Busy <==> claim == ClaimEnd::Busy,
        r is Busy <==> !already && (in_progress || occurs_in(message@, "busy"@)),
        r is Failed <==> claim == ClaimEnd::Failed,
        r is Failed ==> r == Outcome::Failed(full),
{
}

/// Only an adapter that is known to be powered survives the end of the watch;
/// facts are known only all together.
pub proof fn the_adapter_must_be_seen(
    powered: Option<bool>,
    paired: Option<bool>,
    blocked: Option<bool>,
    r: LinkEvent,
    facts: Option<LinkFacts>,
)
    requires
        call_ensures(watch_ended, (powered,), r),
        call_ensures(link_facts, (powered, paired, blocked), facts),
    ensures
        r is WatchEnded <==> powered == Some(true),
        r is AdapterGone <==> powered != Some(true),
        facts is Some <==> powered is Some && paired is Some && blocked is Some,
        facts is Some ==> facts->0.powered == powered->0 && facts->0.paired == paired->0
            && facts->0.blocked == blocked->0,
{
}

/// A yield waits for a player that still plays, for six tenths of a
/// second at most.
pub proof fn a_yield_waits_for_the_players(playing: bool, waited: u128, r: Drain)
    requires
        call_ensures(drain_state, (playing, waited), r),
    ensures
        r == Drain::Done <==> !playing,
        r == Drain::Expired <==> playing && waited >= 600_000_000,
        r == Drain::Waiting <==> playing && waited < 600_000_000,
{
}

/// Keys are taken exactly from a document of the pinned device with two keys
/// in it, each for its own use.
pub proof fn keys_are_of_the_pinned_device(
    pinned: Address,
    address: &str,
    irk: &str,
    encryption_key: &str,
    r: Result<Keys, String>,
)
    requires
        call_ensures(keys_for, (pinned, address, irk, encryption_key), r),
    ensures
        r is Ok <==> address_from_text(address@) == Some(pinned.0@) && key_of(irk@) is Some
            && key_of(encryption_key@) is Some,
        r is Ok ==> r->Ok_0.irk@ == key_of(irk@)->0 && r->Ok_0.encryption@ == key_of(
            encryption_key@,
        )->0,
        address_from_text(address@) != Some(pinned.0@) ==> (r matches Err(e) && e@
            == "BLE key identity differs from the pinned device"@),
{
}

/// A reading says that something plays exactly when it names the player.
pub proof fn a_reading_names_its_player(
    name: Option<String>,
    app: Option<String>,
    reading: PlaybackReading,
)
    requires
        call_ensures(reading_of, (name, app), reading),
    ensures
        reading.playing <==> name is Some,
        name is Some ==> reading.player == name && reading.app == app,
        name is None ==> reading.player is None && reading.app is None,
{
}

/// A cache comes back for the accessory that it was written for and for no
/// other one, with nothing live in it.
pub proof fn a_cache_belongs_to_its_accessory(
    owner: &str,
    cached: Battery,
    address: &str,
    r: Option<Battery>,
)
    requires
        call_ensures(load, (owner, cached, address), r),
    ensures
        r is Some <==> address@.len() > 0 && owner@ == address@,
        r is Some ==> {
            let b = r->0;
            &&& b.stale
            &&& !b.left.present && !b.right.present && !b.case.present
            &&& !b.left.fresh && !b.right.fresh && !b.case.fresh
            &&& !b.left.charging && !b.right.charging && !b.case.charging
            &&& b.left.level == cached.left.level && b.right.level == cached.right.level
                && b.case.level == cached.case.level
        },
{
}

/// What a packet tells of another host's part in a drop: whether both buds are
/// in the case, which hosts are listed, and who relays.
pub proof fn packets_are_evidence(packet: Packet, r: Option<Evidence>, i: int)
    requires
        call_ensures(evidence_of, (&packet,), r),
    ensures
        packet matches Packet::EarDetection { primary, secondary } ==> r == Some(
            Evidence::Ear {
                both_in_case: primary == EarState::Case && secondary == EarState::Case,
            },
        ),
        packet matches Packet::SmartRouting { sender, .. } ==> r == Some(
            Evidence::Relay { sender },
        ),
        packet matches Packet::ConnectedDevices { devices, .. } ==> (r matches Some(
            Evidence::ConnectedDevices(hosts),
        ) && hosts@.len() == devices@.len() && (0 <= i < devices@.len() ==> hosts@[i].address
            == devices@[i].address)),
        !(packet is EarDetection) && !(packet is SmartRouting) && !(packet is ConnectedDevices)
            ==> r is None,
{
}

/// A request is answered at once, streamed, handed on as it is, or refused in
/// the parser's words.
pub proof fn requests_are_served(parsed: Result<Request, String>, r: Serving)
    requires
        call_ensures(serve_request, (parsed,), r),
    ensures
        parsed == Ok::<Request, String>(Request::Status) <==> r is Status,
        parsed == Ok::<Request, String>(Request::Subscribe) <==> r is Stream,
        parsed is Err ==> (r matches Serving::Refuse(why) && why@ == "bad request: "@
            + parsed->Err_0@),
        parsed is Ok && !(parsed->Ok_0 is Status) && !(parsed->Ok_0 is Subscribe) ==> r
            == Serving::Dispatch(parsed->Ok_0),
{
}

/// A queued request is answered by the supervisor, or by why it was not: it
/// was not queued, let go, or not answered in time.
pub proof fn queued_requests_are_answered(
    queued: Option<bool>,
    refusal: Option<Response>,
    answer: Option<Option<Response>>,
    r: Response,
)
    requires
        call_ensures(queue_refusal, (queued,), refusal),
        call_ensures(queued_answer, (answer,), r),
    ensures
        refusal is None <==> queued == Some(true),
        refusal is Some ==> (refusal->0 matches Response::Ack { ok, .. } && !ok),
        answer matches Some(Some(response)) ==> r == response,
        answer is None || answer->0 is None ==> (r matches Response::Ack { ok, .. } && !ok),
{
}

/// A write that is to be verified is watched once it is acknowledged; a
/// refused command fails with the daemon's words.
pub proof fn answers_are_concluded(
    response: Response,
    wants_json: bool,
    handoff_view: bool,
    notice: Option<&'static str>,
    verify_key: Option<String>,
    r: Conclusion,
)
    requires
        call_ensures(conclude, (response, wants_json, handoff_view, notice, verify_key), r),
    ensures
        response matches Response::Ack { ok, error } ==> {
            &&& ok && verify_key is Some ==> r == Conclusion::Await(verify_key->0)
            &&& ok && verify_key is None && notice is Some ==> r == Conclusion::Notice(notice->0)
            &&& ok && verify_key is None && notice is None ==> r == Conclusion::Quiet
            &&& !ok && error is Some ==> (r matches Conclusion::Fail(why) && why@ == error->0@)
            &&& !ok && error is None ==> (r matches Conclusion::Fail(why) && why@
                == "command failed"@)
        },
        response matches Response::Status(s) ==> {
            &&& wants_json ==> r == Conclusion::Document(s)
            &&& !wants_json ==> r is Show
        },
{
}

/// The command line asks the daemon for what it names, and waits for a
/// readback only after a setting or a name. A name that may not be given is
/// refused before anything is asked.
pub proof fn commands_ask_for_what_they_name(command: Command, r: Result<Parsed, String>)
    requires
        call_ensures(request_from_command, (command,), r),
    ensures
        command matches Command::Noise(mode) ==> (r matches Ok(p) && p.request
            == (Request::SetNoiseControl { value: mode })),
        command matches Command::ConversationalAwareness(on) ==> (r matches Ok(p) && p.request
            == (Request::SetConversationalAwareness { value: on })),
        command matches Command::Adaptive(level) ==> (r matches Ok(p) && p.request
            == (Request::SetAdaptiveLevel { value: level })),
        command is Reconnect ==> (r matches Ok(p) && p.request == Request::Reconnect),
        command is ConnectOnce ==> (r matches Ok(p) && p.request == Request::ConnectOnce),
        command is TakeOver ==> (r matches Ok(p) && p.request == Request::TakeOver),
        command is Yield ==> (r matches Ok(p) && p.request == Request::Yield),
        command == Command::Handoff(HandoffChoice::On) ==> (r matches Ok(p) && p.request
            == (Request::SetHandoff { enabled: true })),
        command == Command::Handoff(HandoffChoice::Off) ==> (r matches Ok(p) && p.request
            == (Request::SetHandoff { enabled: false })),
        command == Command::Handoff(HandoffChoice::Status) ==> (r matches Ok(p) && p.request
            == Request::Status && p.handoff_view),
        command matches Command::Status { json } ==> (r matches Ok(p) && p.request
            == Request::Status && p.wants_json == json && !p.handoff_view),
        command matches Command::Rename(name) ==> {
            &&& r is Ok <==> valid_name(name@)
            &&& r matches Ok(p) ==> p.request == (Request::Rename { name }) && text_view(
                p.verify_key,
            ) == Some("name"@)
        },
        command matches Command::Setting { .. } ==> (r matches Ok(p) ==> (
        p.request matches Request::SetSetting { setting } && setting@.writable() && text_view(
            p.verify_key,
        ) == Some(setting@.key()))),
        r is Ok && !(command is Rename) && !(command is Setting) ==> r->Ok_0.verify_key is None,
{
}

/// A link is known to be up or down only from BlueZ's own answer about a
/// selected device.
pub proof fn only_bluez_says_what_is_connected(
    selected: bool,
    answer: Option<Result<bool, String>>,
    r: Result<bool, String>,
)
    requires
        call_ensures(local_connected, (selected, answer), r),
    ensures
        r is Ok <==> selected && answer is Some && answer->0 is Ok,
        r is Ok ==> r->Ok_0 == answer->0->Ok_0,
{
}

/// A single connect goes out for a paired device while the command stands, and
/// succeeds only where BlueZ says so.
pub proof fn a_single_connect_is_asked_for(
    found: PinnedLookup,
    current: Result<(), &'static str>,
    refusal: Option<String>,
    result: Option<Result<(), String>>,
    r: Result<(), String>,
)
    requires
        call_ensures(pinned_refusal, (&found, current), refusal),
        call_ensures(connect_once_answer, (result,), r),
    ensures
        refusal is None <==> found is Paired && current is Ok,
        r is Ok <==> result is Some && result->0 is Ok,
{
}

/// A datagram was sent when the socket took all of it, and acknowledged by the
/// packet that was waited for.
pub proof fn datagrams_are_sent_in_full(
    sent: Sent,
    len: usize,
    r: Result<(), String>,
    datagram: &[u8],
    handshake: bool,
    features: bool,
)
    requires
        call_ensures(send_outcome, (sent, len), r),
        call_ensures(is_awaited, (Awaited::Handshake, datagram), handshake),
        call_ensures(is_awaited, (Awaited::Features, datagram), features),
    ensures
        r is Ok <==> sent == Sent::Bytes(len),
        handshake <==> packet_of(datagram@) == Ok::<PacketModel, DecodeError>(
            PacketModel::HandshakeAck,
        ),
        features <==> packet_of(datagram@) == Ok::<PacketModel, DecodeError>(
            PacketModel::FeaturesAck,
        ),
{
}

/// An advert publishes the levels it carries, under the pinned address.
pub proof fn an_advert_publishes_its_levels(
    identity: Address,
    keys: Keys,
    data: Option<&[u8]>,
    r: Option<Update>,
)
    requires
        call_ensures(observed, (identity, &keys, data), r),
    ensures
        r is Some <==> data is Some && advert_readings(data->0@, keys.encryption@) is Some,
        r is Some ==> (r->0 matches Update::BleBattery { address, entries } && address@
            == identity.text() && entries@ == advert_readings(data->0@, keys.encryption@)->0),
{
}

/// An address is the accessory's when the encryption of its first half, under
/// the key read backwards, ends in its second half.
pub proof fn an_address_resolves_by_its_hash(address: Address, irk: [u8; 16], r: bool)
    requires
        call_ensures(resolves, (address, &irk), r),
    ensures
        r <==> carries_hash(
            address.0@,
            aes128_encrypted(irk@.reverse(), prand_block(address.0@)),
        ),
{
}

} // verus!
