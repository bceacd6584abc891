//! The PipeWire card profile of the AirPods follows AAP ownership.
//!
//! Two hosts can hold a link to the same AirPods, and whichever one starts an
//! A2DP stream gets the audio: the ownership handshake does not stop it. So
//! the card profile is set to `off` while another host owns the AirPods: the
//! sink node disappears and nothing local can reach them. Setting `off` also
//! releases the transport from this side.
//!
//! A yield is therefore ordered. Local players are paused; the yield waits up
//! to [`DRAIN_TIMEOUT`] for playback to stop; the card profile is switched to
//! `off`; only then are the AirPods told that this host no longer owns them.
//! Taking over runs the other way: the A2DP profile goes back before any AAP
//! write.
use crate::aap::codec::{lossy_text, text_lossy};
use crate::clock::{Duration, MILLISECOND, SECOND};
use crate::json::{
    boolean, items, json_bool, json_items, json_member, json_string, json_unsigned, member,
    string, unsigned,
};
use crate::text::{
    ascii_upper, chars_of, decimal, push_decimal, same_text, starts_with, string_of, text_views,
    trim, trimmed, upper_char,
};
use vstd::prelude::*;
use vstd::string::*;
use vstd::utf8::is_ascii_chars;

verus! {

/// Wait between retries while the card is missing or the switch failed.
pub const RETRY_GAP: Duration = 500 * MILLISECOND;

/// Give up retrying after this long: the AirPods' card appears within about
/// two seconds of a connection, so anything longer is a real failure.
pub const RETRY_WINDOW: Duration = 15 * SECOND;

/// A `pw-dump` or `pw-cli` call that takes longer than this has hung.
pub const TOOL_TIMEOUT: Duration = 5 * SECOND;

/// How long the shutdown restore may take before the daemon exits anyway.
pub const RESTORE_TIMEOUT: Duration = 3 * SECOND;

/// How long a yield waits for local playback to stop after the pause request
/// before switching the card off anyway.
pub const DRAIN_TIMEOUT: Duration = 600 * MILLISECOND;

/// How long a yield waits for the card to actually reach `off` before letting
/// the ownership release go out behind it.
pub const YIELD_ROUTE_WAIT: Duration = 2 * SECOND;

/// The `off` profile, present on every card.
pub const OFF: &'static str = "off";

/// Every high-fidelity playback profile starts with this; a `headset-*`
/// profile is never chosen, it would put the AirPods on the call codec.
pub const A2DP: &'static str = "a2dp-sink";

/// Whether a yield may take the card off the AirPods yet.
#[derive(Debug, Clone, Copy, PartialEq, Eq, Structural)]
pub enum Drain {
    /// Nothing is playing locally: switch the card off now.
    Done,
    /// A player is still going and the window has not run out.
    Waiting,
    /// The window ran out with a player still going: switch off anyway,
    /// because the other host is waiting for the AirPods.
    Expired,
}

/// Decide the drain step from the latest playback reading and how long the
/// yield has waited since asking the players to pause.
pub fn drain_state(playing: bool, waited: Duration) -> (r: Drain)
    ensures
        r == (if !playing {
            Drain::Done
        } else if waited >= DRAIN_TIMEOUT {
            Drain::Expired
        } else {
            Drain::Waiting
        }),
{
    if !playing {
        return Drain::Done;
    }
    if waited >= DRAIN_TIMEOUT {
        return Drain::Expired;
    }
    Drain::Waiting
}

/// Where the local audio route should point.
#[derive(Debug, Clone, Copy, PartialEq, Eq, Structural)]
pub enum RouteMode {
    /// This host owns the AirPods: the A2DP profile is on.
    Own,
    /// Another host owns them: the card is `off`.
    Yielded,
}

impl RouteMode {
    /// The mode in a word.
    pub fn as_str(self) -> (r: &'static str)
        ensures
            r@ == (match self {
                RouteMode::Own => "own"@,
                RouteMode::Yielded => "yielded"@,
            }),
    {
        match self {
            RouteMode::Own => "own",
            RouteMode::Yielded => "yielded",
        }
    }
}

/// One entry of the card's `EnumProfile`.
#[derive(Debug, PartialEq, Eq)]
pub struct ProfileInfo {
    /// `Profile` index to pass to `pw-cli set-param`.
    pub index: u32,
    /// `off`, `a2dp-sink`, `headset-head-unit` and so on.
    pub name: String,
    /// The profile can be selected right now.
    pub available: bool,
}

impl Clone for ProfileInfo {
    fn clone(&self) -> (r: Self)
        ensures
            r == *self,
    {
        ProfileInfo { index: self.index, name: self.name.clone(), available: self.available }
    }
}

/// The AirPods' bluez card as `pw-dump` describes it.
#[derive(Debug, Clone, PartialEq, Eq)]
pub struct CardInfo {
    /// PipeWire global id, the first argument of `pw-cli set-param`.
    pub id: u32,
    /// Index of the profile in use.
    pub current: u32,
    /// Everything the card offers.
    pub profiles: Vec<ProfileInfo>,
}

/// A profile with its name read as a sequence.
#[verifier::ext_equal]
pub struct ProfileModel {
    /// Index.
    pub index: u32,
    /// Name.
    pub name: Seq<char>,
    /// The profile can be selected right now.
    pub available: bool,
}

/// A card as mathematical values.
#[verifier::ext_equal]
pub struct CardModel {
    /// PipeWire global id.
    pub id: u32,
    /// Index of the profile in use.
    pub current: u32,
    /// Everything the card offers.
    pub profiles: Seq<ProfileModel>,
}

impl View for ProfileInfo {
    type V = ProfileModel;

    open spec fn view(&self) -> ProfileModel {
        ProfileModel { index: self.index, name: self.name@, available: self.available }
    }
}

/// The profiles of a list, names read as sequences.
pub open spec fn profile_views(list: Seq<ProfileInfo>) -> Seq<ProfileModel> {
    list.map_values(|p: ProfileInfo| p@)
}

impl View for CardInfo {
    type V = CardModel;

    open spec fn view(&self) -> CardModel {
        CardModel {
            id: self.id,
            current: self.current,
            profiles: profile_views(self.profiles@),
        }
    }
}

/// A high-fidelity playback profile.
pub open spec fn a2dp_name(name: Seq<char>) -> bool {
    A2DP@.is_prefix_of(name)
}

/// The first profile that meets a condition.
pub open spec fn first_profile(
    profiles: Seq<ProfileModel>,
    wanted: spec_fn(ProfileModel) -> bool,
) -> Option<ProfileModel>
    decreases profiles.len(),
{
    if profiles.len() == 0 {
        None
    } else if wanted(profiles[0]) {
        Some(profiles[0])
    } else {
        first_profile(profiles.skip(1), wanted)
    }
}

pub(crate) proof fn lemma_first_profile(
    profiles: Seq<ProfileModel>,
    wanted: spec_fn(ProfileModel) -> bool,
    at: int,
)
    requires
        0 <= at <= profiles.len(),
        forall|k: int| 0 <= k < at ==> !wanted(#[trigger] profiles[k]),
        at < profiles.len() ==> wanted(profiles[at]),
    ensures
        first_profile(profiles, wanted) == (if at < profiles.len() {
            Some(profiles[at])
        } else {
            None
        }),
    decreases profiles.len(),
{
    if profiles.len() > 0 && at > 0 {
        assert(!wanted(profiles[0]));
        let rest = profiles.skip(1);
        assert forall|k: int| 0 <= k < at - 1 implies !wanted(#[trigger] rest[k]) by {
            assert(rest[k] == profiles[k + 1]);
        }
        lemma_first_profile(rest, wanted, at - 1);
    }
}

proof fn lemma_first_is_one(
    profiles: Seq<ProfileModel>,
    wanted: spec_fn(ProfileModel) -> bool,
)
    ensures
        first_profile(profiles, wanted) matches Some(p) ==> profiles.contains(p) && wanted(p),
    decreases profiles.len(),
{
    if profiles.len() > 0 {
        if wanted(profiles[0]) {
            assert(profiles.contains(profiles[0]));
        } else {
            let rest = profiles.skip(1);
            lemma_first_is_one(rest, wanted);
            if let Some(p) = first_profile(rest, wanted) {
                let k = choose|k: int| 0 <= k < rest.len() && rest[k] == p;
                assert(profiles[k + 1] == p);
            }
        }
    }
}

impl CardModel {
    /// The profile of an index, if the card offers one.
    pub open spec fn profile(self, index: u32) -> Option<ProfileModel> {
        first_profile(self.profiles, |p: ProfileModel| p.index == index)
    }

    /// The name of a profile, or a question mark.
    pub open spec fn name_of(self, index: u32) -> Seq<char> {
        match self.profile(index) {
            Some(p) => p.name,
            None => "?"@,
        }
    }

    /// The profile index a mode wants. While yielded that is `off`. While
    /// owning it is the A2DP profile already in use if there is one, then the
    /// remembered one, then plain `a2dp-sink`, then the first available
    /// `a2dp-sink*`.
    pub open spec fn picked(self, mode: RouteMode, remembered: Option<u32>) -> Option<u32> {
        match mode {
            RouteMode::Yielded => index_of(
                first_profile(self.profiles, |p: ProfileModel| p.name == OFF@),
            ),
            RouteMode::Own => if a2dp_name(self.name_of(self.current)) {
                Some(self.current)
            } else if self.usable_remembered(remembered) is Some {
                self.usable_remembered(remembered)
            } else if self.usable_plain() is Some {
                self.usable_plain()
            } else {
                index_of(
                    first_profile(
                        self.profiles,
                        |p: ProfileModel| a2dp_name(p.name) && p.available,
                    ),
                )
            },
        }
    }

    /// The remembered profile, if the card still offers it and it can be
    /// selected.
    pub open spec fn usable_remembered(self, remembered: Option<u32>) -> Option<u32> {
        match remembered {
            Some(index) => if_available(
                first_profile(
                    self.profiles,
                    |p: ProfileModel| p.index == index && a2dp_name(p.name),
                ),
            ),
            None => None,
        }
    }

    /// Plain `a2dp-sink`, if the card offers it and it can be selected.
    pub open spec fn usable_plain(self) -> Option<u32> {
        if_available(first_profile(self.profiles, |p: ProfileModel| p.name == A2DP@))
    }
}

/// Index of a profile.
pub open spec fn index_of(p: Option<ProfileModel>) -> Option<u32> {
    match p {
        Some(p) => Some(p.index),
        None => None,
    }
}

/// Index of a profile that can be selected.
pub open spec fn if_available(p: Option<ProfileModel>) -> Option<u32> {
    match p {
        Some(p) => if p.available {
            Some(p.index)
        } else {
            None
        },
        None => None,
    }
}

fn is_a2dp_name(name: &String) -> (r: bool)
    ensures
        r == a2dp_name(name@),
{
    starts_with(&chars_of(name.as_str()), A2DP)
}

impl CardInfo {
    fn position(&self, index: u32) -> (r: Option<usize>)
        ensures
            match r {
                Some(i) => i < self.profiles@.len() && self@.profile(index) == Some(
                    self.profiles@[i as int]@,
                ),
                None => self@.profile(index) is None,
            },
    {
        let ghost all = self@.profiles;
        let ghost wanted = |p: ProfileModel| p.index == index;
        let mut i: usize = 0;
        while i < self.profiles.len()
            invariant
                i <= self.profiles@.len(),
                all == profile_views(self.profiles@),
                all == self@.profiles,
                wanted == (|p: ProfileModel| p.index == index),
                forall|k: int| 0 <= k < i ==> !wanted(#[trigger] all[k]),
            decreases self.profiles@.len() - i,
        {
            proof {
                assert(all[i as int] == self.profiles@[i as int]@);
            }
            if self.profiles[i].index == index {
                proof {
                    lemma_first_profile(all, wanted, i as int);
                }
                return Some(i);
            }
            i = i + 1;
        }
        proof {
            lemma_first_profile(all, wanted, all.len() as int);
        }
        None
    }

    /// Name of a profile, or a question mark.
    pub fn name_of(&self, index: u32) -> (r: &str)
        ensures
            r@ == self@.name_of(index),
    {
        match self.position(index) {
            Some(i) => self.profiles[i].name.as_str(),
            None => "?",
        }
    }

    /// Whether the index is a high-fidelity playback profile.
    pub fn is_a2dp(&self, index: u32) -> (r: bool)
        ensures
            r == a2dp_name(self@.name_of(index)),
    {
        starts_with(&chars_of(self.name_of(index)), A2DP)
    }

    fn first_named(&self, name: &str) -> (r: Option<usize>)
        ensures
            match r {
                Some(i) => i < self.profiles@.len() && first_profile(
                    self@.profiles,
                    |p: ProfileModel| p.name == name@,
                ) == Some(self.profiles@[i as int]@),
                None => first_profile(self@.profiles, |p: ProfileModel| p.name == name@) is None,
            },
    {
        let ghost all = self@.profiles;
        let ghost wanted = |p: ProfileModel| p.name == name@;
        let mut i: usize = 0;
        while i < self.profiles.len()
            invariant
                i <= self.profiles@.len(),
                all == profile_views(self.profiles@),
                all == self@.profiles,
                wanted == (|p: ProfileModel| p.name == name@),
                forall|k: int| 0 <= k < i ==> !wanted(#[trigger] all[k]),
            decreases self.profiles@.len() - i,
        {
            proof {
                assert(all[i as int] == self.profiles@[i as int]@);
            }
            if same_text(self.profiles[i].name.as_str(), name) {
                proof {
                    lemma_first_profile(all, wanted, i as int);
                }
                return Some(i);
            }
            i = i + 1;
        }
        proof {
            lemma_first_profile(all, wanted, all.len() as int);
        }
        None
    }

    fn first_a2dp_at(&self, index: u32) -> (r: Option<usize>)
        ensures
            match r {
                Some(i) => i < self.profiles@.len() && first_profile(
                    self@.profiles,
                    |p: ProfileModel| p.index == index && a2dp_name(p.name),
                ) == Some(self.profiles@[i as int]@),
                None => first_profile(
                    self@.profiles,
                    |p: ProfileModel| p.index == index && a2dp_name(p.name),
                ) is None,
            },
    {
        let ghost all = self@.profiles;
        let ghost wanted = |p: ProfileModel| p.index == index && a2dp_name(p.name);
        let mut i: usize = 0;
        while i < self.profiles.len()
            invariant
                i <= self.profiles@.len(),
                all == profile_views(self.profiles@),
                all == self@.profiles,
                wanted == (|p: ProfileModel| p.index == index && a2dp_name(p.name)),
                forall|k: int| 0 <= k < i ==> !wanted(#[trigger] all[k]),
            decreases self.profiles@.len() - i,
        {
            proof {
                assert(all[i as int] == self.profiles@[i as int]@);
            }
            if self.profiles[i].index == index && is_a2dp_name(&self.profiles[i].name) {
                proof {
                    lemma_first_profile(all, wanted, i as int);
                }
                return Some(i);
            }
            i = i + 1;
        }
        proof {
            lemma_first_profile(all, wanted, all.len() as int);
        }
        None
    }

    fn first_available_a2dp(&self) -> (r: Option<usize>)
        ensures
            match r {
                Some(i) => i < self.profiles@.len() && first_profile(
                    self@.profiles,
                    |p: ProfileModel| a2dp_name(p.name) && p.available,
                ) == Some(self.profiles@[i as int]@),
                None => first_profile(
                    self@.profiles,
                    |p: ProfileModel| a2dp_name(p.name) && p.available,
                ) is None,
            },
    {
        let ghost all = self@.profiles;
        let ghost wanted = |p: ProfileModel| a2dp_name(p.name) && p.available;
        let mut i: usize = 0;
        while i < self.profiles.len()
            invariant
                i <= self.profiles@.len(),
                all == profile_views(self.profiles@),
                all == self@.profiles,
                wanted == (|p: ProfileModel| a2dp_name(p.name) && p.available),
                forall|k: int| 0 <= k < i ==> !wanted(#[trigger] all[k]),
            decreases self.profiles@.len() - i,
        {
            proof {
                assert(all[i as int] == self.profiles@[i as int]@);
            }
            if is_a2dp_name(&self.profiles[i].name) && self.profiles[i].available {
                proof {
                    lemma_first_profile(all, wanted, i as int);
                }
                return Some(i);
            }
            i = i + 1;
        }
        proof {
            lemma_first_profile(all, wanted, all.len() as int);
        }
        None
    }
}

/// The profile index `mode` wants, or `None` when the card offers nothing
/// suitable. See [`CardModel::picked`].
pub fn pick_profile(card: &CardInfo, mode: RouteMode, remembered_a2dp: Option<u32>) -> (r: Option<
    u32,
>)
    ensures
        r == card@.picked(mode, remembered_a2dp),
{
    match mode {
        RouteMode::Yielded => match card.first_named(OFF) {
            Some(i) => Some(card.profiles[i].index),
            None => None,
        },
        RouteMode::Own => {
            if card.is_a2dp(card.current) {
                return Some(card.current);
            }
            if let Some(index) = remembered_a2dp {
                if let Some(i) = card.first_a2dp_at(index) {
                    if card.profiles[i].available {
                        return Some(card.profiles[i].index);
                    }
                }
            }
            if let Some(i) = card.first_named(A2DP) {
                if card.profiles[i].available {
                    return Some(card.profiles[i].index);
                }
            }
            match card.first_available_a2dp() {
                Some(i) => Some(card.profiles[i].index),
                None => None,
            }
        },
    }
}

/// A profile picked for owning is one of the card's A2DP profiles, never a
/// headset one, and one picked for yielding is `off`.
pub proof fn picks_fit_the_mode(card: CardModel, mode: RouteMode, remembered: Option<u32>)
    requires
        card.picked(mode, remembered) is Some,
    ensures
        exists|p: ProfileModel|
            #[trigger] card.profiles.contains(p) && p.index == card.picked(mode, remembered)->0 && (
            match mode {
                RouteMode::Own => a2dp_name(p.name),
                RouteMode::Yielded => p.name == OFF@,
            }),
{
    let by_current = |p: ProfileModel| p.index == card.current;
    lemma_first_is_one(card.profiles, by_current);
    lemma_first_is_one(card.profiles, |p: ProfileModel| p.name == OFF@);
    lemma_first_is_one(card.profiles, |p: ProfileModel| p.name == A2DP@);
    lemma_first_is_one(card.profiles, |p: ProfileModel| a2dp_name(p.name) && p.available);
    reveal_strlit("a2dp-sink");
    reveal_strlit("?");
    assert(A2DP@.is_prefix_of(A2DP@)) by {
        assert(A2DP@ =~= A2DP@.subrange(0, A2DP@.len() as int));
    }
    assert(!a2dp_name("?"@));
    match mode {
        RouteMode::Yielded => {
            let p = first_profile(card.profiles, |p: ProfileModel| p.name == OFF@)->0;
            assert(card.profiles.contains(p));
        },
        RouteMode::Own => {
            if a2dp_name(card.name_of(card.current)) {
                let p = card.profile(card.current)->0;
                assert(card.profile(card.current) == first_profile(card.profiles, by_current));
                assert(a2dp_name(p.name));
            } else if card.usable_remembered(remembered) is Some {
                let index = remembered->0;
                let wanted = |p: ProfileModel| p.index == index && a2dp_name(p.name);
                lemma_first_is_one(card.profiles, wanted);
                let p = first_profile(card.profiles, wanted)->0;
                assert(a2dp_name(p.name));
            } else if card.usable_plain() is Some {
                let p = first_profile(card.profiles, |p: ProfileModel| p.name == A2DP@)->0;
                assert(a2dp_name(p.name));
            } else {
                let p = first_profile(
                    card.profiles,
                    |p: ProfileModel| a2dp_name(p.name) && p.available,
                )->0;
                assert(a2dp_name(p.name));
            }
        },
    }
}

/// What the standard library's upper case of a text is.
pub uninterp spec fn upper_case(text: Seq<char>) -> Seq<char>;

/// `str::to_uppercase`. The result is a function of the text; an ASCII text
/// has its letters replaced one for one.
#[verifier::external_body]
fn to_upper_case(text: &str) -> (r: String)
    ensures
        r@ == upper_case(text@),
        is_ascii_chars(text@) ==> r@ == text@.map_values(|c: char| upper_char(c)),
{
    text.to_uppercase()
}

/// Separators of an address as PipeWire writes them.
pub open spec fn underscored(text: Seq<char>) -> Seq<char> {
    text.map_values(
        |c: char|
            if c == ':' || c == '-' {
                '_'
            } else {
                c
            },
    )
}

/// `bluez_card.BC_80_4E_01_02_03` for `BC:80:4E:01:02:03`.
pub fn card_name(addr: &str) -> (r: String)
    ensures
        r@ == "bluez_card."@ + upper_case(underscored(addr@)),
        is_ascii_chars(addr@) ==> r@ == "bluez_card."@ + underscored(addr@).map_values(
            |c: char| upper_char(c),
        ),
{
    let chars: Vec<char> = chars_of(addr);
    let mut out: Vec<char> = Vec::new();
    let mut i: usize = 0;
    while i < chars.len()
        invariant
            i <= chars@.len(),
            chars@ == addr@,
            out@.len() == i,
            forall|k: int| 0 <= k < i ==> out@[k] == underscored(addr@)[k],
        decreases chars@.len() - i,
    {
        let c: char = chars[i];
        out.push(
            if c == ':' || c == '-' {
                '_'
            } else {
                c
            },
        );
        i = i + 1;
    }
    proof {
        assert(out@ =~= underscored(addr@));
    }
    let text: String = string_of(out.as_slice());
    let upper: String = to_upper_case(text.as_str());
    let mut name: String = "bluez_card.".to_owned();
    name.append(upper.as_str());
    proof {
        if is_ascii_chars(addr@) {
            assert(is_ascii_chars(underscored(addr@)));
        }
    }
    name
}

/// The text is "no" in any mixture of cases.
pub open spec fn says_no(text: Seq<char>) -> bool {
    text.map_values(|c: char| upper_char(c)) == "NO"@
}

/// Whether a profile can be selected: PipeWire writes `available` as a word or
/// a boolean, depending on the version. Anything but an explicit no counts.
pub open spec fn available_in(value: Option<Seq<char>>) -> bool {
    match value {
        None => true,
        Some(text) => match (json_bool(text), json_string(text)) {
            (Some(b), _) => b,
            (None, Some(s)) => !says_no(s),
            (None, None) => true,
        },
    }
}

/// Whether a word is anything but "no".
pub fn word_is_available(word: &str) -> (r: bool)
    ensures
        r == !says_no(word@),
{
    let chars: Vec<char> = chars_of(word);
    proof {
        reveal_strlit("NO");
        let up = word@.map_values(|c: char| upper_char(c));
        assert(up.len() == word@.len());
        if up == "NO"@ {
            assert(word@.len() == 2);
            assert(up[0] == 'N' && up[1] == 'O');
        }
        if word@.len() == 2 && upper_char(word@[0]) == 'N' && upper_char(word@[1]) == 'O' {
            assert(up =~= "NO"@);
        }
    }
    !(chars.len() == 2 && ascii_upper(chars[0]) == 'N' && ascii_upper(chars[1]) == 'O')
}

/// Whether the `available` member of a profile lets it be selected.
pub fn available_of(value: Option<&str>) -> (r: bool)
    ensures
        r == available_in(
            match value {
                Some(v) => Some(v@),
                None => None,
            },
        ),
{
    match value {
        None => true,
        Some(text) => {
            if let Some(b) = boolean(text) {
                return b;
            }
            match string(text) {
                Some(s) => word_is_available(s.as_str()),
                None => true,
            }
        },
    }
}

/// A number that fits 32 bits, from a member of an object.
pub open spec fn small_number(value: Option<Seq<char>>) -> Option<u32> {
    match value {
        Some(text) => match json_unsigned(text) {
            Some(n) => if n <= u32::MAX {
                Some(n as u32)
            } else {
                None
            },
            None => None,
        },
        None => None,
    }
}

/// A string, from a member of an object.
pub open spec fn string_in(value: Option<Seq<char>>) -> Option<Seq<char>> {
    match value {
        Some(text) => json_string(text),
        None => None,
    }
}

/// A member of a member.
pub open spec fn member_in(value: Option<Seq<char>>, key: Seq<char>) -> Option<Seq<char>> {
    match value {
        Some(text) => json_member(text, key),
        None => None,
    }
}

/// One `EnumProfile` entry: `None` without an index and a name.
pub open spec fn profile_in(entry: Seq<char>) -> Option<ProfileModel> {
    match (
        small_number(json_member(entry, "index"@)),
        string_in(json_member(entry, "name"@)),
    ) {
        (Some(index), Some(name)) => Some(
            ProfileModel {
                index,
                name,
                available: available_in(json_member(entry, "available"@)),
            },
        ),
        _ => None,
    }
}

/// The readable entries of an `EnumProfile` list, in order.
pub open spec fn profiles_in(entries: Seq<Seq<char>>) -> Seq<ProfileModel>
    decreases entries.len(),
{
    if entries.len() == 0 {
        Seq::empty()
    } else {
        let rest = profiles_in(entries.drop_last());
        match profile_in(entries.last()) {
            Some(p) => rest.push(p),
            None => rest,
        }
    }
}

fn number_from(value: Option<String>) -> (r: Option<u32>)
    ensures
        r == small_number(crate::text::text_view(value)),
{
    match value {
        Some(text) => match unsigned(text.as_str()) {
            Some(n) => if n <= u32::MAX as u64 {
                Some(n as u32)
            } else {
                None
            },
            None => None,
        },
        None => None,
    }
}

fn string_from(value: Option<String>) -> (r: Option<String>)
    ensures
        crate::text::text_view(r) == string_in(crate::text::text_view(value)),
{
    match value {
        Some(text) => string(text.as_str()),
        None => None,
    }
}

fn member_from(value: Option<String>, key: &str) -> (r: Option<String>)
    ensures
        crate::text::text_view(r) == member_in(crate::text::text_view(value), key@),
{
    match value {
        Some(text) => member(text.as_str(), key),
        None => None,
    }
}

fn profile_of(entry: &str) -> (r: Option<ProfileInfo>)
    ensures
        match r {
            Some(p) => profile_in(entry@) == Some(p@),
            None => profile_in(entry@) is None,
        },
{
    let index: u32 = match number_from(member(entry, "index")) {
        Some(n) => n,
        None => {
            return None;
        },
    };
    let name: String = match string_from(member(entry, "name")) {
        Some(s) => s,
        None => {
            return None;
        },
    };
    let available = match member(entry, "available") {
        Some(text) => available_of(Some(text.as_str())),
        None => available_of(None),
    };
    Some(ProfileInfo { index, name, available })
}

fn profiles_from(entries: &Vec<String>) -> (r: Vec<ProfileInfo>)
    ensures
        profile_views(r@) == profiles_in(text_views(entries@)),
{
    let mut out: Vec<ProfileInfo> = Vec::new();
    let mut i: usize = 0;
    let ghost all = text_views(entries@);
    proof {
        assert(all.take(0) =~= Seq::empty());
        assert(profile_views(out@) =~= Seq::empty());
    }
    while i < entries.len()
        invariant
            i <= entries@.len(),
            all == text_views(entries@),
            profile_views(out@) == profiles_in(all.take(i as int)),
        decreases entries@.len() - i,
    {
        let ghost before = out@;
        proof {
            let next = all.take(i as int + 1);
            assert(next.drop_last() =~= all.take(i as int));
            assert(next.last() == entries@[i as int]@);
        }
        match profile_of(entries[i].as_str()) {
            Some(p) => {
                let ghost model = p@;
                out.push(p);
                proof {
                    assert(profile_views(out@) =~= profile_views(before).push(model));
                }
            },
            None => {},
        }
        i = i + 1;
    }
    proof {
        assert(all.take(all.len() as int) =~= all);
    }
    out
}

/// One `pw-dump` object as the card named `wanted`, or `None` for anything
/// else. Objects without the fields are skipped.
pub open spec fn card_in(object: Seq<char>, wanted: Seq<char>) -> Option<CardModel> {
    let info = json_member(object, "info"@);
    let params = member_in(info, "params"@);
    let in_use = match member_in(params, "Profile"@) {
        Some(list) => match json_items(list) {
            Some(entries) => if entries.len() > 0 {
                small_number(json_member(entries[0], "index"@))
            } else {
                None
            },
            None => None,
        },
        None => None,
    };
    let offered = match member_in(params, "EnumProfile"@) {
        Some(list) => match json_items(list) {
            Some(entries) => profiles_in(entries),
            None => Seq::empty(),
        },
        None => Seq::empty(),
    };
    if string_in(json_member(object, "type"@)) == Some("PipeWire:Interface:Device"@) && string_in(
        member_in(member_in(info, "props"@), "device.name"@),
    ) == Some(wanted) {
        match (small_number(json_member(object, "id"@)), in_use) {
            (Some(id), Some(current)) => Some(CardModel { id, current, profiles: offered }),
            _ => None,
        }
    } else {
        None
    }
}

fn says(value: Option<String>, wanted: &str) -> (r: bool)
    ensures
        r == (string_in(crate::text::text_view(value)) == Some(wanted@)),
{
    match string_from(value) {
        Some(s) => same_text(s.as_str(), wanted),
        None => false,
    }
}

fn card_of(object: &str, wanted: &str) -> (r: Option<CardInfo>)
    ensures
        match r {
            Some(c) => card_in(object@, wanted@) == Some(c@),
            None => card_in(object@, wanted@) is None,
        },
{
    if !says(member(object, "type"), "PipeWire:Interface:Device") {
        return None;
    }
    if !says(
        member_from(member_from(member(object, "info"), "props"), "device.name"),
        wanted,
    ) {
        return None;
    }
    let id: u32 = match number_from(member(object, "id")) {
        Some(n) => n,
        None => {
            return None;
        },
    };
    let in_use: Option<u32> = match member_from(
        member_from(member(object, "info"), "params"),
        "Profile",
    ) {
        Some(list) => match items(list.as_str()) {
            Some(entries) => if entries.len() > 0 {
                proof {
                    assert(text_views(entries@)[0] == entries@[0]@);
                }
                number_from(member(entries[0].as_str(), "index"))
            } else {
                None
            },
            None => None,
        },
        None => None,
    };
    let current: u32 = match in_use {
        Some(n) => n,
        None => {
            return None;
        },
    };
    let profiles: Vec<ProfileInfo> = match member_from(
        member_from(member(object, "info"), "params"),
        "EnumProfile",
    ) {
        Some(list) => match items(list.as_str()) {
            Some(entries) => profiles_from(&entries),
            None => Vec::new(),
        },
        None => Vec::new(),
    };
    let card = CardInfo { id, current, profiles };
    proof {
        assert(card@ =~= card_in(object@, wanted@)->0);
    }
    Some(card)
}

/// The first object of a dump that is the wanted card.
pub open spec fn first_card(objects: Seq<Seq<char>>, wanted: Seq<char>) -> Option<CardModel>
    decreases objects.len(),
{
    if objects.len() == 0 {
        None
    } else if card_in(objects[0], wanted) is Some {
        card_in(objects[0], wanted)
    } else {
        first_card(objects.skip(1), wanted)
    }
}

/// The AirPods' card in a `pw-dump` document.
pub open spec fn card_in_dump(dump: Seq<char>, addr: Seq<char>) -> Option<CardModel> {
    match json_items(dump) {
        Some(objects) => first_card(objects, "bluez_card."@ + upper_case(underscored(addr))),
        None => None,
    }
}

/// Find the AirPods' card in a `pw-dump` document. Objects without the fields
/// are skipped, so a partial dump or a future node shape cannot fail it.
pub fn parse_card(pw_dump_json: &str, addr: &str) -> (r: Option<CardInfo>)
    ensures
        match r {
            Some(c) => card_in_dump(pw_dump_json@, addr@) == Some(c@),
            None => card_in_dump(pw_dump_json@, addr@) is None,
        },
{
    let wanted: String = card_name(addr);
    let objects: Vec<String> = match items(pw_dump_json) {
        Some(list) => list,
        None => {
            return None;
        },
    };
    let ghost all = text_views(objects@);
    let mut i: usize = 0;
    proof {
        assert(all.skip(0) =~= all);
    }
    while i < objects.len()
        invariant
            i <= objects@.len(),
            all == text_views(objects@),
            json_items(pw_dump_json@) == Some(all),
            wanted@ == "bluez_card."@ + upper_case(underscored(addr@)),
            first_card(all, wanted@) == first_card(all.skip(i as int), wanted@),
        decreases objects@.len() - i,
    {
        let ghost rest = all.skip(i as int);
        proof {
            assert(rest[0] == objects@[i as int]@);
            assert(rest.skip(1) =~= all.skip(i as int + 1));
        }
        if let Some(card) = card_of(objects[i].as_str(), wanted.as_str()) {
            return Some(card);
        }
        i = i + 1;
    }
    None
}

/// What [`plan`] wants done.
#[derive(Debug, Clone, PartialEq, Eq)]
pub enum Applied {
    /// The card already had the wanted profile.
    NoChange,
    /// The profile was switched.
    Changed {
        /// Profile index before the switch.
        from: u32,
        /// Profile index now in use.
        to: u32,
        /// Name of `from`.
        from_name: String,
        /// Name of `to`.
        to_name: String,
        /// The A2DP profile just left, to restore on the next take-over;
        /// `None` when the previous profile was not an A2DP one.
        remembered_a2dp: Option<u32>,
    },
}

/// Why the profile could not be set.
#[derive(Debug, Clone, PartialEq, Eq)]
pub enum RouteError {
    /// No bluez card for this address: the AirPods are not connected, or
    /// PipeWire has not created it yet.
    NoCard,
    /// `pw-dump` or `pw-cli` is not installed.
    ToolMissing,
    /// Anything else, with the tool's own words.
    Failed(String),
}

impl RouteError {
    /// The error in words.
    pub fn to_string(&self) -> (r: String)
        ensures
            r@ == (match *self {
                RouteError::NoCard => "no PipeWire bluez card for the AirPods"@,
                RouteError::ToolMissing => "pw-dump or pw-cli is not installed"@,
                RouteError::Failed(e) => e@,
            }),
    {
        match self {
            RouteError::NoCard => "no PipeWire bluez card for the AirPods".to_owned(),
            RouteError::ToolMissing => "pw-dump or pw-cli is not installed".to_owned(),
            RouteError::Failed(e) => e.clone(),
        }
    }
}

/// How a tool run ended.
#[derive(Debug, Clone, PartialEq, Eq)]
pub enum ToolRun {
    /// It did not finish within [`TOOL_TIMEOUT`].
    TimedOut,
    /// It is not installed.
    Missing,
    /// It could not be started, and why.
    NotStarted(String),
    /// It finished.
    Exited {
        /// With success.
        success: bool,
        /// Its exit status in words.
        status: String,
        /// What it wrote to standard error.
        stderr: Vec<u8>,
    },
}

/// Why a tool run gave no output, if it gave none.
pub open spec fn tool_failure(program: Seq<char>, run: ToolRun) -> Option<RouteErrorModel> {
    match run {
        ToolRun::TimedOut => Some(RouteErrorModel::Failed(program + " timed out"@)),
        ToolRun::Missing => Some(RouteErrorModel::ToolMissing),
        ToolRun::NotStarted(e) => Some(
            RouteErrorModel::Failed(program + " failed to start: "@ + e@),
        ),
        ToolRun::Exited { success, status, stderr } => if success {
            None
        } else {
            Some(
                RouteErrorModel::Failed(
                    program + " exited "@ + status@ + ": "@ + trimmed(lossy_text(stderr@)),
                ),
            )
        },
    }
}

/// An error with its text read as a sequence.
#[verifier::ext_equal]
pub enum RouteErrorModel {
    /// See [`RouteError::NoCard`].
    NoCard,
    /// See [`RouteError::ToolMissing`].
    ToolMissing,
    /// See [`RouteError::Failed`].
    Failed(Seq<char>),
}

impl View for RouteError {
    type V = RouteErrorModel;

    open spec fn view(&self) -> RouteErrorModel {
        match *self {
            RouteError::NoCard => RouteErrorModel::NoCard,
            RouteError::ToolMissing => RouteErrorModel::ToolMissing,
            RouteError::Failed(e) => RouteErrorModel::Failed(e@),
        }
    }
}

/// The error of a tool run that gave no output.
pub fn tool_error(program: &str, run: &ToolRun) -> (r: Option<RouteError>)
    ensures
        match r {
            Some(e) => tool_failure(program@, *run) == Some(e@),
            None => tool_failure(program@, *run) is None,
        },
{
    let mut text: String = program.to_owned();
    match run {
        ToolRun::TimedOut => {
            text.append(" timed out");
            Some(RouteError::Failed(text))
        },
        ToolRun::Missing => Some(RouteError::ToolMissing),
        ToolRun::NotStarted(e) => {
            text.append(" failed to start: ");
            text.append(e.as_str());
            Some(RouteError::Failed(text))
        },
        ToolRun::Exited { success, status, stderr } => {
            if *success {
                return None;
            }
            let said: String = text_lossy(stderr.as_slice());
            text.append(" exited ");
            text.append(status.as_str());
            text.append(": ");
            text.append(string_of(trim(&chars_of(said.as_str())).as_slice()).as_str());
            Some(RouteError::Failed(text))
        },
    }
}

/// What to do about a card.
#[derive(Debug, Clone, PartialEq, Eq)]
pub enum Plan {
    /// Nothing: the card has the wanted profile.
    Keep,
    /// Run `pw-cli` with these arguments; the switch then has this effect.
    Switch {
        /// Arguments of `pw-cli`.
        args: Vec<String>,
        /// What was done once the tool has succeeded.
        applied: Applied,
    },
}

/// What was done to a card, as mathematical values.
#[verifier::ext_equal]
pub enum AppliedModel {
    /// See [`Applied::NoChange`].
    NoChange,
    /// See [`Applied::Changed`].
    Changed {
        /// Profile index before the switch.
        from: u32,
        /// Profile index afterwards.
        to: u32,
        /// Name of `from`.
        from_name: Seq<char>,
        /// Name of `to`.
        to_name: Seq<char>,
        /// The A2DP profile just left.
        remembered: Option<u32>,
    },
}

impl View for Applied {
    type V = AppliedModel;

    open spec fn view(&self) -> AppliedModel {
        match *self {
            Applied::NoChange => AppliedModel::NoChange,
            Applied::Changed { from, to, from_name, to_name, remembered_a2dp } =>
                AppliedModel::Changed {
                from,
                to,
                from_name: from_name@,
                to_name: to_name@,
                remembered: remembered_a2dp,
            },
        }
    }
}

/// The plan for a card, as mathematical values.
#[verifier::ext_equal]
pub enum PlanModel {
    /// See [`Plan::Keep`].
    Keep,
    /// See [`Plan::Switch`].
    Switch {
        /// Arguments of `pw-cli`.
        args: Seq<Seq<char>>,
        /// What was done once the tool has succeeded.
        applied: AppliedModel,
    },
}

impl View for Plan {
    type V = PlanModel;

    open spec fn view(&self) -> PlanModel {
        match *self {
            Plan::Keep => PlanModel::Keep,
            Plan::Switch { args, applied } => PlanModel::Switch {
                args: text_views(args@),
                applied: applied@,
            },
        }
    }
}

/// Arguments that set a card's profile.
pub open spec fn set_param(id: u32, index: u32) -> Seq<Seq<char>> {
    seq![
        "set-param"@,
        decimal(id as nat),
        "Profile"@,
        "{ index: "@ + decimal(index as nat) + " }"@,
    ]
}

/// What to do about a card on its way to a mode, or why nothing can be done.
/// Leaving an A2DP profile, it is remembered, so that the take-over restores
/// the same codec instead of renegotiating.
pub open spec fn planned(
    card: Option<CardModel>,
    mode: RouteMode,
    remembered: Option<u32>,
) -> Result<PlanModel, RouteErrorModel> {
    match card {
        None => Err(RouteErrorModel::NoCard),
        Some(card) => match card.picked(mode, remembered) {
            None => Err(
                RouteErrorModel::Failed(
                    "the bluez card offers no "@ + (match mode {
                        RouteMode::Own => A2DP@,
                        RouteMode::Yielded => OFF@,
                    }) + " profile"@,
                ),
            ),
            Some(target) => if target == card.current {
                Ok(PlanModel::Keep)
            } else {
                Ok(
                    PlanModel::Switch {
                        args: set_param(card.id, target),
                        applied: AppliedModel::Changed {
                            from: card.current,
                            to: target,
                            from_name: card.name_of(card.current),
                            to_name: card.name_of(target),
                            remembered: if a2dp_name(card.name_of(card.current)) {
                                Some(card.current)
                            } else {
                                None
                            },
                        },
                    },
                )
            },
        },
    }
}

fn number_text(n: u32) -> (r: String)
    ensures
        r@ == decimal(n as nat),
{
    let mut out: String = String::new();
    push_decimal(&mut out, n as u64);
    proof {
        assert(Seq::<char>::empty() + decimal(n as nat) =~= decimal(n as nat));
    }
    out
}

/// What to do about the card in use.
pub fn plan_card(card: &CardInfo, mode: RouteMode, remembered_a2dp: Option<u32>) -> (r: Result<
    Plan,
    RouteError,
>)
    ensures
        match r {
            Ok(p) => planned(Some(card@), mode, remembered_a2dp) == Ok::<
                PlanModel,
                RouteErrorModel,
            >(p@),
            Err(e) => planned(Some(card@), mode, remembered_a2dp) == Err::<
                PlanModel,
                RouteErrorModel,
            >(e@),
        },
{
    let target: u32 = match pick_profile(card, mode, remembered_a2dp) {
        Some(index) => index,
        None => {
            let mut text: String = "the bluez card offers no ".to_owned();
            text.append(
                match mode {
                    RouteMode::Own => A2DP,
                    RouteMode::Yielded => OFF,
                },
            );
            text.append(" profile");
            return Err(RouteError::Failed(text));
        },
    };
    if target == card.current {
        return Ok(Plan::Keep);
    }
    let from: u32 = card.current;
    let remembered: Option<u32> = if card.is_a2dp(from) {
        Some(from)
    } else {
        None
    };
    let mut index: String = "{ index: ".to_owned();
    index.append(number_text(target).as_str());
    index.append(" }");
    let args: Vec<String> = vec![
        "set-param".to_owned(),
        number_text(card.id),
        "Profile".to_owned(),
        index,
    ];
    proof {
        assert(text_views(args@) =~= set_param(card.id, target));
    }
    Ok(
        Plan::Switch {
            args,
            applied: Applied::Changed {
                from,
                to: target,
                from_name: card.name_of(from).to_owned(),
                to_name: card.name_of(target).to_owned(),
                remembered_a2dp: remembered,
            },
        },
    )
}

/// Read the card from a `pw-dump` document and say what to do about it.
pub fn plan(dump: &[u8], addr: &str, mode: RouteMode, remembered_a2dp: Option<u32>) -> (r: Result<
    Plan,
    RouteError,
>)
    ensures
        match r {
            Ok(p) => planned(
                card_in_dump(lossy_text(dump@), addr@),
                mode,
                remembered_a2dp,
            ) == Ok::<PlanModel, RouteErrorModel>(p@),
            Err(e) => planned(
                card_in_dump(lossy_text(dump@), addr@),
                mode,
                remembered_a2dp,
            ) == Err::<PlanModel, RouteErrorModel>(e@),
        },
{
    let text: String = text_lossy(dump);
    match parse_card(text.as_str(), addr) {
        Some(card) => plan_card(&card, mode, remembered_a2dp),
        None => Err(RouteError::NoCard),
    }
}

/// A switch always changes the profile, to one that fits the mode.
pub proof fn a_switch_changes_the_profile(
    card: CardModel,
    mode: RouteMode,
    remembered: Option<u32>,
)
    ensures
        planned(Some(card), mode, remembered) matches Ok(PlanModel::Switch { applied, .. }) ==> (
        applied matches AppliedModel::Changed { from, to, remembered: left, .. } && from
            == card.current && to != from && card.picked(mode, remembered) == Some(to) && (mode
            == RouteMode::Own ==> left is None)),
{
}

/// No two profiles of the card share an index.
pub open spec fn indices_differ(card: CardModel) -> bool {
    forall|i: int, j: int|
        0 <= i < j < card.profiles.len() ==> (#[trigger] card.profiles[i]).index != (
        #[trigger] card.profiles[j]).index
}

/// A take-over goes back to the A2DP profile that the yield before it left, as
/// long as the card can still be switched to it.
pub proof fn a_take_over_restores_what_a_yield_left(
    card: CardModel,
    remembered: Option<u32>,
    off: u32,
    left: u32,
)
    requires
        indices_differ(card),
        planned(Some(card), RouteMode::Yielded, remembered) matches Ok(PlanModel::Switch {
            applied: AppliedModel::Changed { to, remembered: Some(index), .. },
            ..
        }) && to == off && index == left,
        card.profile(left) matches Some(p) && p.available,
    ensures
        (CardModel { current: off, ..card }).picked(RouteMode::Own, Some(left)) == Some(left),
{
    let after = CardModel { current: off, ..card };
    let is_off = |p: ProfileModel| p.name == OFF@;
    let at_off = |p: ProfileModel| p.index == off;
    let at_left = |p: ProfileModel| p.index == left;
    let back = |p: ProfileModel| p.index == left && a2dp_name(p.name);
    lemma_first_is_one(card.profiles, is_off);
    lemma_first_is_one(card.profiles, at_left);
    let o = first_profile(card.profiles, is_off)->0;
    let l = first_profile(card.profiles, at_left)->0;
    let i = choose|i: int| 0 <= i < card.profiles.len() && card.profiles[i] == o;
    let k = choose|k: int| 0 <= k < card.profiles.len() && card.profiles[k] == l;
    lemma_first_profile(card.profiles, at_off, i);
    lemma_first_profile(card.profiles, back, k);
    assert(after.name_of(off) == OFF@);
    reveal_strlit("off");
    reveal_strlit("a2dp-sink");
    assert(!a2dp_name(OFF@));
}

/// An `off` that is still in force: which card, and the profile to restore.
#[derive(Debug)]
pub struct Outstanding {
    held: Option<(String, Option<u32>)>,
}

impl Outstanding {
    /// The address whose card is off, and the profile to go back to.
    pub closed spec fn card(self) -> Option<(Seq<char>, Option<u32>)> {
        match self.held {
            Some((addr, remembered)) => Some((addr@, remembered)),
            None => None,
        }
    }

    /// No card is off.
    pub fn new() -> (r: Self)
        ensures
            r.card() is None,
    {
        Outstanding { held: None }
    }

    /// A card was switched off.
    pub fn note_yielded(&mut self, addr: &str, remembered: Option<u32>)
        ensures
            final(self).card() == Some((addr@, remembered)),
    {
        self.held = Some((addr.to_owned(), remembered));
    }

    /// The card is on again, or gone.
    pub fn clear_yielded(&mut self)
        ensures
            final(self).card() is None,
    {
        self.held = None;
    }

    /// What to restore when the daemon exits. Without this a user who stops
    /// the daemon while another host owns the AirPods would find a card stuck
    /// at `off`.
    pub fn to_restore(&self) -> (r: Option<(String, Option<u32>)>)
        ensures
            match r {
                Some((addr, remembered)) => self.card() == Some((addr@, remembered)),
                None => self.card() is None,
            },
    {
        match &self.held {
            Some((addr, remembered)) => Some((addr.clone(), *remembered)),
            None => None,
        }
    }
}

/// What the task that drives a card does after one try.
#[derive(Debug, Clone, Copy, PartialEq, Eq, Structural)]
pub enum DriveStep {
    /// The card has the wanted profile: finished.
    Settled,
    /// Nothing will come of it: finished.
    GiveUp,
    /// Try again after [`RETRY_GAP`].
    Retry,
}

/// Drives the card profile towards the mode the handoff logic asked for.
///
/// One task at a time: a new request replaces the previous one, so a take-over
/// that follows a yield within the retry window cannot be overtaken by the
/// yield's retries.
#[derive(Debug)]
pub struct Router {
    mode: Option<RouteMode>,
    remembered: Option<u32>,
    settled: bool,
    generation: u64,
}

impl Router {
    /// The mode asked for last.
    pub closed spec fn wanted(self) -> Option<RouteMode> {
        self.mode
    }

    /// The A2DP profile a yield switched away from.
    pub closed spec fn left(self) -> Option<u32> {
        self.remembered
    }

    /// The card reached the wanted profile.
    pub closed spec fn done(self) -> bool {
        self.settled
    }

    /// Tasks started so far.
    pub closed spec fn started(self) -> u64 {
        self.generation
    }

    /// No mode wanted yet, nothing running.
    pub fn new() -> (r: Self)
        ensures
            r.wanted() is None,
            r.left() is None,
            !r.done(),
            r.started() == 0,
    {
        Router { mode: None, remembered: None, settled: false, generation: 0 }
    }

    /// The mode the latest [`Router::set`] asked for.
    pub fn mode(&self) -> (r: Option<RouteMode>)
        ensures
            r == self.wanted(),
    {
        self.mode
    }

    /// Tasks started so far.
    pub fn generation(&self) -> (r: u64)
        ensures
            r == self.started(),
    {
        self.generation
    }

    /// The A2DP profile a yield switched away from.
    pub fn remembered_a2dp(&self) -> (r: Option<u32>)
        ensures
            r == self.left(),
    {
        self.remembered
    }

    /// Whether the card reached the wanted profile.
    pub fn is_settled(&self) -> (r: bool)
        ensures
            r == self.done(),
    {
        self.settled
    }

    /// Ask for `mode`. `true` means: stop the running task, if there is one,
    /// and start a new one. A mode that is already settled is left alone.
    pub fn set(&mut self, mode: RouteMode) -> (r: bool)
        ensures
            r == !(old(self).wanted() == Some(mode) && old(self).done()),
            r ==> final(self).wanted() == Some(mode) && !final(self).done()
                && final(self).started() == (if old(self).started() == u64::MAX {
                0
            } else {
                old(self).started() + 1
            }) && final(self).left() == old(self).left(),
            !r ==> *final(self) == *old(self),
    {
        if self.mode == Some(mode) && self.settled {
            return false;
        }
        self.mode = Some(mode);
        self.generation = if self.generation == u64::MAX {
            0
        } else {
            self.generation + 1
        };
        self.settled = false;
        true
    }

    /// Stop trying. Used when the AirPods disconnect: the card is gone, and
    /// the profile it was on says nothing about the next connection.
    pub fn cancel(&mut self, outstanding: &mut Outstanding)
        ensures
            final(self).wanted() is None,
            final(self).left() is None,
            !final(self).done(),
            final(self).started() == old(self).started(),
            final(outstanding).card() is None,
    {
        self.mode = None;
        self.settled = false;
        self.remembered = None;
        outstanding.clear_yielded();
    }

    /// Fold the result of one try into the state. `addr` and `mode` are what
    /// the task was started with, `late` says that [`RETRY_WINDOW`] has passed
    /// since then.
    pub fn tried(
        &mut self,
        outstanding: &mut Outstanding,
        addr: &str,
        mode: RouteMode,
        result: &Result<Applied, RouteError>,
        late: bool,
    ) -> (r: DriveStep)
        ensures
            final(self).wanted() == old(self).wanted(),
            final(self).started() == old(self).started(),
            match *result {
                Ok(applied) => {
                    let left = match applied {
                        Applied::Changed { remembered_a2dp: Some(index), .. } => Some(index),
                        _ => old(self).left(),
                    };
                    &&& r == DriveStep::Settled
                    &&& final(self).done()
                    &&& final(self).left() == left
                    &&& final(outstanding).card() == (match mode {
                        RouteMode::Yielded => Some((addr@, left)),
                        RouteMode::Own => None,
                    })
                },
                Err(e) => {
                    &&& r == (if e is ToolMissing || late {
                        DriveStep::GiveUp
                    } else {
                        DriveStep::Retry
                    })
                    &&& final(self).done() == old(self).done()
                    &&& final(self).left() == old(self).left()
                    &&& *final(outstanding) == *old(outstanding)
                },
            },
    {
        match result {
            Ok(applied) => {
                if let Applied::Changed { remembered_a2dp: Some(index), .. } = applied {
                    self.remembered = Some(*index);
                }
                match mode {
                    RouteMode::Yielded => {
                        outstanding.note_yielded(addr, self.remembered);
                    },
                    RouteMode::Own => {
                        outstanding.clear_yielded();
                    },
                }
                self.settled = true;
                DriveStep::Settled
            },
            Err(e) => match e {
                RouteError::ToolMissing => DriveStep::GiveUp,
                _ => if late {
                    DriveStep::GiveUp
                } else {
                    DriveStep::Retry
                },
            },
        }
    }
}

} // verus!
