//! Which profile a card is switched to, and how.
use crate::audio_route::{
    a2dp_name, first_profile, lemma_first_profile, planned, AppliedModel, CardModel, PlanModel,
    ProfileModel, RouteErrorModel, RouteMode,
};
use crate::text::decimal;
use vstd::prelude::*;
use vstd::string::*;

verus! {

/// A high-fidelity playback profile, by its name.
pub open spec fn hifi(p: ProfileModel) -> bool {
    let word = "a2dp-sink"@;
    p.name.len() >= word.len() && p.name.take(word.len() as int) == word
}

/// The first profile of a list that meets a condition stands here.
pub open spec fn first_at(
    profiles: Seq<ProfileModel>,
    wanted: spec_fn(ProfileModel) -> bool,
    i: int,
) -> bool {
    &&& 0 <= i < profiles.len()
    &&& wanted(profiles[i])
    &&& forall|k: int| 0 <= k < i ==> !wanted(#[trigger] profiles[k])
}

/// The profile in use stands here: the first of its index.
pub open spec fn in_use(card: CardModel, i: int) -> bool {
    &&& 0 <= i < card.profiles.len()
    &&& card.profiles[i].index == card.current
    &&& forall|k: int| 0 <= k < i ==> (#[trigger] card.profiles[k]).index != card.current
}

/// The card is on a high-fidelity profile.
pub open spec fn on_hifi(card: CardModel) -> bool {
    exists|i: int| #[trigger] in_use(card, i) && hifi(card.profiles[i])
}

proof fn lemma_on_hifi(card: CardModel)
    ensures
        on_hifi(card) == a2dp_name(card.name_of(card.current)),
{
    let used = |p: ProfileModel| p.index == card.current;
    lemma_first_at(card.profiles, used);
    reveal_strlit("?");
    reveal_strlit("a2dp-sink");
    assert(card.profile(card.current) == first_profile(card.profiles, used));
    assert forall|i: int| #[trigger] in_use(card, i) implies first_at(card.profiles, used, i) by {}
    match first_profile(card.profiles, used) {
        Some(p) => {
            lemma_hifi(p);
            let i = choose|i: int| #[trigger]
                first_at(card.profiles, used, i) && card.profiles[i] == p;
            assert forall|k: int| 0 <= k < i implies (#[trigger] card.profiles[k]).index
                != card.current by {
                assert(!used(card.profiles[k]));
            }
            assert(in_use(card, i));
        },
        None => {
            assert(!a2dp_name("?"@));
            assert forall|i: int| !(#[trigger] in_use(card, i)) by {
                if in_use(card, i) {
                    assert(used(card.profiles[i]));
                }
            }
        },
    }
}

proof fn lemma_hifi(p: ProfileModel)
    ensures
        a2dp_name(p.name) == hifi(p),
{
    let word = "a2dp-sink"@;
    if p.name.len() >= word.len() {
        assert(p.name.take(word.len() as int) =~= p.name.subrange(0, word.len() as int));
    }
}

proof fn lemma_first_at(profiles: Seq<ProfileModel>, wanted: spec_fn(ProfileModel) -> bool)
    ensures
        match first_profile(profiles, wanted) {
            Some(p) => exists|i: int| #[trigger]
                first_at(profiles, wanted, i) && profiles[i] == p,
            None => forall|i: int| 0 <= i < profiles.len() ==> !wanted(#[trigger] profiles[i]),
        },
        forall|i: int| #[trigger]
            first_at(profiles, wanted, i) ==> first_profile(profiles, wanted) == Some(profiles[i]),
    decreases profiles.len(),
{
    assert forall|i: int| #[trigger] first_at(profiles, wanted, i) implies first_profile(
        profiles,
        wanted,
    ) == Some(profiles[i]) by {
        lemma_first_profile(profiles, wanted, i);
    }
    if profiles.len() > 0 {
        if wanted(profiles[0]) {
            assert(first_at(profiles, wanted, 0));
        } else {
            let rest = profiles.skip(1);
            lemma_first_at(rest, wanted);
            match first_profile(rest, wanted) {
                Some(p) => {
                    let i = choose|i: int| #[trigger] first_at(rest, wanted, i) && rest[i] == p;
                    assert forall|k: int| 0 <= k < i + 1 implies !wanted(
                        #[trigger] profiles[k],
                    ) by {
                        if k > 0 {
                            assert(rest[k - 1] == profiles[k]);
                        }
                    }
                    assert(profiles[i + 1] == rest[i]);
                    assert(first_at(profiles, wanted, i + 1));
                },
                None => {
                    assert forall|k: int| 0 <= k < profiles.len() implies !wanted(
                        #[trigger] profiles[k],
                    ) by {
                        if k > 0 {
                            assert(rest[k - 1] == profiles[k]);
                        }
                    }
                },
            }
        }
    }
}

proof fn lemma_pick(card: CardModel, remembered: Option<u32>)
    ensures
        on_hifi(card) ==> card.picked(RouteMode::Own, remembered) == Some(card.current),
        !on_hifi(card) ==> card.picked(RouteMode::Own, remembered) == ({
            let back = match remembered {
                Some(index) => first_profile(
                    card.profiles,
                    |p: ProfileModel| p.index == index && hifi(p),
                ),
                None => None,
            };
            let plain = first_profile(card.profiles, |p: ProfileModel| p.name == "a2dp-sink"@);
            let any = first_profile(card.profiles, |p: ProfileModel| hifi(p) && p.available);
            if back matches Some(p) && p.available {
                Some(back->0.index)
            } else if plain matches Some(p) && p.available {
                Some(plain->0.index)
            } else if any is Some {
                Some(any->0.index)
            } else {
                None
            }
        }),
{
    lemma_on_hifi(card);
    assert forall|p: ProfileModel| a2dp_name(p.name) == #[trigger] hifi(p) by {
        lemma_hifi(p);
    }
    assert((|p: ProfileModel| a2dp_name(p.name) && p.available) =~= (|p: ProfileModel|
        hifi(p) && p.available));
    if let Some(index) = remembered {
        assert((|p: ProfileModel| p.index == index && a2dp_name(p.name)) =~= (|p: ProfileModel|
            p.index == index && hifi(p)));
    }
}

/// A card on a high-fidelity profile stays on it.
pub proof fn the_profile_in_use_stays(card: CardModel, remembered: Option<u32>)
    requires
        on_hifi(card),
    ensures
        card.picked(RouteMode::Own, remembered) == Some(card.current),
{
    lemma_pick(card, remembered);
}

/// Whatever other profile a card is on, owning the audio picks the remembered
/// high-fidelity profile if it can be selected, then the plain one, then the
/// first that can be selected.
pub proof fn owning_picks_in_order(card: CardModel, remembered: Option<u32>, i: int)
    requires
        !on_hifi(card),
    ensures
        ({
            let back = |p: ProfileModel| remembered == Some(p.index) && hifi(p);
            let plain = |p: ProfileModel| p.name == "a2dp-sink"@;
            let any = |p: ProfileModel| hifi(p) && p.available;
            let usable = |w: spec_fn(ProfileModel) -> bool, k: int|
                first_at(card.profiles, w, k) && card.profiles[k].available;
            let picked = card.picked(RouteMode::Own, remembered);
            &&& usable(back, i) ==> picked == remembered
            &&& (forall|k: int| !first_at(card.profiles, back, k) || !card.profiles[k].available)
                && usable(plain, i) ==> picked == Some(card.profiles[i].index)
            &&& (forall|k: int| !first_at(card.profiles, back, k) || !card.profiles[k].available)
                && (forall|k: int|
                !first_at(card.profiles, plain, k) || !card.profiles[k].available) && usable(
                any,
                i,
            ) ==> picked == Some(card.profiles[i].index)
        }),
{
    lemma_pick(card, remembered);
    let back = |p: ProfileModel| remembered == Some(p.index) && hifi(p);
    let plain = |p: ProfileModel| p.name == "a2dp-sink"@;
    let any = |p: ProfileModel| hifi(p) && p.available;
    lemma_first_at(card.profiles, back);
    lemma_first_at(card.profiles, plain);
    lemma_first_at(card.profiles, any);
    match remembered {
        Some(index) => {
            assert(back =~= (|p: ProfileModel| p.index == index && hifi(p)));
        },
        None => {
            assert forall|k: int| !first_at(card.profiles, back, k) by {}
        },
    }
}

/// A card that offers a selectable high-fidelity profile always gets one,
/// whatever it is on; and one that offers none gets none, unless it is on one.
pub proof fn a_pick_is_made_where_one_can_be(card: CardModel, remembered: Option<u32>)
    ensures
        card.picked(RouteMode::Own, remembered) is Some <==> on_hifi(card) || exists|i: int|
            0 <= i < card.profiles.len() && hifi(#[trigger] card.profiles[i])
                && card.profiles[i].available,
{
    lemma_pick(card, remembered);
    let plain = |p: ProfileModel| p.name == "a2dp-sink"@;
    let any = |p: ProfileModel| hifi(p) && p.available;
    lemma_first_at(card.profiles, plain);
    lemma_first_at(card.profiles, any);
    if let Some(index) = remembered {
        let back = |p: ProfileModel| p.index == index && hifi(p);
        lemma_first_at(card.profiles, back);
    }
    assert forall|p: ProfileModel| p.name == "a2dp-sink"@ implies #[trigger] hifi(p) by {
        assert(p.name.take(p.name.len() as int) =~= p.name);
    }
}

/// Which other profile a card is on makes no difference to the pick.
pub proof fn the_pick_ignores_other_profiles(
    card: CardModel,
    other: u32,
    remembered: Option<u32>,
)
    requires
        !on_hifi(card),
        !on_hifi(CardModel { current: other, ..card }),
    ensures
        card.picked(RouteMode::Own, remembered) == (CardModel { current: other, ..card }).picked(
            RouteMode::Own,
            remembered,
        ),
{
    lemma_pick(card, remembered);
    lemma_pick(CardModel { current: other, ..card }, remembered);
}

/// Yielding picks the first profile named `off`, and nothing else.
pub proof fn yielding_picks_off(card: CardModel, remembered: Option<u32>, i: int)
    ensures
        first_at(card.profiles, |p: ProfileModel| p.name == "off"@, i) ==> card.picked(
            RouteMode::Yielded,
            remembered,
        ) == Some(card.profiles[i].index),
        (forall|k: int| 0 <= k < card.profiles.len() ==> (#[trigger] card.profiles[k]).name
            != "off"@) ==> card.picked(RouteMode::Yielded, remembered) is None,
{
    let off = |p: ProfileModel| p.name == "off"@;
    lemma_first_at(card.profiles, off);
}

/// The name of a profile is that of the first one with its index, and a
/// question mark where there is none.
pub open spec fn named(card: CardModel, index: u32, name: Seq<char>) -> bool {
    ||| exists|i: int|
        first_at(card.profiles, |p: ProfileModel| p.index == index, i)
            && #[trigger] card.profiles[i].name == name
    ||| (forall|k: int| 0 <= k < card.profiles.len() ==> (#[trigger] card.profiles[k]).index
        != index) && name == "?"@
}

proof fn lemma_named(card: CardModel, index: u32)
    ensures
        named(card, index, card.name_of(index)),
{
    let wanted = |p: ProfileModel| p.index == index;
    lemma_first_at(card.profiles, wanted);
    if forall|k: int| 0 <= k < card.profiles.len() ==> (#[trigger] card.profiles[k]).index
        != index {
        assert forall|k: int| 0 <= k < card.profiles.len() implies !wanted(
            #[trigger] card.profiles[k],
        ) by {}
    } else {
        let k = choose|k: int|
            0 <= k < card.profiles.len() && (#[trigger] card.profiles[k]).index == index;
        assert(wanted(card.profiles[k]));
        let i = choose|i: int| first_at(card.profiles, wanted, i);
        assert(card.profiles[i].name == card.name_of(index));
    }
}

/// Nothing is done without a card, or where the card is on the wanted profile.
/// Otherwise the profile is set by its index, and the switch says which
/// profile was left; a high-fidelity one is remembered.
pub proof fn a_plan_reaches_the_pick(
    card: CardModel,
    mode: RouteMode,
    remembered: Option<u32>,
)
    ensures
        planned(None, mode, remembered) == Err::<PlanModel, RouteErrorModel>(
            RouteErrorModel::NoCard,
        ),
        card.picked(mode, remembered) is None ==> planned(Some(card), mode, remembered) == Err::<
            PlanModel,
            RouteErrorModel,
        >(
            RouteErrorModel::Failed(
                "the bluez card offers no "@ + (if mode == RouteMode::Own {
                    "a2dp-sink"@
                } else {
                    "off"@
                }) + " profile"@,
            ),
        ),
        card.picked(mode, remembered) == Some(card.current) ==> planned(
            Some(card),
            mode,
            remembered,
        ) == Ok::<PlanModel, RouteErrorModel>(PlanModel::Keep),
        card.picked(mode, remembered) matches Some(to) && to != card.current ==> {
            &&& planned(Some(card), mode, remembered) matches Ok(
                PlanModel::Switch {
                    args,
                    applied: AppliedModel::Changed {
                        from,
                        to: reached,
                        remembered: left,
                        from_name,
                        to_name,
                    },
                },
            )
            &&& args == seq![
                "set-param"@,
                decimal(card.id as nat),
                "Profile"@,
                "{ index: "@ + decimal(card.picked(mode, remembered)->0 as nat) + " }"@,
            ]
            &&& from == card.current
            &&& named(card, from, from_name)
            &&& named(card, reached, to_name)
            &&& Some(reached) == card.picked(mode, remembered)
            &&& left == (if on_hifi(card) {
                Some(card.current)
            } else {
                None
            })
        },
{
    lemma_on_hifi(card);
    lemma_named(card, card.current);
    if let Some(to) = card.picked(mode, remembered) {
        lemma_named(card, to);
    }
}

} // verus!
