//! Which card a dump of the audio graph shows, and what a tool run comes to.
use crate::aap::codec::lossy_text;
use crate::audio_route::{
    available_in, card_in, card_in_dump, first_card, profile_in, profiles_in, small_number,
    tool_failure, underscored, upper_case, RouteErrorModel, ToolRun,
};
use crate::json::{json_bool, json_items, json_member, json_string, json_unsigned};
use crate::text::trimmed;
use vstd::prelude::*;
use vstd::string::*;

verus! {

/// A word that says no, in any mixture of cases.
pub open spec fn refuses(word: Seq<char>) -> bool {
    word.len() == 2 && (word[0] == 'n' || word[0] == 'N') && (word[1] == 'o' || word[1] == 'O')
}

/// A profile can be selected unless its entry says false or no.
pub proof fn a_profile_is_available_unless_refused(value: Option<Seq<char>>)
    ensures
        available_in(value) <==> !(value is Some && (json_bool(value->0) == Some(false) || (
        json_bool(value->0) is None && json_string(value->0) is Some && refuses(
            json_string(value->0)->0,
        )))),
{
    reveal_strlit("NO");
    assert("NO"@.len() == 2 && "NO"@[0] == 'N' && "NO"@[1] == 'O');
    if value is Some && json_string(value->0) is Some {
        let word = json_string(value->0)->0;
        let up = word.map_values(|c: char| crate::text::upper_char(c));
        if refuses(word) {
            assert(up =~= "NO"@);
        }
        if up == "NO"@ {
            assert(word.len() == 2);
            assert(up[0] == 'N' && up[1] == 'O');
            assert(crate::text::upper_char(word[0]) == 'N');
            assert(crate::text::upper_char(word[1]) == 'O');
        }
    }
}

/// A number counts when it fits 32 bits.
pub proof fn a_number_must_fit(value: Option<Seq<char>>, n: u32)
    ensures
        small_number(value) == Some(n) <==> value is Some && json_unsigned(value->0) == Some(
            n as u64,
        ),
{
}

/// A profile entry is read when it has an index and a name, and is what it
/// says.
pub proof fn a_profile_entry_is_read(entry: Seq<char>)
    ensures
        ({
            let index = json_member(entry, "index"@);
            let name = json_member(entry, "name"@);
            &&& profile_in(entry) is Some <==> {
                &&& index is Some && json_unsigned(index->0) is Some && json_unsigned(index->0)->0
                    <= 0xffff_ffff
                &&& name is Some && json_string(name->0) is Some
            }
            &&& profile_in(entry) is Some ==> {
                &&& profile_in(entry)->0.index == json_unsigned(index->0)->0
                &&& profile_in(entry)->0.name == json_string(name->0)->0
                &&& profile_in(entry)->0.available == available_in(
                    json_member(entry, "available"@),
                )
            }
        }),
{
}

/// The profiles of a list are its entries that can be read, in order.
pub proof fn readable_entries_are_kept(entries: Seq<Seq<char>>, entry: Seq<char>)
    ensures
        profiles_in(Seq::empty()).len() == 0,
        profile_in(entry) is Some ==> profiles_in(entries.push(entry)) == profiles_in(entries).push(
            profile_in(entry)->0,
        ),
        profile_in(entry) is None ==> profiles_in(entries.push(entry)) == profiles_in(entries),
{
    assert(entries.push(entry).drop_last() =~= entries);
}

/// A member below a path of keys.
pub open spec fn below(object: Seq<char>, keys: Seq<Seq<char>>) -> Option<Seq<char>>
    decreases keys.len(),
{
    if keys.len() == 0 {
        Some(object)
    } else {
        match below(object, keys.drop_last()) {
            Some(inner) => json_member(inner, keys.last()),
            None => None,
        }
    }
}

proof fn lemma_below(object: Seq<char>, a: Seq<char>, b: Seq<char>, c: Seq<char>)
    ensures
        below(object, seq![a]) == json_member(object, a),
        below(object, seq![a, b]) == crate::audio_route::member_in(json_member(object, a), b),
        below(object, seq![a, b, c]) == crate::audio_route::member_in(
            crate::audio_route::member_in(json_member(object, a), b),
            c,
        ),
{
    let none = Seq::<Seq<char>>::empty();
    assert(seq![a].drop_last() =~= none);
    assert(below(object, none) == Some(object));
    assert(seq![a, b].drop_last() =~= seq![a]);
    assert(seq![a, b, c].drop_last() =~= seq![a, b]);
}

/// The number under a member, if it has one that fits.
pub open spec fn numbered(value: Option<Seq<char>>) -> Option<u64> {
    if value is Some && json_unsigned(value->0) is Some && json_unsigned(value->0)->0
        <= 0xffff_ffff {
        json_unsigned(value->0)
    } else {
        None
    }
}

/// An object is the wanted card when it is a device of that name, has a number
/// and says which profile is in use. Its profiles are those it lists.
pub proof fn a_card_is_a_device_of_its_name(object: Seq<char>, wanted: Seq<char>)
    ensures
        ({
            let kind = below(object, seq!["type"@]);
            let name = below(object, seq!["info"@, "props"@, "device.name"@]);
            let id = numbered(below(object, seq!["id"@]));
            let profile = below(object, seq!["info"@, "params"@, "Profile"@]);
            let first = if profile is Some && json_items(profile->0) is Some && json_items(
                profile->0,
            )->0.len() > 0 {
                numbered(json_member(json_items(profile->0)->0[0], "index"@))
            } else {
                None
            };
            let listed = below(object, seq!["info"@, "params"@, "EnumProfile"@]);
            &&& card_in(object, wanted) is Some <==> {
                &&& kind is Some && json_string(kind->0) == Some("PipeWire:Interface:Device"@)
                &&& name is Some && json_string(name->0) == Some(wanted)
                &&& id is Some
                &&& first is Some
            }
            &&& card_in(object, wanted) is Some ==> {
                &&& card_in(object, wanted)->0.id == id->0
                &&& card_in(object, wanted)->0.current == first->0
                &&& card_in(object, wanted)->0.profiles == (if listed is Some && json_items(
                    listed->0,
                ) is Some {
                    profiles_in(json_items(listed->0)->0)
                } else {
                    Seq::empty()
                })
            }
        }),
{
    lemma_below(object, "type"@, "type"@, "type"@);
    lemma_below(object, "id"@, "id"@, "id"@);
    lemma_below(object, "info"@, "props"@, "device.name"@);
    lemma_below(object, "info"@, "params"@, "Profile"@);
    lemma_below(object, "info"@, "params"@, "EnumProfile"@);
}

/// The card of a dump is its first object that is the wanted card, and there
/// is none only where no object is.
pub proof fn the_first_card_is_taken(objects: Seq<Seq<char>>, wanted: Seq<char>, i: int)
    ensures
        0 <= i < objects.len() && card_in(objects[i], wanted) is Some && (forall|k: int|
            0 <= k < i ==> card_in(#[trigger] objects[k], wanted) is None) ==> first_card(
            objects,
            wanted,
        ) == card_in(objects[i], wanted),
        (forall|k: int|
            0 <= k < objects.len() ==> card_in(#[trigger] objects[k], wanted) is None)
            ==> first_card(objects, wanted) is None,
    decreases objects.len(),
{
    if objects.len() > 0 {
        let rest = objects.skip(1);
        assert forall|k: int| 0 <= k < rest.len() implies #[trigger] rest[k] == objects[k + 1] by {}
        the_first_card_is_taken(rest, wanted, i - 1);
        if 0 < i < objects.len() && card_in(objects[i], wanted) is Some && (forall|k: int|
            0 <= k < i ==> card_in(#[trigger] objects[k], wanted) is None) {
            assert(card_in(objects[0], wanted) is None);
            assert(rest[i - 1] == objects[i]);
        }
        if forall|k: int| 0 <= k < objects.len() ==> card_in(#[trigger] objects[k], wanted) is None {
            assert(card_in(objects[0], wanted) is None);
        }
    }
}

/// The wanted card is named after the address, with underscores for its
/// separators and in upper case.
pub proof fn the_card_is_named_after_the_address(dump: Seq<char>, address: Seq<char>)
    ensures
        json_items(dump) is None ==> card_in_dump(dump, address) is None,
        json_items(dump) is Some ==> card_in_dump(dump, address) == first_card(
            json_items(dump)->0,
            "bluez_card."@ + upper_case(underscored(address)),
        ),
        underscored(address).len() == address.len(),
        forall|i: int|
            0 <= i < address.len() ==> #[trigger] underscored(address)[i] == (if address[i] == ':'
                || address[i] == '-' {
                '_'
            } else {
                address[i]
            }),
{
}

/// A tool run that finished well is no failure; any other one is, and says
/// how it ended.
pub proof fn a_failed_run_says_how(program: Seq<char>, run: ToolRun)
    ensures
        tool_failure(program, run) is None <==> (run matches ToolRun::Exited { success, .. }
            && success),
        run is TimedOut ==> tool_failure(program, run) == Some(
            RouteErrorModel::Failed(program + " timed out"@),
        ),
        run is Missing ==> tool_failure(program, run) == Some(RouteErrorModel::ToolMissing),
        run matches ToolRun::NotStarted(e) ==> tool_failure(program, run) == Some(
            RouteErrorModel::Failed(program + " failed to start: "@ + e@),
        ),
        run matches ToolRun::Exited { success, status, stderr } ==> (!success ==> tool_failure(
            program,
            run,
        ) == Some(
            RouteErrorModel::Failed(
                program + " exited "@ + status@ + ": "@ + trimmed(lossy_text(stderr@)),
            ),
        )),
{
}

} // verus!
