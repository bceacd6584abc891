//! The typed AirPods settings: what can be written and what is refused.
use crate::json::{self, json_bool, json_items, json_string};
use crate::state::NoiseControlMode;
use crate::text::{
    chars_of, control_char, is_control_char, same_text, text_view, text_views, trim, trimmed,
};
use vstd::prelude::*;
use vstd::string::*;
use vstd::utf8::encode_utf8;

verus! {

/// Which bud's microphone is used.
#[derive(Debug, Clone, Copy, PartialEq, Eq, Structural)]
pub enum MicrophoneMode {
    /// The accessory chooses.
    Auto,
    /// Always the right bud.
    Right,
    /// Always the left bud.
    Left,
}

/// How fast two presses must follow each other.
#[derive(Debug, Clone, Copy, PartialEq, Eq, Structural)]
pub enum PressSpeed {
    /// The accessory's own speed.
    Default,
    /// Slower than the default.
    Slower,
    /// The slowest.
    Slowest,
}

/// How long a press has to last to count as a hold.
#[derive(Debug, Clone, Copy, PartialEq, Eq, Structural)]
pub enum HoldDuration {
    /// The accessory's own duration.
    Default,
    /// Shorter than the default.
    Shorter,
    /// The shortest.
    Shortest,
}

/// What presses do during a call.
#[derive(Debug, Clone, Copy, PartialEq, Eq, Structural)]
pub enum CallControls {
    /// One press mutes, two hang up.
    MuteOnceHangupTwice,
    /// One press hangs up, two mute.
    HangupOnceMuteTwice,
}

/// One setting and the value to give it.
#[derive(Debug, Clone, PartialEq, Eq)]
pub enum SettingCommand {
    /// `microphone`.
    Microphone(MicrophoneMode),
    /// `press_speed`.
    PressSpeed(PressSpeed),
    /// `hold_duration`.
    HoldDuration(HoldDuration),
    /// `listening_mode_cycle`: the modes a press and hold steps through.
    ListeningModeCycle(Vec<NoiseControlMode>),
    /// `call_controls`.
    CallControls(CallControls),
    /// `personalized_volume`.
    PersonalizedVolume(bool),
}

/// A setting with its list read as a sequence.
#[verifier::ext_equal]
pub enum SettingModel {
    /// See [`SettingCommand::Microphone`].
    Microphone(MicrophoneMode),
    /// See [`SettingCommand::PressSpeed`].
    PressSpeed(PressSpeed),
    /// See [`SettingCommand::HoldDuration`].
    HoldDuration(HoldDuration),
    /// See [`SettingCommand::ListeningModeCycle`].
    ListeningModeCycle(Seq<NoiseControlMode>),
    /// See [`SettingCommand::CallControls`].
    CallControls(CallControls),
    /// See [`SettingCommand::PersonalizedVolume`].
    PersonalizedVolume(bool),
}

impl View for SettingCommand {
    type V = SettingModel;

    open spec fn view(&self) -> SettingModel {
        match *self {
            SettingCommand::Microphone(m) => SettingModel::Microphone(m),
            SettingCommand::PressSpeed(s) => SettingModel::PressSpeed(s),
            SettingCommand::HoldDuration(d) => SettingModel::HoldDuration(d),
            SettingCommand::ListeningModeCycle(modes) => SettingModel::ListeningModeCycle(modes@),
            SettingCommand::CallControls(c) => SettingModel::CallControls(c),
            SettingCommand::PersonalizedVolume(on) => SettingModel::PersonalizedVolume(on),
        }
    }
}

impl SettingModel {
    /// A setting that may be written: a listening-mode cycle has at least two
    /// modes and none twice; every other value is fine.
    pub open spec fn writable(self) -> bool {
        match self {
            SettingModel::ListeningModeCycle(modes) => modes.len() >= 2 && modes.no_duplicates(),
            _ => true,
        }
    }

    /// Why a setting may not be written.
    pub open spec fn refusal(self) -> Seq<char> {
        if self->ListeningModeCycle_0.len() < 2 {
            "listening_mode_cycle needs at least two modes"@
        } else {
            "listening_mode_cycle lists a mode twice"@
        }
    }

    /// The setting's name.
    pub open spec fn key(self) -> Seq<char> {
        match self {
            SettingModel::Microphone(_) => "microphone"@,
            SettingModel::PressSpeed(_) => "press_speed"@,
            SettingModel::HoldDuration(_) => "hold_duration"@,
            SettingModel::ListeningModeCycle(_) => "listening_mode_cycle"@,
            SettingModel::CallControls(_) => "call_controls"@,
            SettingModel::PersonalizedVolume(_) => "personalized_volume"@,
        }
    }
}

fn has_repeat(modes: &Vec<NoiseControlMode>) -> (r: bool)
    ensures
        r == !modes@.no_duplicates(),
{
    let mut i: usize = 0;
    while i < modes.len()
        invariant
            i <= modes.len(),
            forall|a: int, b: int| 0 <= a < b < i ==> modes@[a] != modes@[b],
        decreases modes.len() - i,
    {
        let mut j: usize = 0;
        while j < i
            invariant
                j <= i < modes.len(),
                forall|a: int| 0 <= a < j ==> modes@[a] != modes@[i as int],
            decreases i - j,
        {
            if modes[j] == modes[i] {
                assert(modes@[j as int] == modes@[i as int]);
                return true;
            }
            j = j + 1;
        }
        i = i + 1;
    }
    false
}

impl SettingCommand {
    /// Refuses a listening-mode cycle that is no cycle.
    pub fn validate(&self) -> (r: Result<(), String>)
        ensures
            r is Ok <==> self@.writable(),
            r matches Err(e) ==> e@ == self@.refusal(),
    {
        match self {
            SettingCommand::ListeningModeCycle(modes) => {
                if modes.len() < 2 {
                    return Err("listening_mode_cycle needs at least two modes".to_owned());
                }
                if has_repeat(modes) {
                    return Err("listening_mode_cycle lists a mode twice".to_owned());
                }
                Ok(())
            },
            _ => Ok(()),
        }
    }

    /// The setting's name, as it is published and asked for.
    pub fn key(&self) -> (r: &'static str)
        ensures
            r@ == self@.key(),
    {
        match self {
            SettingCommand::Microphone(_) => "microphone",
            SettingCommand::PressSpeed(_) => "press_speed",
            SettingCommand::HoldDuration(_) => "hold_duration",
            SettingCommand::ListeningModeCycle(_) => "listening_mode_cycle",
            SettingCommand::CallControls(_) => "call_controls",
            SettingCommand::PersonalizedVolume(_) => "personalized_volume",
        }
    }
}

/// Longest accessory name in UTF-8 bytes.
pub const NAME_BYTES: usize = 255;

/// A name the accessory can be given: not blank, at most 255 bytes of UTF-8,
/// and free of control characters.
pub open spec fn valid_name(name: Seq<char>) -> bool {
    &&& trimmed(name).len() > 0
    &&& encode_utf8(name).len() <= NAME_BYTES
    &&& forall|i: int| 0 <= i < name.len() ==> !control_char(#[trigger] name[i])
}

/// Why a name is refused.
pub open spec fn name_refusal(name: Seq<char>) -> Seq<char> {
    if trimmed(name).len() == 0 {
        "the name must not be blank"@
    } else if encode_utf8(name).len() > NAME_BYTES {
        "the name must not be longer than 255 bytes of UTF-8"@
    } else {
        "the name must not contain control characters"@
    }
}

/// Whether any character is a control character.
pub fn has_control(chars: &Vec<char>) -> (r: bool)
    ensures
        r == exists|i: int| 0 <= i < chars@.len() && control_char(#[trigger] chars@[i]),
{
    let mut i: usize = 0;
    while i < chars.len()
        invariant
            i <= chars.len(),
            forall|k: int| 0 <= k < i ==> !control_char(#[trigger] chars@[k]),
        decreases chars.len() - i,
    {
        if is_control_char(chars[i]) {
            assert(control_char(chars@[i as int]));
            return true;
        }
        i = i + 1;
    }
    false
}

/// Refuses a name that is blank, too long or holds control characters.
pub fn validate_name(name: &str) -> (r: Result<(), String>)
    ensures
        r is Ok <==> valid_name(name@),
        r matches Err(e) ==> e@ == name_refusal(name@),
{
    let chars: Vec<char> = chars_of(name);
    if trim(&chars).len() == 0 {
        return Err("the name must not be blank".to_owned());
    }
    if name.as_bytes().len() > NAME_BYTES {
        return Err("the name must not be longer than 255 bytes of UTF-8".to_owned());
    }
    if has_control(&chars) {
        return Err("the name must not contain control characters".to_owned());
    }
    Ok(())
}

impl MicrophoneMode {
    /// The name the mode has on the wire.
    pub open spec fn word(self) -> Seq<char> {
        match self {
            MicrophoneMode::Auto => "auto"@,
            MicrophoneMode::Right => "right"@,
            MicrophoneMode::Left => "left"@,
        }
    }

    /// The value a wire name stands for.
    pub open spec fn of_word(word: Seq<char>) -> Option<MicrophoneMode> {
        if word == "auto"@ {
            Some(MicrophoneMode::Auto)
        } else if word == "right"@ {
            Some(MicrophoneMode::Right)
        } else if word == "left"@ {
            Some(MicrophoneMode::Left)
        } else {
            None
        }
    }

    /// The name the mode has on the wire.
    pub fn name(self) -> (r: &'static str)
        ensures
            r@ == self.word(),
    {
        match self {
            MicrophoneMode::Auto => "auto",
            MicrophoneMode::Right => "right",
            MicrophoneMode::Left => "left",
        }
    }

    /// The value a wire name stands for, if it stands for one.
    pub fn from_name(name: &str) -> (r: Option<MicrophoneMode>)
        ensures
            r == MicrophoneMode::of_word(name@),
    {
        if same_text(name, "auto") {
            Some(MicrophoneMode::Auto)
        } else if same_text(name, "right") {
            Some(MicrophoneMode::Right)
        } else if same_text(name, "left") {
            Some(MicrophoneMode::Left)
        } else {
            None
        }
    }
}

impl PressSpeed {
    /// The name the speed has on the wire.
    pub open spec fn word(self) -> Seq<char> {
        match self {
            PressSpeed::Default => "default"@,
            PressSpeed::Slower => "slower"@,
            PressSpeed::Slowest => "slowest"@,
        }
    }

    /// The value a wire name stands for.
    pub open spec fn of_word(word: Seq<char>) -> Option<PressSpeed> {
        if word == "default"@ {
            Some(PressSpeed::Default)
        } else if word == "slower"@ {
            Some(PressSpeed::Slower)
        } else if word == "slowest"@ {
            Some(PressSpeed::Slowest)
        } else {
            None
        }
    }

    /// The name the speed has on the wire.
    pub fn name(self) -> (r: &'static str)
        ensures
            r@ == self.word(),
    {
        match self {
            PressSpeed::Default => "default",
            PressSpeed::Slower => "slower",
            PressSpeed::Slowest => "slowest",
        }
    }

    /// The value a wire name stands for, if it stands for one.
    pub fn from_name(name: &str) -> (r: Option<PressSpeed>)
        ensures
            r == PressSpeed::of_word(name@),
    {
        if same_text(name, "default") {
            Some(PressSpeed::Default)
        } else if same_text(name, "slower") {
            Some(PressSpeed::Slower)
        } else if same_text(name, "slowest") {
            Some(PressSpeed::Slowest)
        } else {
            None
        }
    }
}

impl HoldDuration {
    /// The name the duration has on the wire.
    pub open spec fn word(self) -> Seq<char> {
        match self {
            HoldDuration::Default => "default"@,
            HoldDuration::Shorter => "shorter"@,
            HoldDuration::Shortest => "shortest"@,
        }
    }

    /// The value a wire name stands for.
    pub open spec fn of_word(word: Seq<char>) -> Option<HoldDuration> {
        if word == "default"@ {
            Some(HoldDuration::Default)
        } else if word == "shorter"@ {
            Some(HoldDuration::Shorter)
        } else if word == "shortest"@ {
            Some(HoldDuration::Shortest)
        } else {
            None
        }
    }

    /// The name the duration has on the wire.
    pub fn name(self) -> (r: &'static str)
        ensures
            r@ == self.word(),
    {
        match self {
            HoldDuration::Default => "default",
            HoldDuration::Shorter => "shorter",
            HoldDuration::Shortest => "shortest",
        }
    }

    /// The value a wire name stands for, if it stands for one.
    pub fn from_name(name: &str) -> (r: Option<HoldDuration>)
        ensures
            r == HoldDuration::of_word(name@),
    {
        if same_text(name, "default") {
            Some(HoldDuration::Default)
        } else if same_text(name, "shorter") {
            Some(HoldDuration::Shorter)
        } else if same_text(name, "shortest") {
            Some(HoldDuration::Shortest)
        } else {
            None
        }
    }
}

impl CallControls {
    /// The name the choice has on the wire.
    pub open spec fn word(self) -> Seq<char> {
        match self {
            CallControls::MuteOnceHangupTwice => "mute_once_hangup_twice"@,
            CallControls::HangupOnceMuteTwice => "hangup_once_mute_twice"@,
        }
    }

    /// The value a wire name stands for.
    pub open spec fn of_word(word: Seq<char>) -> Option<CallControls> {
        if word == "mute_once_hangup_twice"@ {
            Some(CallControls::MuteOnceHangupTwice)
        } else if word == "hangup_once_mute_twice"@ {
            Some(CallControls::HangupOnceMuteTwice)
        } else {
            None
        }
    }

    /// The name the choice has on the wire.
    pub fn name(self) -> (r: &'static str)
        ensures
            r@ == self.word(),
    {
        match self {
            CallControls::MuteOnceHangupTwice => "mute_once_hangup_twice",
            CallControls::HangupOnceMuteTwice => "hangup_once_mute_twice",
        }
    }

    /// The value a wire name stands for, if it stands for one.
    pub fn from_name(name: &str) -> (r: Option<CallControls>)
        ensures
            r == CallControls::of_word(name@),
    {
        if same_text(name, "mute_once_hangup_twice") {
            Some(CallControls::MuteOnceHangupTwice)
        } else if same_text(name, "hangup_once_mute_twice") {
            Some(CallControls::HangupOnceMuteTwice)
        } else {
            None
        }
    }
}

impl NoiseControlMode {
    /// The name the mode has on the wire.
    pub open spec fn word(self) -> Seq<char> {
        match self {
            NoiseControlMode::Off => "off"@,
            NoiseControlMode::Anc => "anc"@,
            NoiseControlMode::Transparency => "transparency"@,
            NoiseControlMode::Adaptive => "adaptive"@,
        }
    }

    /// The value a wire name stands for.
    pub open spec fn of_word(word: Seq<char>) -> Option<NoiseControlMode> {
        if word == "off"@ {
            Some(NoiseControlMode::Off)
        } else if word == "anc"@ {
            Some(NoiseControlMode::Anc)
        } else if word == "transparency"@ {
            Some(NoiseControlMode::Transparency)
        } else if word == "adaptive"@ {
            Some(NoiseControlMode::Adaptive)
        } else {
            None
        }
    }

    /// The name the mode has on the wire.
    pub fn name(self) -> (r: &'static str)
        ensures
            r@ == self.word(),
    {
        match self {
            NoiseControlMode::Off => "off",
            NoiseControlMode::Anc => "anc",
            NoiseControlMode::Transparency => "transparency",
            NoiseControlMode::Adaptive => "adaptive",
        }
    }

    /// The value a wire name stands for, if it stands for one.
    pub fn from_name(name: &str) -> (r: Option<NoiseControlMode>)
        ensures
            r == NoiseControlMode::of_word(name@),
    {
        if same_text(name, "off") {
            Some(NoiseControlMode::Off)
        } else if same_text(name, "anc") {
            Some(NoiseControlMode::Anc)
        } else if same_text(name, "transparency") {
            Some(NoiseControlMode::Transparency)
        } else if same_text(name, "adaptive") {
            Some(NoiseControlMode::Adaptive)
        } else {
            None
        }
    }
}

/// A JSON value, as far as settings use one.
#[derive(Debug, PartialEq, Eq)]
pub enum JsonValue {
    /// A string.
    Text(String),
    /// `true` or `false`.
    Flag(bool),
    /// An array; an element that is no string is `None`.
    List(Vec<Option<String>>),
    /// Anything else, or no JSON at all.
    Other,
}

/// A JSON value with its texts read as sequences.
#[verifier::ext_equal]
pub enum JsonModel {
    /// See [`JsonValue::Text`].
    Text(Seq<char>),
    /// See [`JsonValue::Flag`].
    Flag(bool),
    /// See [`JsonValue::List`].
    List(Seq<Option<Seq<char>>>),
    /// See [`JsonValue::Other`].
    Other,
}

/// Optional texts as sequences.
pub open spec fn optional_views(list: Seq<Option<String>>) -> Seq<Option<Seq<char>>> {
    list.map_values(|s: Option<String>| text_view(s))
}

impl View for JsonValue {
    type V = JsonModel;

    open spec fn view(&self) -> JsonModel {
        match *self {
            JsonValue::Text(s) => JsonModel::Text(s@),
            JsonValue::Flag(b) => JsonModel::Flag(b),
            JsonValue::List(list) => JsonModel::List(optional_views(list@)),
            JsonValue::Other => JsonModel::Other,
        }
    }
}

/// The value that a text writes.
pub open spec fn json_value(text: Seq<char>) -> JsonModel {
    match json_string(text) {
        Some(s) => JsonModel::Text(s),
        None => match json_bool(text) {
            Some(b) => JsonModel::Flag(b),
            None => match json_items(text) {
                Some(items) => JsonModel::List(
                    items.map_values(|item: Seq<char>| json_string(item)),
                ),
                None => JsonModel::Other,
            },
        },
    }
}

/// Read the value that a text writes.
pub fn read_json(text: &str) -> (r: JsonValue)
    ensures
        r@ == json_value(text@),
{
    if let Some(s) = json::string(text) {
        return JsonValue::Text(s);
    }
    if let Some(b) = json::boolean(text) {
        return JsonValue::Flag(b);
    }
    match json::items(text) {
        Some(items) => {
            let ghost wanted = text_views(items@).map_values(
                |item: Seq<char>| json_string(item),
            );
            let mut list: Vec<Option<String>> = Vec::new();
            let mut i: usize = 0;
            while i < items.len()
                invariant
                    i <= items@.len(),
                    wanted == text_views(items@).map_values(|item: Seq<char>| json_string(item)),
                    list@.len() == i,
                    forall|k: int| 0 <= k < i ==> text_view(#[trigger] list@[k]) == wanted[k],
                decreases items@.len() - i,
            {
                list.push(json::string(items[i].as_str()));
                i += 1;
            }
            proof {
                assert(optional_views(list@) =~= wanted);
            }
            JsonValue::List(list)
        },
        None => JsonValue::Other,
    }
}

/// The modes that a list of names stands for, if every name stands for one.
pub open spec fn modes_of(names: Seq<Option<Seq<char>>>) -> Option<Seq<NoiseControlMode>>
    decreases names.len(),
{
    if names.len() == 0 {
        Some(Seq::empty())
    } else {
        match (modes_of(names.drop_last()), names.last()) {
            (Some(modes), Some(name)) => match NoiseControlMode::of_word(name) {
                Some(mode) => Some(modes.push(mode)),
                None => None,
            },
            _ => None,
        }
    }
}

fn read_modes(names: &Vec<Option<String>>) -> (r: Option<Vec<NoiseControlMode>>)
    ensures
        match r {
            Some(modes) => modes_of(optional_views(names@)) == Some(modes@),
            None => modes_of(optional_views(names@)) is None,
        },
{
    let ghost all = optional_views(names@);
    let mut modes: Vec<NoiseControlMode> = Vec::new();
    let mut i: usize = 0;
    proof {
        assert(all.take(0) =~= Seq::empty());
        assert(modes@ =~= Seq::empty());
    }
    while i < names.len()
        invariant
            i <= names@.len(),
            all == optional_views(names@),
            modes_of(all.take(i as int)) == Some(modes@),
        decreases names@.len() - i,
    {
        proof {
            assert(all.take(i + 1).drop_last() =~= all.take(i as int));
            assert(all.take(i + 1).last() == text_view(names@[i as int]));
        }
        let mode = match &names[i] {
            Some(name) => NoiseControlMode::from_name(name.as_str()),
            None => None,
        };
        match mode {
            Some(m) => {
                modes.push(m);
            },
            None => {
                proof {
                    no_modes_after(all, i + 1);
                    assert(all.take(all.len() as int) =~= all);
                }
                return None;
            },
        }
        i += 1;
    }
    proof {
        assert(all.take(i as int) =~= all);
    }
    Some(modes)
}

proof fn no_modes_after(names: Seq<Option<Seq<char>>>, n: int)
    requires
        0 <= n <= names.len(),
        modes_of(names.take(n)) is None,
    ensures
        modes_of(names.take(names.len() as int)) is None,
    decreases names.len() - n,
{
    if n < names.len() {
        assert(names.take(n + 1).drop_last() =~= names.take(n));
        no_modes_after(names, n + 1);
    }
}

/// The setting that a key and a JSON value name, if they name one.
pub open spec fn setting_named(key: Seq<char>, value: JsonModel) -> Option<SettingModel> {
    if key == "microphone"@ {
        match value {
            JsonModel::Text(s) => match MicrophoneMode::of_word(s) {
                Some(v) => Some(SettingModel::Microphone(v)),
                None => None,
            },
            _ => None,
        }
    } else if key == "press_speed"@ {
        match value {
            JsonModel::Text(s) => match PressSpeed::of_word(s) {
                Some(v) => Some(SettingModel::PressSpeed(v)),
                None => None,
            },
            _ => None,
        }
    } else if key == "hold_duration"@ {
        match value {
            JsonModel::Text(s) => match HoldDuration::of_word(s) {
                Some(v) => Some(SettingModel::HoldDuration(v)),
                None => None,
            },
            _ => None,
        }
    } else if key == "listening_mode_cycle"@ {
        match value {
            JsonModel::List(list) => match modes_of(list) {
                Some(modes) => Some(SettingModel::ListeningModeCycle(modes)),
                None => None,
            },
            _ => None,
        }
    } else if key == "call_controls"@ {
        match value {
            JsonModel::Text(s) => match CallControls::of_word(s) {
                Some(v) => Some(SettingModel::CallControls(v)),
                None => None,
            },
            _ => None,
        }
    } else if key == "personalized_volume"@ {
        match value {
            JsonModel::Flag(b) => Some(SettingModel::PersonalizedVolume(b)),
            _ => None,
        }
    } else {
        None
    }
}

/// A setting's view, where there is one.
pub open spec fn setting_view(setting: Option<SettingCommand>) -> Option<SettingModel> {
    match setting {
        Some(s) => Some(s@),
        None => None,
    }
}

impl SettingCommand {
    /// The setting that a key and a JSON value name, if they name one.
    pub fn from_value(key: &str, value: &JsonValue) -> (r: Option<SettingCommand>)
        ensures
            setting_view(r) == setting_named(key@, value@),
    {
        if same_text(key, "microphone") {
            match value {
                JsonValue::Text(s) => match MicrophoneMode::from_name(s.as_str()) {
                    Some(v) => Some(SettingCommand::Microphone(v)),
                    None => None,
                },
                _ => None,
            }
        } else if same_text(key, "press_speed") {
            match value {
                JsonValue::Text(s) => match PressSpeed::from_name(s.as_str()) {
                    Some(v) => Some(SettingCommand::PressSpeed(v)),
                    None => None,
                },
                _ => None,
            }
        } else if same_text(key, "hold_duration") {
            match value {
                JsonValue::Text(s) => match HoldDuration::from_name(s.as_str()) {
                    Some(v) => Some(SettingCommand::HoldDuration(v)),
                    None => None,
                },
                _ => None,
            }
        } else if same_text(key, "listening_mode_cycle") {
            match value {
                JsonValue::List(list) => match read_modes(list) {
                    Some(modes) => Some(SettingCommand::ListeningModeCycle(modes)),
                    None => None,
                },
                _ => None,
            }
        } else if same_text(key, "call_controls") {
            match value {
                JsonValue::Text(s) => match CallControls::from_name(s.as_str()) {
                    Some(v) => Some(SettingCommand::CallControls(v)),
                    None => None,
                },
                _ => None,
            }
        } else if same_text(key, "personalized_volume") {
            match value {
                JsonValue::Flag(b) => Some(SettingCommand::PersonalizedVolume(*b)),
                _ => None,
            }
        } else {
            None
        }
    }
}

proof fn words_differ()
    ensures
        "microphone"@ != "press_speed"@,
        "microphone"@ != "hold_duration"@,
        "microphone"@ != "listening_mode_cycle"@,
        "microphone"@ != "call_controls"@,
        "microphone"@ != "personalized_volume"@,
        "press_speed"@ != "hold_duration"@,
        "press_speed"@ != "listening_mode_cycle"@,
        "press_speed"@ != "call_controls"@,
        "press_speed"@ != "personalized_volume"@,
        "hold_duration"@ != "listening_mode_cycle"@,
        "hold_duration"@ != "call_controls"@,
        "hold_duration"@ != "personalized_volume"@,
        "listening_mode_cycle"@ != "call_controls"@,
        "listening_mode_cycle"@ != "personalized_volume"@,
        "call_controls"@ != "personalized_volume"@,
{
    reveal_strlit("microphone");
    reveal_strlit("press_speed");
    reveal_strlit("hold_duration");
    reveal_strlit("listening_mode_cycle");
    reveal_strlit("call_controls");
    reveal_strlit("personalized_volume");
    assert("microphone"@.len() == 10);
    assert("press_speed"@.len() == 11);
    assert("hold_duration"@.len() == 13);
    assert("listening_mode_cycle"@.len() == 20);
    assert("call_controls"@.len() == 13);
    assert("personalized_volume"@.len() == 19);
    assert("hold_duration"@[0] == 'h');
    assert("call_controls"@[0] == 'c');
}

/// The JSON value a setting is written as.
pub open spec fn written(setting: SettingModel) -> JsonModel {
    match setting {
        SettingModel::Microphone(v) => JsonModel::Text(v.word()),
        SettingModel::PressSpeed(v) => JsonModel::Text(v.word()),
        SettingModel::HoldDuration(v) => JsonModel::Text(v.word()),
        SettingModel::ListeningModeCycle(modes) => JsonModel::List(
            modes.map_values(|m: NoiseControlMode| Some(m.word())),
        ),
        SettingModel::CallControls(v) => JsonModel::Text(v.word()),
        SettingModel::PersonalizedVolume(on) => JsonModel::Flag(on),
    }
}

proof fn mode_names_read_back(modes: Seq<NoiseControlMode>)
    ensures
        modes_of(modes.map_values(|m: NoiseControlMode| Some(m.word()))) == Some(modes),
    decreases modes.len(),
{
    let names = modes.map_values(|m: NoiseControlMode| Some(m.word()));
    if modes.len() == 0 {
        assert(modes =~= Seq::empty());
    } else {
        mode_names_read_back(modes.drop_last());
        assert(names.drop_last() =~= modes.drop_last().map_values(
            |m: NoiseControlMode| Some(m.word()),
        ));
        mode_word_reads_back(modes.last());
        assert(modes.drop_last().push(modes.last()) =~= modes);
    }
}

proof fn mode_word_reads_back(mode: NoiseControlMode)
    ensures
        NoiseControlMode::of_word(mode.word()) == Some(mode),
{
    reveal_strlit("off");
    reveal_strlit("anc");
    reveal_strlit("transparency");
    reveal_strlit("adaptive");
    assert("off"@.len() == 3 && "off"@[0] == 'o');
    assert("anc"@.len() == 3 && "anc"@[0] == 'a');
    assert("transparency"@.len() == 12);
    assert("adaptive"@.len() == 8);
}

/// A setting's key and JSON value name that setting again.
pub proof fn written_settings_read_back(setting: SettingModel)
    ensures
        setting_named(setting.key(), written(setting)) == Some(setting),
{
    words_differ();
    match setting {
        SettingModel::Microphone(v) => {
            reveal_strlit("auto");
            reveal_strlit("right");
            reveal_strlit("left");
            assert("auto"@.len() == 4 && "auto"@[0] == 'a');
            assert("right"@.len() == 5);
            assert("left"@.len() == 4 && "left"@[0] == 'l');
        },
        SettingModel::PressSpeed(v) => {
            reveal_strlit("default");
            reveal_strlit("slower");
            reveal_strlit("slowest");
            assert("default"@.len() == 7 && "default"@[0] == 'd');
            assert("slower"@.len() == 6);
            assert("slowest"@.len() == 7 && "slowest"@[0] == 's');
        },
        SettingModel::HoldDuration(v) => {
            reveal_strlit("default");
            reveal_strlit("shorter");
            reveal_strlit("shortest");
            assert("default"@.len() == 7 && "default"@[0] == 'd');
            assert("shorter"@.len() == 7 && "shorter"@[0] == 's');
            assert("shortest"@.len() == 8);
        },
        SettingModel::ListeningModeCycle(modes) => {
            mode_names_read_back(modes);
        },
        SettingModel::CallControls(v) => {
            reveal_strlit("mute_once_hangup_twice");
            reveal_strlit("hangup_once_mute_twice");
            assert("mute_once_hangup_twice"@[0] == 'm');
            assert("hangup_once_mute_twice"@[0] == 'h');
        },
        SettingModel::PersonalizedVolume(on) => {},
    }
}

} // verus!
