//! the pedal board: a chain of effect pedals for one input channel
//!
//! A board holds its pedals in processing order.  Pedals are created by type
//! name, inserted, deleted and swapped by position.
use vstd::prelude::*;

use super::pedal::{change_setting, changed, json_setting, read_setting, same_text, Pedal, Setting};
use crate::json_fields::JsonScalar;

verus! {

broadcast use vstd::string::group_string_axioms;

/// The types of pedal a board can hold.
#[derive(PartialEq, Eq, Structural, Debug, Clone, Copy)]
pub enum PedalKind {
    ToneStack,
    NoiseGate,
    BassDI,
    SpeakerSim,
    SigmaReverb,
    Compressor,
    Tremelo,
    Delay,
    TubeDrive,
    SoulDrive,
    Chorus,
    BassEnvelope,
    GuitarEnvelope,
}

/// The pedal type called `n`, if there is one.
pub open spec fn kind_of_name(n: Seq<char>) -> Option<PedalKind> {
    if n == "Tone Stack"@ {
        Some(PedalKind::ToneStack)
    } else if n == "Noise Gate"@ {
        Some(PedalKind::NoiseGate)
    } else if n == "Bass DI"@ {
        Some(PedalKind::BassDI)
    } else if n == "Speaker Sim"@ {
        Some(PedalKind::SpeakerSim)
    } else if n == "Sigma Reverb"@ {
        Some(PedalKind::SigmaReverb)
    } else if n == "Compressor"@ {
        Some(PedalKind::Compressor)
    } else if n == "Tremelo"@ {
        Some(PedalKind::Tremelo)
    } else if n == "Delay"@ {
        Some(PedalKind::Delay)
    } else if n == "TubeDrive"@ {
        Some(PedalKind::TubeDrive)
    } else if n == "SoulDrive"@ {
        Some(PedalKind::SoulDrive)
    } else if n == "Chorus"@ {
        Some(PedalKind::Chorus)
    } else if n == "Bass Envelope"@ {
        Some(PedalKind::BassEnvelope)
    } else if n == "Guitar Envelope"@ {
        Some(PedalKind::GuitarEnvelope)
    } else {
        None
    }
}

/// All pedal types, in the order they are listed to the user.
pub open spec fn all_pedal_kinds() -> Seq<PedalKind> {
    seq![PedalKind::ToneStack, PedalKind::NoiseGate, PedalKind::BassDI, PedalKind::SpeakerSim, PedalKind::SigmaReverb, PedalKind::Compressor, PedalKind::Tremelo, PedalKind::Delay, PedalKind::TubeDrive, PedalKind::SoulDrive, PedalKind::Chorus, PedalKind::BassEnvelope, PedalKind::GuitarEnvelope]
}

impl PedalKind {
    /// The name the user interface knows the pedal type by.
    pub open spec fn spec_name(self) -> Seq<char> {
        match self {
            PedalKind::ToneStack => "Tone Stack"@,
            PedalKind::NoiseGate => "Noise Gate"@,
            PedalKind::BassDI => "Bass DI"@,
            PedalKind::SpeakerSim => "Speaker Sim"@,
            PedalKind::SigmaReverb => "Sigma Reverb"@,
            PedalKind::Compressor => "Compressor"@,
            PedalKind::Tremelo => "Tremelo"@,
            PedalKind::Delay => "Delay"@,
            PedalKind::TubeDrive => "TubeDrive"@,
            PedalKind::SoulDrive => "SoulDrive"@,
            PedalKind::Chorus => "Chorus"@,
            PedalKind::BassEnvelope => "Bass Envelope"@,
            PedalKind::GuitarEnvelope => "Guitar Envelope"@,
        }
    }

    /// A short description of the pedal type.
    pub open spec fn spec_description(self) -> Seq<char> {
        match self {
            PedalKind::ToneStack => "Tone controls (3 band)"@,
            PedalKind::NoiseGate => "Noise Gate"@,
            PedalKind::BassDI => "Bass Guitar Tone Shaping"@,
            PedalKind::SpeakerSim => "Speaker Cabinet Simulator"@,
            PedalKind::SigmaReverb => "Sigma Reverb"@,
            PedalKind::Compressor => "Compressor Pedal"@,
            PedalKind::Tremelo => "Tremelo ala Fender"@,
            PedalKind::Delay => "Delay Pedal"@,
            PedalKind::TubeDrive => "Tube Overdrive"@,
            PedalKind::SoulDrive => "Soul Overdrive"@,
            PedalKind::Chorus => "Chorus"@,
            PedalKind::BassEnvelope => "Bass Envelope Filter Pedal"@,
            PedalKind::GuitarEnvelope => "Guitar Envelope Filter Pedal (auto-wah)"@,
        }
    }

    pub fn name(&self) -> (r: &'static str)
        ensures
            r@ == self.spec_name(),
    {
        match self {
            PedalKind::ToneStack => "Tone Stack",
            PedalKind::NoiseGate => "Noise Gate",
            PedalKind::BassDI => "Bass DI",
            PedalKind::SpeakerSim => "Speaker Sim",
            PedalKind::SigmaReverb => "Sigma Reverb",
            PedalKind::Compressor => "Compressor",
            PedalKind::Tremelo => "Tremelo",
            PedalKind::Delay => "Delay",
            PedalKind::TubeDrive => "TubeDrive",
            PedalKind::SoulDrive => "SoulDrive",
            PedalKind::Chorus => "Chorus",
            PedalKind::BassEnvelope => "Bass Envelope",
            PedalKind::GuitarEnvelope => "Guitar Envelope",
        }
    }

    pub fn description(&self) -> (r: &'static str)
        ensures
            r@ == self.spec_description(),
    {
        match self {
            PedalKind::ToneStack => "Tone controls (3 band)",
            PedalKind::NoiseGate => "Noise Gate",
            PedalKind::BassDI => "Bass Guitar Tone Shaping",
            PedalKind::SpeakerSim => "Speaker Cabinet Simulator",
            PedalKind::SigmaReverb => "Sigma Reverb",
            PedalKind::Compressor => "Compressor Pedal",
            PedalKind::Tremelo => "Tremelo ala Fender",
            PedalKind::Delay => "Delay Pedal",
            PedalKind::TubeDrive => "Tube Overdrive",
            PedalKind::SoulDrive => "Soul Overdrive",
            PedalKind::Chorus => "Chorus",
            PedalKind::BassEnvelope => "Bass Envelope Filter Pedal",
            PedalKind::GuitarEnvelope => "Guitar Envelope Filter Pedal (auto-wah)",
        }
    }

    /// The pedal type called `name`, if there is one.
    pub fn from_name(name: &str) -> (r: Option<PedalKind>)
        ensures
            r == kind_of_name(name@),
            match r {
                Some(k) => k.spec_name() == name@,
                None => forall|k: PedalKind| #[trigger] k.spec_name() != name@,
            },
    {
        if same_text(name, "Tone Stack") {
            return Some(PedalKind::ToneStack);
        }
        if same_text(name, "Noise Gate") {
            return Some(PedalKind::NoiseGate);
        }
        if same_text(name, "Bass DI") {
            return Some(PedalKind::BassDI);
        }
        if same_text(name, "Speaker Sim") {
            return Some(PedalKind::SpeakerSim);
        }
        if same_text(name, "Sigma Reverb") {
            return Some(PedalKind::SigmaReverb);
        }
        if same_text(name, "Compressor") {
            return Some(PedalKind::Compressor);
        }
        if same_text(name, "Tremelo") {
            return Some(PedalKind::Tremelo);
        }
        if same_text(name, "Delay") {
            return Some(PedalKind::Delay);
        }
        if same_text(name, "TubeDrive") {
            return Some(PedalKind::TubeDrive);
        }
        if same_text(name, "SoulDrive") {
            return Some(PedalKind::SoulDrive);
        }
        if same_text(name, "Chorus") {
            return Some(PedalKind::Chorus);
        }
        if same_text(name, "Bass Envelope") {
            return Some(PedalKind::BassEnvelope);
        }
        if same_text(name, "Guitar Envelope") {
            return Some(PedalKind::GuitarEnvelope);
        }
        None
    }

    /// All pedal types.
    pub fn all() -> (r: Vec<PedalKind>)
        ensures
            r@ == all_pedal_kinds(),
    {
        let mut v: Vec<PedalKind> = Vec::new();
        v.push(PedalKind::ToneStack);
        v.push(PedalKind::NoiseGate);
        v.push(PedalKind::BassDI);
        v.push(PedalKind::SpeakerSim);
        v.push(PedalKind::SigmaReverb);
        v.push(PedalKind::Compressor);
        v.push(PedalKind::Tremelo);
        v.push(PedalKind::Delay);
        v.push(PedalKind::TubeDrive);
        v.push(PedalKind::SoulDrive);
        v.push(PedalKind::Chorus);
        v.push(PedalKind::BassEnvelope);
        v.push(PedalKind::GuitarEnvelope);
        proof {
            assert(v@ =~= all_pedal_kinds());
        }
        v
    }
}

/// Every pedal type is listed.
pub proof fn lemma_all_pedal_kinds_listed(k: PedalKind)
    ensures
        all_pedal_kinds().contains(k),
{
    match k {
        PedalKind::ToneStack => assert(all_pedal_kinds()[0] == k),
        PedalKind::NoiseGate => assert(all_pedal_kinds()[1] == k),
        PedalKind::BassDI => assert(all_pedal_kinds()[2] == k),
        PedalKind::SpeakerSim => assert(all_pedal_kinds()[3] == k),
        PedalKind::SigmaReverb => assert(all_pedal_kinds()[4] == k),
        PedalKind::Compressor => assert(all_pedal_kinds()[5] == k),
        PedalKind::Tremelo => assert(all_pedal_kinds()[6] == k),
        PedalKind::Delay => assert(all_pedal_kinds()[7] == k),
        PedalKind::TubeDrive => assert(all_pedal_kinds()[8] == k),
        PedalKind::SoulDrive => assert(all_pedal_kinds()[9] == k),
        PedalKind::Chorus => assert(all_pedal_kinds()[10] == k),
        PedalKind::BassEnvelope => assert(all_pedal_kinds()[11] == k),
        PedalKind::GuitarEnvelope => assert(all_pedal_kinds()[12] == k),
    }
}

/// How a board makes a pedal of a given type.  This is what a pedal type
/// implements to be made by name: the new pedal of each type is the one that
/// the pedal type names `made`.
pub trait MakePedal: Sized {
    /// A new pedal of type `kind`.
    spec fn made(kind: PedalKind) -> Self;

    fn make(kind: PedalKind) -> (p: Self)
        ensures
            p == Self::made(kind),
    ;
}

/// The description of one pedal of a saved board: its type name, if given,
/// and the setting changes to apply to it, in order.
pub struct PedalConfig {
    pub name: Option<String>,
    pub settings: Vec<Setting>,
}

/// The description of a saved board: its id, if given, and its pedals in
/// order.
pub struct BoardConfig {
    pub id: Option<i64>,
    pub pedals: Vec<PedalConfig>,
}

/// The name of a pedal configuration, as characters.
pub open spec fn name_chars(n: Option<String>) -> Option<Seq<char>> {
    match n {
        Some(s) => Some(s@),
        None => None,
    }
}

/// The pedal configurations as plain values: each one's name and setting
/// changes.
pub open spec fn config_view(c: Seq<PedalConfig>) -> Seq<(Option<Seq<char>>, Seq<Setting>)> {
    c.map_values(|pc: PedalConfig| (name_chars(pc.name), pc.settings@))
}

/// A pedal configuration names a pedal type.
pub open spec fn names_pedal_kind() -> spec_fn((Option<Seq<char>>, Seq<Setting>)) -> bool {
    |e: (Option<Seq<char>>, Seq<Setting>)| e.0 matches Some(n) && kind_of_name(n) is Some
}

/// `p` with the setting changes `settings` applied to it in order.
pub open spec fn with_settings<P: Pedal>(p: P, settings: Seq<Setting>) -> P
    decreases settings.len(),
{
    if settings.len() == 0 {
        p
    } else {
        changed(with_settings(p, settings.drop_last()), settings.last())
    }
}

/// The pedal a configuration describes: a new pedal of the named type, with
/// the configuration's setting changes applied in order.
pub open spec fn configured_pedal<P: MakePedal + Pedal>(e: (Option<Seq<char>>, Seq<Setting>)) -> P {
    with_settings(P::made(kind_of_name(e.0->0)->0), e.1)
}

/// The pedals that a saved board's configurations describe, in order: one
/// for each configuration that names a pedal type.
pub open spec fn configured_pedals<P: MakePedal + Pedal>(v: Seq<(Option<Seq<char>>, Seq<Setting>)>) -> Seq<P> {
    v.filter(names_pedal_kind()).map_values(|e: (Option<Seq<char>>, Seq<Setting>)| configured_pedal::<P>(e))
}

/// The setting change written in a setting's JSON text; text that is not
/// JSON reads as a change that names no setting (which a pedal ignores).
pub open spec fn setting_of_text(t: Seq<char>) -> Setting {
    match json_setting(t) {
        Some(s) => s,
        None => Setting { name: None, value: JsonScalar::Other },
    }
}

/// The configurations of a saved board read from JSON: each pedal's name, and
/// the setting change in the JSON text of each of its settings.
pub open spec fn board_settings(v: Seq<(Option<Seq<char>>, Seq<Seq<char>>)>) -> Seq<(Option<Seq<char>>, Seq<Setting>)> {
    v.map_values(|e: (Option<Seq<char>>, Seq<Seq<char>>)| (e.0, e.1.map_values(|t: Seq<char>| setting_of_text(t))))
}

/// The pedals of a saved board as names and setting texts, as plain values.
pub open spec fn texts_view(v: Seq<(Option<String>, Vec<String>)>) -> Seq<(Option<Seq<char>>, Seq<Seq<char>>)> {
    v.map_values(|e: (Option<String>, Vec<String>)| (name_chars(e.0), e.1@.map_values(|t: String| t@)))
}

/// What `serde_json` reads as a saved board from the JSON text `text`: the
/// integer under `id_key`, and for each element of the array under
/// `config_key`, the string under `name_key` and the JSON text of each
/// element of the array under `settings_key`; `None` when the text is not
/// JSON.
pub uninterp spec fn json_board(
    text: Seq<char>,
    id_key: Seq<char>,
    config_key: Seq<char>,
    name_key: Seq<char>,
    settings_key: Seq<char>,
) -> Option<(Option<i64>, Seq<(Option<Seq<char>>, Seq<Seq<char>>)>)>;

/// Calls `serde_json::from_str` on the text and reads the saved board out of
/// the value it gives with `serde_json::Value`'s indexing, `as_i64`,
/// `as_array`, `as_str` and `to_string` (a missing key, or a value of another
/// type, reads as no id, no pedals, no name or no settings).  The contract
/// names the result.
#[verifier::external_body]
fn read_board_texts(text: &str, id_key: &str, config_key: &str, name_key: &str, settings_key: &str) -> (r: Option<(Option<i64>, Vec<(Option<String>, Vec<String>)>)>)
    ensures
        match json_board(text@, id_key@, config_key@, name_key@, settings_key@) {
            None => r is None,
            Some((id, pedals)) => r matches Some(b) && b.0 == id && texts_view(b.1@) == pedals,
        },
{
    let v: serde_json::Value = serde_json::from_str(text).ok()?;
    let configs = v[config_key].as_array().map(|a| a.as_slice()).unwrap_or(&[]);
    let pedals = configs.iter().map(|c| (
        c[name_key].as_str().map(String::from),
        c[settings_key].as_array().map(|a| a.iter().map(|s| s.to_string()).collect()).unwrap_or_default(),
    )).collect();
    Some((v[id_key].as_i64(), pedals))
}

/// The setting change in a setting's JSON text.
fn setting_from_text(t: &str) -> (s: Setting)
    ensures
        s == setting_of_text(t@),
{
    match read_setting(t) {
        Some(s) => s,
        None => Setting { name: None, value: JsonScalar::Other },
    }
}

/// The configurations of a saved board, from its names and setting texts.
fn configs_from_texts(pedals: &Vec<(Option<String>, Vec<String>)>) -> (r: Vec<PedalConfig>)
    ensures
        config_view(r@) == board_settings(texts_view(pedals@)),
{
    let ghost want = board_settings(texts_view(pedals@));
    let mut r: Vec<PedalConfig> = Vec::new();
    let n = pedals.len();
    let mut i: usize = 0;
    while i < n
        invariant
            n == pedals@.len(),
            want == board_settings(texts_view(pedals@)),
            want.len() == n,
            i <= n,
            config_view(r@) =~= want.take(i as int),
        decreases n - i,
    {
        let texts = &pedals[i].1;
        let m = texts.len();
        let mut ss: Vec<Setting> = Vec::new();
        let mut j: usize = 0;
        while j < m
            invariant
                i < n,
                n == pedals@.len(),
                want == board_settings(texts_view(pedals@)),
                texts@ == pedals@[i as int].1@,
                m == texts@.len(),
                want[i as int].1.len() == m,
                j <= m,
                ss@ =~= want[i as int].1.take(j as int),
            decreases m - j,
        {
            ss.push(setting_from_text(texts[j].as_str()));
            j = j + 1;
        }
        let name = match &pedals[i].0 {
            Some(t) => Some(t.clone()),
            None => None,
        };
        let ghost before = r@;
        r.push(PedalConfig { name, settings: ss });
        proof {
            assert(ss@ =~= want[i as int].1);
            assert(config_view(r@) =~= config_view(before).push(want[i as int]));
        }
        i = i + 1;
    }
    r
}

/// Where a pedal inserted at `idx` lands on a board of `len` pedals: at `idx`,
/// or at the end when `idx` is past it.
pub open spec fn insert_position(idx: usize, len: nat) -> int {
    if idx > len { len as int } else { idx as int }
}

/// A chain of pedals.
pub struct PedalBoard<P> {
    pedals: Vec<P>,
    board_id: i64,
}

impl<P> PedalBoard<P> {
    /// The pedals, in processing order.
    pub closed spec fn spec_pedals(&self) -> Seq<P> {
        self.pedals@
    }

    pub closed spec fn spec_board_id(&self) -> i64 {
        self.board_id
    }

    /// An empty board, with no id (-1).
    pub fn new() -> (b: PedalBoard<P>)
        ensures
            b.spec_pedals() == Seq::<P>::empty(),
            b.spec_board_id() == -1,
    {
        PedalBoard { pedals: Vec::new(), board_id: -1 }
    }

    pub fn num_pedals(&self) -> (n: usize)
        ensures
            n == self.spec_pedals().len(),
    {
        self.pedals.len()
    }

    pub fn get_board_id(&self) -> (id: i64)
        ensures
            id == self.spec_board_id(),
    {
        self.board_id
    }

    pub fn set_board_id(&mut self, id: i64)
        ensures
            final(self).spec_board_id() == id,
            final(self).spec_pedals() == old(self).spec_pedals(),
    {
        self.board_id = id;
    }

    /// The pedals, in processing order.
    pub fn pedals(&self) -> (r: &[P])
        ensures
            r@ == self.spec_pedals(),
    {
        self.pedals.as_slice()
    }

    /// The pedal at position `i`, to work it.
    pub fn pedal_mut(&mut self, i: usize) -> (r: &mut P)
        requires
            i < old(self).spec_pedals().len(),
        ensures
            *r == old(self).spec_pedals()[i as int],
            final(self).spec_pedals() == old(self).spec_pedals().update(i as int, *final(r)),
            final(self).spec_board_id() == old(self).spec_board_id(),
    {
        &mut self.pedals[i]
    }

    /// Take all pedals off the board.
    pub fn clear(&mut self)
        ensures
            final(self).spec_pedals() == Seq::<P>::empty(),
            final(self).spec_board_id() == old(self).spec_board_id(),
    {
        self.pedals.clear();
    }

    /// Put a pedal at the end of the chain.
    pub fn push_pedal(&mut self, p: P)
        ensures
            final(self).spec_pedals() == old(self).spec_pedals().push(p),
            final(self).spec_board_id() == old(self).spec_board_id(),
    {
        self.pedals.push(p);
    }

    /// Remove the pedal at `idx`; nothing happens when there is none.
    pub fn delete_pedal(&mut self, idx: usize)
        ensures
            final(self).spec_pedals() == if idx < old(self).spec_pedals().len() {
                old(self).spec_pedals().remove(idx as int)
            } else {
                old(self).spec_pedals()
            },
            final(self).spec_board_id() == old(self).spec_board_id(),
    {
        if idx < self.pedals.len() {
            self.pedals.remove(idx);
        }
    }

    /// Swap the pedals at `from_idx` and `to_idx`; nothing happens unless
    /// both are on the board and differ.
    pub fn move_pedal(&mut self, from_idx: usize, to_idx: usize)
        ensures
            final(self).spec_pedals() == if from_idx != to_idx && from_idx < old(self).spec_pedals().len()
                && to_idx < old(self).spec_pedals().len() {
                old(self).spec_pedals().update(from_idx as int, old(self).spec_pedals()[to_idx as int]).update(
                    to_idx as int,
                    old(self).spec_pedals()[from_idx as int],
                )
            } else {
                old(self).spec_pedals()
            },
            final(self).spec_board_id() == old(self).spec_board_id(),
    {
        let len = self.pedals.len();
        if from_idx != to_idx && from_idx < len && to_idx < len {
            let ghost s = self.pedals@;
            let (a, b) = if from_idx < to_idx { (from_idx, to_idx) } else { (to_idx, from_idx) };
            let y = self.pedals.remove(b);
            let x = self.pedals.remove(a);
            self.pedals.insert(a, y);
            self.pedals.insert(b, x);
            proof {
                assert(self.pedals@ =~= s.update(from_idx as int, s[to_idx as int]).update(to_idx as int, s[from_idx as int]));
            }
        }
    }
}

impl<P> PedalBoard<P> {
    /// Change a setting of the pedal at `pedal_index`: that pedal becomes the
    /// pedal with the setting applied; nothing happens when there is no such
    /// pedal.  No other pedal changes.
    pub fn change_value(&mut self, pedal_index: usize, setting: &Setting)
        where P: Pedal,
        ensures
            final(self).spec_pedals().len() == old(self).spec_pedals().len(),
            final(self).spec_board_id() == old(self).spec_board_id(),
            final(self).spec_pedals() == if pedal_index < old(self).spec_pedals().len() {
                old(self).spec_pedals().update(pedal_index as int, changed(old(self).spec_pedals()[pedal_index as int], *setting))
            } else {
                old(self).spec_pedals()
            },
    {
        if pedal_index < self.pedals.len() {
            let p = self.pedal_mut(pedal_index);
            change_setting(p, setting);
        }
    }

    /// The pedal types, each with its description, in listing order.
    pub fn get_pedal_types() -> (r: Vec<(&'static str, &'static str)>)
        ensures
            r@.len() == all_pedal_kinds().len(),
            forall|i: int| 0 <= i < r@.len() ==> (#[trigger] r@[i]).0@ == all_pedal_kinds()[i].spec_name()
                && r@[i].1@ == all_pedal_kinds()[i].spec_description(),
    {
        let kinds = PedalKind::all();
        let mut v: Vec<(&'static str, &'static str)> = Vec::new();
        let mut i: usize = 0;
        while i < kinds.len()
            invariant
                kinds@ == all_pedal_kinds(),
                i <= kinds@.len(),
                v@.len() == i,
                forall|j: int| 0 <= j < i ==> (#[trigger] v@[j]).0@ == all_pedal_kinds()[j].spec_name()
                    && v@[j].1@ == all_pedal_kinds()[j].spec_description(),
            decreases kinds@.len() - i,
        {
            let k = kinds[i];
            v.push((k.name(), k.description()));
            i = i + 1;
        }
        v
    }
}

impl<P: MakePedal> PedalBoard<P> {
    /// Make a pedal of type `pedal_type` and insert it at `idx` (at the end when
    /// `idx` is past it).  Nothing happens when there is no pedal type of that
    /// name.
    pub fn insert_pedal(&mut self, pedal_type: &str, idx: usize)
        ensures
            final(self).spec_board_id() == old(self).spec_board_id(),
            final(self).spec_pedals() == match kind_of_name(pedal_type@) {
                Some(k) => old(self).spec_pedals().insert(insert_position(idx, old(self).spec_pedals().len()), P::made(k)),
                None => old(self).spec_pedals(),
            },
    {
        match PedalKind::from_name(pedal_type) {
            Some(k) => {
                let p = P::make(k);
                let ghost s = self.pedals@;
                if idx > self.pedals.len() {
                    self.pedals.push(p);
                } else {
                    self.pedals.insert(idx, p);
                }
                proof {
                    let pos = insert_position(idx, s.len());
                    assert(self.pedals@ =~= s.insert(pos, P::made(k)));
                }
            },
            None => {},
        }
    }

    /// Build the board from a saved description: every pedal is taken off,
    /// the id is taken from the description when it has one, and a pedal is
    /// made for each configuration that names a pedal type, in order, with
    /// its settings applied in order.  A board whose description could not
    /// be read (`None`) is left empty.
    pub fn load_from_config(&mut self, config: Option<&BoardConfig>)
        where P: Pedal,
        ensures
            match config {
                Some(c) => {
                    &&& final(self).spec_pedals() == configured_pedals::<P>(config_view(c.pedals@))
                    &&& final(self).spec_board_id() == match c.id {
                        Some(id) => id,
                        None => old(self).spec_board_id(),
                    }
                },
                None => final(self).spec_pedals() == Seq::<P>::empty() && final(self).spec_board_id() == old(self).spec_board_id(),
            },
    {
        self.pedals.clear();
        if let Some(c) = config {
            if let Some(id) = c.id {
                self.board_id = id;
            }
            let ghost v = config_view(c.pedals@);
            let n = c.pedals.len();
            let mut i: usize = 0;
            while i < n
                invariant
                    n == c.pedals@.len(),
                    v == config_view(c.pedals@),
                    i <= n,
                    self.pedals@ == configured_pedals::<P>(v.take(i as int)),
                    self.board_id == match c.id {
                        Some(id) => id,
                        None => old(self).spec_board_id(),
                    },
                decreases n - i,
            {
                let pc = &c.pedals[i];
                let ghost e = v[i as int];
                proof {
                    assert(e == (name_chars(pc.name), pc.settings@));
                    assert(v.take(i + 1) =~= v.take(i as int).push(e));
                    v.take(i as int).lemma_filter_push(e, names_pedal_kind());
                }
                let ghost prev = v.take(i as int).filter(names_pedal_kind());
                match &pc.name {
                    Some(name) => match PedalKind::from_name(name.as_str()) {
                        Some(k) => {
                            let mut p = P::make(k);
                            let m = pc.settings.len();
                            let mut j: usize = 0;
                            while j < m
                                invariant
                                    m == pc.settings@.len(),
                                    j <= m,
                                    p == with_settings(P::made(k), pc.settings@.take(j as int)),
                                decreases m - j,
                            {
                                proof {
                                    assert(pc.settings@.take(j + 1).drop_last() =~= pc.settings@.take(j as int));
                                }
                                change_setting(&mut p, &pc.settings[j]);
                                j = j + 1;
                            }
                            proof {
                                assert(pc.settings@.take(m as int) =~= pc.settings@);
                                let f = |q: (Option<Seq<char>>, Seq<Setting>)| configured_pedal::<P>(q);
                                assert(prev.push(e).map_values(f) =~= prev.map_values(f).push(f(e)));
                            }
                            self.pedals.push(p);
                        },
                        None => {},
                    },
                    None => {},
                }
                proof {
                    assert(self.pedals@ =~= configured_pedals::<P>(v.take(i + 1)));
                }
                i = i + 1;
            }
            proof {
                assert(v.take(n as int) =~= v);
            }
        }
    }

    /// Build the board from its saved description in JSON: an object with the
    /// board's `id` and a `config` array of pedals, each with a `name` and a
    /// `settings` array of setting changes (each an object with a `name` and a
    /// `value`).  Every pedal is taken off; the id is taken when there is one;
    /// a pedal is made for each configuration that names a pedal type, in
    /// order, with its setting changes applied in order.  Text that is not
    /// JSON leaves the board empty.
    pub fn load_from_json(&mut self, raw: &str)
        where P: Pedal,
        ensures
            match json_board(raw@, "id"@, "config"@, "name"@, "settings"@) {
                None => final(self).spec_pedals() == Seq::<P>::empty() && final(self).spec_board_id() == old(self).spec_board_id(),
                Some((id, pedals)) => {
                    &&& final(self).spec_board_id() == match id {
                        Some(i) => i,
                        None => old(self).spec_board_id(),
                    }
                    &&& final(self).spec_pedals() == configured_pedals::<P>(board_settings(pedals))
                },
            },
    {
        match read_board_texts(raw, "id", "config", "name", "settings") {
            Some((id, texts)) => {
                let config = BoardConfig { id, pedals: configs_from_texts(&texts) };
                self.load_from_config(Some(&config));
            },
            None => self.load_from_config(None),
        }
    }

    /// Put a new tone stack at the end of the chain.
    pub fn add_tone_stack(&mut self)
        ensures
            final(self).spec_pedals() == old(self).spec_pedals().push(P::made(PedalKind::ToneStack)),
            final(self).spec_board_id() == old(self).spec_board_id(),
    {
        self.pedals.push(P::make(PedalKind::ToneStack));
    }
}

/// Deleting a pedal just inserted undoes the insertion.
pub proof fn lemma_insert_then_delete<P>(s: Seq<P>, pos: int, p: P)
    requires
        0 <= pos <= s.len(),
    ensures
        s.insert(pos, p).remove(pos) == s,
{
    assert(s.insert(pos, p).remove(pos) =~= s);
}

/// Moving a pedal back undoes the move, and a move keeps the board's pedals.
pub proof fn lemma_move_back<P>(s: Seq<P>, from: int, to: int)
    requires
        0 <= from < s.len(),
        0 <= to < s.len(),
    ensures
        ({
            let t = s.update(from, s[to]).update(to, s[from]);
            &&& t.update(from, t[to]).update(to, t[from]) == s
            &&& t.len() == s.len()
            &&& t.to_multiset() == s.to_multiset()
        }),
{
    let u = s.update(from, s[to]);
    let t = u.update(to, s[from]);
    assert(t.update(from, t[to]).update(to, t[from]) =~= s);
    vstd::seq_lib::to_multiset_update(s, from, s[to]);
    vstd::seq_lib::to_multiset_update(u, to, s[from]);
    assert(u[to] == s[to]);
    broadcast use vstd::multiset::group_multiset_axioms;
    s.to_multiset_ensures();
    u.to_multiset_ensures();
    assert(s.contains(s[from]));
    assert(u.contains(u[to]));
    assert forall|x: P| #[trigger] t.to_multiset().count(x) == s.to_multiset().count(x) by {
        assert(s.to_multiset().count(s[from]) > 0);
        assert(u.to_multiset().count(u[to]) > 0);
    }
    assert(t.to_multiset() =~= s.to_multiset());
}

} // verus!
