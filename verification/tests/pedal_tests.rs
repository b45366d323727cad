use rtjam_rust::pedals::controls::SettingUnit;
use rtjam_rust::pedals::delay_base::DelayMode;
use rtjam_rust::pedals::distortion_base::HpfMode;
use rtjam_rust::pedals::guitar_envelope::EnvelopeMode;
use rtjam_rust::pedals::midi_event::MidiEvent;
use rtjam_rust::json_fields::JsonScalar;
use rtjam_rust::pedals::pedal::{change_setting, read_setting, setting_change, Pedal, Setting, SettingChange};
use rtjam_rust::pedals::pedal_board::{BoardConfig, MakePedal, PedalBoard, PedalConfig, PedalKind};
use rtjam_rust::pedals::room_simulator::SurfaceType;

#[derive(Debug, PartialEq, Clone, Copy)]
struct TestPedal(PedalKind);

impl MakePedal for TestPedal {
    fn made(kind: PedalKind) -> Self {
        TestPedal(kind)
    }

    fn make(kind: PedalKind) -> Self {
        Self::made(kind)
    }
}

fn kinds(board: &PedalBoard<TestPedal>) -> Vec<PedalKind> {
    board.pedals().iter().map(|p| p.0).collect()
}

#[test]
fn get_types() {
    let types = PedalBoard::<TestPedal>::get_pedal_types();
    let tone = types.iter().find(|(name, _)| *name == "Tone Stack").unwrap();
    assert_eq!(tone.1, "Tone controls (3 band)");
    assert_eq!(types.len(), 13);
}

#[test]
fn can_add_one() {
    let mut board: PedalBoard<TestPedal> = PedalBoard::new();
    assert_eq!(board.num_pedals(), 0);
    board.insert_pedal("Tone Stack", 0);
    assert_eq!(board.num_pedals(), 1);
    board.insert_pedal("BogusPedalThatCannotBeMade", 0);
    assert_eq!(board.num_pedals(), 1);
}

#[test]
fn can_delete_one() {
    let mut board: PedalBoard<TestPedal> = PedalBoard::new();
    board.insert_pedal("Tone Stack", 0);
    assert_eq!(board.num_pedals(), 1);
    board.delete_pedal(0);
    assert_eq!(board.num_pedals(), 0);
}

#[test]
fn can_build_muliple() {
    let mut board: PedalBoard<TestPedal> = PedalBoard::new();
    board.insert_pedal("Tone Stack", 0);
    board.insert_pedal("Noise Gate", 0);
    assert_eq!(board.num_pedals(), 2);
    assert_eq!(kinds(&board), vec![PedalKind::NoiseGate, PedalKind::ToneStack]);
}

#[test]
fn board_insert_delete_move() {
    let mut board: PedalBoard<TestPedal> = PedalBoard::new();
    assert_eq!(board.get_board_id(), -1);
    board.insert_pedal("Delay", 5); // past the end: appended
    board.insert_pedal("Chorus", 0);
    board.insert_pedal("Tremelo", 1);
    assert_eq!(kinds(&board), vec![PedalKind::Chorus, PedalKind::Tremelo, PedalKind::Delay]);
    board.move_pedal(0, 2);
    assert_eq!(kinds(&board), vec![PedalKind::Delay, PedalKind::Tremelo, PedalKind::Chorus]);
    board.move_pedal(0, 2);
    assert_eq!(kinds(&board), vec![PedalKind::Chorus, PedalKind::Tremelo, PedalKind::Delay]);
    board.move_pedal(0, 3); // out of range: nothing happens
    board.move_pedal(1, 1);
    assert_eq!(kinds(&board), vec![PedalKind::Chorus, PedalKind::Tremelo, PedalKind::Delay]);
    board.insert_pedal("Guitar Envelope", 1);
    board.delete_pedal(1);
    assert_eq!(kinds(&board), vec![PedalKind::Chorus, PedalKind::Tremelo, PedalKind::Delay]);
    board.delete_pedal(7);
    assert_eq!(board.num_pedals(), 3);
    board.add_tone_stack();
    assert_eq!(kinds(&board)[3], PedalKind::ToneStack);
    *board.pedal_mut(0) = TestPedal(PedalKind::Compressor);
    assert_eq!(kinds(&board)[0], PedalKind::Compressor);
    board.set_board_id(12);
    board.clear();
    assert_eq!((board.num_pedals(), board.get_board_id()), (0, 12));
}

#[test]
fn pedal_names() {
    for k in PedalKind::all() {
        assert_eq!(PedalKind::from_name(k.name()), Some(k));
    }
    assert_eq!(PedalKind::from_name("tone stack"), None);
    assert_eq!(PedalKind::GuitarEnvelope.description(), "Guitar Envelope Filter Pedal (auto-wah)");
}

#[test]
fn surface_labels() {
    assert_eq!(SurfaceType::labels(), vec!["Hard", "Firm", "Soft", "Mush"]);
    assert_eq!(SurfaceType::from_i64(3), Some(SurfaceType::Mush));
    assert_eq!(SurfaceType::from_i64(4), None);
    assert_eq!(SurfaceType::Soft.to_i64(), 2);
}

#[test]
fn setting_enums() {
    assert_eq!(SettingUnit::Footswitch.to_i64(), 4);
    assert_eq!(SettingUnit::from_i64(1), Some(SettingUnit::DB));
    assert_eq!(DelayMode::from_i64(2), Some(DelayMode::HighPass));
    assert_eq!(DelayMode::from_i64(3), None);
    assert_eq!(HpfMode::High.to_i64(), 1);
    assert_eq!(EnvelopeMode::from_i64(1), Some(EnvelopeMode::BPF));
    assert_eq!(EnvelopeMode::from_i64(-1), None);
}

#[test]
fn pedal_midi_events() {
    assert_eq!(MidiEvent::new(&[192, 12]), MidiEvent { e_type: 4, channel: 0, note: 12, velocity: 0 });
    assert_eq!(MidiEvent::new(&[176, 7, 90]), MidiEvent { e_type: 3, channel: 0, note: 7, velocity: 90 });
    assert_eq!(MidiEvent::new(&[144, 60, 90]), MidiEvent { e_type: 8, channel: 0, note: 0, velocity: 0 });
}

/// A pedal that records what was done to it.
#[derive(Debug, PartialEq, Clone)]
struct KnobPedal {
    kind: PedalKind,
    bypassed: bool,
    knobs: Vec<(String, JsonScalar)>,
    reloads: usize,
}

impl MakePedal for KnobPedal {
    fn made(kind: PedalKind) -> Self {
        KnobPedal { kind, bypassed: false, knobs: vec![], reloads: 0 }
    }

    fn make(kind: PedalKind) -> Self {
        Self::made(kind)
    }
}

impl Pedal for KnobPedal {
    fn bypassed(&self) -> bool {
        self.bypassed
    }

    fn with_bypass(&self, b: bool) -> Self {
        KnobPedal { bypassed: b, ..self.clone() }
    }

    fn with_value(&self, name: &String, value: &JsonScalar) -> Self {
        let mut p = self.clone();
        p.knobs.push((name.clone(), value.clone()));
        p
    }

    fn reloaded(&self) -> Self {
        KnobPedal { reloads: self.reloads + 1, ..self.clone() }
    }

    fn bypass(&self) -> bool {
        self.bypassed
    }

    fn set_my_bypass(&mut self, val: bool) {
        *self = self.with_bypass(val);
    }

    fn do_change_a_value(&mut self, name: &String, value: &JsonScalar) {
        *self = self.with_value(name, value);
    }

    fn load_from_settings(&mut self) {
        *self = self.reloaded();
    }
}

fn setting(name: &str, value: JsonScalar) -> Setting {
    Setting { name: Some(String::from(name)), value }
}

fn whole(i: i64) -> JsonScalar {
    JsonScalar::Number { int: Some(i), is_float: false, text: i.to_string() }
}

#[test]
fn board_change_value() {
    let mut board: PedalBoard<KnobPedal> = PedalBoard::new();
    board.insert_pedal("Delay", 0);
    board.insert_pedal("Chorus", 1);
    board.change_value(1, &setting("rate", whole(7)));
    board.change_value(1, &setting("bypass", JsonScalar::Bool(true)));
    board.change_value(2, &setting("rate", whole(5))); // no such pedal: nothing happens
    assert_eq!(board.pedals()[0], KnobPedal::made(PedalKind::Delay));
    let chorus = &board.pedals()[1];
    assert_eq!(chorus.knobs, vec![(String::from("rate"), whole(7))]);
    assert_eq!(chorus.reloads, 1);
    assert!(chorus.bypass());
    assert_eq!(board.num_pedals(), 2);
}

#[test]
fn board_load_from_json() {
    let mut board: PedalBoard<KnobPedal> = PedalBoard::new();
    board.insert_pedal("Tremelo", 0);
    board.load_from_json(
        r#"{"id": 7, "config": [
            {"name": "Delay", "settings": [{"name": "time", "value": 300}, {"name": "bypass", "value": true}, {"name": "level", "value": "0.5"}]},
            {"name": "Bogus"},
            {"settings": [1]},
            {"name": "Chorus", "settings": [7, {"value": 3}]}
        ]}"#,
    );
    assert_eq!(board.get_board_id(), 7);
    let kinds: Vec<PedalKind> = board.pedals().iter().map(|p| p.kind).collect();
    assert_eq!(kinds, vec![PedalKind::Delay, PedalKind::Chorus]);
    let delay = &board.pedals()[0];
    assert_eq!(delay.knobs, vec![
        (String::from("time"), whole(300)),
        (String::from("level"), JsonScalar::Text(String::from("0.5"))),
    ]);
    assert!(delay.bypassed);
    assert_eq!(delay.reloads, 2);
    // settings that name nothing change nothing
    assert_eq!(board.pedals()[1], KnobPedal::made(PedalKind::Chorus));
    // text that is not JSON leaves an empty board and the id as it was
    board.load_from_json("{ oops");
    assert_eq!((board.num_pedals(), board.get_board_id()), (0, 7));
    // no id: the id stays
    board.load_from_json(r#"{"config": [{"name": "Compressor"}]}"#);
    assert_eq!((board.num_pedals(), board.get_board_id()), (1, 7));
}

#[test]
fn board_load_from_config_applies_settings() {
    let mut board: PedalBoard<KnobPedal> = PedalBoard::new();
    let config = BoardConfig {
        id: None,
        pedals: vec![
            PedalConfig { name: Some(String::from("Noise Gate")), settings: vec![setting("a", whole(3)), setting("b", whole(4))] },
            PedalConfig { name: None, settings: vec![setting("c", whole(9))] },
            PedalConfig { name: Some(String::from("Tone Stack")), settings: vec![] },
        ],
    };
    board.load_from_config(Some(&config));
    let gate = KnobPedal {
        kind: PedalKind::NoiseGate,
        bypassed: false,
        knobs: vec![(String::from("a"), whole(3)), (String::from("b"), whole(4))],
        reloads: 2,
    };
    assert_eq!(board.pedals().to_vec(), vec![gate, KnobPedal::made(PedalKind::ToneStack)]);
    assert_eq!(board.get_board_id(), -1);
    board.load_from_config(None);
    assert_eq!(board.num_pedals(), 0);
}

#[test]
fn pedal_setting_changes() {
    assert_eq!(setting_change(&setting("bypass", JsonScalar::Bool(true))), SettingChange::SetBypass(true));
    assert_eq!(setting_change(&setting("bypass", JsonScalar::Bool(false))), SettingChange::SetBypass(false));
    // a boolean for another setting goes to that setting
    assert_eq!(setting_change(&setting("gain", JsonScalar::Bool(false))), SettingChange::ChangeValue { name: String::from("gain") });
    assert_eq!(setting_change(&setting("bypass", whole(1))), SettingChange::ChangeValue { name: String::from("bypass") });
    assert_eq!(setting_change(&Setting { name: None, value: JsonScalar::Bool(true) }), SettingChange::Ignore);
    let mut p = KnobPedal::made(PedalKind::Delay);
    change_setting(&mut p, &setting("bypass", JsonScalar::Bool(true)));
    assert!(p.bypass());
    change_setting(&mut p, &setting("gain", JsonScalar::Bool(false)));
    assert!(p.bypass());
    assert_eq!(p.knobs, vec![(String::from("gain"), JsonScalar::Bool(false))]);
}

#[test]
fn settings_read_from_json() {
    assert_eq!(read_setting(r#"{"name": "gain", "value": -3}"#), Some(setting("gain", whole(-3))));
    assert_eq!(read_setting(r#"{"value": true}"#), Some(Setting { name: None, value: JsonScalar::Bool(true) }));
    assert_eq!(read_setting(r#"{"name": 5}"#), Some(Setting { name: None, value: JsonScalar::Other }));
    assert_eq!(read_setting("nope"), None);
}
