use rtjam_rust::json_fields::{FloatValue, JsonScalar, MessageError, MessageFields};
use rtjam_rust::server::audio_thread::{apply_room_command, broadcast_targets, loop_time, room_step, PacketIn};
use rtjam_rust::server::cmd_message::{RoomCommandMessage, RoomParam};
use rtjam_rust::server::metronome::Metronome;
use rtjam_rust::server::player_list::{PeerAddr, Player, PlayerList, MAX_LOOP_TIME, SERVER_EXPIRATION_IN_MICROSECONDS};
use std::time::{SystemTime, UNIX_EPOCH};

fn get_micro_time() -> u128 {
    SystemTime::now().duration_since(UNIX_EPOCH).unwrap().as_micros()
}

fn addr(a: u8, b: u8, c: u8, d: u8, port: u16) -> PeerAddr {
    PeerAddr::V4 { ip: u32::from_be_bytes([a, b, c, d]), port }
}

fn float_of(v: &FloatValue) -> f64 {
    match v {
        FloatValue::Zero => 0.0,
        FloatValue::Int(i) => *i as f64,
        FloatValue::Number(t) => t.parse().unwrap(),
        FloatValue::Text(t) => t.parse().unwrap(),
    }
}

fn num(i: i64) -> JsonScalar {
    JsonScalar::Number { int: Some(i), is_float: false, text: i.to_string() }
}

fn float(t: &str) -> JsonScalar {
    JsonScalar::Number { int: None, is_float: true, text: t.to_string() }
}

fn text(t: &str) -> JsonScalar {
    JsonScalar::Text(t.to_string())
}

// ---- metronome

#[test]
fn test_beat() {
    let now = 2_000_000;
    let mut met = Metronome::new();
    met.set_tempo(120);
    assert_eq!(met.get_beat_interval(), 1_000_000 / 2); // 120BPM = 500_000 microseconds
    assert_eq!(met.get_beat(now), 0);
    assert_eq!(met.get_beat(now + 499_999), 0);
    assert_eq!(met.get_beat(now + 500_001), 1);
    assert_eq!(met.get_beat(now + 500_001), 1);
    assert_eq!(met.get_beat(now + 1_000_001), 2);
    assert_eq!(met.get_beat(now + 1_000_001), 2);
    assert_eq!(met.get_beat(now + 1_500_001), 3);
    assert_eq!(met.get_beat(now + 2_000_001), 0);
    assert_eq!(met.get_beat(now + 2_500_001), 1);
}

#[test]
fn metronome_defaults_and_zero_tempo() {
    let mut met = Metronome::new();
    assert_eq!(met.get_tempo(), 120);
    assert_eq!(met.get_beat_interval(), 500_000);
    met.set_tempo(0);
    assert_eq!(met.get_tempo(), 120);
    assert_eq!(met.get_beat_interval(), 500_000);
    met.set_tempo(60);
    assert_eq!(met.get_tempo(), 60);
    assert_eq!(met.get_beat_interval(), 1_000_000);
}

#[test]
fn metronome_beat_cycles_every_bar() {
    let mut met = Metronome::new();
    met.set_tempo(90);
    let d = met.get_beat_interval();
    for t in [0u128, 12_345, 987_654_321] {
        let b = met.get_beat(t);
        assert_eq!(met.get_beat(t + 4 * d), b);
        assert_eq!(met.get_beat(t + d), (b + 1) % 4);
    }
}

// ---- room commands

#[test]
fn cmd_message_can_json() {
    let msg = RoomCommandMessage::new(RoomParam::GetTempo, 21, FloatValue::Number("3.0".to_string()), "bob");
    assert!(msg.ivalue_1 == 21);
    assert_eq!(msg.svalue, "bob");
}

#[test]
fn cmd_message_from_json_string_1() {
    let data = r#"
        {
            "param": 0,
            "iValue1": 1,
            "fValue": 2.0,
            "sValue": "John Doe"
        }"#;
    let msg = RoomCommandMessage::from_string(data).unwrap();
    assert_eq!(float_of(&msg.fvalue), 2.0);
    assert_eq!(msg.param, RoomParam::GetTempo);
    assert_eq!(msg.ivalue_1, 1);
    assert_eq!(msg.svalue, "John Doe");
}

#[test]
fn cmd_message_from_json_string_2() {
    let raw = MessageFields { param: num(3), ivalue_1: text("1"), ivalue_2: JsonScalar::Other, fvalue: float("2.0"), svalue: text("John Doe") };
    let msg = RoomCommandMessage::from_json(&raw).unwrap();
    assert_eq!(msg.param, RoomParam::Pause);
    assert_eq!(msg.ivalue_1, 1);
}

#[test]
fn room_param_numbers_round_trip() {
    for v in 0..10 {
        let p = RoomParam::from_i64(v).unwrap();
        assert_eq!(p.to_i64(), v);
    }
    assert!(RoomParam::from_i64(10).is_none());
    assert!(RoomParam::from_i64(-1).is_none());
    assert_eq!(RoomParam::UploadRecording.to_i64(), 9);
}

#[test]
fn cmd_message_errors() {
    assert_eq!(RoomCommandMessage::from_string("{ not json").err(), Some(MessageError::BadJson));
    assert_eq!(RoomCommandMessage::from_string(r#"{"iValue1": 3}"#).err(), Some(MessageError::NoParam));
    assert_eq!(RoomCommandMessage::from_string(r#"{"param": 42}"#).err(), Some(MessageError::UnknownParam));
    assert_eq!(RoomCommandMessage::from_string(r#"{"param": "x1"}"#).err(), Some(MessageError::BadInteger));
    assert_eq!(RoomCommandMessage::from_string(r#"{"param": 1, "iValue1": "7a"}"#).err(), Some(MessageError::BadInteger));
    assert_eq!(RoomCommandMessage::from_string(r#"{"param": 1.5}"#).err(), Some(MessageError::NoParam));
    assert_eq!(RoomCommandMessage::from_string(r#"{"param": 1, "fValue": "1.2x"}"#).err(), Some(MessageError::BadFloat));
}

#[test]
fn cmd_message_text_param_and_defaults() {
    let msg = RoomCommandMessage::from_string(r#"{"param": "+1"}"#).unwrap();
    assert_eq!(msg.param, RoomParam::SetTempo);
    assert_eq!(msg.ivalue_1, 0);
    assert!(matches!(msg.fvalue, FloatValue::Zero));
    assert_eq!(msg.svalue, "");
    let msg = RoomCommandMessage::from_string(r#"{"param": 1, "iValue1": "-120", "fValue": "2.5"}"#).unwrap();
    assert_eq!(msg.ivalue_1, -120);
    assert_eq!(float_of(&msg.fvalue), 2.5);
}

// ---- players

#[test]
fn build_player() {
    let socket = addr(127, 0, 0, 1, 8080);
    let player = Player::new(get_micro_time(), 44, socket);
    assert_eq!(player.address, socket);
}

#[test]
fn player_list_build() {
    // you should be able to build a PlayerList
    let plist = PlayerList::new();
    assert_eq!(plist.players.len(), 0);
}

#[test]
fn is_allowed() {
    let plist = PlayerList::new();
    assert_eq!(plist.is_allowed(44455), true);
}

#[test]
fn update_player() {
    // functions to add/update players to the list
    let mut plist = PlayerList::new();
    let now_time = get_micro_time();
    let loop_time = now_time - 2400;
    let id = 55533;
    let a = addr(182, 1, 1, 1, 33345);
    // Add a new player to an empty list
    plist.update_player(now_time, loop_time, id, a);
    assert_eq!(plist.get_players().len(), 1);
    // this will update a player if we have seen them before
    plist.update_player(now_time + 100, loop_time, id, a);
    assert_eq!(plist.get_players().len(), 1);
    // This will add another player
    let a = addr(192, 1, 1, 1, 33345);
    plist.update_player(now_time, loop_time, id, a);
    assert_eq!(plist.get_players().len(), 2);
}

#[test]
fn prune() {
    // This function will age out a player when they get too old
    let mut plist = PlayerList::new();
    let now_time = get_micro_time();
    let id = 55533;
    let a = addr(182, 1, 1, 1, 33345);
    plist.update_player(now_time, now_time, id, a);
    assert_eq!(plist.get_players().len(), 1);
    plist.prune(now_time + SERVER_EXPIRATION_IN_MICROSECONDS + 1);
    assert_eq!(plist.get_players().len(), 0);
}

#[test]
fn player_update_records_time_and_loop() {
    let mut plist = PlayerList::new();
    let a = addr(10, 0, 0, 1, 5000);
    plist.update_player(1_000, 5_000, 7, a);
    assert_eq!(plist.get_players()[0].loop_time, None);
    // a newer packet refreshes the id, the time and the loop time
    plist.update_player(2_000, 2_400, 8, a);
    let p = plist.get_players()[0];
    assert_eq!((p.client_id, p.keep_alive, p.loop_time), (8, 2_000, Some(2_400)));
    // a loop time of 100 ms or more is not counted
    plist.update_player(3_000, MAX_LOOP_TIME, 8, a);
    assert_eq!(plist.get_players()[0].loop_time, Some(2_400));
    // an older packet changes nothing
    plist.update_player(2_500, 10, 9, a);
    let p = plist.get_players()[0];
    assert_eq!((p.client_id, p.keep_alive, p.loop_time), (8, 3_000, Some(2_400)));
    assert_eq!(p.age(3_500), 500);
}

#[test]
fn prune_keeps_current_players_in_order() {
    let mut plist = PlayerList::new();
    plist.update_player(1_000_000, 0, 1, addr(10, 0, 0, 1, 1));
    plist.update_player(1_400_000, 0, 2, addr(10, 0, 0, 2, 1));
    plist.update_player(1_200_000, 0, 3, addr(10, 0, 0, 3, 1));
    plist.prune(1_600_000);
    let ids: Vec<u32> = plist.get_players().iter().map(|p| p.client_id).collect();
    assert_eq!(ids, vec![2, 3]);
    // exactly at the expiration time a player is gone
    plist.prune(1_700_000);
    let ids: Vec<u32> = plist.get_players().iter().map(|p| p.client_id).collect();
    assert_eq!(ids, vec![2]);
}

#[test]
fn broadcast_does_not_echo() {
    let players = vec![
        Player::new(0, 1, addr(10, 0, 0, 1, 1)),
        Player::new(0, 2, addr(10, 0, 0, 2, 1)),
        Player::new(0, 3, addr(10, 0, 0, 3, 1)),
    ];
    let sends = broadcast_targets(&players, addr(10, 0, 0, 2, 1));
    let plan: Vec<bool> = sends.iter().map(|f| f.whole_packet).collect();
    assert_eq!(plan, vec![true, false, true]);
    assert_eq!(sends[1].address, addr(10, 0, 0, 2, 1));
}

#[test]
fn packet_loop_time() {
    assert_eq!(loop_time(10_000, 7_600), 2_400);
    assert_eq!(loop_time(10_000, 10_000), MAX_LOOP_TIME);
    assert_eq!(loop_time(10_000, 12_000), MAX_LOOP_TIME);
}

#[test]
fn room_tempo_command() {
    let mut met = Metronome::new();
    let msg = RoomCommandMessage::new(RoomParam::SetTempo, 60, FloatValue::Zero, "");
    assert!(apply_room_command(&mut met, &msg));
    assert_eq!(met.get_tempo(), 60);
    let msg = RoomCommandMessage::new(RoomParam::Play, 90, FloatValue::Zero, "");
    assert!(!apply_room_command(&mut met, &msg));
    assert_eq!(met.get_tempo(), 60);
}

#[test]
fn metronome_tempo_is_last_positive_set() {
    let mut met = Metronome::new();
    for t in [90, 0, 140, 0, 0] {
        met.set_tempo(t);
        met.get_beat(1_234_567);
    }
    assert_eq!(met.get_tempo(), 140);
    assert_eq!(met.get_beat_interval(), 60_000_000 / 140);
}

#[test]
fn room_step_prunes_updates_and_forwards() {
    let mut players = PlayerList::new();
    let mut met = Metronome::new();
    let a = addr(10, 0, 0, 1, 7000);
    let b = addr(10, 0, 0, 2, 7000);
    let c = addr(10, 0, 0, 3, 7000);
    players.update_player(1_000, 0, 1, a);
    players.update_player(1_000_000, 0, 2, b);
    // a is silent for too long and leaves; c joins with a packet
    let now = 1_200_000;
    let step = room_step(&mut players, &mut met, now, Some(PacketIn { client_id: 3, server_time: now - 2_000, src: c })).unwrap();
    let addrs: Vec<PeerAddr> = players.get_players().iter().map(|p| p.address).collect();
    assert_eq!(addrs, vec![b, c]);
    assert_eq!(step.beat, ((now / 500_000) % 4) as u8);
    let plan: Vec<(PeerAddr, bool)> = step.forwards.iter().map(|f| (f.address, f.whole_packet)).collect();
    assert_eq!(plan, vec![(b, true), (c, false)]);
    // c's next packet records its loop time
    let step = room_step(&mut players, &mut met, now + 10, Some(PacketIn { client_id: 3, server_time: now + 4, src: c })).unwrap();
    assert_eq!(players.get_players()[1].loop_time, Some(6));
    assert_eq!(step.forwards.len(), 2);
    // no packet: only pruning
    assert!(room_step(&mut players, &mut met, now + 20, None).is_none());
    assert_eq!(players.get_players().len(), 2);
}
