use rtjam_rust::json_fields::{FloatValue, JsonScalar, MessageError, MessageFields};
use rtjam_rust::sound::channel_map::{ChannelMap, EXPIRATION_IN_MICROSECONDS, EMPTY_SLOT};
use rtjam_rust::sound::click_track::{ClickCursor, ClickSlice, CLICK_SIZE};
use rtjam_rust::sound::client::{route, AudioDevice, ClientRoute};
use rtjam_rust::sound::jam_engine::{command_for, EngineCommand, IDLE_REFRESH, MIN_REFRESH};
use rtjam_rust::sound::jam_socket::{JamConnection, PacketStamp, SendError};
use rtjam_rust::sound::jitter_buffer::{JitterBuffer, MIN_DEPTH};
use rtjam_rust::float_text::is_float_text;
use rtjam_rust::sound::midi_event::MidiEvent;
use rtjam_rust::sound::param_message::{JamParam, ParamMessage};
use std::time::{SystemTime, UNIX_EPOCH};

fn get_micro_time() -> u128 {
    SystemTime::now().duration_since(UNIX_EPOCH).unwrap().as_micros()
}

fn float_of(v: &FloatValue) -> f64 {
    match v {
        FloatValue::Zero => 0.0,
        FloatValue::Int(i) => *i as f64,
        FloatValue::Number(t) => t.parse().unwrap(),
        FloatValue::Text(t) => t.parse().unwrap(),
    }
}

fn num(i: i64) -> JsonScalar {
    JsonScalar::Number { int: Some(i), is_float: false, text: i.to_string() }
}

fn float(t: &str) -> JsonScalar {
    JsonScalar::Number { int: None, is_float: true, text: t.to_string() }
}

fn text(t: &str) -> JsonScalar {
    JsonScalar::Text(t.to_string())
}

fn msg(param: JamParam, i1: i64, i2: i64, s: &str) -> ParamMessage {
    ParamMessage::new(param, i1, i2, FloatValue::Zero, s)
}

// ---- param messages

#[test]
fn param_message_can_json() {
    let msg = ParamMessage::new(JamParam::ChanGain11, 1, 2, FloatValue::Number("3.0".to_string()), "bob");
    assert!(msg.ivalue_1 == 1);
    assert_eq!(msg.ivalue_2, 2);
    assert_eq!(msg.svalue, "bob");
}

#[test]
fn param_message_from_json_string_1() {
    let data = r#"
        {
            "param": 21,
            "iValue1": 1,
            "iValue2": 100,
            "fValue": 2.0,
            "sValue": "John Doe"
        }"#;
    let msg = ParamMessage::from_string(data).unwrap();
    assert_eq!(msg.ivalue_2, 100);
    assert_eq!(msg.param, JamParam::RoomChange);
    assert_eq!(float_of(&msg.fvalue), 2.0);
}

#[test]
fn param_message_from_json_string_2() {
    let raw = MessageFields { param: num(21), ivalue_1: text("1"), ivalue_2: text("100"), fvalue: float("2.0"), svalue: text("John Doe") };
    let msg = ParamMessage::from_json(&raw).unwrap();
    assert_eq!(msg.ivalue_2, 100);
}

#[test]
fn from_json_string_3() {
    let raw = MessageFields { param: num(21), ivalue_1: text("1"), ivalue_2: text("100"), fvalue: num(2), svalue: text("John Doe") };
    let msg = ParamMessage::from_json(&raw).unwrap();
    assert_eq!(float_of(&msg.fvalue), 2.0);
}

#[test]
fn param_message_errors_in_order() {
    let raw = MessageFields { param: JsonScalar::Other, ivalue_1: text("x"), ivalue_2: JsonScalar::Other, fvalue: JsonScalar::Other, svalue: JsonScalar::Other };
    assert_eq!(ParamMessage::from_json(&raw).err(), Some(MessageError::NoParam));
    let raw = MessageFields { param: num(5000), ivalue_1: text("x"), ivalue_2: JsonScalar::Other, fvalue: JsonScalar::Other, svalue: JsonScalar::Other };
    assert_eq!(ParamMessage::from_json(&raw).err(), Some(MessageError::UnknownParam));
    let raw = MessageFields { param: text("22"), ivalue_1: text(" 1"), ivalue_2: text("1"), fvalue: JsonScalar::Other, svalue: JsonScalar::Other };
    assert_eq!(ParamMessage::from_json(&raw).err(), Some(MessageError::BadInteger));
    let raw = MessageFields { param: text("22"), ivalue_1: num(1), ivalue_2: text("99999999999999999999"), fvalue: JsonScalar::Other, svalue: JsonScalar::Other };
    assert_eq!(ParamMessage::from_json(&raw).err(), Some(MessageError::BadInteger));
    assert_eq!(ParamMessage::from_string("[1, 2").err(), Some(MessageError::BadJson));
}

#[test]
fn param_message_text_values() {
    let m = ParamMessage::from_string(r#"{"param": "9999", "iValue1": "-5", "iValue2": 7, "fValue": "-2.5e1", "sValue": 12}"#).unwrap();
    assert_eq!(m.param, JamParam::ShutdownDevice);
    assert_eq!((m.ivalue_1, m.ivalue_2), (-5, 7));
    assert_eq!(float_of(&m.fvalue), -25.0);
    assert_eq!(m.svalue, "");
    // a string under fValue that is no number is refused
    let r = ParamMessage::from_string(r#"{"param": "9999", "fValue": "abc"}"#);
    assert_eq!(r.err(), Some(MessageError::BadFloat));
    // an integer error comes before a float error
    let r = ParamMessage::from_string(r#"{"param": 1, "iValue2": "q", "fValue": "abc"}"#);
    assert_eq!(r.err(), Some(MessageError::BadInteger));
    // a whole number too large for an i64 leaves the float value at zero
    let m = ParamMessage::from_string(r#"{"param": 1, "fValue": 18446744073709551615}"#).unwrap();
    assert!(matches!(m.fvalue, FloatValue::Zero));
}

#[test]
fn jam_param_numbers() {
    assert_eq!(JamParam::ChanGain1.to_i64(), 0);
    assert_eq!(JamParam::Count.to_i64(), 41);
    assert_eq!(JamParam::SetAudioInput.to_i64(), 1000);
    assert_eq!(JamParam::SetUpdateInterval.to_i64(), 1006);
    assert_eq!(JamParam::RebootDevice.to_i64(), 9998);
    assert_eq!(JamParam::StopAudio.to_i64(), 10000);
    assert_eq!(JamParam::from_i64(21), Some(JamParam::RoomChange));
    assert_eq!(JamParam::from_i64(42), None);
    assert_eq!(JamParam::from_i64(1007), None);
    for v in (0..42).chain(1000..1007).chain(9998..10001) {
        assert_eq!(JamParam::from_i64(v).unwrap().to_i64(), v);
    }
}

// ---- channel map

#[test]
fn find_a_slot() {
    let mut map = ChannelMap::new();
    let now = get_micro_time();
    let val = map.get_loc_channel(1234, now, 1).unwrap();
    assert_eq!(val, 2);
    let val_2 = map.get_loc_channel(4444, now, 1).unwrap();
    assert_eq!(val_2, 4);
    map.prune(now + EXPIRATION_IN_MICROSECONDS + 1);
    assert!(map.get_clients().iter().all(|c| c.is_empty()));
}

#[test]
fn channel_map_keeps_and_fills_slots() {
    let mut map = ChannelMap::new();
    assert_eq!(map.get_loc_channel(10, 100, 1), Some(2));
    assert_eq!(map.get_loc_channel(11, 100, 1), Some(4));
    assert_eq!(map.get_loc_channel(10, 200, 2), Some(2));
    let c = map.get_clients()[0];
    assert_eq!((c.client_id, c.keep_alive, c.last_seq), (10, 200, 2));
    // fill the room
    for id in 12..20 {
        assert!(map.get_loc_channel(id, 300, 1).is_some());
    }
    assert_eq!(map.get_loc_channel(21, 300, 1), Some(22));
    assert_eq!(map.get_loc_channel(99, 300, 1), None);
    // a member that went quiet frees its slot, which the next newcomer gets
    map.prune(200 + EXPIRATION_IN_MICROSECONDS + 1);
    assert_eq!(map.get_clients()[1].client_id, EMPTY_SLOT);
    assert_eq!(map.get_loc_channel(99, 2_000_000, 1), Some(2));
    map.clear();
    assert!(map.get_clients().iter().all(|c| c.client_id == EMPTY_SLOT));
}

// ---- jitter buffer

#[test]
fn jitter_buffer_build() {
    let buf: JitterBuffer<f32> = JitterBuffer::new();
    assert_eq!(buf.length(), 0);
}

#[test]
fn put() {
    let mut buf: JitterBuffer<f32> = JitterBuffer::new();
    let samples: Vec<f32> = vec![0.2, 0.3, 0.4];
    buf.append(&samples);
    assert_eq!(buf.length(), 3);
}

#[test]
fn get_normal() {
    let mut buf: JitterBuffer<f32> = JitterBuffer::new();
    let samples: Vec<f32> = vec![0.2; MIN_DEPTH];
    assert!(buf.is_filling());
    buf.append(&samples);
    assert_eq!(buf.length(), MIN_DEPTH);
    let res = buf.get(2, 0, 0.0);
    assert_eq!(res.samples.len(), 2);
}

#[test]
fn get_from_empty() {
    let mut buf: JitterBuffer<f32> = JitterBuffer::new();
    let res = buf.get(4, 0, 0.0);
    assert_eq!(res.samples.len(), 4);
    assert_eq!(res.samples, vec![0.0; 4]);
    assert!(buf.is_filling());
}

#[test]
fn jitter_buffer_order_and_underrun() {
    let mut buf: JitterBuffer<i32> = JitterBuffer::new();
    let data: Vec<i32> = (0..400).collect();
    buf.append(&data);
    // 400 samples reach the starting depth (512 - 128 = 384)
    let d = buf.get(3, 0, -1);
    assert_eq!(d.samples, vec![0, 1, 2]);
    assert_eq!(d.depth, Some(400));
    assert!(!buf.is_filling());
    let d = buf.get(396, 0, -1);
    assert_eq!(d.samples[0], 3);
    assert_eq!(d.samples[394], 397);
    assert_eq!(buf.length(), 1);
    // underrun: what is left, then silence
    let d = buf.get(4, 0, -1);
    assert_eq!(d.samples, vec![399, -1, -1, -1]);
    assert_eq!(buf.get_underruns(), 1);
    assert!(buf.is_filling());
    assert_eq!(buf.get_overruns(), 0);
    // while filling: silence, no depth, and a deeper target
    let d = buf.get(2, 1000, -1);
    assert_eq!(d.samples, vec![-1, -1]);
    assert_eq!(d.depth, None);
    assert_eq!(buf.get_target_depth(), MIN_DEPTH + 1000);
}

// ---- connection

#[test]
fn connecting() {
    let mut sock = JamConnection::new();
    assert!(!sock.is_connected());
    sock.connect("10.0.0.9", 48481, 3949384);
    assert!(sock.is_connected());
    sock.disconnect();
    assert!(!sock.is_connected());
}

#[test]
fn connection_stamps_packets() {
    let mut c = JamConnection::new();
    assert_eq!(c.next_stamp(), Err(SendError::NotConnected));
    c.connect("10.0.0.9", 48481, 3949384);
    assert_eq!(c.server(), ("10.0.0.9", 48481));
    assert_eq!(c.next_stamp(), Ok(PacketStamp { sample_rate: 0, client_id: 3949384, sequence_num: 0 }));
    assert_eq!(c.next_stamp().unwrap().sequence_num, 1);
    c.disconnect();
    c.connect("h", 1, -1);
    assert_eq!(c.next_stamp(), Ok(PacketStamp { sample_rate: 0, client_id: u32::MAX, sequence_num: 0 }));
}

// ---- engine decisions

#[test]
fn engine_channel_commands() {
    assert!(matches!(command_for(&msg(JamParam::ChanGain5, 0, 0, ""), 2), EngineCommand::SetChannelGain { channel: 4 }));
    assert!(matches!(command_for(&msg(JamParam::SetFader, 23, 0, ""), 2), EngineCommand::SetChannelFade { channel: 23 }));
    assert!(matches!(command_for(&msg(JamParam::SetFader, 24, 0, ""), 2), EngineCommand::Ignore));
    assert!(matches!(command_for(&msg(JamParam::SetFader, -1, 0, ""), 2), EngineCommand::Ignore));
}

#[test]
fn engine_board_commands() {
    match command_for(&msg(JamParam::InsertPedal, 1, 3, "Delay"), 2) {
        EngineCommand::InsertPedal { board, name, index } => {
            assert_eq!((board, name.as_str(), index), (Some(1), "Delay", 3));
        }
        _ => panic!("wrong command"),
    }
    assert!(matches!(command_for(&msg(JamParam::DeletePedal, 2, 0, ""), 2), EngineCommand::DeletePedal { board: None, index: 0 }));
    assert!(matches!(command_for(&msg(JamParam::SetEffectConfig, 5, 0, "{}"), 2), EngineCommand::Ignore));
    assert!(matches!(command_for(&msg(JamParam::SetEffectConfig, 1, 0, "{not json"), 2), EngineCommand::Ignore));
    match command_for(&msg(JamParam::SetEffectConfig, 1, 3, r#"{"name": "gain", "value": 2}"#), 2) {
        EngineCommand::SetEffectConfig { board, pedal, setting } => {
            assert_eq!((board, pedal), (1, 3));
            assert_eq!(setting.name, Some(String::from("gain")));
            assert_eq!(setting.value, JsonScalar::Number { int: Some(2), is_float: false, text: String::from("2") });
        }
        _ => panic!("wrong command"),
    }
    assert!(matches!(command_for(&msg(JamParam::TuneChannel, 1, 1, ""), 2), EngineCommand::SetTuner { tuner: 1, enable: true }));
    assert!(matches!(command_for(&msg(JamParam::TuneChannel, 0, 2, ""), 2), EngineCommand::SetTuner { tuner: 0, enable: false }));
    assert!(matches!(command_for(&msg(JamParam::TuneChannel, 2, 1, ""), 2), EngineCommand::Ignore));
}

#[test]
fn engine_update_interval_is_clamped() {
    assert!(matches!(command_for(&msg(JamParam::SetUpdateInterval, 100, 0, ""), 2), EngineCommand::SetUpdateInterval { interval } if interval == MIN_REFRESH));
    assert!(matches!(command_for(&msg(JamParam::SetUpdateInterval, 500, 0, ""), 2), EngineCommand::SetUpdateInterval { interval: 500_000 }));
    assert!(matches!(command_for(&msg(JamParam::SetUpdateInterval, 5000, 0, ""), 2), EngineCommand::SetUpdateInterval { interval } if interval == IDLE_REFRESH));
    assert!(matches!(command_for(&msg(JamParam::SetUpdateInterval, -5, 0, ""), 2), EngineCommand::SetUpdateInterval { interval } if interval == IDLE_REFRESH));
}

#[test]
fn engine_other_commands() {
    match command_for(&msg(JamParam::RoomChange, 7891, 55, "10.0.0.9"), 2) {
        EngineCommand::Connect { host, port, id } => assert_eq!((host.as_str(), port, id), ("10.0.0.9", 7891, 55)),
        _ => panic!("wrong command"),
    }
    assert!(matches!(command_for(&msg(JamParam::Disconnect, 0, 0, ""), 2), EngineCommand::Disconnect));
    assert!(matches!(command_for(&msg(JamParam::ConnectionKeepAlive, 0, 0, ""), 2), EngineCommand::KeepAlive));
    assert!(matches!(command_for(&msg(JamParam::GetConfigJson, 0, 0, ""), 2), EngineCommand::SendPedalInfo));
    assert!(matches!(command_for(&msg(JamParam::GetPedalTypes, 0, 0, ""), 2), EngineCommand::SendPedalTypes));
    assert!(matches!(command_for(&msg(JamParam::MasterVol, 0, 0, ""), 2), EngineCommand::Unknown));
}

#[test]
fn client_routes() {
    match route(&msg(JamParam::SetAudioInput, 0, 0, "hw:USB")) {
        ClientRoute::WriteFile { device, contents } => {
            assert_eq!(device, AudioDevice::Input);
            assert_eq!(device.config_file(), "soundin.cfg");
            assert_eq!(contents, "hw:USB");
        }
        _ => panic!("wrong route"),
    }
    assert_eq!(AudioDevice::Output.config_file(), "soundout.cfg");
    assert!(matches!(route(&msg(JamParam::ShutdownDevice, 0, 0, "")), ClientRoute::Exit));
    assert!(matches!(route(&msg(JamParam::CheckForUpdate, 0, 0, "")), ClientRoute::Exit));
    assert!(matches!(route(&msg(JamParam::ListAudioConfig, 0, 0, "")), ClientRoute::ListAudioConfig));
    assert!(matches!(route(&msg(JamParam::RandomCommand, 0, 0, "ls -l")), ClientRoute::RunCommand { .. }));
    assert!(matches!(route(&msg(JamParam::LoadBoard, 1, 0, "{}")), ClientRoute::LoadBoard { board: 1, .. }));
    assert!(matches!(route(&msg(JamParam::LoadBoard, 2, 0, "{}")), ClientRoute::Ignore));
    assert!(matches!(route(&msg(JamParam::SetFader, 0, 0, "")), ClientRoute::ToEngine));
}

// ---- click track

#[test]
fn click_cursor_plays_through_the_click() {
    let mut c = ClickCursor::new();
    assert_eq!(c.next_slice(0, 128), None); // muted
    c.set_mute(false);
    assert_eq!(c.next_slice(0, 128), Some(ClickSlice { start: 0, tic: true }));
    assert_eq!(c.next_slice(0, 128), Some(ClickSlice { start: 128, tic: true }));
    // a new beat restarts the click, with the low sound
    assert_eq!(c.next_slice(1, 128), Some(ClickSlice { start: 0, tic: false }));
    let mut n = 1;
    while c.next_slice(1, 128).is_some() {
        n += 1;
    }
    assert_eq!(n, 37);
    assert!(CLICK_SIZE - 128 * 36 > 128);
}

// ---- midi

#[test]
fn midi_events_from_bytes() {
    assert_eq!(MidiEvent::new(&[0xC3, 5]), MidiEvent { e_type: 4, channel: 3, note: 5, velocity: 0 });
    assert_eq!(MidiEvent::new(&[0xB1, 7, 100]), MidiEvent { e_type: 4, channel: 0, note: 7, velocity: 100 });
    assert_eq!(MidiEvent::new(&[0x90, 60, 100]), MidiEvent { e_type: 8, channel: 0, note: 0, velocity: 0 });
    assert_eq!(MidiEvent::new(&[0xB1, 7]), MidiEvent { e_type: 8, channel: 0, note: 0, velocity: 0 });
    assert_eq!(MidiEvent::new(&[]), MidiEvent { e_type: 8, channel: 0, note: 0, velocity: 0 });
}

#[test]
fn float_texts() {
    for t in ["1", "1.", ".5", "+3.25", "-0.0e-3", "7E+2", "inf", "-Infinity", "NaN", "+nAn", "12345678901234567890"] {
        assert!(is_float_text(t), "{}", t);
        assert!(t.parse::<f64>().is_ok(), "{}", t);
    }
    for t in ["", "+", ".", "-.", "e5", "1e", "1e+", "1.2.3", "1,5", " 1", "1 ", "infin", "0x10", "1_000", "abc"] {
        assert!(!is_float_text(t), "{}", t);
        assert!(t.parse::<f64>().is_err(), "{}", t);
    }
}

#[test]
fn jitter_buffer_drops_overflow() {
    let mut b: JitterBuffer<i32> = JitterBuffer::new();
    let data: Vec<i32> = (0..MIN_DEPTH as i32).collect();
    b.append(&data);
    let d = b.get(2, 0, 0);
    assert_eq!(d.samples, vec![0, 1]);
    assert_eq!(b.get_overruns(), 0);
    // a burst after a long gap
    let more: Vec<i32> = (MIN_DEPTH as i32..3 * MIN_DEPTH as i32).collect();
    b.append(&more);
    let d = b.get(4, 0, 0);
    assert_eq!(b.get_overruns(), 1);
    assert_eq!(d.depth, Some(MIN_DEPTH));
    assert_eq!(d.samples, vec![1024, 1025, 1026, 1027]);
    assert_eq!(b.length(), MIN_DEPTH - 4);
    assert!(!b.is_filling());
}

#[test]
fn integers_from_text() {
    for t in ["0", "-0", "+17", "0042", "9223372036854775807", "-9223372036854775808", "", "-", "+", " 1", "1 ", "1.0", "9223372036854775808", "-9223372036854775809", "123456789012345678901234567890", "--1", "+-1", "12a"] {
        assert_eq!(rtjam_rust::json_fields::parse_i64(t), t.parse::<i64>().ok(), "{}", t);
    }
}
