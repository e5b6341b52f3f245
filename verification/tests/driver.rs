//! The protocol driver: handshake, translation in both directions, fader
//! arbitration, timecode diffing, reset, and connection gating.

use mpris_controller::event::{
    CtrlSurfEvent, Data, Error, Feedback, Mixer, Msg, Timecode, Transport,
};
use mpris_controller::mackie::{ConnectionStatus, FaderState, Mackie, State};
use mpris_controller::midi;

fn to_dev(bytes: Vec<u8>) -> Msg {
    Msg::ToDevice(midi::Msg::from_bytes(bytes))
}

fn from_device(driver: &mut Mackie, bytes: Vec<u8>) -> Vec<Msg> {
    driver.msg_from_device(midi::Msg::from_bytes(bytes))
}

/// A driver taken to `Connected` by a DEVICE_OK sysex from an XTouch.
fn connected_driver() -> Mackie {
    let mut driver = Mackie::default();
    let out = from_device(&mut driver, vec![0xf0, 0x00, 0x00, 0x66, 0x14, 0x03, 0xf7]);
    assert_eq!(out, vec![
        Msg::ConnectionResult(Ok(())),
        Msg::ToApp(CtrlSurfEvent::DataRequest),
    ]);
    assert_eq!(driver.state(), State::Connected);
    driver
}

#[test]
fn fresh_driver_defaults() {
    let driver = Mackie::default();
    assert_eq!(driver.state(), State::Disconnected);
    assert_eq!(driver.fader_state(), FaderState::Released);
    assert_eq!(driver.device_id(), None);
    assert_eq!(driver.channel(), 0);
    assert!(!driver.is_connected());
}

#[test]
fn start_identification_queries_the_device() {
    let mut driver = connected_driver();
    let out = driver.start_identification(0x14);
    assert_eq!(out, vec![to_dev(vec![0xf0, 0x00, 0x00, 0x66, 0x14, 0x00, 0xf7])]);
    assert_eq!(driver.state(), State::Connecting(ConnectionStatus::DeviceQueried));
    assert_eq!(driver.device_id(), None);
    assert!(!driver.is_connected());
}

#[test]
fn query_host_for_logic_control_replies_to_the_challenge() {
    let mut driver = Mackie::default();
    driver.start_identification(0x14);
    // QueryHost from a Logic Control: 7-byte serial, then the challenge.
    let out = from_device(&mut driver, vec![
        0xf0, 0x00, 0x00, 0x66, 0x10, 0x01, 0x41, 0x42, 0x43, 0x44, 0x45, 0x46, 0x47, 0x01, 0x02,
        0x03, 0x04, 0xf7,
    ]);
    // Exactly one sysex host reply, before any DEVICE_OK / DEVICE_ERR.
    assert_eq!(out, vec![
        to_dev(vec![
            0xf0, 0x00, 0x00, 0x66, 0x10, 0x02, 0x41, 0x42, 0x43, 0x44, 0x45, 0x46, 0x47, 5, 5,
            123, 47, 0xf7,
        ]),
        Msg::ConnectionInProgress,
    ]);
    assert_eq!(driver.state(), State::Connecting(ConnectionStatus::ChallengeReplied));
}

#[test]
fn cipher_regression_vector() {
    // The pinned response for the challenge 01 02 03 04.
    let (r0, r1, r2, r3) = mpris_controller::mackie::challenge_response(0x01, 0x02, 0x03, 0x04);
    assert_eq!((r0, r1, r2, r3), (5, 5, 123, 47));
}

#[test]
fn cipher_wraps_like_eight_bit_arithmetic() {
    // Values chosen so every byte-wise operation overflows or underflows.
    let (r0, r1, r2, r3) = mpris_controller::mackie::challenge_response(0xff, 0xf5, 0x81, 0x7e);
    // r0 = (0xff + (0xf5 ^ 0x0a) - 0x7e) mod 256 = (255 + 255 - 126) mod 256 = 128; & 0x7f = 0.
    assert_eq!(r0, 0);
    // r1 = (0x81 >> 4) ^ ((0xff + 0x7e) mod 256) = 8 ^ 125 = 117; & 0x7f = 117.
    assert_eq!(r1, 117);
    // r2 = ((0x7e - 0x04) mod 256) ^ (0xff | 0xf5) = 0x7a ^ 0xff = 0x85; & 0x7f = 5.
    assert_eq!(r2, 5);
    // r3 = (0xf5 - 0x81 + (0xf0 ^ 0xe0)) mod 256 = (245 - 129 + 16) mod 256 = 132; & 0x7f = 4.
    assert_eq!(r3, 4);
}

#[test]
fn query_host_without_challenge_connects_directly() {
    let mut driver = Mackie::default();
    driver.start_identification(0x14);
    // An XTouch id needs no challenge reply.
    let out = from_device(&mut driver, vec![
        0xf0, 0x00, 0x00, 0x66, 0x14, 0x01, 0x41, 0x42, 0x43, 0x44, 0x45, 0x46, 0x47, 0x01, 0x02,
        0x03, 0x04, 0xf7,
    ]);
    assert_eq!(out, vec![
        Msg::ConnectionResult(Ok(())),
        Msg::ToApp(CtrlSurfEvent::DataRequest),
    ]);
    assert_eq!(driver.state(), State::Connected);
    assert_eq!(driver.device_id(), Some(0x14));
}

#[test]
fn query_host_with_short_data_disconnects() {
    let mut driver = Mackie::default();
    driver.start_identification(0x14);
    // 9-byte payload: header plus only 4 bytes of serial/challenge data.
    let out = from_device(&mut driver, vec![
        0xf0, 0x00, 0x00, 0x66, 0x10, 0x01, 0x41, 0x42, 0x43, 0x44, 0xf7,
    ]);
    assert_eq!(out, vec![Msg::ConnectionResult(Err(Error::UnexpectedDeviceMsg))]);
    assert_eq!(driver.state(), State::Disconnected);
}

#[test]
fn device_ok_records_the_device_id() {
    let mut driver = Mackie::default();
    let out = from_device(&mut driver, vec![0xf0, 0x00, 0x00, 0x66, 0x11, 0x03, 0xf7]);
    assert_eq!(out, vec![
        Msg::ConnectionResult(Ok(())),
        Msg::ToApp(CtrlSurfEvent::DataRequest),
    ]);
    assert_eq!(driver.device_id(), Some(0x11));
    assert!(driver.is_connected());
}

#[test]
fn device_err_is_a_fatal_connection_error() {
    let mut driver = connected_driver();
    let out = from_device(&mut driver, vec![0xf0, 0x00, 0x00, 0x66, 0x14, 0x04, 0xf7]);
    assert_eq!(out, vec![Msg::ConnectionResult(Err(Error::ConnectionError))]);
    assert_eq!(driver.state(), State::Disconnected);
}

#[test]
fn echoed_query_device_disconnects() {
    let mut driver = connected_driver();
    let out = from_device(&mut driver, vec![0xf0, 0x00, 0x00, 0x66, 0x14, 0x00, 0xf7]);
    assert_eq!(out, vec![Msg::ConnectionResult(Err(Error::UnexpectedDeviceMsg))]);
    assert_eq!(driver.state(), State::Disconnected);
}

#[test]
fn unknown_handshake_code_disconnects() {
    let mut driver = connected_driver();
    let out = from_device(&mut driver, vec![0xf0, 0x00, 0x00, 0x66, 0x14, 0x2f, 0xf7]);
    assert_eq!(out, vec![Msg::ConnectionResult(Err(Error::UnexpectedDeviceMsg))]);
    assert_eq!(driver.state(), State::Disconnected);
}

#[test]
fn manufacturer_mismatch_keeps_state() {
    let mut driver = connected_driver();
    let out = from_device(&mut driver, vec![0xf0, 0x01, 0x02, 0x03, 0x14, 0x03, 0xf7]);
    assert_eq!(out, vec![Msg::ConnectionResult(Err(Error::ManufacturerMismatch))]);
    assert_eq!(driver.state(), State::Connected);
}

#[test]
fn short_sysex_payload_keeps_state() {
    let mut driver = connected_driver();
    let out = from_device(&mut driver, vec![0xf0, 0x00, 0x00, 0x66, 0xf7]);
    assert_eq!(out, vec![Msg::ConnectionResult(Err(Error::UnexpectedDeviceMsg))]);
    assert_eq!(driver.state(), State::Connected);
}

#[test]
fn unterminated_sysex_keeps_state() {
    let mut driver = connected_driver();
    let out = from_device(&mut driver, vec![0xf0, 0x00, 0x00, 0x66, 0x14, 0x03]);
    assert_eq!(out, vec![Msg::ConnectionResult(Err(Error::UnexpectedDeviceMsg))]);
    assert_eq!(driver.state(), State::Connected);
}

#[test]
fn transport_buttons_map_to_app_events() {
    let mut driver = Mackie::default();
    let out = from_device(&mut driver, vec![0x90, 91, 127]);
    assert_eq!(out, vec![Msg::ToApp(CtrlSurfEvent::Transport(Transport::Previous))]);
    let out = from_device(&mut driver, vec![0x90, 92, 127]);
    assert_eq!(out, vec![Msg::ToApp(CtrlSurfEvent::Transport(Transport::Next))]);
    let out = from_device(&mut driver, vec![0x90, 93, 127]);
    assert_eq!(out, vec![Msg::ToApp(CtrlSurfEvent::Transport(Transport::Stop))]);
    let out = from_device(&mut driver, vec![0x90, 94, 127]);
    assert_eq!(out, vec![Msg::ToApp(CtrlSurfEvent::Transport(Transport::PlayPause))]);
}

#[test]
fn button_release_and_unknown_ids_are_ignored() {
    let mut driver = Mackie::default();
    assert_eq!(from_device(&mut driver, vec![0x90, 91, 0]), vec![]);
    assert_eq!(from_device(&mut driver, vec![0x90, 90, 127]), vec![]);
    assert_eq!(from_device(&mut driver, vec![0x90, 91]), vec![]);
    assert_eq!(from_device(&mut driver, vec![0xa0, 1, 2]), vec![]);
    assert_eq!(from_device(&mut driver, vec![]), vec![]);
    assert_eq!(driver.state(), State::Disconnected);
}

#[test]
fn status_byte_channel_is_captured() {
    let mut driver = Mackie::default();
    assert_eq!(driver.channel(), 0);
    from_device(&mut driver, vec![0x95, 91, 127]);
    assert_eq!(driver.channel(), 5);
    from_device(&mut driver, vec![0xe3, 0, 0]);
    assert_eq!(driver.channel(), 3);
}

#[test]
fn fader_move_is_forwarded_to_the_app() {
    let mut driver = Mackie::default();
    let out = from_device(&mut driver, vec![0xe0, 64, 1]);
    assert_eq!(out, vec![Msg::ToApp(CtrlSurfEvent::Mixer(Mixer::Volume(8193)))]);
    assert_eq!(driver.fader_state(), FaderState::Released);
}

#[test]
fn malformed_fader_value_is_dropped() {
    let mut driver = Mackie::default();
    let out = from_device(&mut driver, vec![0xe0, 0x80, 1]);
    assert_eq!(out, vec![]);
    assert_eq!(driver.fader_state(), FaderState::Released);
}

#[test]
fn fader_arbitration_buffers_while_touched() {
    let mut driver = connected_driver();

    // Touch (value 100 is above the threshold of 64): no output.
    assert_eq!(from_device(&mut driver, vec![0x90, 104, 100]), vec![]);
    assert_eq!(driver.fader_state(), FaderState::Touched { last_volume: None });

    // An application volume while touched moves no motor; it is buffered.
    let out = driver.event_to_device(Feedback::Mixer(Mixer::Volume(8192)));
    assert_eq!(out, vec![]);
    assert_eq!(driver.fader_state(), FaderState::Touched { last_volume: Some(8192) });

    // Release (value 0): the buffered volume goes to both app and motor.
    let out = from_device(&mut driver, vec![0x90, 104, 0]);
    assert_eq!(out, vec![
        Msg::ToApp(CtrlSurfEvent::Mixer(Mixer::Volume(8192))),
        to_dev(vec![0xe0, 64, 0]),
    ]);
    assert_eq!(driver.fader_state(), FaderState::Released);
}

#[test]
fn touch_threshold_is_strict() {
    let mut driver = Mackie::default();
    // A value equal to the threshold does not count as a touch.
    assert_eq!(from_device(&mut driver, vec![0x90, 104, 64]), vec![]);
    assert_eq!(driver.fader_state(), FaderState::Released);
    assert_eq!(from_device(&mut driver, vec![0x90, 104, 65]), vec![]);
    assert_eq!(driver.fader_state(), FaderState::Touched { last_volume: None });
    // A repeated touch value while already touched changes nothing.
    assert_eq!(from_device(&mut driver, vec![0x90, 104, 127]), vec![]);
    assert_eq!(driver.fader_state(), FaderState::Touched { last_volume: None });
}

#[test]
fn fader_release_without_buffered_volume_is_silent() {
    let mut driver = Mackie::default();
    assert_eq!(from_device(&mut driver, vec![0x90, 104, 100]), vec![]);
    assert_eq!(from_device(&mut driver, vec![0x90, 104, 0]), vec![]);
    assert_eq!(driver.fader_state(), FaderState::Released);
}

#[test]
fn fader_move_while_touched_updates_the_buffer() {
    let mut driver = Mackie::default();
    from_device(&mut driver, vec![0x90, 104, 127]);
    let out = from_device(&mut driver, vec![0xe0, 10, 2]);
    assert_eq!(out, vec![Msg::ToApp(CtrlSurfEvent::Mixer(Mixer::Volume(1282)))]);
    assert_eq!(driver.fader_state(), FaderState::Touched { last_volume: Some(1282) });
}

#[test]
fn app_volume_moves_a_released_fader() {
    let mut driver = connected_driver();
    let out = driver.event_to_device(Feedback::Mixer(Mixer::Volume(8192)));
    assert_eq!(out, vec![to_dev(vec![0xe0, 64, 0])]);
}

#[test]
fn play_and_pause_drive_the_leds() {
    let mut driver = connected_driver();

    let out = driver.event_to_device(Feedback::Transport(Transport::Play));
    assert_eq!(out, vec![to_dev(vec![0x90, 93, 0]), to_dev(vec![0x90, 94, 127])]);
    assert_eq!(driver.state(), State::Playing);

    // Play while already playing re-asserts the LED only.
    let out = driver.event_to_device(Feedback::Transport(Transport::Play));
    assert_eq!(out, vec![to_dev(vec![0x90, 94, 127])]);
    assert_eq!(driver.state(), State::Playing);

    let out = driver.event_to_device(Feedback::Transport(Transport::Pause));
    assert_eq!(out, vec![to_dev(vec![0x90, 94, 0]), to_dev(vec![0x90, 93, 127])]);
    assert_eq!(driver.state(), State::Stopped);

    let out = driver.event_to_device(Feedback::Transport(Transport::Pause));
    assert_eq!(out, vec![to_dev(vec![0x90, 93, 127])]);
    assert_eq!(driver.state(), State::Stopped);
}

fn reset_batch() -> Vec<Msg> {
    let mut expected = vec![
        to_dev(vec![0x90, 91, 0]),
        to_dev(vec![0x90, 92, 0]),
        to_dev(vec![0x90, 93, 0]),
        to_dev(vec![0x90, 94, 0]),
    ];
    for i in 0..10u8 {
        expected.push(to_dev(vec![0xb0, 0x49 - i, 0x20]));
    }
    expected
}

#[test]
fn reset_twice_from_connected_is_idempotent() {
    let mut driver = connected_driver();
    let first = driver.reset();
    assert_eq!(first, reset_batch());
    assert_eq!(driver.state(), State::Connected);
    let second = driver.reset();
    assert_eq!(second, first);
    assert_eq!(driver.state(), State::Connected);
    assert_eq!(driver.device_id(), Some(0x14));
}

#[test]
fn reset_collapses_playing_and_keeps_identity() {
    let mut driver = connected_driver();
    driver.event_to_device(Feedback::Transport(Transport::Play));
    assert_eq!(driver.state(), State::Playing);
    driver.reset();
    assert_eq!(driver.state(), State::Connected);
    assert_eq!(driver.device_id(), Some(0x14));
}

#[test]
fn transport_stop_event_resets() {
    let mut driver = connected_driver();
    let out = driver.event_to_device(Feedback::Transport(Transport::Stop));
    assert_eq!(out, reset_batch());
    assert_eq!(driver.state(), State::Connected);
}

#[test]
fn new_app_resets_and_requests_data() {
    let mut driver = connected_driver();
    let out = driver.event_to_device(Feedback::NewApp(String::from("player")));
    let mut expected = reset_batch();
    expected.push(Msg::ToApp(CtrlSurfEvent::DataRequest));
    assert_eq!(out, expected);
    assert_eq!(driver.state(), State::Connected);
}

#[test]
fn connection_gating_drops_all_app_events() {
    let mut driver = Mackie::default();
    assert_eq!(driver.event_to_device(Feedback::Transport(Transport::Play)), vec![]);
    assert_eq!(driver.event_to_device(Feedback::Transport(Transport::Pause)), vec![]);
    assert_eq!(driver.event_to_device(Feedback::Transport(Transport::Stop)), vec![]);
    assert_eq!(driver.event_to_device(Feedback::Mixer(Mixer::Volume(100))), vec![]);
    assert_eq!(driver.event_to_device(Feedback::Mixer(Mixer::Mute)), vec![]);
    assert_eq!(
        driver.event_to_device(Feedback::Data(Data::Timecode(Timecode {
            hours: 1,
            minutes: 2,
            seconds: 3,
            millis: 4,
        }))),
        vec![]
    );
    assert_eq!(driver.event_to_device(Feedback::NewApp(String::from("x"))), vec![]);
    assert_eq!(driver.state(), State::Disconnected);

    driver.start_identification(0x14);
    assert_eq!(driver.event_to_device(Feedback::Transport(Transport::Play)), vec![]);
    assert_eq!(driver.state(), State::Connecting(ConnectionStatus::DeviceQueried));
}

#[test]
fn mute_and_reserved_data_events_are_no_ops() {
    let mut driver = connected_driver();
    assert_eq!(driver.event_to_device(Feedback::Mixer(Mixer::Mute)), vec![]);
    assert_eq!(driver.event_to_device(Feedback::Data(Data::AppName(String::from("p")))), vec![]);
    assert_eq!(driver.event_to_device(Feedback::Data(Data::Track(String::from("t")))), vec![]);
}
