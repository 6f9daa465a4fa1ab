use flock::attitude::AttitudeCell;
use flock::attitude::AttitudeSample;
use flock::server::handle_message;
use flock::server::process_connection;
use flock::server::EndReason;
use flock::server::InboundMessage;
use flock::server::MessageOutcome;
use flock::telemetry::decode_attitude;
use flock::telemetry::is_number_text;

fn zero_sample() -> AttitudeSample {
    AttitudeSample {
        heading: "0".to_string(),
        pitch: "0".to_string(),
        roll: "0".to_string(),
    }
}

fn text(body: &str) -> InboundMessage {
    InboundMessage::Text(body.to_string())
}

#[test]
fn decode_accepts_schema_in_order() {
    let s = decode_attitude("{\"heading\":200.0,\"pitch\":10.0,\"roll\":10.0}").unwrap();
    assert_eq!(s.heading, "200.0");
    assert_eq!(s.pitch, "10.0");
    assert_eq!(s.roll, "10.0");
}

#[test]
fn decode_accepts_any_member_order_and_whitespace() {
    let s = decode_attitude(" { \"roll\" : -3.5 , \"heading\" : 12 , \"pitch\" : 0 } ").unwrap();
    assert_eq!(s.heading, "12");
    assert_eq!(s.pitch, "0");
    assert_eq!(s.roll, "-3.5");
}

#[test]
fn decode_accepts_exponent_numbers() {
    let s = decode_attitude("{\"heading\":2e2,\"pitch\":-1.5E-2,\"roll\":0.25e+1}").unwrap();
    assert_eq!(s.heading, "2e2");
    assert_eq!(s.pitch, "-1.5E-2");
    assert_eq!(s.roll, "0.25e+1");
    assert_eq!(s.heading.parse::<f32>().unwrap(), 200.0);
}

#[test]
fn decode_rejects_malformed_bodies() {
    assert!(decode_attitude("").is_none());
    assert!(decode_attitude("not json").is_none());
    assert!(decode_attitude("{}").is_none());
    assert!(decode_attitude("[1,2,3]").is_none());
    assert!(decode_attitude("{\"heading\":1.0,\"pitch\":2.0}").is_none());
    assert!(decode_attitude("{\"heading\":1.0,\"pitch\":2.0,\"roll\":3.0,\"yaw\":4.0}").is_none());
    assert!(decode_attitude("{\"heading\":1.0,\"pitch\":2.0,\"roll\":\"3.0\"}").is_none());
    assert!(decode_attitude("{\"heading\":1.0,\"heading\":2.0,\"roll\":3.0}").is_none());
    assert!(decode_attitude("{\"heading\":01,\"pitch\":2.0,\"roll\":3.0}").is_none());
    assert!(decode_attitude("{\"heading\":1.,\"pitch\":2.0,\"roll\":3.0}").is_none());
    assert!(decode_attitude("{\"heading\":1.0,\"pitch\":2.0,\"roll\":3.0} trailing").is_none());
    assert!(decode_attitude("{\"Heading\":1.0,\"pitch\":2.0,\"roll\":3.0}").is_none());
}

#[test]
fn number_grammar_matches_json() {
    assert!(is_number_text("0"));
    assert!(is_number_text("-0.5"));
    assert!(is_number_text("10.25e-3"));
    assert!(is_number_text("205.0"));
    assert!(!is_number_text(""));
    assert!(!is_number_text("-"));
    assert!(!is_number_text("01"));
    assert!(!is_number_text("1."));
    assert!(!is_number_text("1e"));
    assert!(!is_number_text("+1"));
    assert!(!is_number_text("1.0.0"));
    assert!(!is_number_text("NaN"));
}

#[test]
fn last_write_wins_over_a_connection() {
    let mut cell = AttitudeCell::new(zero_sample());
    let bodies = [
        "{\"heading\":1.0,\"pitch\":2.0,\"roll\":3.0}",
        "{\"heading\":4.0,\"pitch\":5.0,\"roll\":6.0}",
        "{\"heading\":7.5,\"pitch\":8.5,\"roll\":9.5}",
    ];
    let expect = [["1.0", "2.0", "3.0"], ["4.0", "5.0", "6.0"], ["7.5", "8.5", "9.5"]];
    cell.set_connected(true);
    for (body, want) in bodies.iter().zip(expect.iter()) {
        let outcome = handle_message(&mut cell, &text(body));
        assert_eq!(outcome, MessageOutcome::Stored);
        let got = cell.read();
        assert_eq!(got.heading, want[0]);
        assert_eq!(got.pitch, want[1]);
        assert_eq!(got.roll, want[2]);
    }
    cell.set_connected(false);
}

#[test]
fn scenario_two_samples_then_close() {
    let mut cell = AttitudeCell::new(zero_sample());
    let msgs = vec![
        text("{\"heading\":200.0,\"pitch\":10.0,\"roll\":10.0}"),
        text("{\"heading\":205.0,\"pitch\":9.0,\"roll\":9.5}"),
        InboundMessage::Close,
    ];
    let ended = process_connection(&mut cell, &msgs);
    assert_eq!(ended, Some(EndReason::CleanClose));
    let got = cell.read();
    assert_eq!(got.heading, "205.0");
    assert_eq!(got.pitch, "9.0");
    assert_eq!(got.roll, "9.5");
    assert_eq!(got.heading.parse::<f32>().unwrap(), 205.0);
    assert_eq!(got.pitch.parse::<f32>().unwrap(), 9.0);
    assert_eq!(got.roll.parse::<f32>().unwrap(), 9.5);
    assert!(!cell.is_connected());
}

#[test]
fn violation_ends_only_current_connection() {
    let mut cell = AttitudeCell::new(zero_sample());

    let first = vec![
        text("{\"heading\":1.0,\"pitch\":2.0,\"roll\":3.0}"),
        InboundMessage::Binary,
        text("{\"heading\":99.0,\"pitch\":99.0,\"roll\":99.0}"),
    ];
    let ended = process_connection(&mut cell, &first);
    assert_eq!(ended, Some(EndReason::ProtocolViolation));
    assert_eq!(cell.read().heading, "1.0");
    assert!(!cell.is_connected());

    let second = vec![
        text("{\"heading\":42.5,\"pitch\":0,\"roll\":-1}"),
        InboundMessage::Close,
    ];
    let ended = process_connection(&mut cell, &second);
    assert_eq!(ended, Some(EndReason::CleanClose));
    assert_eq!(cell.read().heading, "42.5");
    assert!(!cell.is_connected());
}

#[test]
fn malformed_text_is_a_violation() {
    let mut cell = AttitudeCell::new(zero_sample());
    let msgs = vec![text("{\"heading\":bad}")];
    let ended = process_connection(&mut cell, &msgs);
    assert_eq!(ended, Some(EndReason::ProtocolViolation));
    assert_eq!(cell.read().heading, "0");
}

#[test]
fn control_messages_are_ignored() {
    let mut cell = AttitudeCell::new(zero_sample());
    let outcome = handle_message(&mut cell, &InboundMessage::Control);
    assert_eq!(outcome, MessageOutcome::Ignored);
    assert_eq!(cell.read().heading, "0");
}

#[test]
fn transport_fault_ends_like_a_close() {
    let mut cell = AttitudeCell::new(zero_sample());
    let msgs = vec![
        text("{\"heading\":5.0,\"pitch\":6.0,\"roll\":7.0}"),
        InboundMessage::Fault,
    ];
    let ended = process_connection(&mut cell, &msgs);
    assert_eq!(ended, Some(EndReason::TransportFault));
    assert_eq!(cell.read().heading, "5.0");
    assert!(!cell.is_connected());
}

#[test]
fn connectivity_tracks_connect_and_disconnect() {
    let mut cell = AttitudeCell::new(zero_sample());
    assert!(!cell.is_connected());
    cell.set_connected(true);
    assert!(cell.is_connected());
    let outcome = handle_message(&mut cell, &text("{\"heading\":1,\"pitch\":2,\"roll\":3}"));
    assert_eq!(outcome, MessageOutcome::Stored);
    assert!(cell.is_connected());
    cell.set_connected(false);
    assert!(!cell.is_connected());

    let msgs: Vec<InboundMessage> = vec![InboundMessage::Close];
    process_connection(&mut cell, &msgs);
    assert!(!cell.is_connected());
}
