//! Unit-level checks of the encoder, the parsing helpers, and the
//! connection-loop decision step.

use base64::Engine;
use chip_tool_sim::connection::{connection_step, SocketEvent, StepAction};
use chip_tool_sim::pipeline::process_command;
use chip_tool_sim::response::{create_error_response, create_onoff_read_response,
    create_onoff_write_response, create_success_response};
use chip_tool_sim::text::{parse_u16, str_eq, u16_to_dec};

fn b64(data: &str) -> String {
    base64::engine::general_purpose::STANDARD.encode(data.as_bytes())
}

#[test]
fn error_response_exact_bytes() {
    let expected = format!(
        "{{\"results\":[{{\"error\":\"FAILURE\"}}],\"logs\":[{{\"module\":\"chipTool\",\"category\":\"Error\",\"message\":\"{}\"}}]}}",
        b64("Something went wrong")
    );
    assert_eq!(create_error_response("Something went wrong"), expected);
}

#[test]
fn success_response_exact_bytes() {
    let expected = format!(
        "{{\"results\":[],\"logs\":[{{\"module\":\"chipTool\",\"category\":\"Info\",\"message\":\"{}\"}}]}}",
        b64("Device 0xABCD connected successfully")
    );
    assert_eq!(create_success_response("0xABCD"), expected);
}

#[test]
fn read_response_exact_bytes() {
    let expected = format!(
        "{{\"results\":[{{\"clusterId\":6,\"endpointId\":3,\"attributeId\":0,\"value\":true}}],\"logs\":[{{\"module\":\"chipTool\",\"category\":\"Info\",\"message\":\"{}\"}}]}}",
        b64("Read OnOff attribute from endpoint 3: ON")
    );
    assert_eq!(create_onoff_read_response("1", "3", true), expected);
}

#[test]
fn read_response_off_state_log() {
    let expected = format!(
        "{{\"results\":[{{\"clusterId\":6,\"endpointId\":5,\"attributeId\":0,\"value\":false}}],\"logs\":[{{\"module\":\"chipTool\",\"category\":\"Info\",\"message\":\"{}\"}}]}}",
        b64("Read OnOff attribute from endpoint 5: OFF")
    );
    assert_eq!(create_onoff_read_response("1", "5", false), expected);
}

#[test]
fn write_response_exact_bytes() {
    let expected = format!(
        "{{\"results\":[{{\"clusterId\":6,\"endpointId\":2,\"attributeId\":16385}}],\"logs\":[{{\"module\":\"chipTool\",\"category\":\"Info\",\"message\":\"{}\"}}]}}",
        b64("Write OnOff attribute 'on-time' to endpoint 2: value=30")
    );
    assert_eq!(create_onoff_write_response("1", "2", "on-time", "30"), expected);
}

#[test]
fn parse_u16_accepts_plain_and_signed_plus() {
    assert_eq!(parse_u16("0"), Some(0));
    assert_eq!(parse_u16("65535"), Some(65535));
    assert_eq!(parse_u16("+17"), Some(17));
    assert_eq!(parse_u16("007"), Some(7));
}

#[test]
fn parse_u16_rejects_bad_numerals() {
    assert_eq!(parse_u16(""), None);
    assert_eq!(parse_u16("+"), None);
    assert_eq!(parse_u16("65536"), None);
    assert_eq!(parse_u16("99999999999999999999"), None);
    assert_eq!(parse_u16("-1"), None);
    assert_eq!(parse_u16("1 "), None);
    assert_eq!(parse_u16("٣"), None);
}

#[test]
fn parse_u16_matches_std() {
    for s in ["0", "1", "+42", "65535", "65536", "", "+", "abc", "1e3", "0x10"] {
        assert_eq!(parse_u16(s), s.parse::<u16>().ok());
    }
}

#[test]
fn decimal_rendering() {
    assert_eq!(u16_to_dec(0), "0");
    assert_eq!(u16_to_dec(7), "7");
    assert_eq!(u16_to_dec(16385), "16385");
    assert_eq!(u16_to_dec(65535), "65535");
}

#[test]
fn str_eq_compares_contents() {
    assert!(str_eq("abc", "abc"));
    assert!(!str_eq("abc", "abd"));
    assert!(!str_eq("abc", "ab"));
    assert!(str_eq("", ""));
    assert!(str_eq("héllo", "héllo"));
}

#[test]
fn connection_replies_to_text_frames() {
    let request = "{\"cluster\":\"delay\",\"command\":\"wait-for-commissionee\",\"arguments\":\"base64:eyJub2RlSWQiOiI0MiJ9\"}";
    let expected = process_command(request).unwrap();
    match connection_step(&SocketEvent::TextFrame(request.to_string())) {
        StepAction::Reply(response) => assert_eq!(response, expected),
        _ => panic!("a text frame must produce a reply"),
    }
}

#[test]
fn connection_observes_non_text_frames() {
    assert!(matches!(connection_step(&SocketEvent::BinaryFrame), StepAction::KeepReading));
    assert!(matches!(connection_step(&SocketEvent::PingFrame), StepAction::KeepReading));
    assert!(matches!(connection_step(&SocketEvent::PongFrame), StepAction::KeepReading));
}

#[test]
fn connection_stops_on_close_or_error() {
    assert!(matches!(connection_step(&SocketEvent::CloseFrame), StepAction::Stop));
    assert!(matches!(connection_step(&SocketEvent::TransportError), StepAction::Stop));
}
