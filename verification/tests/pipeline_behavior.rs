//! End-to-end behavior of the command pipeline, exercised through the
//! real base64 and JSON crates.

use base64::Engine;
use chip_tool_sim::pipeline::process_command;

fn b64(data: &str) -> String {
    base64::engine::general_purpose::STANDARD.encode(data.as_bytes())
}

fn b64_decode(data: &str) -> String {
    let bytes = base64::engine::general_purpose::STANDARD.decode(data).unwrap();
    String::from_utf8(bytes).unwrap()
}

fn run(request: &str) -> serde_json::Value {
    let response = process_command(request).unwrap();
    serde_json::from_str(&response).unwrap()
}

fn results(response: &serde_json::Value) -> &Vec<serde_json::Value> {
    response.get("results").unwrap().as_array().unwrap()
}

fn log_entry(response: &serde_json::Value) -> (String, String) {
    let logs = response.get("logs").unwrap().as_array().unwrap();
    assert_eq!(logs.len(), 1);
    let entry = &logs[0];
    assert_eq!(entry.get("module").unwrap().as_str().unwrap(), "chipTool");
    let category = entry.get("category").unwrap().as_str().unwrap().to_string();
    let message = b64_decode(entry.get("message").unwrap().as_str().unwrap());
    (category, message)
}

fn wait_request(node_id: &str) -> String {
    format!(
        "{{\"cluster\":\"delay\",\"command\":\"wait-for-commissionee\",\"arguments\":\"base64:{}\"}}",
        b64(&format!("{{\"nodeId\":\"{}\"}}", node_id))
    )
}

fn read_request(destination: &str, endpoints: &str) -> String {
    format!(
        "{{\"cluster\":\"OnOff\",\"command\":\"read\",\"arguments\":\"base64:{}\"}}",
        b64(&format!(
            "{{\"destination-id\":\"{}\",\"endpoint-ids\":\"{}\"}}",
            destination, endpoints
        ))
    )
}

fn write_request(specifier: Option<&str>, endpoint: &str, value: &str) -> String {
    let args = b64(&format!(
        "{{\"destination-id\":\"1\",\"endpoint-id-ignored-for-group-commands\":\"{}\",\"attribute-values\":\"{}\"}}",
        endpoint, value
    ));
    match specifier {
        Some(s) => format!(
            "{{\"cluster\":\"onoff\",\"command\":\"write\",\"arguments\":\"base64:{}\",\"command_specifier\":\"{}\"}}",
            args, s
        ),
        None => format!(
            "{{\"cluster\":\"onoff\",\"command\":\"write\",\"arguments\":\"base64:{}\"}}",
            args
        ),
    }
}

#[test]
fn commissionee_wait_example() {
    // base64:eyJub2RlSWQiOiI0MiJ9 is {"nodeId":"42"}
    let request = "{\"cluster\":\"delay\",\"command\":\"wait-for-commissionee\",\"arguments\":\"base64:eyJub2RlSWQiOiI0MiJ9\"}";
    let response = run(request);
    assert_eq!(results(&response).len(), 0);
    let (category, message) = log_entry(&response);
    assert_eq!(category, "Info");
    assert_eq!(message, "Device 42 connected successfully");
}

#[test]
fn commissionee_wait_exact_bytes() {
    let request = wait_request("7");
    let expected = format!(
        "{{\"results\":[],\"logs\":[{{\"module\":\"chipTool\",\"category\":\"Info\",\"message\":\"{}\"}}]}}",
        b64("Device 7 connected successfully")
    );
    assert_eq!(process_command(&request).unwrap(), expected);
}

#[test]
fn onoff_read_example() {
    let response = run(&read_request("1", "3"));
    let rs = results(&response);
    assert_eq!(rs.len(), 1);
    assert_eq!(rs[0].get("clusterId").unwrap().as_u64().unwrap(), 6);
    assert_eq!(rs[0].get("endpointId").unwrap().as_u64().unwrap(), 3);
    assert_eq!(rs[0].get("attributeId").unwrap().as_u64().unwrap(), 0);
    assert_eq!(rs[0].get("value").unwrap().as_bool().unwrap(), true);
    let (category, message) = log_entry(&response);
    assert_eq!(category, "Info");
    assert_eq!(message, "Read OnOff attribute from endpoint 3: ON");
}

#[test]
fn onoff_read_endpoint_defaults_to_one() {
    for bad in ["abc", "", "12x", "-4", "70000", " 3"] {
        let response = run(&read_request("1", bad));
        let rs = results(&response);
        assert_eq!(rs[0].get("endpointId").unwrap().as_u64().unwrap(), 1);
    }
}

#[test]
fn onoff_read_endpoint_plus_sign_parses() {
    let response = run(&read_request("1", "+9"));
    assert_eq!(
        results(&response)[0].get("endpointId").unwrap().as_u64().unwrap(),
        9
    );
}

#[test]
fn onoff_write_on_time() {
    let response = run(&write_request(Some("on-time"), "2", "30"));
    let rs = results(&response);
    assert_eq!(rs.len(), 1);
    let record = rs[0].as_object().unwrap();
    assert_eq!(record.len(), 3);
    assert_eq!(record.get("clusterId").unwrap().as_u64().unwrap(), 6);
    assert_eq!(record.get("endpointId").unwrap().as_u64().unwrap(), 2);
    assert_eq!(record.get("attributeId").unwrap().as_u64().unwrap(), 16385);
    assert!(record.get("status").is_none());
    assert!(record.get("error").is_none());
    assert!(record.get("value").is_none());
    let (category, message) = log_entry(&response);
    assert_eq!(category, "Info");
    assert_eq!(message, "Write OnOff attribute 'on-time' to endpoint 2: value=30");
}

#[test]
fn onoff_write_off_wait_time() {
    let response = run(&write_request(Some("off-wait-time"), "1", "5"));
    assert_eq!(
        results(&response)[0].get("attributeId").unwrap().as_u64().unwrap(),
        16386
    );
}

#[test]
fn onoff_write_unrecognized_name_maps_to_zero() {
    let response = run(&write_request(Some("brightness"), "1", "5"));
    assert_eq!(
        results(&response)[0].get("attributeId").unwrap().as_u64().unwrap(),
        0
    );
}

#[test]
fn onoff_write_missing_specifier_logs_unknown() {
    let response = run(&write_request(None, "4", "1"));
    assert_eq!(
        results(&response)[0].get("attributeId").unwrap().as_u64().unwrap(),
        0
    );
    let (_, message) = log_entry(&response);
    assert_eq!(message, "Write OnOff attribute 'unknown' to endpoint 4: value=1");
}

#[test]
fn untagged_arguments_fail_whatever_the_operation() {
    for request in [
        "{\"cluster\":\"delay\",\"command\":\"wait-for-commissionee\",\"arguments\":\"eyJub2RlSWQiOiI0MiJ9\"}",
        "{\"cluster\":\"onoff\",\"command\":\"read\",\"arguments\":\"hello\"}",
        "{\"cluster\":\"onoff\",\"command\":\"write\",\"arguments\":\"\"}",
    ] {
        let response = run(request);
        let rs = results(&response);
        assert_eq!(rs.len(), 1);
        assert_eq!(rs[0].get("error").unwrap().as_str().unwrap(), "FAILURE");
        let (category, message) = log_entry(&response);
        assert_eq!(category, "Error");
        assert_eq!(message, "Arguments must be base64 encoded");
    }
}

#[test]
fn unknown_command_echoes_original_casing() {
    let response = run("{\"cluster\":\"Color\",\"command\":\"Read\",\"arguments\":\"base64:e30=\"}");
    let rs = results(&response);
    assert_eq!(rs[0].get("error").unwrap().as_str().unwrap(), "FAILURE");
    let (category, message) = log_entry(&response);
    assert_eq!(category, "Error");
    assert_eq!(message, "Unknown command: Color Read");
}

#[test]
fn operation_matching_is_case_sensitive() {
    let request = format!(
        "{{\"cluster\":\"OnOff\",\"command\":\"READ\",\"arguments\":\"base64:{}\"}}",
        b64("{\"destination-id\":\"1\",\"endpoint-ids\":\"3\"}")
    );
    let (_, message) = log_entry(&run(&request));
    assert_eq!(message, "Unknown command: OnOff READ");
}

#[test]
fn domain_matching_is_case_insensitive() {
    let request = format!(
        "{{\"cluster\":\"ONOFF\",\"command\":\"read\",\"arguments\":\"base64:{}\"}}",
        b64("{\"destination-id\":\"1\",\"endpoint-ids\":\"6\"}")
    );
    let response = run(&request);
    assert_eq!(
        results(&response)[0].get("endpointId").unwrap().as_u64().unwrap(),
        6
    );
}

#[test]
fn repeating_a_request_gives_byte_identical_responses() {
    for request in [
        wait_request("42"),
        read_request("1", "3"),
        write_request(Some("on-time"), "2", "30"),
        "not json at all".to_string(),
    ] {
        let first = process_command(&request).unwrap();
        let second = process_command(&request).unwrap();
        assert_eq!(first, second);
    }
}

#[test]
fn malformed_envelope_json() {
    for request in ["not json", "[1,2,3]", "42", "{\"cluster\":\"delay\"}", ""] {
        let (category, message) = log_entry(&run(request));
        assert_eq!(category, "Error");
        assert_eq!(message, "Invalid JSON format");
    }
}

#[test]
fn envelope_field_type_mismatch() {
    let request = "{\"cluster\":7,\"command\":\"read\",\"arguments\":\"base64:e30=\"}";
    let (category, message) = log_entry(&run(request));
    assert_eq!(category, "Error");
    assert_eq!(message, "Invalid JSON format");
}

#[test]
fn envelope_specifier_must_be_text_or_null() {
    let bad = "{\"cluster\":\"onoff\",\"command\":\"write\",\"arguments\":\"base64:e30=\",\"command_specifier\":5}";
    let (_, message) = log_entry(&run(bad));
    assert_eq!(message, "Invalid JSON format");
}

#[test]
fn envelope_specifier_null_means_absent() {
    let args = b64("{\"destination-id\":\"1\",\"endpoint-id-ignored-for-group-commands\":\"2\",\"attribute-values\":\"9\"}");
    let request = format!(
        "{{\"cluster\":\"onoff\",\"command\":\"write\",\"arguments\":\"base64:{}\",\"command_specifier\":null}}",
        args
    );
    let (_, message) = log_entry(&run(&request));
    assert_eq!(message, "Write OnOff attribute 'unknown' to endpoint 2: value=9");
}

#[test]
fn bad_base64_body() {
    let request = "{\"cluster\":\"delay\",\"command\":\"wait-for-commissionee\",\"arguments\":\"base64:!!!\"}";
    let (category, message) = log_entry(&run(request));
    assert_eq!(category, "Error");
    assert_eq!(message, "Invalid base64 format");
}

#[test]
fn base64_of_invalid_utf8() {
    let bytes = base64::engine::general_purpose::STANDARD.encode([0xffu8, 0xfe, 0xfd]);
    let request = format!(
        "{{\"cluster\":\"delay\",\"command\":\"wait-for-commissionee\",\"arguments\":\"base64:{}\"}}",
        bytes
    );
    let (category, message) = log_entry(&run(&request));
    assert_eq!(category, "Error");
    assert_eq!(message, "Invalid base64 encoding");
}

#[test]
fn arguments_not_a_json_object() {
    for body in ["[1,2]", "42", "\"text\"", "not json"] {
        let request = format!(
            "{{\"cluster\":\"delay\",\"command\":\"wait-for-commissionee\",\"arguments\":\"base64:{}\"}}",
            b64(body)
        );
        let (_, message) = log_entry(&run(&request));
        assert_eq!(message, "Invalid arguments format");
    }
}

#[test]
fn arguments_missing_required_field() {
    let request = format!(
        "{{\"cluster\":\"delay\",\"command\":\"wait-for-commissionee\",\"arguments\":\"base64:{}\"}}",
        b64("{\"node\":\"42\"}")
    );
    let (_, message) = log_entry(&run(&request));
    assert_eq!(message, "Invalid arguments format");

    let request = format!(
        "{{\"cluster\":\"onoff\",\"command\":\"read\",\"arguments\":\"base64:{}\"}}",
        b64("{\"endpoint-ids\":\"3\"}")
    );
    let (_, message) = log_entry(&run(&request));
    assert_eq!(message, "Invalid arguments format");
}

#[test]
fn frame_tag_is_stripped() {
    let request = format!("json:{}", wait_request("9"));
    let response = run(&request);
    assert_eq!(results(&response).len(), 0);
    let (_, message) = log_entry(&response);
    assert_eq!(message, "Device 9 connected successfully");
}

#[test]
fn frame_tag_absence_is_no_error() {
    let response = run(&wait_request("9"));
    assert_eq!(results(&response).len(), 0);
}
