use camstream::config::access_point_settings;
use camstream::config::http_server_settings;
use camstream::config::AccessPointSettings;
use camstream::config::AuthPolicy;
use camstream::digits::dec_string;
use camstream::form::form_intake;
use camstream::form::form_reply;
use camstream::form::greeting;
use camstream::form::oversize_reply;
use camstream::form::FormRecord;
use camstream::form::IntakeDecision;
use camstream::frame::frame_header;
use camstream::frame::frame_trailer;
use camstream::frame::stream_content_type;
use camstream::session::default_session_config;
use camstream::session::plan_iteration;
use camstream::storage::storage_step;
use camstream::storage::InitOutcome;
use camstream::storage::StorageAction;
use camstream::storage::StorageState;

#[test]
fn dec_string_exact_values() {
    assert_eq!(dec_string(0), "0");
    assert_eq!(dec_string(7), "7");
    assert_eq!(dec_string(10), "10");
    assert_eq!(dec_string(250), "250");
    assert_eq!(dec_string(100), "100");
    assert_eq!(dec_string(u64::MAX), "18446744073709551615");
}

#[test]
fn frame_header_exact_text() {
    assert_eq!(
        frame_header(4),
        "--frame\r\nContent-Type: image/jpeg\r\nContent-Length: 4\r\n\r\n"
    );
    assert_eq!(
        frame_header(12345),
        "--frame\r\nContent-Type: image/jpeg\r\nContent-Length: 12345\r\n\r\n"
    );
    assert_eq!(
        frame_header(0),
        "--frame\r\nContent-Type: image/jpeg\r\nContent-Length: 0\r\n\r\n"
    );
    assert_eq!(frame_trailer(), "\r\n");
}

#[test]
fn announced_boundary_matches_marker() {
    assert_eq!(
        stream_content_type(),
        "multipart/x-mixed-replace; boundary=frame"
    );
    let announced = stream_content_type().rsplit("boundary=").next().unwrap();
    assert!(frame_header(0).starts_with(&format!("--{announced}\r\n")));
}

#[test]
fn frame_header_length_matches_payload() {
    let payload = vec![0xffu8, 0xd8, 0xee, 0x42, 0x00, 0x19];
    let header = frame_header(payload.len());
    assert!(header.starts_with("--frame\r\n"));
    assert!(header.ends_with("\r\n\r\n"));
    let field = header
        .strip_prefix("--frame\r\nContent-Type: image/jpeg\r\nContent-Length: ")
        .unwrap()
        .strip_suffix("\r\n\r\n")
        .unwrap();
    assert_eq!(field.parse::<usize>().unwrap(), payload.len());
}

#[test]
fn oversized_declared_length_is_rejected_unread() {
    assert!(matches!(form_intake(Some(129)), IntakeDecision::Reject));
    assert!(matches!(form_intake(Some(10_000)), IntakeDecision::Reject));
    assert!(matches!(form_intake(Some(u64::MAX)), IntakeDecision::Reject));
    let reply = oversize_reply();
    assert_eq!(reply.status, 413);
    assert_eq!(reply.body, "Request too big");
}

#[test]
fn declared_length_within_bound_is_read_exactly() {
    match form_intake(Some(128)) {
        IntakeDecision::Accept { read_len } => assert_eq!(read_len, 128),
        IntakeDecision::Reject => panic!("length at the bound must be accepted"),
    }
    match form_intake(Some(17)) {
        IntakeDecision::Accept { read_len } => assert_eq!(read_len, 17),
        IntakeDecision::Reject => panic!("length under the bound must be accepted"),
    }
    match form_intake(None) {
        IntakeDecision::Accept { read_len } => assert_eq!(read_len, 0),
        IntakeDecision::Reject => panic!("absent length counts as zero"),
    }
}

#[test]
fn well_formed_record_gets_greeting() {
    let body = br#"{"first_name":"Ann","age":30,"birthplace":"Oslo"}"#.to_vec();
    let reply = form_reply(&body);
    assert_eq!(reply.status, 200);
    assert_eq!(reply.body, "Hello, 30-year-old Ann from Oslo!");
}

#[test]
fn field_order_does_not_matter() {
    let body = br#"{"age":85,"birthplace":"Kyoto","first_name":"Sen"}"#.to_vec();
    let reply = form_reply(&body);
    assert_eq!(reply.status, 200);
    assert_eq!(reply.body, "Hello, 85-year-old Sen from Kyoto!");
}

#[test]
fn malformed_body_gets_success_with_error_text() {
    let reply = form_reply(&b"{not json".to_vec());
    assert_eq!(reply.status, 200);
    assert_eq!(reply.body, "JSON error");
}

#[test]
fn missing_or_ill_typed_fields_get_error_text() {
    let missing = br#"{"first_name":"Ann","age":30}"#.to_vec();
    assert_eq!(form_reply(&missing).body, "JSON error");
    let negative_age = br#"{"first_name":"Ann","age":-1,"birthplace":"Oslo"}"#.to_vec();
    assert_eq!(form_reply(&negative_age).body, "JSON error");
    let fractional_age = br#"{"first_name":"Ann","age":30.5,"birthplace":"Oslo"}"#.to_vec();
    assert_eq!(form_reply(&fractional_age).body, "JSON error");
    let huge_age = br#"{"first_name":"Ann","age":4294967296,"birthplace":"Oslo"}"#.to_vec();
    assert_eq!(form_reply(&huge_age).body, "JSON error");
    let not_object = br#"[1,2,3]"#.to_vec();
    assert_eq!(form_reply(&not_object).body, "JSON error");
    let empty = Vec::new();
    assert_eq!(form_reply(&empty).body, "JSON error");
}

#[test]
fn greeting_interpolates_all_three_fields() {
    let rec = FormRecord {
        first_name: "Maya".to_string(),
        age: 0,
        birthplace: "La Paz".to_string(),
    };
    assert_eq!(greeting(&rec), "Hello, 0-year-old Maya from La Paz!");
}

#[test]
fn iteration_with_frame_writes_then_throttles() {
    let cfg = default_session_config();
    let plan = plan_iteration(&cfg, Some(6));
    assert_eq!(
        plan.header.as_deref(),
        Some("--frame\r\nContent-Type: image/jpeg\r\nContent-Length: 6\r\n\r\n")
    );
    assert!(plan.release);
    assert_eq!(plan.sleep_ms, 250);
}

#[test]
fn idle_iteration_only_pauses() {
    let cfg = default_session_config();
    let plan = plan_iteration(&cfg, None);
    assert!(plan.header.is_none());
    assert!(!plan.release);
    assert_eq!(plan.sleep_ms, 100);
}

#[test]
fn idle_polls_always_separated_by_pause() {
    let cfg = default_session_config();
    for _ in 0..5 {
        let plan = plan_iteration(&cfg, None);
        assert!(plan.sleep_ms >= 1);
    }
}

#[test]
fn streaming_two_records_exact_wire() {
    let cfg = default_session_config();
    let polls = vec![Some(vec![1u8, 2, 3]), None, Some(vec![9u8])];
    let mut wire = Vec::new();
    let mut outstanding = false;
    for poll in polls {
        assert!(!outstanding, "the previous frame must be released before the next poll");
        let plan = plan_iteration(&cfg, poll.as_ref().map(|d| d.len()));
        if let Some(header) = &plan.header {
            outstanding = true;
            wire.extend_from_slice(header.as_bytes());
            wire.extend_from_slice(poll.as_ref().unwrap());
            wire.extend_from_slice(frame_trailer().as_bytes());
        }
        if plan.release {
            assert!(outstanding, "only a held frame can be released");
            outstanding = false;
        }
    }
    let expected: Vec<u8> = [
        &b"--frame\r\nContent-Type: image/jpeg\r\nContent-Length: 3\r\n\r\n"[..],
        &[1, 2, 3],
        b"\r\n",
        b"--frame\r\nContent-Type: image/jpeg\r\nContent-Length: 1\r\n\r\n",
        &[9],
        b"\r\n",
    ]
    .concat();
    assert_eq!(wire, expected);
}

#[test]
fn recoverable_failure_erases_and_retries_once() {
    let (s, a) = storage_step(StorageState::Uninitialized, InitOutcome::NoFreePages);
    assert_eq!(s, StorageState::VersionMismatchOrFull);
    assert_eq!(a, StorageAction::EraseAndRetry);
    let (s2, a2) = storage_step(s, InitOutcome::Success);
    assert_eq!(s2, StorageState::Ready);
    assert_eq!(a2, StorageAction::Done);
}

#[test]
fn double_failure_ends_failed_with_one_erase() {
    let mut erases = 0;
    let mut state = StorageState::Uninitialized;
    let outcomes = [InitOutcome::IncompatibleVersion, InitOutcome::NoFreePages];
    for o in outcomes {
        let (next, action) = storage_step(state, o);
        if action == StorageAction::EraseAndRetry {
            erases += 1;
        }
        state = next;
        if action == StorageAction::Done {
            break;
        }
    }
    assert_eq!(state, StorageState::Failed);
    assert_eq!(erases, 1);
}

#[test]
fn unrecoverable_failure_never_erases() {
    let (s, a) = storage_step(StorageState::Uninitialized, InitOutcome::OtherFailure);
    assert_eq!(s, StorageState::Failed);
    assert_eq!(a, StorageAction::Done);
}

#[test]
fn terminal_states_stay_put() {
    for o in [
        InitOutcome::Success,
        InitOutcome::NoFreePages,
        InitOutcome::IncompatibleVersion,
        InitOutcome::OtherFailure,
    ] {
        assert_eq!(
            storage_step(StorageState::Ready, o),
            (StorageState::Ready, StorageAction::Done)
        );
        assert_eq!(
            storage_step(StorageState::Failed, o),
            (StorageState::Failed, StorageAction::Done)
        );
    }
}

#[test]
fn fixed_access_point_configuration() {
    let c = access_point_settings();
    assert_eq!(c.ssid, "Iphone");
    assert_eq!(c.passphrase, "WIFI_PASS");
    assert_eq!(c.channel, 11);
    assert_eq!(c.auth, AuthPolicy::Wpa2Personal);
}

#[test]
fn access_point_validation() {
    let ok = AccessPointSettings::try_new(
        "lab-net".to_string(),
        "longenough".to_string(),
        1,
        AuthPolicy::Wpa2Personal,
    );
    assert!(ok.is_some());
    let bad_channel = AccessPointSettings::try_new(
        "lab-net".to_string(),
        "longenough".to_string(),
        12,
        AuthPolicy::Wpa2Personal,
    );
    assert!(bad_channel.is_none());
    let zero_channel = AccessPointSettings::try_new(
        "lab-net".to_string(),
        "longenough".to_string(),
        0,
        AuthPolicy::Wpa2Personal,
    );
    assert!(zero_channel.is_none());
    let short_pass = AccessPointSettings::try_new(
        "lab-net".to_string(),
        "short".to_string(),
        6,
        AuthPolicy::Wpa2Personal,
    );
    assert!(short_pass.is_none());
    let open_short_pass =
        AccessPointSettings::try_new("lab-net".to_string(), String::new(), 6, AuthPolicy::Open);
    assert!(open_short_pass.is_some());
    let empty_ssid = AccessPointSettings::try_new(
        String::new(),
        "longenough".to_string(),
        6,
        AuthPolicy::Wpa2Personal,
    );
    assert!(empty_ssid.is_none());
}

#[test]
fn fixed_server_tuning() {
    let s = http_server_settings();
    assert_eq!(s.stack_size, 10240);
    assert_eq!(s.session_timeout_secs, 240);
}
