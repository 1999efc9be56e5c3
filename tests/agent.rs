use relay_agent::dto::{ConfigurationRequestDTO, ConfigurationResponseDTO, RegisterDeviceDTO};
use relay_agent::orchestrator::{
    connect_reconnect_wifi_if_necessary, connect_wifi, orchestrate, try_register_device, Action,
    Event, Orchestrator, Phase, Stage, DEFAULT_POLL_INTERVAL_SECONDS, RETRY_DELAY_MS,
};
use relay_agent::relay::process_configuration;
use relay_agent::wire::{
    content_length, get_mac_address, response_text, ErrorKind, RESPONSE_BUFFER_LEN,
};

fn response(power_on: bool) -> ConfigurationResponseDTO {
    ConfigurationResponseDTO { power_on, mac_address: String::from("AA:BB:CC:DD:EE:FF") }
}

/// Drives a fresh agent through connection, identity read and registration.
fn running_agent() -> Orchestrator {
    let mut agent = Orchestrator::new(DEFAULT_POLL_INTERVAL_SECONDS);
    assert_eq!(orchestrate(&mut agent, Event::LinkStatus(Some(true))), Action::ReadMacAddress);
    assert_eq!(
        orchestrate(&mut agent, Event::MacAddress([0xaa, 0xbb, 0xcc, 0xdd, 0xee, 0xff])),
        Action::Sleep(2000)
    );
    assert_eq!(orchestrate(&mut agent, Event::Slept), Action::Register);
    assert_eq!(orchestrate(&mut agent, Event::Registered(Ok(()))), Action::CheckLink);
    agent
}

#[test]
fn configuration_request_serialises_to_expected_json() {
    let request = ConfigurationRequestDTO::new(String::from("AA:BB:CC:DD:EE:FF"));
    assert_eq!(request.to_json(), r#"{"macAddress":"AA:BB:CC:DD:EE:FF"}"#);
}

#[test]
fn configuration_request_escapes_quotes_and_backslashes() {
    let request = ConfigurationRequestDTO::new(String::from("a\"b\\c"));
    assert_eq!(request.to_json(), r#"{"macAddress":"a\"b\\c"}"#);
}

#[test]
fn round_trip_request_and_response_turns_relay_on() {
    let request = ConfigurationRequestDTO::new(String::from("AA:BB:CC:DD:EE:FF"));
    let body = request.to_json();
    let sent: serde_json::Value = serde_json::from_str(&body).unwrap();
    assert_eq!(sent["macAddress"].as_str(), Some("AA:BB:CC:DD:EE:FF"));

    let text = response_text(br#"{"powerOn":true,"macAddress":"AA:BB:CC:DD:EE:FF"}"#).unwrap();
    let value: serde_json::Value = serde_json::from_str(&text).unwrap();
    let config = ConfigurationResponseDTO {
        power_on: value["powerOn"].as_bool().unwrap(),
        mac_address: value["macAddress"].as_str().unwrap().to_owned(),
    };
    assert!(config.power_on);

    let mut agent = running_agent();
    assert_eq!(orchestrate(&mut agent, Event::LinkStatus(Some(true))), Action::Poll);
    assert_eq!(orchestrate(&mut agent, Event::Polled(Ok(config))), Action::ReadRelay);
    assert_eq!(orchestrate(&mut agent, Event::RelayLevel(false)), Action::WriteRelay(true));
}

#[test]
fn registration_serialises_members_in_order() {
    let dto = RegisterDeviceDTO::new(
        String::from("AB:0D:EF:12:34:56"),
        String::from("Relay"),
        String::from("Relay"),
        String::from("Relay Device"),
    );
    assert_eq!(
        dto.to_json(),
        r#"{"macAddress":"AB:0D:EF:12:34:56","deviceType":"Relay","deviceName":"Relay","deviceDescription":"Relay Device"}"#
    );
}

#[test]
fn content_length_is_decimal() {
    assert_eq!(content_length(0), "0");
    assert_eq!(content_length(7), "7");
    assert_eq!(content_length(42), "42");
    assert_eq!(content_length(4086), "4086");
    let body = ConfigurationRequestDTO::new(String::from("AA:BB:CC:DD:EE:FF")).to_json();
    assert_eq!(content_length(body.len()), "34");
}

#[test]
fn mac_address_is_upper_case_hex_with_colons() {
    assert_eq!(get_mac_address([0xab, 0x0d, 0xef, 0x12, 0x34, 0x56]), "AB:0D:EF:12:34:56");
    assert_eq!(get_mac_address([0, 0, 0, 0, 0, 0]), "00:00:00:00:00:00");
    assert_eq!(get_mac_address([0xff; 6]), "FF:FF:FF:FF:FF:FF");
}

#[test]
fn response_text_decodes_utf8() {
    assert_eq!(response_text(b"").unwrap(), "");
    assert_eq!(response_text("{\"a\":\"\u{e9}\"}".as_bytes()).unwrap(), "{\"a\":\"\u{e9}\"}");
}

#[test]
fn response_text_rejects_invalid_utf8() {
    assert_eq!(response_text(&[b'{', 0xff, b'}']), Err(ErrorKind::DecodeFailed));
}

#[test]
fn response_filling_the_buffer_is_rejected() {
    let full = vec![b' '; RESPONSE_BUFFER_LEN];
    assert_eq!(response_text(&full), Err(ErrorKind::ResponseTooLarge));
    let larger = vec![b' '; RESPONSE_BUFFER_LEN + 10];
    assert_eq!(response_text(&larger), Err(ErrorKind::ResponseTooLarge));
    let just_under = vec![b' '; RESPONSE_BUFFER_LEN - 1];
    assert_eq!(response_text(&just_under).unwrap().len(), 4085);
}

#[test]
fn relay_mapping() {
    assert_eq!(process_configuration(&response(true), false), Some(true));
    assert_eq!(process_configuration(&response(false), true), Some(false));
    assert_eq!(process_configuration(&response(true), true), None);
    assert_eq!(process_configuration(&response(false), false), None);
}

#[test]
fn applying_same_configuration_twice_writes_once() {
    let config = response(true);
    let mut relay_high = false;
    let mut writes: u32 = 0;
    for _ in 0..2 {
        if let Some(level) = process_configuration(&config, relay_high) {
            relay_high = level;
            writes += 1;
        }
    }
    assert_eq!(writes, 1);
    assert!(relay_high);
}

#[test]
fn second_poll_with_same_state_skips_the_write() {
    let mut agent = running_agent();
    assert_eq!(orchestrate(&mut agent, Event::LinkStatus(Some(true))), Action::Poll);
    assert_eq!(orchestrate(&mut agent, Event::Polled(Ok(response(true)))), Action::ReadRelay);
    assert_eq!(orchestrate(&mut agent, Event::RelayLevel(false)), Action::WriteRelay(true));
    assert_eq!(orchestrate(&mut agent, Event::RelayWritten(true)), Action::Sleep(2000));
    assert_eq!(orchestrate(&mut agent, Event::Slept), Action::CheckLink);
    assert_eq!(orchestrate(&mut agent, Event::LinkStatus(Some(true))), Action::Poll);
    assert_eq!(orchestrate(&mut agent, Event::Polled(Ok(response(true)))), Action::ReadRelay);
    assert_eq!(orchestrate(&mut agent, Event::RelayLevel(true)), Action::Sleep(2000));
}

#[test]
fn failed_write_is_retried_next_cycle() {
    let mut agent = running_agent();
    orchestrate(&mut agent, Event::LinkStatus(Some(true)));
    orchestrate(&mut agent, Event::Polled(Ok(response(false))));
    assert_eq!(orchestrate(&mut agent, Event::RelayLevel(true)), Action::WriteRelay(false));
    assert_eq!(orchestrate(&mut agent, Event::RelayWritten(false)), Action::Sleep(2000));
    orchestrate(&mut agent, Event::Slept);
    orchestrate(&mut agent, Event::LinkStatus(Some(true)));
    orchestrate(&mut agent, Event::Polled(Ok(response(false))));
    assert_eq!(orchestrate(&mut agent, Event::RelayLevel(true)), Action::WriteRelay(false));
}

#[test]
fn malformed_response_skips_cycle_and_keeps_polling() {
    let mut agent = running_agent();
    orchestrate(&mut agent, Event::LinkStatus(Some(true)));
    assert!(serde_json::from_str::<serde_json::Value>("{\"powerOn\":tru").is_err());
    assert_eq!(
        orchestrate(&mut agent, Event::Polled(Err(ErrorKind::ParseFailed))),
        Action::Sleep(2000)
    );
    assert_eq!(agent.phase, Phase::Running);
    assert!(!agent.power_on);
    assert_eq!(orchestrate(&mut agent, Event::Slept), Action::CheckLink);
    assert_eq!(orchestrate(&mut agent, Event::LinkStatus(Some(true))), Action::Poll);
}

#[test]
fn every_poll_error_is_non_fatal() {
    for err in [
        ErrorKind::ConnectFailed,
        ErrorKind::TransportFailed,
        ErrorKind::DecodeFailed,
        ErrorKind::ParseFailed,
        ErrorKind::ResponseTooLarge,
    ] {
        let mut agent = running_agent();
        orchestrate(&mut agent, Event::LinkStatus(Some(true)));
        assert_eq!(orchestrate(&mut agent, Event::Polled(Err(err))), Action::Sleep(2000));
        assert_eq!(agent.stage, Stage::IntervalPause);
    }
}

#[test]
fn startup_sequence_reaches_running() {
    let mut agent = Orchestrator::new(DEFAULT_POLL_INTERVAL_SECONDS);
    assert_eq!(agent.current_action(), Action::CheckLink);
    assert_eq!(agent.phase, Phase::Disconnected);
    assert_eq!(orchestrate(&mut agent, Event::LinkStatus(Some(false))), Action::IssueConnect);
    assert_eq!(orchestrate(&mut agent, Event::ConnectIssued(true)), Action::CheckLink);
    assert_eq!(orchestrate(&mut agent, Event::LinkStatus(Some(false))), Action::Sleep(1000));
    assert_eq!(orchestrate(&mut agent, Event::Slept), Action::CheckLink);
    assert_eq!(orchestrate(&mut agent, Event::LinkStatus(Some(true))), Action::ReadMacAddress);
    assert_eq!(agent.phase, Phase::ConnectedUnregistered);
    assert_eq!(
        orchestrate(&mut agent, Event::MacAddress([0xab, 0x0d, 0xef, 0x12, 0x34, 0x56])),
        Action::Sleep(2000)
    );
    assert_eq!(agent.mac_address(), "AB:0D:EF:12:34:56");
    assert_eq!(orchestrate(&mut agent, Event::Slept), Action::Register);
    assert_eq!(
        orchestrate(&mut agent, Event::Registered(Err(ErrorKind::TransportFailed))),
        Action::CheckLink
    );
    assert_eq!(agent.phase, Phase::Running);
}

#[test]
fn registration_outcome_does_not_matter() {
    for outcome in [Ok(()), Err(ErrorKind::ConnectFailed)] {
        let mut agent = Orchestrator::new(3);
        agent.stage = Stage::Registering;
        try_register_device(&mut agent, outcome);
        assert_eq!(agent.phase, Phase::Running);
        assert_eq!(agent.current_action(), Action::CheckLink);
    }
}

#[test]
fn connect_retry_succeeds_once_link_is_up_with_one_attempt_per_pause() {
    // The simulated interface fails five connect attempts, then comes up.
    let mut agent = Orchestrator::new(DEFAULT_POLL_INTERVAL_SECONDS);
    let mut failures_left: u32 = 5;
    let mut link_up = false;
    let mut attempts: u32 = 0;
    let mut retry_pauses: u32 = 0;
    let mut action = agent.current_action();
    for _ in 0..100 {
        let event = match action {
            Action::CheckLink => Event::LinkStatus(Some(link_up)),
            Action::IssueConnect => {
                attempts += 1;
                assert!(attempts <= retry_pauses + 1);
                if failures_left > 0 {
                    failures_left -= 1;
                    Event::ConnectIssued(false)
                } else {
                    link_up = true;
                    Event::ConnectIssued(true)
                }
            }
            Action::Sleep(ms) => {
                if ms == RETRY_DELAY_MS {
                    retry_pauses += 1;
                }
                Event::Slept
            }
            _ => break,
        };
        action = orchestrate(&mut agent, event);
    }
    assert_eq!(action, Action::ReadMacAddress);
    assert_eq!(attempts, 6);
    assert_eq!(retry_pauses, 5);
}

#[test]
fn link_error_during_attempt_backs_off() {
    let mut agent = Orchestrator::new(DEFAULT_POLL_INTERVAL_SECONDS);
    agent.stage = Stage::LinkWait;
    connect_wifi(&mut agent, Event::LinkStatus(None));
    assert_eq!(agent.current_action(), Action::Sleep(500));
    connect_reconnect_wifi_if_necessary(&mut agent, Event::Slept);
    assert_eq!(agent.current_action(), Action::CheckLink);
}

#[test]
fn reconnect_while_running_returns_to_poll() {
    let mut agent = running_agent();
    assert_eq!(orchestrate(&mut agent, Event::LinkStatus(None)), Action::IssueConnect);
    assert_eq!(orchestrate(&mut agent, Event::ConnectIssued(true)), Action::CheckLink);
    assert_eq!(orchestrate(&mut agent, Event::LinkStatus(Some(true))), Action::Poll);
    assert_eq!(agent.phase, Phase::Running);
}

#[test]
fn unexpected_event_changes_nothing() {
    let mut agent = Orchestrator::new(DEFAULT_POLL_INTERVAL_SECONDS);
    assert_eq!(orchestrate(&mut agent, Event::Slept), Action::CheckLink);
    assert_eq!(orchestrate(&mut agent, Event::RelayLevel(true)), Action::CheckLink);
    assert_eq!(agent.stage, Stage::LinkCheck);
    assert_eq!(agent.phase, Phase::Disconnected);
}

#[test]
fn poll_interval_is_in_milliseconds() {
    let mut agent = Orchestrator::new(7);
    agent.phase = Phase::Running;
    agent.stage = Stage::Polling;
    assert_eq!(orchestrate(&mut agent, Event::Polled(Err(ErrorKind::ParseFailed))), Action::Sleep(7000));
}
