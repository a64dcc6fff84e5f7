use ollama_pipeline::pipeline::Program;
use ollama_pipeline::status::{classify_version_probe, convert_port_to_u16, ServiceStatus, VersionProbeOutcome};

fn base_program() -> Program {
    Program::init(
        Vec::new(),
        false,
        false,
        false,
        false,
        "0.3.3".to_string(),
        String::new(),
    )
}

#[test]
fn port_parses_plain_numbers() {
    assert_eq!(convert_port_to_u16("11434".to_string()), 11434);
    assert_eq!(convert_port_to_u16("80".to_string()), 80);
    assert_eq!(convert_port_to_u16("0".to_string()), 0);
    assert_eq!(convert_port_to_u16("65535".to_string()), 65535);
}

#[test]
fn port_accepts_a_leading_plus_sign() {
    assert_eq!(convert_port_to_u16("+80".to_string()), 80);
}

#[test]
fn port_falls_back_on_invalid_input() {
    assert_eq!(convert_port_to_u16("".to_string()), 11434);
    assert_eq!(convert_port_to_u16("+".to_string()), 11434);
    assert_eq!(convert_port_to_u16("abc".to_string()), 11434);
    assert_eq!(convert_port_to_u16("80a".to_string()), 11434);
    assert_eq!(convert_port_to_u16("-80".to_string()), 11434);
    assert_eq!(convert_port_to_u16("65536".to_string()), 11434);
    assert_eq!(convert_port_to_u16("999999999999".to_string()), 11434);
}

#[test]
fn every_probe_outcome_maps_to_one_status() {
    assert!(matches!(
        classify_version_probe(VersionProbeOutcome::RequestFailed),
        ServiceStatus::Offline
    ));
    assert!(matches!(
        classify_version_probe(VersionProbeOutcome::HttpFailure),
        ServiceStatus::Offline
    ));
    assert!(matches!(
        classify_version_probe(VersionProbeOutcome::BodyUnparsable),
        ServiceStatus::OnlineParseError
    ));
    assert!(matches!(
        classify_version_probe(VersionProbeOutcome::ParsedNoVersion),
        ServiceStatus::OnlineUnknownVersion
    ));
    match classify_version_probe(VersionProbeOutcome::ParsedVersion("0.5.1".to_string())) {
        ServiceStatus::Online(v) => assert_eq!(v, "0.5.1"),
        _ => panic!("expected an online status with a version"),
    }
}

#[test]
fn status_text_matches_display_strings() {
    assert_eq!(ServiceStatus::Offline.as_text(), "Offline");
    assert_eq!(ServiceStatus::Online("0.5.1".to_string()).as_text(), "Online (v0.5.1)");
    assert_eq!(ServiceStatus::OnlineUnknownVersion.as_text(), "Online (unknown version)");
    assert_eq!(ServiceStatus::OnlineParseError.as_text(), "Online (version parse error)");
}

#[test]
fn version_probe_outcome_updates_service_status() {
    let mut p = base_program();
    p.apply_version_outcome(VersionProbeOutcome::ParsedVersion("0.5.1".to_string()));
    assert_eq!(p.app_state.ollama_state.as_text(), "Online (v0.5.1)");
    p.apply_version_outcome(VersionProbeOutcome::RequestFailed);
    assert_eq!(p.app_state.ollama_state.as_text(), "Offline");
}

#[test]
fn inventory_merge_is_set_like_across_two_probe_cycles() {
    let mut p = base_program();
    p.apply_inventory_outcome(Some(vec!["alpha".to_string(), "beta".to_string()]));
    p.apply_inventory_outcome(Some(vec!["beta".to_string(), "gamma".to_string()]));
    assert_eq!(
        p.app_state.bots_list,
        vec!["alpha".to_string(), "beta".to_string(), "gamma".to_string()]
    );
}

#[test]
fn inventory_merge_deduplicates_within_one_listing() {
    let mut p = base_program();
    p.apply_inventory_outcome(Some(vec![
        "alpha".to_string(),
        "alpha".to_string(),
        "beta".to_string(),
    ]));
    assert_eq!(p.app_state.bots_list, vec!["alpha".to_string(), "beta".to_string()]);
}

#[test]
fn inventory_listing_failure_clears_the_inventory() {
    let mut p = base_program();
    p.apply_inventory_outcome(Some(vec!["alpha".to_string()]));
    p.apply_inventory_outcome(None);
    assert!(p.app_state.bots_list.is_empty());
    let d = p.channels.debug_channel.try_recv().unwrap();
    assert_eq!(d.message, "Error occured while listing bots");
    assert!(d.is_error);
}
