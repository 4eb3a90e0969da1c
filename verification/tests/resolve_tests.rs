use minutes::resolve::{
    capture_targets, capture_targets_with_resolver, parse_wpctl_configured_default_name,
    parse_wpctl_node_id, parse_wpctl_status_default_node_id, parse_wpctl_status_node_line,
    resolve_target, ResolvedCaptureTarget, TargetKind, TargetResolutionMethod,
};

#[test]
fn selects_monitor_and_microphone_targets_when_both_enabled() {
    let targets = capture_targets_with_resolver(true, true, |kind| match kind {
        TargetKind::System => ResolvedCaptureTarget {
            kind,
            target: "61".to_string(),
            method: TargetResolutionMethod::WpctlInspect,
        },
        TargetKind::Microphone => ResolvedCaptureTarget {
            kind,
            target: "62".to_string(),
            method: TargetResolutionMethod::WpctlInspect,
        },
    });
    assert_eq!(targets[0].target, "61");
    assert_eq!(targets[1].target, "62");
}

#[test]
fn falls_back_to_alias_targets_when_resolution_fails() {
    let targets = capture_targets_with_resolver(true, true, |kind| ResolvedCaptureTarget {
        kind,
        target: match kind {
            TargetKind::System => "@DEFAULT_AUDIO_SINK.monitor".to_string(),
            TargetKind::Microphone => "@DEFAULT_AUDIO_SOURCE@".to_string(),
        },
        method: TargetResolutionMethod::FallbackAlias,
    });
    assert_eq!(targets[0].target, "@DEFAULT_AUDIO_SINK.monitor");
    assert_eq!(targets[1].target, "@DEFAULT_AUDIO_SOURCE@");
    assert_eq!(targets[0].method, TargetResolutionMethod::FallbackAlias);
}

#[test]
fn parses_wpctl_node_id() {
    let output = r#"
id 61, type PipeWire:Interface:Node
    node.name = "alsa_output.pci-0000_65_00.6.analog-stereo"
"#;
    assert_eq!(parse_wpctl_node_id(output), Some("61".to_string()));
}

#[test]
fn parses_default_sink_id_from_wpctl_status_output() {
    let status = r#"
Audio
 ├─ Sinks:
 │  *   61. alsa_output.pci-0000_65_00.6.analog-stereo [vol: 0.44]
 │      72. bluez_output.14:06:A7:95:AC:6C [vol: 0.34]
 │
 ├─ Sources:
 │  *   62. alsa_input.pci-0000_65_00.6.analog-stereo [vol: 0.39 MUTED]
"#;

    assert_eq!(
        parse_wpctl_status_default_node_id(status, TargetKind::System),
        Some("61".to_string())
    );
}

#[test]
fn parses_default_source_id_from_wpctl_status_output() {
    let status = r#"
Audio
 ├─ Sinks:
 │  *   61. alsa_output.pci-0000_65_00.6.analog-stereo [vol: 0.44]
 │
 ├─ Sources:
 │      55. monitor-source
 │  *   62. alsa_input.pci-0000_65_00.6.analog-stereo [vol: 0.39 MUTED]
"#;

    assert_eq!(
        parse_wpctl_status_default_node_id(status, TargetKind::Microphone),
        Some("62".to_string())
    );
}

#[test]
fn uses_configured_sink_name_when_status_has_no_default_marker() {
    let status = r#"
Audio
 ├─ Sinks:
 │      10. alsa_output.pci-0000_65_00.6.analog-stereo
 │      20. bluez_output.14:06:A7:95:AC:6C
 │
 ├─ Sources:
 │      30. alsa_input.pci-0000_65_00.6.analog-stereo

Settings
 └─ Default Configured Devices:
         0. Audio/Sink    bluez_output.14:06:A7:95:AC:6C
         1. Audio/Source  alsa_input.pci-0000_65_00.6.analog-stereo
"#;

    assert_eq!(
        parse_wpctl_status_default_node_id(status, TargetKind::System),
        Some("20".to_string())
    );
}

#[test]
fn uses_configured_source_name_when_status_has_no_default_marker() {
    let status = r#"
Audio
 ├─ Sinks:
 │      10. alsa_output.pci-0000_65_00.6.analog-stereo
 │      20. bluez_output.14:06:A7:95:AC:6C
 │
 ├─ Sources:
 │      30. alsa_input.pci-0000_65_00.6.analog-stereo
 │      40. filter_input.echo-cancel

Settings
 └─ Default Configured Devices:
         0. Audio/Sink    bluez_output.14:06:A7:95:AC:6C
         1. Audio/Source  filter_input.echo-cancel
"#;

    assert_eq!(
        parse_wpctl_status_default_node_id(status, TargetKind::Microphone),
        Some("40".to_string())
    );
}

#[test]
fn fails_when_no_capture_sources_enabled() {
    let targets = capture_targets(false, false, |kind| ResolvedCaptureTarget {
        kind,
        target: String::new(),
        method: TargetResolutionMethod::FallbackAlias,
    });
    assert!(targets.is_empty());
}

#[test]
fn status_node_line_reads_id_name_and_default_marker() {
    let parsed = parse_wpctl_status_node_line("*   61. alsa_output.pci [vol: 0.44]");
    assert_eq!(parsed, Some(("61".to_string(), "alsa_output.pci".to_string(), true)));

    let parsed = parse_wpctl_status_node_line("72. bluez_output [vol: 0.34]");
    assert_eq!(parsed, Some(("72".to_string(), "bluez_output".to_string(), false)));

    assert_eq!(parse_wpctl_status_node_line("├─ Sinks:"), None);
}

#[test]
fn configured_name_is_read_per_kind() {
    let status = "  0. Audio/Sink    speakers\n  1. Audio/Source  mic\n";
    assert_eq!(
        parse_wpctl_configured_default_name(status, TargetKind::System),
        Some("speakers".to_string())
    );
    assert_eq!(
        parse_wpctl_configured_default_name(status, TargetKind::Microphone),
        Some("mic".to_string())
    );
}

#[test]
fn resolution_chain_prefers_inspect_then_listing_then_alias() {
    let inspect = "id 61, type PipeWire:Interface:Node";
    let status = "\n ├─ Sinks:\n │  *   33. speakers [vol: 1.0]\n";

    let r = resolve_target(TargetKind::System, Some(inspect), Some(status));
    assert_eq!(r.target, "61");
    assert_eq!(r.method, TargetResolutionMethod::WpctlInspect);

    let r = resolve_target(TargetKind::System, None, Some(status));
    assert_eq!(r.target, "33");
    assert_eq!(r.method, TargetResolutionMethod::WpctlStatus);

    let r = resolve_target(TargetKind::System, None, None);
    assert_eq!(r.target, "@DEFAULT_AUDIO_SINK.monitor");
    assert_eq!(r.method, TargetResolutionMethod::FallbackAlias);

    let r = resolve_target(TargetKind::Microphone, None, None);
    assert_eq!(r.target, "@DEFAULT_AUDIO_SOURCE@");
    assert_eq!(r.method, TargetResolutionMethod::FallbackAlias);
}

#[test]
fn kind_and_method_tags_are_stable() {
    assert_eq!(TargetKind::System.label(), "system");
    assert_eq!(TargetKind::Microphone.label(), "microphone");
    assert_eq!(TargetResolutionMethod::WpctlInspect.as_str(), "wpctl-inspect");
    assert_eq!(TargetResolutionMethod::WpctlStatus.as_str(), "wpctl-status");
    assert_eq!(TargetResolutionMethod::FallbackAlias.as_str(), "fallback-alias");
}
