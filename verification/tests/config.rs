use swarmdrop::config::{agent_version, session_config, PROTOCOL_VERSION};

#[test]
fn agent_version_joins_the_host_facts() {
    let text = agent_version("0.3.1", "linux", "x86_64", "workstation");
    assert_eq!(text, "swarmdrop/0.3.1; os=linux; arch=x86_64; host=workstation");
}

#[test]
fn agent_version_keeps_empty_facts_in_place() {
    assert_eq!(agent_version("", "", "", ""), "swarmdrop/; os=; arch=; host=");
}

#[test]
fn agent_version_passes_non_ascii_host_names_through() {
    let text = agent_version("1.0.0", "macos", "aarch64", "büro-mac");
    assert_eq!(text, "swarmdrop/1.0.0; os=macos; arch=aarch64; host=büro-mac");
}

#[test]
fn protocol_version_is_fixed() {
    assert_eq!(PROTOCOL_VERSION, "/swarmdrop/1.0.0");
}

#[test]
fn session_config_switches_every_feature_on() {
    let config = session_config("0.3.1", "windows", "x86_64", "desk");
    assert_eq!(config.protocol_version, "/swarmdrop/1.0.0");
    assert_eq!(config.agent_version, "swarmdrop/0.3.1; os=windows; arch=x86_64; host=desk");
    assert!(config.mdns);
    assert!(config.relay_client);
    assert!(config.dcutr);
    assert!(config.autonat);
}

#[test]
fn session_config_is_built_fresh_for_each_start() {
    let first = session_config("0.3.1", "linux", "x86_64", "a");
    let second = session_config("0.3.1", "linux", "x86_64", "b");
    assert_ne!(first, second);
    assert_eq!(first, session_config("0.3.1", "linux", "x86_64", "a"));
}
