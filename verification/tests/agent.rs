use nmrs::agent::{SecretAgent, SecretAgentBuilder, SecretAgentCapabilities};

#[test]
fn defaults_match_networkmanager_secret_agent_contract() {
    let builder = SecretAgentBuilder::default();

    assert_eq!(
        builder.object_path(),
        "/org/freedesktop/NetworkManager/SecretAgent"
    );
    assert_eq!(
        builder.identifier(),
        "com.system76.CosmicApplets.nmrs.secret_agent"
    );
}

#[test]
fn builder_overrides_one_setting_at_a_time() {
    let builder = SecretAgent::builder()
        .with_identifier("com.example.demo")
        .with_queue_depth(4);
    assert_eq!(builder.identifier(), "com.example.demo");
    assert_eq!(builder.queue_depth(), 4);
    assert_eq!(builder.object_path(), "/org/freedesktop/NetworkManager/SecretAgent");
    assert_eq!(builder.capabilities().bits(), 1);

    let builder = builder
        .with_object_path("/test/agent")
        .with_capabilities(SecretAgentCapabilities::NONE());
    assert_eq!(builder.object_path(), "/test/agent");
    assert_eq!(builder.capabilities(), SecretAgentCapabilities::NONE());
    assert_eq!(builder.identifier(), "com.example.demo");
}

#[test]
fn default_queue_depth_and_capabilities() {
    let builder = SecretAgent::builder();
    assert_eq!(builder.queue_depth(), 32);
    assert_eq!(builder.capabilities(), SecretAgentCapabilities::VPN_HINTS());
}
