use std::time::Duration;

use splinterd_config::{
    ConfigResolver, DefaultConfig, PartialConfig, PartialConfigBuilder,
};

fn strings(items: &[&str]) -> Vec<String> {
    items.iter().map(|item| item.to_string()).collect()
}

fn defaults() -> PartialConfig {
    DefaultConfig::new().build().unwrap()
}

#[test]
fn merge_of_no_source_has_every_field_absent() {
    let resolved = ConfigResolver::merge(&[]);
    assert_eq!(resolved.storage(), None);
    assert_eq!(resolved.transport(), None);
    assert_eq!(resolved.cert_dir(), None);
    assert_eq!(resolved.ca_certs(), None);
    assert_eq!(resolved.client_cert(), None);
    assert_eq!(resolved.client_key(), None);
    assert_eq!(resolved.server_cert(), None);
    assert_eq!(resolved.server_key(), None);
    assert_eq!(resolved.service_endpoint(), None);
    assert_eq!(resolved.network_endpoint(), None);
    assert_eq!(resolved.peers(), None);
    assert_eq!(resolved.node_id(), None);
    assert_eq!(resolved.bind(), None);
    assert_eq!(resolved.database(), None);
    assert_eq!(resolved.registry_backend(), None);
    assert_eq!(resolved.registry_file(), None);
    assert_eq!(resolved.heartbeat_interval(), None);
    assert_eq!(resolved.admin_service_coordinator_timeout(), None);
    assert_eq!(resolved.state_dir(), None);
}

#[test]
fn merge_of_the_defaults_alone_gives_the_defaults() {
    let resolved = ConfigResolver::merge(&[defaults()]);
    assert_eq!(resolved.storage().as_deref(), Some("yaml"));
    assert_eq!(resolved.transport().as_deref(), Some("raw"));
    assert_eq!(resolved.cert_dir().as_deref(), Some("/etc/splinter/certs/"));
    assert_eq!(
        resolved.ca_certs().as_deref(),
        Some("/etc/splinter/certs/ca.pem")
    );
    assert_eq!(
        resolved.client_cert().as_deref(),
        Some("/etc/splinter/certs/client.crt")
    );
    assert_eq!(
        resolved.client_key().as_deref(),
        Some("/etc/splinter/certs/private/client.key")
    );
    assert_eq!(
        resolved.server_cert().as_deref(),
        Some("/etc/splinter/certs/server.crt")
    );
    assert_eq!(
        resolved.server_key().as_deref(),
        Some("/etc/splinter/certs/private/server.key")
    );
    assert_eq!(resolved.service_endpoint().as_deref(), Some("127.0.0.1:8043"));
    assert_eq!(resolved.network_endpoint().as_deref(), Some("127.0.0.1:8044"));
    assert_eq!(resolved.peers(), Some(Vec::<String>::new()));
    assert_eq!(resolved.node_id(), None);
    assert_eq!(resolved.bind().as_deref(), Some("127.0.0.1:8080"));
    assert_eq!(resolved.database(), None);
    assert_eq!(resolved.registry_backend(), None);
    assert_eq!(resolved.registry_file(), None);
    assert_eq!(resolved.heartbeat_interval(), Some(30));
    assert_eq!(
        resolved.admin_service_coordinator_timeout(),
        Some(Duration::from_millis(30000))
    );
    assert_eq!(resolved.state_dir().as_deref(), Some("/var/lib/splinter/"));
}

#[test]
fn resolving_with_only_the_defaults() {
    let resolved = ConfigResolver::merge(&[defaults()]);
    assert_eq!(resolved.storage(), Some(String::from("yaml")));
    assert_eq!(resolved.bind(), Some(String::from("127.0.0.1:8080")));
    assert_eq!(resolved.peers(), Some(vec![]));
    assert_eq!(resolved.node_id(), None);
    assert_eq!(
        resolved.admin_service_coordinator_timeout(),
        Some(Duration::from_millis(30000))
    );
}

#[test]
fn merge_takes_each_field_from_the_first_source_that_has_it() {
    let command_line = PartialConfig::default()
        .with_bind(Some(String::from("0.0.0.0:9000")))
        .with_node_id(Some(String::from("node-1")));
    let environment = PartialConfig::default()
        .with_bind(Some(String::from("0.0.0.0:7000")))
        .with_storage(Some(String::from("memory")))
        .with_heartbeat_interval(Some(10));
    let file = PartialConfig::default()
        .with_storage(Some(String::from("postgres")))
        .with_heartbeat_interval(Some(20))
        .with_registry_backend(Some(String::from("FILE")))
        .with_admin_service_coordinator_timeout(Some(500));
    let resolved = ConfigResolver::merge(&[command_line, environment, file, defaults()]);
    // from the first source
    assert_eq!(resolved.bind().as_deref(), Some("0.0.0.0:9000"));
    assert_eq!(resolved.node_id().as_deref(), Some("node-1"));
    // from the second
    assert_eq!(resolved.storage().as_deref(), Some("memory"));
    assert_eq!(resolved.heartbeat_interval(), Some(10));
    // from the third
    assert_eq!(resolved.registry_backend().as_deref(), Some("FILE"));
    assert_eq!(
        resolved.admin_service_coordinator_timeout(),
        Some(Duration::from_millis(500))
    );
    // from the last
    assert_eq!(resolved.transport().as_deref(), Some("raw"));
    assert_eq!(resolved.state_dir().as_deref(), Some("/var/lib/splinter/"));
    // from none
    assert_eq!(resolved.registry_file(), None);
    assert_eq!(resolved.database(), None);
}

#[test]
fn merge_of_a_source_given_twice_is_the_merge_of_the_source() {
    let source = PartialConfig::default()
        .with_storage(Some(String::from("memory")))
        .with_peers(Some(strings(&["a:1", "b:2"])))
        .with_heartbeat_interval(Some(3));
    let once = ConfigResolver::merge(&[source.clone()]);
    let twice = ConfigResolver::merge(&[source.clone(), source]);
    assert_eq!(twice, once);
    let all = defaults();
    assert_eq!(
        ConfigResolver::merge(&[all.clone(), all.clone()]),
        ConfigResolver::merge(&[all])
    );
}

#[test]
fn merge_depends_on_the_order_of_the_sources() {
    let a = PartialConfig::default().with_transport(Some(String::from("tls")));
    let b = PartialConfig::default().with_transport(Some(String::from("raw")));
    let a_first = ConfigResolver::merge(&[a.clone(), b.clone()]);
    let b_first = ConfigResolver::merge(&[b.clone(), a.clone()]);
    assert_eq!(a_first.transport(), a.transport());
    assert_eq!(b_first.transport(), b.transport());
    assert_eq!(a_first.transport().as_deref(), Some("tls"));
    assert_eq!(b_first.transport().as_deref(), Some("raw"));
    assert_ne!(a_first, b_first);
}

#[test]
fn merge_replaces_the_peers_whole() {
    let upper = PartialConfig::default().with_peers(Some(strings(&["c:3"])));
    let lower = PartialConfig::default().with_peers(Some(strings(&["a:1", "b:2"])));
    let resolved = ConfigResolver::merge(&[upper, lower.clone()]);
    assert_eq!(resolved.peers(), Some(strings(&["c:3"])));
    let empty_first = PartialConfig::default().with_peers(Some(vec![]));
    let resolved = ConfigResolver::merge(&[empty_first, lower.clone()]);
    assert_eq!(resolved.peers(), Some(vec![]));
    let silent = PartialConfig::default();
    let resolved = ConfigResolver::merge(&[silent, lower]);
    assert_eq!(resolved.peers(), Some(strings(&["a:1", "b:2"])));
}

#[test]
fn merge_keeps_a_present_zero_value_over_a_lower_source() {
    let upper = PartialConfig::default()
        .with_heartbeat_interval(Some(0))
        .with_storage(Some(String::new()))
        .with_admin_service_coordinator_timeout(Some(0));
    let resolved = ConfigResolver::merge(&[upper, defaults()]);
    assert_eq!(resolved.heartbeat_interval(), Some(0));
    assert_eq!(resolved.storage(), Some(String::new()));
    assert_eq!(
        resolved.admin_service_coordinator_timeout(),
        Some(Duration::from_millis(0))
    );
}

#[test]
fn merge_of_sources_that_say_nothing_has_every_field_absent() {
    let resolved = ConfigResolver::merge(&[PartialConfig::default(), PartialConfig::default()]);
    assert_eq!(resolved, ConfigResolver::merge(&[]));
}

#[test]
fn merge_with_database_default() {
    let with_database = DefaultConfig::new().with_database().build().unwrap();
    let resolved = ConfigResolver::merge(&[PartialConfig::default(), with_database]);
    assert_eq!(resolved.database().as_deref(), Some("127.0.0.1:5432"));
}
