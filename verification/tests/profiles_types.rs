use indexxorcist::connect::{routing_tcp_connect_failed_message, routing_tcp_connect_timeout_message,
    tcp_connect_failed_message, tcp_connect_timeout_message, ConnectDirective, ConnectFlow,
    ConnectOutcome};
use indexxorcist::control::{check_control, wait_chunk_ms, ControlCheck, MaintenanceControl};
use indexxorcist::profiles::{remove_profile, resolve_password, upsert_profile};
use indexxorcist::text::decimal_string;
use indexxorcist::types::{default_connection_timeout_ms, default_max_parallel_databases,
    default_rebuild_threshold, default_reorganize_threshold, default_retry_base_delay_ms,
    default_retry_max_attempts, default_retry_max_delay_ms, default_true, AuthType,
    MaintenanceOptions, ServerProfile, ServerProfileOnDisk};

fn disk_profile(id: &str, name: &str) -> ServerProfileOnDisk {
    ServerProfileOnDisk {
        id: id.to_string(),
        name: name.to_string(),
        server: "db.example".to_string(),
        port: 1433,
        auth_type: AuthType::SqlServer,
        username: "sa".to_string(),
        encrypt: true,
        trust_server_certificate: true,
    }
}

#[test]
fn option_defaults() {
    let o = MaintenanceOptions::default();
    assert!(o.rebuild_online);
    assert!(!o.free_proc_cache);
    assert_eq!(o.rebuild_threshold_centipercent, 3000);
    assert_eq!(o.reorganize_threshold_centipercent, 1000);
    assert_eq!(o.retry_max_attempts, 3);
    assert_eq!(o.retry_base_delay_ms, 1000);
    assert_eq!(o.retry_max_delay_ms, 30000);
    assert_eq!(o.connection_timeout_ms, 30000);
    assert_eq!(o.request_timeout_ms, 0);
    assert!(!o.parallel_databases);
    assert_eq!(o.max_parallel_databases, 4);

    assert!(default_true());
    assert_eq!(default_rebuild_threshold(), 3000);
    assert_eq!(default_reorganize_threshold(), 1000);
    assert_eq!(default_retry_max_attempts(), 3);
    assert_eq!(default_retry_base_delay_ms(), 1000);
    assert_eq!(default_retry_max_delay_ms(), 30000);
    assert_eq!(default_connection_timeout_ms(), 30000);
    assert_eq!(default_max_parallel_databases(), 4);
}

#[test]
fn profile_defaults() {
    let p = ServerProfile::default();
    assert_eq!(p.port, 1433);
    assert_eq!(p.auth_type, AuthType::default());
    assert!(p.encrypt);
    assert!(p.trust_server_certificate);
    assert!(p.id.is_empty());
    assert!(p.password.is_empty());
}

#[test]
fn profile_round_trip_through_disk_form() {
    let mut p = ServerProfile::default();
    p.id = "p9".to_string();
    p.name = "prod".to_string();
    p.server = "db.example".to_string();
    p.username = "sa".to_string();
    p.password = "secret".to_string();
    let disk = ServerProfileOnDisk::from_profile(p.clone());
    let restored = disk.into_profile("secret".to_string());
    assert_eq!(restored.id, p.id);
    assert_eq!(restored.name, p.name);
    assert_eq!(restored.server, p.server);
    assert_eq!(restored.port, p.port);
    assert_eq!(restored.username, p.username);
    assert_eq!(restored.password, "secret");
    assert_eq!(restored.encrypt, p.encrypt);
    assert_eq!(restored.trust_server_certificate, p.trust_server_certificate);
}

#[test]
fn password_resolution_precedence() {
    // an embedded password wins and is migrated
    let r = resolve_password(Some("emb".to_string()), "kc".to_string(), Some("leg".to_string()));
    assert_eq!(r.password, "emb");
    assert!(r.store_in_keychain);

    // an empty embedded password falls through to the keychain
    let r = resolve_password(Some("".to_string()), "kc".to_string(), None);
    assert_eq!(r.password, "kc");
    assert!(!r.store_in_keychain);

    // an empty keychain falls through to the legacy file, migrating
    let r = resolve_password(None, "".to_string(), Some("leg".to_string()));
    assert_eq!(r.password, "leg");
    assert!(r.store_in_keychain);

    // an empty legacy entry is used but not migrated
    let r = resolve_password(None, "".to_string(), Some("".to_string()));
    assert_eq!(r.password, "");
    assert!(!r.store_in_keychain);

    // nothing anywhere: empty password
    let r = resolve_password(None, "".to_string(), None);
    assert_eq!(r.password, "");
    assert!(!r.store_in_keychain);
}

#[test]
fn upsert_replaces_or_appends() {
    let mut profiles = vec![disk_profile("a", "first"), disk_profile("b", "second")];
    upsert_profile(&mut profiles, disk_profile("b", "renamed"));
    assert_eq!(profiles.len(), 2);
    assert_eq!(profiles[1].name, "renamed");
    upsert_profile(&mut profiles, disk_profile("c", "third"));
    assert_eq!(profiles.len(), 3);
    assert_eq!(profiles[2].id, "c");
}

#[test]
fn remove_deletes_by_id() {
    let mut profiles = vec![disk_profile("a", "first"), disk_profile("b", "second"),
        disk_profile("c", "third")];
    remove_profile(&mut profiles, &"b".to_string());
    let ids: Vec<&str> = profiles.iter().map(|p| p.id.as_str()).collect();
    assert_eq!(ids, vec!["a", "c"]);
    remove_profile(&mut profiles, &"missing".to_string());
    assert_eq!(profiles.len(), 2);
}

#[test]
fn control_check_decisions() {
    assert_eq!(check_control(MaintenanceControl::Running), ControlCheck::Proceed);
    assert_eq!(check_control(MaintenanceControl::Paused), ControlCheck::Wait { poll_ms: 150 });
    assert_eq!(
        check_control(MaintenanceControl::Stop),
        ControlCheck::Interrupt { control: MaintenanceControl::Stop }
    );
    assert_eq!(
        check_control(MaintenanceControl::SkipDatabase),
        ControlCheck::Interrupt { control: MaintenanceControl::SkipDatabase }
    );
}

#[test]
fn wait_chunks_are_bounded() {
    assert_eq!(wait_chunk_ms(0), 0);
    assert_eq!(wait_chunk_ms(40), 40);
    assert_eq!(wait_chunk_ms(100), 100);
    assert_eq!(wait_chunk_ms(250), 100);
}

#[test]
fn decimal_rendering() {
    assert_eq!(decimal_string(0), "0");
    assert_eq!(decimal_string(7), "7");
    assert_eq!(decimal_string(30000), "30000");
    assert_eq!(decimal_string(u64::MAX), "18446744073709551615");
}

#[test]
fn connect_flow_follows_one_redirect() {
    let mut flow = ConnectFlow::new();
    match flow.on_outcome(ConnectOutcome::Routed {
        host: "real-host".to_string(),
        port: 14330,
        detail: "routed".to_string(),
    }) {
        ConnectDirective::Reconnect { host, port } => {
            assert_eq!(host, "real-host");
            assert_eq!(port, 14330);
        },
        _ => panic!("expected a reconnect"),
    }
    // a second redirect is a connection failure
    match flow.on_outcome(ConnectOutcome::Routed {
        host: "elsewhere".to_string(),
        port: 1,
        detail: "routed again".to_string(),
    }) {
        ConnectDirective::Fail { message } => {
            assert_eq!(message, "Routing connection failed: routed again");
        },
        _ => panic!("expected a failure"),
    }
}

#[test]
fn connect_flow_failure_messages() {
    let mut flow = ConnectFlow::new();
    match flow.on_outcome(ConnectOutcome::Failed { detail: "bad login".to_string() }) {
        ConnectDirective::Fail { message } => assert_eq!(message, "Connection failed: bad login"),
        _ => panic!("expected a failure"),
    }

    let mut flow = ConnectFlow::new();
    assert!(matches!(
        flow.on_outcome(ConnectOutcome::Routed {
            host: "h".to_string(),
            port: 2,
            detail: "r".to_string(),
        }),
        ConnectDirective::Reconnect { .. }
    ));
    match flow.on_outcome(ConnectOutcome::Failed { detail: "refused".to_string() }) {
        ConnectDirective::Fail { message } => {
            assert_eq!(message, "Routing connection failed: refused");
        },
        _ => panic!("expected a failure"),
    }

    let mut flow = ConnectFlow::new();
    assert!(matches!(flow.on_outcome(ConnectOutcome::Connected), ConnectDirective::Done));
}

#[test]
fn tcp_messages() {
    assert_eq!(
        tcp_connect_failed_message("db.example", 1433, "refused"),
        "TCP connect to db.example:1433 failed: refused"
    );
    assert_eq!(
        tcp_connect_timeout_message("db.example", 1433, 30000),
        "TCP connect to db.example:1433 timed out after 30000ms"
    );
    assert_eq!(
        routing_tcp_connect_failed_message("other", 14330, "refused"),
        "Routing TCP connect to other:14330 failed: refused"
    );
    assert_eq!(
        routing_tcp_connect_timeout_message("other", 14330),
        "Routing TCP connect to other:14330 timed out"
    );
}
