use mitoxide::ssh::bootstrap::{
    Probes, DEVSHM_SCRIPT, MEMFD_SCRIPT, PYTHON_SCRIPT, SHELL_SCRIPT, TEMPFILE_SCRIPT,
};
use mitoxide::ssh::pool::{Acquired, AttemptOutcome, PoolEntry, RetryStep};
use mitoxide::{
    Bootstrap, BootstrapMethod, Connection, ConnectionInfo, ConnectionPool, PlatformInfo,
    PoolConfig, PoolStats, PooledConnection, SshConfig, StdioTransport, TransportError,
    TransportType,
};
use std::time::Duration;

fn detected(methods: Vec<BootstrapMethod>) -> Bootstrap {
    let mut bootstrap = Bootstrap::new();
    bootstrap.set_platform_info(PlatformInfo {
        arch: "x86_64".to_string(),
        os: "Linux".to_string(),
        version: None,
        bootstrap_methods: methods,
    });
    bootstrap
}

#[test]
fn test_bootstrap_creation() {
    let bootstrap = Bootstrap::new();
    assert!(bootstrap.platform_info().is_none());
    assert!(matches!(
        bootstrap.generate_bootstrap_script(b"x"),
        Err(TransportError::Bootstrap(_))
    ));
}

#[test]
fn test_custom_script() {
    let custom_script = "echo 'custom bootstrap'".to_string();
    let bootstrap = detected(vec![BootstrapMethod::Shell]).with_custom_script(custom_script.clone());
    assert_eq!(bootstrap.generate_bootstrap_script(b"x").unwrap(), custom_script);
}

#[test]
fn test_platform_detection() {
    let bootstrap = Bootstrap::new();
    let (arch, os, version) =
        bootstrap.parse_platform("x86_64\nLinux\nUbuntu 20.04.3 LTS").unwrap();
    assert_eq!(arch, "x86_64");
    assert_eq!(os, "Linux");
    assert_eq!(version, Some("Ubuntu 20.04.3 LTS".to_string()));
    let probes = Probes { memfd: true, devshm: true, tmp: true, python: true };
    assert!(!bootstrap.methods_from_probes(&os, probes).is_empty());
}

#[test]
fn test_bootstrap_method_detection() {
    let methods = vec![
        BootstrapMethod::MemfdCreate,
        BootstrapMethod::Python,
        BootstrapMethod::DevShm,
        BootstrapMethod::TempFile,
        BootstrapMethod::Shell,
    ];

    for (i, method1) in methods.iter().enumerate() {
        for (j, method2) in methods.iter().enumerate() {
            if i != j {
                assert_ne!(method1, method2);
            }
        }
    }
}

#[test]
fn test_script_generation() {
    let bootstrap = Bootstrap::new();
    let (arch, os, version) =
        bootstrap.parse_platform("x86_64\nLinux\nUbuntu 20.04.3 LTS").unwrap();
    let methods = bootstrap.methods_from_probes(
        &os,
        Probes { memfd: true, devshm: true, tmp: true, python: true },
    );
    let mut bootstrap = bootstrap;
    bootstrap.set_platform_info(PlatformInfo { arch, os, version, bootstrap_methods: methods });

    let agent_binary = b"fake agent binary";
    let script = bootstrap.generate_bootstrap_script(agent_binary).unwrap();

    assert!(!script.is_empty());
    assert!(script.contains("set -e"));
}

#[test]
fn test_memfd_script_generation() {
    let bootstrap = Bootstrap::new();
    let script = bootstrap.generate_memfd_script();

    assert!(script.contains("memfd_create"));
    assert!(script.contains("python3"));
    assert!(script.contains("syscall(319"));
}

#[test]
fn test_python_script_generation() {
    let bootstrap = Bootstrap::new();
    let script = bootstrap.generate_python_script();

    assert!(script.contains("tempfile"));
    assert!(script.contains("python3"));
    assert!(script.contains("os.execv"));
}

#[test]
fn test_tempfile_script_generation() {
    let bootstrap = Bootstrap::new();
    let script = bootstrap.generate_tempfile_script();

    assert!(script.contains("/tmp"));
    assert!(script.contains("chmod +x"));
    assert!(script.contains("exec"));
}

#[test]
fn test_shell_script_generation() {
    let bootstrap = Bootstrap::new();
    let script = bootstrap.generate_shell_script();

    assert!(script.contains("/dev/shm"));
    assert!(script.contains("/tmp"));
    assert!(script.contains("chmod +x"));
    assert!(script.contains("exec"));
}

#[test]
fn scripts_are_the_launchers_word_for_word() {
    let bootstrap = Bootstrap::new();
    assert_eq!(bootstrap.generate_memfd_script(), MEMFD_SCRIPT);
    assert_eq!(bootstrap.generate_python_script(), PYTHON_SCRIPT);
    assert_eq!(bootstrap.generate_devshm_script(), DEVSHM_SCRIPT);
    assert_eq!(bootstrap.generate_tempfile_script(), TEMPFILE_SCRIPT);
    assert_eq!(bootstrap.generate_shell_script(), SHELL_SCRIPT);
    assert_eq!(
        bootstrap.generate_tempfile_script(),
        "set -e\nAGENT_PATH=\"/tmp/mitoxide-agent-$$-$(date +%s)\"\ncat > \"$AGENT_PATH\"\nchmod +x \"$AGENT_PATH\"\ntrap 'rm -f \"$AGENT_PATH\" 2>/dev/null || true' EXIT\nexec \"$AGENT_PATH\""
    );
}

#[test]
fn each_method_has_its_launcher() {
    let cases = vec![
        (BootstrapMethod::MemfdCreate, MEMFD_SCRIPT),
        (BootstrapMethod::Python, PYTHON_SCRIPT),
        (BootstrapMethod::DevShm, DEVSHM_SCRIPT),
        (BootstrapMethod::TempFile, TEMPFILE_SCRIPT),
        (BootstrapMethod::Shell, SHELL_SCRIPT),
    ];
    for (method, script) in cases {
        let bootstrap = detected(vec![method, BootstrapMethod::Shell]);
        assert_eq!(bootstrap.generate_bootstrap_script(b"agent").unwrap(), script);
    }
}

#[test]
fn script_generation_fails_without_platform_or_methods() {
    match Bootstrap::new().generate_bootstrap_script(b"agent") {
        Err(TransportError::Bootstrap(m)) => assert_eq!(m, "Platform not detected"),
        other => panic!("unexpected {:?}", other),
    }
    match detected(vec![]).generate_bootstrap_script(b"agent") {
        Err(TransportError::Bootstrap(m)) => assert_eq!(m, "No bootstrap methods available"),
        other => panic!("unexpected {:?}", other),
    }
}

#[test]
fn bootstrap_falls_back_to_devshm() {
    let bootstrap = Bootstrap::new();
    let probes = Probes { memfd: false, devshm: true, tmp: true, python: true };
    let methods = bootstrap.methods_from_probes("Linux", probes);
    assert_eq!(methods[0], BootstrapMethod::DevShm);
    let script = detected(methods).generate_bootstrap_script(b"agent").unwrap();
    assert!(script.contains("/dev/shm/"));
    assert!(script.contains("trap 'rm -f \"$AGENT_PATH\""));
    assert!(script.contains("EXIT"));
}

#[test]
fn methods_come_in_order_of_preference() {
    let bootstrap = Bootstrap::new();
    let all = Probes { memfd: true, devshm: true, tmp: true, python: true };
    assert_eq!(
        bootstrap.methods_from_probes("Linux", all),
        vec![
            BootstrapMethod::MemfdCreate,
            BootstrapMethod::DevShm,
            BootstrapMethod::TempFile,
            BootstrapMethod::Python,
            BootstrapMethod::Shell,
        ]
    );
    assert_eq!(
        bootstrap.methods_from_probes("Darwin", all),
        vec![
            BootstrapMethod::DevShm,
            BootstrapMethod::TempFile,
            BootstrapMethod::Python,
            BootstrapMethod::Shell,
        ]
    );
    let none = Probes { memfd: false, devshm: false, tmp: false, python: false };
    assert_eq!(bootstrap.methods_from_probes("Linux", none), vec![BootstrapMethod::Shell]);
    assert!(bootstrap.wants_memfd_probe("Linux"));
    assert!(!bootstrap.wants_memfd_probe("linux"));
}

#[test]
fn probe_output_is_trimmed() {
    let bootstrap = Bootstrap::new();
    assert!(bootstrap.probe_says(" True\n", "True"));
    assert!(bootstrap.probe_says("available\r\n", "available"));
    assert!(!bootstrap.probe_says("False", "True"));
    assert!(!bootstrap.probe_says("not available", "available"));
}

#[test]
fn platform_output_needs_two_lines() {
    let bootstrap = Bootstrap::new();
    match bootstrap.parse_platform("x86_64\n") {
        Err(TransportError::Bootstrap(m)) => assert_eq!(m, "Failed to detect platform"),
        other => panic!("unexpected {:?}", other),
    }
    assert!(bootstrap.parse_platform("").is_err());
    let (arch, os, version) = bootstrap.parse_platform("  aarch64 \n Darwin\n").unwrap();
    assert_eq!((arch.as_str(), os.as_str(), version), ("aarch64", "Darwin", None));
    let (arch, os, version) =
        bootstrap.parse_platform("x86_64\nLinux\n Description:\tUbuntu \nmore\n").unwrap();
    assert_eq!(arch, "x86_64");
    assert_eq!(os, "Linux");
    assert_eq!(version, Some("Description:\tUbuntu".to_string()));
}

#[test]
fn test_connection_creation() {
    let conn = Connection::<()>::new(None);
    assert!(!conn.is_connected());
}

#[test]
fn test_connection_close() {
    let mut conn = Connection::<()>::new(None);
    let result = conn.close();
    assert!(result.is_none());
    assert!(!conn.is_connected());
}

#[test]
fn a_connection_is_connected_while_it_holds_its_process() {
    let mut conn = Connection::new(Some(7u32));
    assert!(conn.is_connected());
    assert_eq!(*conn.process_mut(), Some(7));
    assert_eq!(conn.take_process(), Some(7));
    assert!(!conn.is_connected());
    let mut conn = Connection::new(Some(8u32));
    assert_eq!(conn.close(), Some(8));
    assert!(!conn.is_connected());
    assert_eq!(conn.close(), None);
}

#[test]
fn test_pool_config_default() {
    let config = PoolConfig::default();
    assert_eq!(config.max_connections_per_host, 10);
    assert_eq!(config.max_idle_time, Duration::from_secs(300));
    assert_eq!(config.connection_timeout, Duration::from_secs(30));
}

#[test]
fn pool_config_default_is_complete() {
    let config = PoolConfig::default();
    assert_eq!(config.health_check_interval, Duration::from_secs(60));
    assert_eq!(config.max_retries, 3);
    assert_eq!(config.retry_delay, Duration::from_secs(1));
}

#[test]
fn test_pool_creation() {
    let config = PoolConfig::default();
    let pool = ConnectionPool::<u32>::new(config);

    let stats = pool.stats();
    assert_eq!(stats.total_connections, 0);
    assert_eq!(stats.healthy_connections, 0);
    assert_eq!(stats.hosts, 0);
}

#[test]
fn test_add_host() {
    let config = PoolConfig::default();
    let mut pool = ConnectionPool::<u32>::new(config);

    let ssh_config = SshConfig::default();
    pool.add_host("test.example.com".to_string(), ssh_config);

    assert!(matches!(pool.acquire("test.example.com"), Ok(Acquired::Connect(_))));
    match pool.acquire("other.example.com") {
        Err(TransportError::Configuration(m)) => {
            assert_eq!(m, "No SSH configuration found for host: other.example.com")
        }
        other => panic!("unexpected {:?}", other),
    }
}

#[test]
fn test_pooled_connection_properties() {
    let pooled_conn =
        PooledConnection::new("test.example.com".to_string(), Connection::<u32>::new(None));

    assert_eq!(pooled_conn.host_key(), "test.example.com");
    assert!(!pooled_conn.is_connected());
}

#[test]
fn a_loan_hands_its_connection_out_once() {
    let mut loan = PooledConnection::new("h".to_string(), Connection::new(Some(1u32)));
    assert!(loan.is_connected());
    assert_eq!(loan.id(), loan.id());
    assert!(loan.connection_mut().is_some());
    let conn = loan.take_connection().unwrap();
    assert!(conn.is_connected());
    assert!(loan.take_connection().is_none());
    assert!(!loan.is_connected());
}

#[test]
fn test_pool_stats() {
    let stats = PoolStats { total_connections: 5, healthy_connections: 4, hosts: 2 };

    assert_eq!(stats.total_connections, 5);
    assert_eq!(stats.healthy_connections, 4);
    assert_eq!(stats.hosts, 2);
}

#[test]
fn pool_reuses_a_returned_connection() {
    let config = PoolConfig { max_connections_per_host: 1, ..PoolConfig::default() };
    let mut pool = ConnectionPool::<u32>::new(config);
    pool.add_host("h".to_string(), SshConfig::default());

    let mut created = 0u32;
    let mut connection = match pool.acquire("h").unwrap() {
        Acquired::Connect(_) => {
            created += 1;
            Connection::new(Some(41u32))
        }
        Acquired::Reuse(_) => panic!("nothing was pooled"),
    };
    for round in 0..5u64 {
        assert!(pool.release("h".to_string(), connection, round).is_none());
        assert_eq!(pool.stats().total_connections, 1);
        connection = match pool.acquire("h").unwrap() {
            Acquired::Connect(_) => panic!("the pooled connection was not reused"),
            Acquired::Reuse(mut c) => {
                assert_eq!(*c.process_mut(), Some(41));
                c
            }
        };
        assert_eq!(pool.stats().total_connections, 0);
    }
    assert_eq!(created, 1);
}

#[test]
fn pool_keeps_no_more_than_allowed() {
    let config = PoolConfig { max_connections_per_host: 2, ..PoolConfig::default() };
    let mut pool = ConnectionPool::<u32>::new(config);
    pool.add_host("h".to_string(), SshConfig::default());
    assert!(pool.release("h".to_string(), Connection::new(Some(1)), 0).is_none());
    assert!(pool.release("h".to_string(), Connection::new(Some(2)), 0).is_none());
    let back = pool.release("h".to_string(), Connection::new(Some(3)), 0);
    assert!(back.is_some());
    assert!(pool.release("g".to_string(), Connection::new(Some(4)), 0).is_none());
    let not_connected = pool.release("g".to_string(), Connection::new(None), 0);
    assert!(not_connected.is_some());
    assert_eq!(
        pool.stats(),
        PoolStats { total_connections: 3, healthy_connections: 3, hosts: 2 }
    );
    // the first that came back is the first to leave
    match pool.acquire("h").unwrap() {
        Acquired::Reuse(mut c) => assert_eq!(*c.process_mut(), Some(1)),
        _ => panic!("expected a pooled connection"),
    }
    let closed = pool.stop();
    assert_eq!(closed.len(), 2);
    assert_eq!(pool.stats().total_connections, 0);
}

#[test]
fn a_full_host_is_refused_when_nothing_can_be_reused() {
    let config = PoolConfig { max_connections_per_host: 0, ..PoolConfig::default() };
    let mut pool = ConnectionPool::<u32>::new(config);
    pool.add_host("h".to_string(), SshConfig::default());
    match pool.acquire("h") {
        Err(TransportError::Configuration(m)) => {
            assert_eq!(m, "Maximum connections reached for host: h")
        }
        other => panic!("unexpected {:?}", other),
    }
}

#[test]
fn health_check_drops_idle_and_dead_connections() {
    let config = PoolConfig {
        max_idle_time: Duration::from_millis(1000),
        ..PoolConfig::default()
    };
    let mut pool = ConnectionPool::<u32>::new(config);
    assert!(pool.release("a".to_string(), Connection::new(Some(1)), 0).is_none());
    assert!(pool.release("a".to_string(), Connection::new(Some(2)), 500).is_none());
    assert!(pool.release("b".to_string(), Connection::new(Some(3)), 1000).is_none());
    assert!(pool.health_check(1000).is_empty());
    assert_eq!(pool.stats().total_connections, 3);
    let mut dropped = pool.health_check(1501);
    assert_eq!(dropped.len(), 2);
    assert_eq!(*dropped[0].process_mut(), Some(1));
    assert_eq!(*dropped[1].process_mut(), Some(2));
    assert_eq!(
        pool.stats(),
        PoolStats { total_connections: 1, healthy_connections: 1, hosts: 1 }
    );
    match pool.acquire("b").unwrap() {
        Acquired::Reuse(mut c) => assert_eq!(*c.process_mut(), Some(3)),
        _ => panic!("expected a pooled connection"),
    }
}

#[test]
fn attempts_are_retried_until_none_is_left() {
    let pool = ConnectionPool::<u32>::new(PoolConfig::default());
    assert!(pool.first_attempt().is_ok());
    match pool.after_attempt(1, AttemptOutcome::Failed(TransportError::Timeout)) {
        RetryStep::RetryAfter(d) => assert_eq!(d, Duration::from_secs(1)),
        other => panic!("unexpected {:?}", other),
    }
    match pool.after_attempt(2, AttemptOutcome::TimedOut) {
        RetryStep::RetryAfter(d) => assert_eq!(d, Duration::from_secs(1)),
        other => panic!("unexpected {:?}", other),
    }
    assert!(matches!(
        pool.after_attempt(3, AttemptOutcome::TimedOut),
        RetryStep::GiveUp(TransportError::Timeout)
    ));
    match pool.after_attempt(3, AttemptOutcome::Failed(TransportError::Connection("x".into()))) {
        RetryStep::GiveUp(TransportError::Connection(m)) => assert_eq!(m, "x"),
        other => panic!("unexpected {:?}", other),
    }
    assert!(matches!(
        pool.after_attempt(1, AttemptOutcome::Connected(Connection::new(Some(5)))),
        RetryStep::Done(_)
    ));
    let none = ConnectionPool::<u32>::new(PoolConfig { max_retries: 0, ..PoolConfig::default() });
    match none.first_attempt() {
        Err(TransportError::Connection(m)) => assert_eq!(m, "All connection attempts failed"),
        other => panic!("unexpected {:?}", other),
    }
}

#[test]
fn pool_entries_carry_their_host() {
    let entry = PoolEntry {
        host: "h".to_string(),
        connection: Connection::new(Some(1u32)),
        last_used: 5,
        healthy: true,
        use_count: 1,
    };
    assert_eq!(entry.host, "h");
    assert!(entry.connection.is_connected());
}

#[test]
fn test_ssh_config_default() {
    let config = SshConfig::default();
    assert_eq!(config.host, "localhost");
    assert_eq!(config.port, 22);
    assert_eq!(config.username, "root");
    assert_eq!(config.connect_timeout, 30);
    assert_eq!(config.command_timeout, 300);
}

#[test]
fn test_stdio_transport_creation() {
    let config = SshConfig::default();
    let transport = StdioTransport::new(config.clone());

    let info = transport.connection_info();
    assert_eq!(info.host, config.host);
    assert_eq!(info.port, config.port);
    assert_eq!(info.username, config.username);
    assert_eq!(info.transport_type, TransportType::SshSubprocess);
}

#[test]
fn test_ssh_args_building() {
    let mut config = SshConfig::default();
    config.host = "example.com".to_string();
    config.port = 2222;
    config.username = "testuser".to_string();
    config.key_path = Some("/path/to/key".to_string());
    config.options.insert("ServerAliveInterval".to_string(), "60".to_string());

    let transport = StdioTransport::new(config);
    let args = transport.build_ssh_args();

    assert!(args.contains(&"-p".to_string()));
    assert!(args.contains(&"2222".to_string()));
    assert!(args.contains(&"-i".to_string()));
    assert!(args.contains(&"/path/to/key".to_string()));
    assert!(args.contains(&"-o".to_string()));
    assert!(args.contains(&"ServerAliveInterval=60".to_string()));
    assert!(args.contains(&"testuser@example.com".to_string()));
}

#[test]
fn ssh_args_are_exact() {
    let mut config = SshConfig::default();
    config.host = "example.com".to_string();
    config.port = 2222;
    config.username = "testuser".to_string();
    config.key_path = Some("/path/to/key".to_string());
    config.connect_timeout = 7;
    config.options.insert("ServerAliveInterval".to_string(), "60".to_string());
    config.options.insert("Compression".to_string(), "yes".to_string());
    config.options.insert("ServerAliveInterval".to_string(), "61".to_string());
    let transport = StdioTransport::new(config);
    assert_eq!(
        transport.build_ssh_args(),
        vec![
            "-o", "BatchMode=yes", "-o", "StrictHostKeyChecking=no", "-o", "ConnectTimeout=7",
            "-p", "2222", "-i", "/path/to/key", "-o", "ServerAliveInterval=61", "-o",
            "Compression=yes", "testuser@example.com",
        ]
    );
    assert_eq!(
        StdioTransport::new(SshConfig::default()).command_args("echo 'connection_test'"),
        vec![
            "-o", "BatchMode=yes", "-o", "StrictHostKeyChecking=no", "-o", "ConnectTimeout=30",
            "-p", "22", "root@localhost", "echo 'connection_test'",
        ]
    );
}

#[test]
fn test_connection_info() {
    let config = SshConfig {
        host: "test.example.com".to_string(),
        port: 2222,
        username: "testuser".to_string(),
        ..Default::default()
    };

    let transport = StdioTransport::new(config);
    let info: ConnectionInfo = transport.connection_info();

    assert_eq!(info.host, "test.example.com");
    assert_eq!(info.port, 2222);
    assert_eq!(info.username, "testuser");
    assert_eq!(info.transport_type, TransportType::SshSubprocess);
}

#[test]
fn connection_test_looks_for_the_token() {
    let mut transport = StdioTransport::new(SshConfig::default());
    assert!(!transport.is_connected());
    transport.mark_connected();
    assert!(transport.is_connected());
    assert!(transport.check_connection_test("connection_test\n").is_ok());
    assert!(transport.check_connection_test("Warning: x\nconnection_test").is_ok());
    match transport.check_connection_test("connection test") {
        Err(TransportError::Connection(m)) => assert_eq!(m, "Connection test failed"),
        other => panic!("unexpected {:?}", other),
    }
    match transport.command_failed("denied") {
        TransportError::Connection(m) => assert_eq!(m, "SSH command failed: denied"),
        other => panic!("unexpected {:?}", other),
    }
    match transport.execution_failed("no ssh") {
        TransportError::Connection(m) => assert_eq!(m, "Failed to execute SSH: no ssh"),
        other => panic!("unexpected {:?}", other),
    }
    match transport.bootstrap_failed("boom") {
        TransportError::Bootstrap(m) => assert_eq!(m, "Agent bootstrap failed: boom"),
        other => panic!("unexpected {:?}", other),
    }
}

#[test]
fn transport_errors_have_their_texts() {
    let cases = vec![
        (TransportError::Connection("a".into()), "SSH connection error: a"),
        (TransportError::Bootstrap("b".into()), "Bootstrap error: b"),
        (TransportError::Authentication("c".into()), "Authentication failed: c"),
        (TransportError::Io("d".into()), "I/O error: d"),
        (TransportError::Timeout, "Operation timed out"),
        (TransportError::Protocol("e".into()), "Protocol error: e"),
        (TransportError::Configuration("f".into()), "Configuration error: f"),
        (
            TransportError::CommandFailed { code: -2, message: "g".into() },
            "Remote command failed with exit code -2: g",
        ),
        (
            TransportError::CommandFailed { code: i32::MIN, message: "h".into() },
            "Remote command failed with exit code -2147483648: h",
        ),
        (
            TransportError::CommandFailed { code: 127, message: "i".into() },
            "Remote command failed with exit code 127: i",
        ),
    ];
    for (error, text) in cases {
        assert_eq!(error.describe(), text);
    }
}
