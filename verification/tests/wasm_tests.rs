use mitoxide::wasm::module::{CapabilitySet, ModuleCache, ModuleInterface, MAX_MODULE_SIZE};
use mitoxide::wasm::runtime::{EntryPoint, ExecOutcome};
use mitoxide::wasm::test_utils::invalid_magic_wasm;
use mitoxide::{
    minimal_wasm, simple_function_wasm, wasi_hello_wasm, ErrorCode, Request, Response, StringMap,
    WasmCapability, WasmConfig, WasmContext, WasmError, WasmHandler, WasmImport, WasmModule,
    WasmRuntime,
};
use mitoxide::agent::handlers::WasmStep;
use sha2::{Digest, Sha256};
use std::time::Duration;

#[test]
fn test_minimal_wasm_module() {
    let module = WasmModule::from_bytes(minimal_wasm().to_vec()).unwrap();
    assert_eq!(module.metadata.size, minimal_wasm().len());
    assert!(!module.is_wasi());
    assert!(module.metadata.exports.is_empty());
    assert!(module.metadata.imports.is_empty());
}

#[test]
fn test_simple_function_wasm() {
    let module = WasmModule::from_bytes(simple_function_wasm().to_vec()).unwrap();
    assert!(!module.is_wasi());
    assert!(module.metadata.exports.contains(&"add".to_string()));
    assert!(!module.requires_capability(&WasmCapability::WasiStdio));
}

#[test]
fn test_wasi_module_detection() {
    let module = WasmModule::from_bytes(wasi_hello_wasm().to_vec()).unwrap();
    assert!(module.is_wasi());
    assert!(module.metadata.exports.contains(&"_start".to_string()));
    assert!(module.metadata.exports.contains(&"memory".to_string()));
    assert!(module.requires_capability(&WasmCapability::WasiStdio));

    let has_fd_write = module
        .metadata
        .imports
        .iter()
        .any(|imp| imp.module == "wasi_snapshot_preview1" && imp.name == "fd_write");
    assert!(has_fd_write);

    let has_environ_get = module
        .metadata
        .imports
        .iter()
        .any(|imp| imp.module == "wasi_snapshot_preview1" && imp.name == "environ_get");
    assert!(has_environ_get);

    assert!(module.requires_capability(&WasmCapability::WasiEnv));
}

#[test]
fn test_invalid_wasm_magic() {
    let result = WasmModule::from_bytes(invalid_magic_wasm());
    assert!(result.is_err());
    assert!(matches!(result.unwrap_err(), WasmError::InvalidFormat(_)));
}

#[test]
fn test_empty_bytes() {
    let empty_bytes = vec![];
    let result = WasmModule::from_bytes(empty_bytes);
    assert!(result.is_err());
    assert!(matches!(result.unwrap_err(), WasmError::InvalidFormat(_)));
}

#[test]
fn test_module_too_large() {
    let mut large_bytes = vec![0x00, 0x61, 0x73, 0x6d];
    large_bytes.extend(vec![0x01, 0x00, 0x00, 0x00]);
    large_bytes.extend(vec![0x00; 65 * 1024 * 1024]);

    let result = WasmModule::from_bytes(large_bytes);
    assert!(result.is_err());
    assert!(matches!(result.unwrap_err(), WasmError::ModuleValidation(_)));
}

#[test]
fn test_hash_calculation() {
    let module1 = WasmModule::from_bytes(minimal_wasm().to_vec()).unwrap();
    let module2 = WasmModule::from_bytes(simple_function_wasm().to_vec()).unwrap();

    assert_ne!(module1.hash(), module2.hash());

    let module1_copy = WasmModule::from_bytes(minimal_wasm().to_vec()).unwrap();
    assert_eq!(module1.hash(), module1_copy.hash());
}

#[test]
fn test_capability_detection() {
    let wasi_module = WasmModule::from_bytes(wasi_hello_wasm().to_vec()).unwrap();

    assert!(wasi_module.requires_capability(&WasmCapability::WasiStdio));
    assert!(wasi_module.requires_capability(&WasmCapability::WasiEnv));
    assert!(!wasi_module.requires_capability(&WasmCapability::WasiNet));

    let simple_module = WasmModule::from_bytes(simple_function_wasm().to_vec()).unwrap();

    assert!(!simple_module.requires_capability(&WasmCapability::WasiStdio));
}

#[test]
fn the_minimal_module_is_eight_bytes() {
    assert_eq!(minimal_wasm(), vec![0x00, b'a', b's', b'm', 0x01, 0x00, 0x00, 0x00]);
    assert_eq!(
        invalid_magic_wasm(),
        vec![0xFF, 0xFF, 0xFF, 0xFF, 0x01, 0x00, 0x00, 0x00]
    );
    assert!(simple_function_wasm().len() > 8);
    assert_eq!(&wasi_hello_wasm()[..4], b"\0asm");
}

#[test]
fn the_hash_is_the_sha256_of_the_bytes_in_hex() {
    let bytes = minimal_wasm();
    let module = WasmModule::from_bytes(bytes.clone()).unwrap();
    let expected: String = Sha256::digest(&bytes).iter().map(|b| format!("{:02x}", b)).collect();
    assert_eq!(module.hash(), expected);
    assert_eq!(module.hash().len(), 64);
    assert_eq!(
        module.hash(),
        "93a44bbb96c751218e4c00d479e4c14358122a389acca16205b1e4d0dc5f9476"
    );
    assert_eq!(module.bytes, bytes);
}

#[test]
fn format_is_checked_before_anything_is_parsed() {
    let message = |e: WasmError| match e {
        WasmError::InvalidFormat(m) | WasmError::ModuleValidation(m) => m,
        other => panic!("unexpected {:?}", other),
    };
    assert_eq!(
        message(WasmModule::from_bytes(vec![0, b'a', b's', b'm', 1, 0, 0]).unwrap_err()),
        "WASM module too small (minimum 8 bytes)"
    );
    assert_eq!(
        message(WasmModule::from_bytes(invalid_magic_wasm()).unwrap_err()),
        "Invalid WASM magic number"
    );
    assert_eq!(
        message(WasmModule::validate_basic_format(b"\0asn\x01\0\0\0").unwrap_err()),
        "Invalid WASM magic number"
    );
    assert!(WasmModule::validate_basic_format(b"\0asm\x01\0\0\0").is_ok());
    // the magic number alone does not make a module
    assert!(WasmModule::validate_basic_format(b"\0asm\xff\xff\xff\xff").is_ok());
    assert!(matches!(
        WasmModule::from_bytes(b"\0asm\xff\xff\xff\xff".to_vec()),
        Err(WasmError::ModuleLoad(_))
    ));
    let mut large = b"\0asm\x01\0\0\0".to_vec();
    large.resize(MAX_MODULE_SIZE + 1, 0);
    assert_eq!(
        message(WasmModule::validate_basic_format(&large).unwrap_err()),
        "Module too large: 67108865 bytes (max: 67108864 bytes)"
    );
    large.truncate(MAX_MODULE_SIZE);
    assert!(WasmModule::validate_basic_format(&large).is_ok());
}

fn import(module: &str, name: &str) -> WasmImport {
    WasmImport { module: module.to_string(), name: name.to_string() }
}

fn capabilities(imports: &[(&str, &str)]) -> (Vec<WasmCapability>, bool) {
    let imports: Vec<WasmImport> = imports.iter().map(|(m, n)| import(m, n)).collect();
    let (set, is_wasi) = WasmModule::derive_capabilities(&imports);
    let all = [
        WasmCapability::WasiFs,
        WasmCapability::WasiEnv,
        WasmCapability::WasiArgs,
        WasmCapability::WasiStdio,
        WasmCapability::WasiNet,
        WasmCapability::HostFunctions,
    ];
    (all.into_iter().filter(|c| set.contains(c)).collect(), is_wasi)
}

#[test]
fn capabilities_follow_from_the_imports() {
    assert_eq!(capabilities(&[]), (vec![], false));
    assert_eq!(
        capabilities(&[("wasi_snapshot_preview1", "fd_write")]),
        (vec![WasmCapability::WasiFs, WasmCapability::WasiStdio], true)
    );
    assert_eq!(
        capabilities(&[("wasi_snapshot_preview1", "environ_get")]),
        (vec![WasmCapability::WasiEnv], true)
    );
    assert_eq!(
        capabilities(&[("wasi_snapshot_preview1", "args_get")]),
        (vec![WasmCapability::WasiArgs], true)
    );
    assert_eq!(
        capabilities(&[("wasi_unstable", "sock_send")]),
        (vec![WasmCapability::WasiNet], true)
    );
    assert_eq!(capabilities(&[("env", "memory")]), (vec![], false));
    assert_eq!(capabilities(&[("host", "log")]), (vec![WasmCapability::HostFunctions], false));
    assert_eq!(capabilities(&[("wasi", "proc_exit")]), (vec![WasmCapability::HostFunctions], false));
    assert_eq!(
        capabilities(&[("env", "x"), ("wasi_snapshot_preview1", "args_sizes_get"), ("js", "fd_")]),
        (
            vec![
                WasmCapability::WasiFs,
                WasmCapability::WasiArgs,
                WasmCapability::WasiStdio,
                WasmCapability::HostFunctions,
            ],
            true
        )
    );
    let mut set = CapabilitySet::new();
    assert!(!set.contains(&WasmCapability::WasiNet));
    set.insert(WasmCapability::WasiNet);
    assert!(set.contains(&WasmCapability::WasiNet));
    assert!(!set.contains(&WasmCapability::WasiFs));
}

#[test]
fn the_interface_decides_whether_a_module_is_taken() {
    let digest = vec![0xabu8; 32];
    let networking = ModuleInterface {
        imports: vec![import("wasi_snapshot_preview1", "sock_accept")],
        exports: vec!["_start".to_string()],
    };
    match WasmModule::assemble(minimal_wasm(), &digest, networking) {
        Err(WasmError::UnsupportedCapability(m)) => {
            assert_eq!(m, "WASI networking is not supported")
        }
        other => panic!("unexpected {:?}", other),
    }
    let no_start = ModuleInterface {
        imports: vec![import("wasi_snapshot_preview1", "fd_write")],
        exports: vec!["start".to_string(), "memory".to_string()],
    };
    match WasmModule::assemble(minimal_wasm(), &digest, no_start) {
        Err(WasmError::ModuleValidation(m)) => {
            assert_eq!(m, "WASI module must export '_start' function")
        }
        other => panic!("unexpected {:?}", other),
    }
    let fine = ModuleInterface {
        imports: vec![import("wasi_snapshot_preview1", "fd_write"), import("env", "table")],
        exports: vec!["memory".to_string(), "_start".to_string()],
    };
    let module = WasmModule::assemble(minimal_wasm(), &digest, fine).unwrap();
    assert_eq!(module.hash(), "ab".repeat(32));
    assert_eq!(module.metadata.size, 8);
    assert!(module.is_wasi());
    assert_eq!(module.metadata.imports.len(), 2);
    assert_eq!(module.metadata.exports, vec!["memory", "_start"]);
    assert!(module.requires_capability(&WasmCapability::WasiFs));
    assert!(!module.requires_capability(&WasmCapability::HostFunctions));
}

#[test]
fn the_cache_hands_out_the_module_asked_for() {
    let mut cache = ModuleCache::new();
    let a = WasmModule::from_bytes(minimal_wasm()).unwrap();
    let b = WasmModule::from_bytes(simple_function_wasm()).unwrap();
    let hash_a = a.hash().to_string();
    let hash_b = b.hash().to_string();
    assert!(cache.get(&hash_a).is_none());
    assert_eq!(cache.get_or_insert(a), 0);
    assert_eq!(cache.get_or_insert(b), 1);
    assert_eq!(cache.get_or_insert(WasmModule::from_bytes(minimal_wasm()).unwrap()), 0);
    assert_eq!(cache.len(), 2);
    assert_eq!(cache.get(&hash_a).unwrap().hash(), hash_a);
    assert_eq!(cache.get(&hash_b).unwrap().hash(), hash_b);
    assert_eq!(cache.find(&hash_b), Some(1));
    assert_eq!(cache.at(1).bytes, simple_function_wasm());
    assert!(cache.get("0000").is_none());
}

#[test]
fn test_runtime_creation() {
    let runtime = WasmRuntime::new().unwrap();
    assert_eq!(runtime.config().max_memory, 64 * 1024 * 1024);
    assert_eq!(runtime.config().max_execution_time, Duration::from_secs(30));
    assert!(runtime.config().enable_wasi);
}

#[test]
fn test_custom_config() {
    let config = WasmConfig {
        max_memory: 32 * 1024 * 1024,
        max_execution_time: Duration::from_secs(10),
        max_fuel: Some(500_000),
        enable_wasi: false,
        allow_network: false,
        allow_filesystem: true,
    };

    let runtime = WasmRuntime::with_config(config).unwrap();
    assert_eq!(runtime.config().max_memory, 32 * 1024 * 1024);
    assert_eq!(runtime.config().max_execution_time, Duration::from_secs(10));
    assert!(!runtime.config().enable_wasi);
    assert!(runtime.config().allow_filesystem);
}

#[test]
fn test_context_with_env() {
    let mut env = StringMap::new();
    env.insert("TEST_VAR".to_string(), "test_value".to_string());

    let context = WasmContext::new().with_env(env).with_cwd("/tmp");

    assert_eq!(context.env().get("TEST_VAR"), Some(&"test_value".to_string()));
    assert_eq!(*context.cwd(), Some("/tmp".to_string()));
}

#[test]
fn defaults_of_the_sandbox() {
    let config = WasmConfig::default();
    assert_eq!(config.max_memory, 64 * 1024 * 1024);
    assert_eq!(config.max_execution_time, Duration::from_secs(30));
    assert_eq!(config.max_fuel, Some(1_000_000));
    assert!(config.enable_wasi);
    assert!(!config.allow_network);
    assert!(!config.allow_filesystem);
    assert!(WasmRuntime::new().unwrap().uses_fuel());
    let no_fuel = WasmConfig { max_fuel: None, ..WasmConfig::default() };
    assert!(!WasmRuntime::with_config(no_fuel).unwrap().uses_fuel());
    assert!(WasmContext::new().env().is_empty());
    assert_eq!(*WasmContext::new().cwd(), None);
}

#[test]
fn runs_start_where_the_module_says() {
    let runtime = WasmRuntime::new().unwrap();
    let wasi = WasmModule::from_bytes(wasi_hello_wasm()).unwrap();
    let plain = WasmModule::from_bytes(simple_function_wasm()).unwrap();
    assert_eq!(runtime.entry_point(&wasi), EntryPoint::Start);
    assert_eq!(runtime.entry_point(&plain), EntryPoint::Main);
    let off = WasmRuntime::with_config(WasmConfig { enable_wasi: false, ..WasmConfig::default() })
        .unwrap();
    assert_eq!(off.entry_point(&wasi), EntryPoint::Main);
}

#[test]
fn runs_end_as_their_outcome_says() {
    let runtime = WasmRuntime::new().unwrap();
    // a completed run gives what the module wrote, not what it was given
    assert_eq!(
        runtime.conclude(ExecOutcome::Completed { stdout: "out".to_string() }).unwrap(),
        "out"
    );
    assert_eq!(
        runtime.conclude(ExecOutcome::Completed { stdout: String::new() }).unwrap(),
        ""
    );
    let text = |r: Result<String, WasmError>| match r {
        Err(WasmError::Execution(m)) => m,
        other => panic!("unexpected {:?}", other),
    };
    assert_eq!(
        text(runtime.conclude(ExecOutcome::NoEntryPoint)),
        "no suitable entry point"
    );
    assert_eq!(
        text(runtime.conclude(ExecOutcome::TimedOut)),
        "WASM execution timed out"
    );
    assert_eq!(
        text(runtime.conclude(ExecOutcome::Trapped("out of fuel".into()))),
        "WASM execution failed: out of fuel"
    );
    assert_eq!(
        text(Err(runtime.json_input_error("x"))),
        "Failed to serialize input: x"
    );
    assert_eq!(
        text(Err(runtime.json_output_error("y"))),
        "Failed to deserialize output: y"
    );
}

#[test]
fn the_minimal_module_has_no_entry_point() {
    let bytes = vec![0x00, b'a', b's', b'm', 0x01, 0x00, 0x00, 0x00];
    let mut handler = WasmHandler::new().unwrap();
    let request = Request::WasmExec { id: 6, module: bytes, input: vec![], timeout: None };
    let (id, module, input) = match handler.plan(request) {
        WasmStep::Execute { id, module, input, .. } => (id, module, input),
        _ => panic!("expected an execution"),
    };
    let place = handler.get_or_load_module(module).unwrap();
    {
        let module = handler.module(place).unwrap();
        assert!(module.metadata.exports.is_empty());
        assert!(module.metadata.imports.is_empty());
        assert!(!module.is_wasi());
        assert_eq!(handler.runtime().entry_point(module), EntryPoint::Main);
    }
    // the module exports no `main`
    assert_eq!(handler.input_text(input), "");
    let result = handler.runtime().conclude(ExecOutcome::NoEntryPoint);
    match handler.conclude(id, result, 0) {
        Response::Error { request_id, error } => {
            assert_eq!(request_id, 6);
            assert_eq!(error.code, ErrorCode::WasmFailed);
            assert!(error.message.contains("no suitable entry point"));
        }
        other => panic!("unexpected {:?}", other),
    }
}

#[test]
fn wasm_errors_have_their_texts() {
    let cases = vec![
        (WasmError::ModuleLoad("a".into()), "Module loading error: a"),
        (WasmError::ModuleValidation("b".into()), "Module validation error: b"),
        (WasmError::InvalidFormat("c".into()), "Invalid module format: c"),
        (WasmError::UnsupportedCapability("d".into()), "Unsupported capability: d"),
        (WasmError::Execution("e".into()), "Execution error: e"),
        (WasmError::Io("f".into()), "I/O error: f"),
        (WasmError::Wasmtime("g".into()), "Wasmtime error: g"),
    ];
    for (error, text) in cases {
        assert_eq!(error.describe(), text);
    }
}

#[test]
fn a_wasi_run_that_writes_nothing_gives_nothing() {
    let mut handler = WasmHandler::new().unwrap();
    let place = handler.get_or_load_module(wasi_hello_wasm()).unwrap();
    let module = handler.module(place).unwrap();
    assert_eq!(handler.runtime().entry_point(module), EntryPoint::Start);
    // `_start` of this module writes nothing; the input "hello" is not its output
    assert_eq!(handler.input_text(b"hello".to_vec()), "hello");
    let result = handler.runtime().conclude(ExecOutcome::Completed { stdout: String::new() });
    assert_eq!(result.unwrap(), "");
}

#[test]
fn input_bytes_become_text() {
    let handler = WasmHandler::new().unwrap();
    assert_eq!(handler.input_text(b"{\"a\":1}".to_vec()), "{\"a\":1}");
    assert_eq!(handler.input_text("grüße".as_bytes().to_vec()), "grüße");
    assert_eq!(handler.input_text(vec![]), "");
    // bytes that are no text are written as a JSON list
    assert_eq!(handler.input_text(vec![0xff, 0x00, 0x7f]), "[255,0,127]");
    assert_eq!(handler.input_text(vec![0xc3]), "[195]");
    assert_eq!(mitoxide::agent::handlers::json_or_empty(None), "");
    assert_eq!(mitoxide::agent::handlers::json_or_empty(Some("[1]".to_string())), "[1]");
}

#[test]
fn the_hash_of_a_cached_module_is_that_of_its_bytes() {
    let mut handler = WasmHandler::new().unwrap();
    for bytes in [minimal_wasm(), simple_function_wasm(), minimal_wasm(), wasi_hello_wasm()] {
        let place = handler.get_or_load_module(bytes.clone()).unwrap();
        let module = handler.module(place).unwrap();
        let expected: String =
            Sha256::digest(&module.bytes).iter().map(|b| format!("{:02x}", b)).collect();
        assert_eq!(module.hash(), expected);
        assert_eq!(module.hash().len(), 64);
        assert_eq!(module.bytes, bytes);
    }
}
