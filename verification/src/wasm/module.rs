//! WebAssembly modules: format checks, content hash, imports, exports and
//! the capabilities that a module asks for.

use vstd::prelude::*;
use sha2::Digest;
use crate::text::{concat, copy_str, decimal, decimal_string, str_eq, str_starts_with, texts};
use crate::wasm::error::WasmError;

verus! {

/// Largest module that is loaded: 64 MiB.
pub const MAX_MODULE_SIZE: usize = 64 * 1024 * 1024;

/// Smallest module: magic and version.
pub const MIN_MODULE_SIZE: usize = 8;

/// The SHA-256 digest of a sequence of bytes.
pub uninterp spec fn sha256_digest(bytes: Seq<u8>) -> Seq<u8>;

/// `sha2::Sha256::digest` returns the SHA-256 digest of its input, which is
/// 32 bytes long.
#[verifier::external_body]
fn sha256(bytes: &[u8]) -> (digest: Vec<u8>)
    ensures
        digest@ == sha256_digest(bytes@),
        digest@.len() == 32,
{
    sha2::Sha256::digest(bytes).to_vec()
}

/// One import of a module.
#[derive(Debug, Clone)]
pub struct WasmImport {
    /// Name of the module imported from.
    pub module: String,
    /// Name of the item imported.
    pub name: String,
}

/// What a module imports and exports.
#[derive(Debug)]
pub struct ModuleInterface {
    /// The imports, in the order of the module.
    pub imports: Vec<WasmImport>,
    /// The names of the exports, in the order of the module.
    pub exports: Vec<String>,
}

/// An import as a pair of texts: module and name.
pub open spec fn import_pairs(imports: Seq<WasmImport>) -> Seq<(Seq<char>, Seq<char>)> {
    imports.map_values(|i: WasmImport| (i.module@, i.name@))
}

/// The imports (module and name) and the names of the exports of the module
/// that `bytes` encode, if the engine accepts them as a module. Which bytes
/// the engine accepts is fixed by the engine as it was built: its default
/// configuration takes the WebAssembly features from the build, not from the
/// process or the machine that it runs on.
pub uninterp spec fn wasm_interface(bytes: Seq<u8>) -> Option<
    (Seq<(Seq<char>, Seq<char>)>, Seq<Seq<char>>),
>;

/// `wasmtime::Module::from_binary` on a default engine accepts or refuses the
/// bytes; of an accepted module, `Module::imports` and `Module::exports`
/// give the imports and exports in order. The three calls stand behind the
/// one name, which is what they say of the bytes together. A refusal comes
/// with the engine's message, of which nothing is stated.
#[verifier::external_body]
fn inspect_module(bytes: &[u8]) -> (r: Result<ModuleInterface, String>)
    ensures
        match r {
            Ok(i) => wasm_interface(bytes@) == Some((import_pairs(i.imports@), texts(i.exports@))),
            Err(_) => wasm_interface(bytes@) is None,
        },
{
    let engine = wasmtime::Engine::default();
    match wasmtime::Module::from_binary(&engine, bytes) {
        Ok(m) => Ok(
            ModuleInterface {
                imports: m.imports().map(
                    |i| WasmImport { module: i.module().to_string(), name: i.name().to_string() },
                ).collect(),
                exports: m.exports().map(|e| e.name().to_string()).collect(),
            },
        ),
        Err(e) => Err(e.to_string()),
    }
}

/// What a module may ask of its host.
#[derive(Debug, Clone, Copy, PartialEq, Eq, Hash, Structural)]
pub enum WasmCapability {
    /// WASI file system access.
    WasiFs,
    /// WASI environment variables.
    WasiEnv,
    /// WASI command line arguments.
    WasiArgs,
    /// WASI standard input and output.
    WasiStdio,
    /// WASI networking.
    WasiNet,
    /// Host functions of other modules.
    HostFunctions,
}

/// A set of capabilities.
#[derive(Debug, Clone, Copy, PartialEq, Eq, Structural)]
pub struct CapabilitySet {
    /// WASI file system access.
    pub wasi_fs: bool,
    /// WASI environment variables.
    pub wasi_env: bool,
    /// WASI command line arguments.
    pub wasi_args: bool,
    /// WASI standard input and output.
    pub wasi_stdio: bool,
    /// WASI networking.
    pub wasi_net: bool,
    /// Host functions of other modules.
    pub host_functions: bool,
}

impl CapabilitySet {
    /// Whether the set holds `capability`.
    pub open spec fn has(self, capability: WasmCapability) -> bool {
        match capability {
            WasmCapability::WasiFs => self.wasi_fs,
            WasmCapability::WasiEnv => self.wasi_env,
            WasmCapability::WasiArgs => self.wasi_args,
            WasmCapability::WasiStdio => self.wasi_stdio,
            WasmCapability::WasiNet => self.wasi_net,
            WasmCapability::HostFunctions => self.host_functions,
        }
    }

    /// The empty set.
    pub fn new() -> (s: CapabilitySet)
        ensures
            forall|c: WasmCapability| !s.has(c),
    {
        CapabilitySet {
            wasi_fs: false,
            wasi_env: false,
            wasi_args: false,
            wasi_stdio: false,
            wasi_net: false,
            host_functions: false,
        }
    }

    /// Whether the set holds `capability`.
    pub fn contains(&self, capability: &WasmCapability) -> (r: bool)
        ensures
            r == self.has(*capability),
    {
        match capability {
            WasmCapability::WasiFs => self.wasi_fs,
            WasmCapability::WasiEnv => self.wasi_env,
            WasmCapability::WasiArgs => self.wasi_args,
            WasmCapability::WasiStdio => self.wasi_stdio,
            WasmCapability::WasiNet => self.wasi_net,
            WasmCapability::HostFunctions => self.host_functions,
        }
    }

    /// Puts `capability` into the set.
    pub fn insert(&mut self, capability: WasmCapability)
        ensures
            forall|c: WasmCapability|
                final(self).has(c) == (c == capability || old(self).has(c)),
    {
        match capability {
            WasmCapability::WasiFs => { self.wasi_fs = true; },
            WasmCapability::WasiEnv => { self.wasi_env = true; },
            WasmCapability::WasiArgs => { self.wasi_args = true; },
            WasmCapability::WasiStdio => { self.wasi_stdio = true; },
            WasmCapability::WasiNet => { self.wasi_net = true; },
            WasmCapability::HostFunctions => { self.host_functions = true; },
        }
    }
}

/// An import comes from a WASI module: the module's name starts with `wasi_`.
pub open spec fn is_wasi_import(import: (Seq<char>, Seq<char>)) -> bool {
    "wasi_"@.is_prefix_of(import.0)
}

/// Whether one import asks for a capability.
///
/// A name that starts with `fd_` asks for the file system and standard
/// input and output; `environ_` for the environment; `args_` for the
/// arguments; `sock_` for networking. An import from a module other than
/// `env` and the WASI modules asks for host functions.
pub open spec fn import_asks(import: (Seq<char>, Seq<char>), capability: WasmCapability) -> bool {
    match capability {
        WasmCapability::WasiFs => "fd_"@.is_prefix_of(import.1),
        WasmCapability::WasiStdio => "fd_"@.is_prefix_of(import.1),
        WasmCapability::WasiEnv => "environ_"@.is_prefix_of(import.1),
        WasmCapability::WasiArgs => "args_"@.is_prefix_of(import.1),
        WasmCapability::WasiNet => "sock_"@.is_prefix_of(import.1),
        WasmCapability::HostFunctions => import.0 != "env"@ && !is_wasi_import(import),
    }
}

/// Whether some import of a module asks for a capability.
pub open spec fn asks_for(imports: Seq<(Seq<char>, Seq<char>)>, capability: WasmCapability)
    -> bool {
    exists|i: int| 0 <= i < imports.len() && import_asks(#[trigger] imports[i], capability)
}

/// A module is a WASI module if one of its imports comes from a WASI module.
pub open spec fn is_wasi_module(imports: Seq<(Seq<char>, Seq<char>)>) -> bool {
    exists|i: int| 0 <= i < imports.len() && is_wasi_import(#[trigger] imports[i])
}

/// Two hexadecimal digits for a byte, lower case.
pub open spec fn hex_digit(d: nat) -> char
    recommends
        d < 16,
{
    if d < 10 {
        crate::text::digit_char(d)
    } else if d == 10 {
        'a'
    } else if d == 11 {
        'b'
    } else if d == 12 {
        'c'
    } else if d == 13 {
        'd'
    } else if d == 14 {
        'e'
    } else {
        'f'
    }
}

/// The bytes in hexadecimal, two lower-case digits each.
pub open spec fn hex(bytes: Seq<u8>) -> Seq<char> {
    Seq::new(
        2 * bytes.len(),
        |i: int|
            if i % 2 == 0 {
                hex_digit((bytes[i / 2] / 16) as nat)
            } else {
                hex_digit((bytes[i / 2] % 16) as nat)
            },
    )
}

/// The hash of a module: the SHA-256 digest of its bytes in hexadecimal.
pub open spec fn module_hash(bytes: Seq<u8>) -> Seq<char> {
    hex(sha256_digest(bytes))
}

fn hex_digit_of(d: u8) -> (c: char)
    requires
        d < 16,
    ensures
        c == hex_digit(d as nat),
{
    if d == 0 {
        '0'
    } else if d == 1 {
        '1'
    } else if d == 2 {
        '2'
    } else if d == 3 {
        '3'
    } else if d == 4 {
        '4'
    } else if d == 5 {
        '5'
    } else if d == 6 {
        '6'
    } else if d == 7 {
        '7'
    } else if d == 8 {
        '8'
    } else if d == 9 {
        '9'
    } else if d == 10 {
        'a'
    } else if d == 11 {
        'b'
    } else if d == 12 {
        'c'
    } else if d == 13 {
        'd'
    } else if d == 14 {
        'e'
    } else {
        'f'
    }
}

/// The bytes in hexadecimal.
pub fn hex_string(bytes: &Vec<u8>) -> (s: String)
    ensures
        s@ == hex(bytes@),
{
    let mut s = String::new();
    let mut i: usize = 0;
    while i < bytes.len()
        invariant
            i <= bytes.len(),
            s@ == hex(bytes@.subrange(0, i as int)),
        decreases bytes.len() - i,
    {
        let b: u8 = bytes[i];
        let ghost before = s@;
        s.push(hex_digit_of(b / 16));
        s.push(hex_digit_of(b % 16));
        assert(s@ =~= hex(bytes@.subrange(0, i + 1))) by {
            let next = hex(bytes@.subrange(0, i + 1));
            assert(s@.len() == next.len());
            assert forall|k: int| 0 <= k < next.len() implies s@[k] == next[k] by {
                if k < 2 * i {
                    assert(s@[k] == before[k]);
                    assert(bytes@.subrange(0, i as int)[k / 2] == bytes@.subrange(0, i + 1)[k / 2]);
                } else {
                    assert(k / 2 == i);
                    assert(bytes@.subrange(0, i + 1)[k / 2] == b);
                }
            }
        }
        i = i + 1;
    }
    assert(bytes@.subrange(0, bytes.len() as int) == bytes@);
    s
}

/// Hexadecimal writing loses nothing: equal texts come from equal bytes.
pub proof fn lemma_hex_injective(a: Seq<u8>, b: Seq<u8>)
    requires
        hex(a) == hex(b),
    ensures
        a == b,
{
    assert(hex(a).len() == 2 * a.len());
    assert(hex(b).len() == 2 * b.len());
    assert(a.len() == b.len());
    assert forall|i: int| 0 <= i < a.len() implies a[i] == b[i] by {
        let x = a[i];
        let y = b[i];
        assert((2 * i) / 2 == i && (2 * i) % 2 == 0);
        assert((2 * i + 1) / 2 == i && (2 * i + 1) % 2 == 1);
        assert(hex(a)[2 * i] == hex_digit((x / 16) as nat));
        assert(hex(b)[2 * i] == hex_digit((y / 16) as nat));
        assert(hex(a)[2 * i + 1] == hex_digit((x % 16) as nat));
        assert(hex(b)[2 * i + 1] == hex_digit((y % 16) as nat));
        assert(x / 16 == y / 16);
        assert(x % 16 == y % 16);
    }
    assert(a =~= b);
}

/// Equal modules have equal hashes, and modules with equal hashes have equal
/// SHA-256 digests.
pub proof fn lemma_hash_names_digest(a: Seq<u8>, b: Seq<u8>)
    ensures
        a == b ==> module_hash(a) == module_hash(b),
        module_hash(a) == module_hash(b) <==> sha256_digest(a) == sha256_digest(b),
{
    if module_hash(a) == module_hash(b) {
        lemma_hex_injective(sha256_digest(a), sha256_digest(b));
    }
}

/// What loading finds out about a module.
#[derive(Debug)]
pub struct ModuleMetadata {
    /// SHA-256 digest of the module bytes, in hexadecimal.
    pub hash: String,
    /// Size of the module in bytes.
    pub size: usize,
    /// Capabilities that the module asks for.
    pub capabilities: CapabilitySet,
    /// Names of the exports.
    pub exports: Vec<String>,
    /// The imports.
    pub imports: Vec<WasmImport>,
    /// Whether the module is a WASI module.
    pub is_wasi: bool,
}

/// A module that passed loading.
#[derive(Debug)]
pub struct WasmModule {
    /// The bytes of the module.
    pub bytes: Vec<u8>,
    /// What loading found out.
    pub metadata: ModuleMetadata,
}

/// The metadata are those of a module of these bytes with this digest, these
/// imports and these exports.
pub open spec fn describes(
    m: ModuleMetadata,
    bytes: Seq<u8>,
    digest: Seq<u8>,
    imports: Seq<(Seq<char>, Seq<char>)>,
    exports: Seq<Seq<char>>,
) -> bool {
    &&& m.hash@ == hex(digest)
    &&& m.size == bytes.len()
    &&& import_pairs(m.imports@) == imports
    &&& texts(m.exports@) == exports
    &&& m.is_wasi == is_wasi_module(imports)
    &&& forall|c: WasmCapability| m.capabilities.has(c) == asks_for(imports, c)
}

/// How loading a module ends.
pub enum LoadVerdict {
    /// Fewer than eight bytes.
    TooSmall,
    /// The first four bytes are not the magic number.
    BadMagic,
    /// More than the largest size.
    TooLarge,
    /// The engine does not accept the bytes as a module.
    Unparsable,
    /// The module asks for networking.
    Networking,
    /// A WASI module without the export `_start`.
    NoStart,
    /// The module is loaded.
    Accept,
}

/// The magic number of WebAssembly: a zero byte, then `asm`.
pub open spec fn wasm_magic() -> Seq<u8> {
    seq![0x00u8, 0x61u8, 0x73u8, 0x6du8]
}

/// What the bytes alone decide, before anything is parsed.
pub open spec fn format_verdict(bytes: Seq<u8>) -> LoadVerdict {
    if bytes.len() < MIN_MODULE_SIZE {
        LoadVerdict::TooSmall
    } else if bytes.subrange(0, 4) != wasm_magic() {
        LoadVerdict::BadMagic
    } else if bytes.len() > MAX_MODULE_SIZE {
        LoadVerdict::TooLarge
    } else {
        LoadVerdict::Accept
    }
}

/// What imports and exports decide: networking is not offered, and a WASI
/// module must export `_start`.
pub open spec fn interface_verdict(
    imports: Seq<(Seq<char>, Seq<char>)>,
    exports: Seq<Seq<char>>,
) -> LoadVerdict {
    if asks_for(imports, WasmCapability::WasiNet) {
        LoadVerdict::Networking
    } else if is_wasi_module(imports) && !exports.contains("_start"@) {
        LoadVerdict::NoStart
    } else {
        LoadVerdict::Accept
    }
}

/// How loading `bytes` ends: the format is checked first, then the engine
/// parses, then the interface is checked.
pub open spec fn load_verdict(bytes: Seq<u8>) -> LoadVerdict {
    if !(format_verdict(bytes) is Accept) {
        format_verdict(bytes)
    } else {
        match wasm_interface(bytes) {
            None => LoadVerdict::Unparsable,
            Some((imports, exports)) => interface_verdict(imports, exports),
        }
    }
}

/// The text of the error for a module over the largest size.
pub open spec fn too_large_text(size: nat) -> Seq<char> {
    "Module too large: "@ + decimal(size) + " bytes (max: "@ + decimal(MAX_MODULE_SIZE as nat)
        + " bytes)"@
}

/// Whether `r` is the failure that belongs to a verdict other than `Accept`.
pub open spec fn fails_as<T>(r: Result<T, WasmError>, verdict: LoadVerdict, size: nat) -> bool {
    match verdict {
        LoadVerdict::TooSmall => r matches Err(WasmError::InvalidFormat(m)) && m@
            == "WASM module too small (minimum 8 bytes)"@,
        LoadVerdict::BadMagic => r matches Err(WasmError::InvalidFormat(m)) && m@
            == "Invalid WASM magic number"@,
        LoadVerdict::TooLarge => r matches Err(WasmError::ModuleValidation(m)) && m@
            == too_large_text(size),
        LoadVerdict::Unparsable => r matches Err(WasmError::ModuleLoad(_)),
        LoadVerdict::Networking => r matches Err(WasmError::UnsupportedCapability(m)) && m@
            == "WASI networking is not supported"@,
        LoadVerdict::NoStart => r matches Err(WasmError::ModuleValidation(m)) && m@
            == "WASI module must export '_start' function"@,
        LoadVerdict::Accept => false,
    }
}

fn contains_text(list: &Vec<String>, wanted: &str) -> (r: bool)
    ensures
        r == texts(list@).contains(wanted@),
{
    let mut i: usize = 0;
    while i < list.len()
        invariant
            i <= list.len(),
            forall|k: int| 0 <= k < i ==> texts(list@)[k] != wanted@,
        decreases list.len() - i,
    {
        if str_eq(list[i].as_str(), wanted) {
            assert(texts(list@)[i as int] == wanted@);
            return true;
        }
        i = i + 1;
    }
    false
}

impl WasmModule {
    /// Checks what the bytes alone decide: size and magic number. Nothing is
    /// parsed for this.
    pub fn validate_basic_format(bytes: &[u8]) -> (r: Result<(), WasmError>)
        ensures
            format_verdict(bytes@) is Accept ==> r is Ok,
            !(format_verdict(bytes@) is Accept) ==> fails_as(
                r,
                format_verdict(bytes@),
                bytes@.len(),
            ),
    {
        if bytes.len() < MIN_MODULE_SIZE {
            return Err(
                WasmError::InvalidFormat(copy_str("WASM module too small (minimum 8 bytes)")),
            );
        }
        if bytes[0] != 0x00 || bytes[1] != 0x61 || bytes[2] != 0x73 || bytes[3] != 0x6d {
            assert(bytes@.subrange(0, 4) != wasm_magic()) by {
                let head = bytes@.subrange(0, 4);
                assert(head[0] == bytes@[0] && head[1] == bytes@[1] && head[2] == bytes@[2]
                    && head[3] == bytes@[3]);
            }
            return Err(WasmError::InvalidFormat(copy_str("Invalid WASM magic number")));
        }
        assert(bytes@.subrange(0, 4) =~= wasm_magic());
        if bytes.len() > MAX_MODULE_SIZE {
            let a = concat("Module too large: ", decimal_string(bytes.len() as u64).as_str());
            let b = concat(a.as_str(), " bytes (max: ");
            let c = concat(b.as_str(), decimal_string(MAX_MODULE_SIZE as u64).as_str());
            let d = concat(c.as_str(), " bytes)");
            return Err(WasmError::ModuleValidation(d));
        }
        Ok(())
    }

    /// The capabilities that the imports ask for, and whether the module is
    /// a WASI module.
    pub fn derive_capabilities(imports: &Vec<WasmImport>) -> (r: (CapabilitySet, bool))
        ensures
            forall|c: WasmCapability| r.0.has(c) == asks_for(import_pairs(imports@), c),
            r.1 == is_wasi_module(import_pairs(imports@)),
    {
        let mut caps = CapabilitySet::new();
        let mut is_wasi: bool = false;
        let mut i: usize = 0;
        let ghost all = import_pairs(imports@);
        while i < imports.len()
            invariant
                i <= imports.len(),
                all == import_pairs(imports@),
                forall|c: WasmCapability|
                    caps.has(c) == asks_for(all.subrange(0, i as int), c),
                is_wasi == is_wasi_module(all.subrange(0, i as int)),
            decreases imports.len() - i,
        {
            let module = imports[i].module.as_str();
            let name = imports[i].name.as_str();
            let ghost pair = all[i as int];
            let ghost head = all.subrange(0, i as int);
            let ghost more = all.subrange(0, i + 1);
            assert(pair == (module@, name@));
            let ghost before = caps;
            let wasi: bool = str_starts_with(module, "wasi_");
            let fd: bool = str_starts_with(name, "fd_");
            if fd {
                caps.insert(WasmCapability::WasiFs);
                caps.insert(WasmCapability::WasiStdio);
            }
            if str_starts_with(name, "environ_") {
                caps.insert(WasmCapability::WasiEnv);
            }
            if str_starts_with(name, "args_") {
                caps.insert(WasmCapability::WasiArgs);
            }
            if str_starts_with(name, "sock_") {
                caps.insert(WasmCapability::WasiNet);
            }
            if !wasi && !str_eq(module, "env") {
                caps.insert(WasmCapability::HostFunctions);
            }
            if wasi {
                is_wasi = true;
            }
            proof {
                assert(more.drop_last() =~= head);
                assert(more.last() == pair);
                assert forall|c: WasmCapability| caps.has(c) == asks_for(more, c) by {
                    assert(caps.has(c) == (before.has(c) || import_asks(pair, c)));
                    if asks_for(more, c) {
                        let k = choose|k: int|
                            0 <= k < more.len() && import_asks(#[trigger] more[k], c);
                        if k < i {
                            assert(head[k] == more[k]);
                        }
                    }
                    if asks_for(head, c) {
                        let k = choose|k: int|
                            0 <= k < head.len() && import_asks(#[trigger] head[k], c);
                        assert(more[k] == head[k]);
                    }
                    if import_asks(pair, c) {
                        assert(more[i as int] == pair);
                    }
                }
                if is_wasi_module(more) {
                    let k = choose|k: int| 0 <= k < more.len()
                        && is_wasi_import(#[trigger] more[k]);
                    if k < i {
                        assert(head[k] == more[k]);
                    }
                }
                if is_wasi_module(head) {
                    let k = choose|k: int| 0 <= k < head.len()
                        && is_wasi_import(#[trigger] head[k]);
                    assert(more[k] == head[k]);
                }
                if is_wasi_import(pair) {
                    assert(more[i as int] == pair);
                }
            }
            i = i + 1;
        }
        assert(all.subrange(0, imports.len() as int) == all);
        (caps, is_wasi)
    }

    /// The module of these bytes, with this digest and this interface, if
    /// the interface is acceptable.
    pub fn assemble(bytes: Vec<u8>, digest: &Vec<u8>, interface: ModuleInterface) -> (r: Result<
        WasmModule,
        WasmError,
    >)
        ensures
            match interface_verdict(import_pairs(interface.imports@), texts(interface.exports@)) {
                LoadVerdict::Accept => r matches Ok(m) && m.bytes == bytes && describes(
                    m.metadata,
                    bytes@,
                    digest@,
                    import_pairs(interface.imports@),
                    texts(interface.exports@),
                ),
                v => fails_as(r, v, bytes@.len()),
            },
    {
        let (capabilities, is_wasi) = WasmModule::derive_capabilities(&interface.imports);
        if capabilities.contains(&WasmCapability::WasiNet) {
            return Err(
                WasmError::UnsupportedCapability(copy_str("WASI networking is not supported")),
            );
        }
        if is_wasi && !contains_text(&interface.exports, "_start") {
            return Err(
                WasmError::ModuleValidation(copy_str("WASI module must export '_start' function")),
            );
        }
        let metadata = ModuleMetadata {
            hash: hex_string(digest),
            size: bytes.len(),
            capabilities,
            exports: interface.exports,
            imports: interface.imports,
            is_wasi,
        };
        Ok(WasmModule { bytes, metadata })
    }

    /// Loads a module from its bytes.
    ///
    /// The bytes must be at least eight, start with the magic number and be
    /// no more than the largest size; the engine must accept them; the module
    /// must not ask for networking, and a WASI module must export `_start`.
    /// The module's hash is the SHA-256 digest of its bytes in 64 hexadecimal
    /// digits.
    pub fn from_bytes(bytes: Vec<u8>) -> (r: Result<WasmModule, WasmError>)
        ensures
            match load_verdict(bytes@) {
                LoadVerdict::Accept => r matches Ok(m) && m.bytes == bytes && m.metadata.hash@
                    == module_hash(bytes@) && m.metadata.hash@.len() == 64 && describes(
                    m.metadata,
                    bytes@,
                    sha256_digest(bytes@),
                    wasm_interface(bytes@).unwrap().0,
                    wasm_interface(bytes@).unwrap().1,
                ),
                v => fails_as(r, v, bytes@.len()),
            },
    {
        match WasmModule::validate_basic_format(bytes.as_slice()) {
            Ok(()) => {},
            Err(e) => { return Err(e); },
        }
        let digest = sha256(bytes.as_slice());
        let interface = match inspect_module(bytes.as_slice()) {
            Ok(i) => i,
            Err(m) => { return Err(WasmError::ModuleLoad(m)); },
        };
        WasmModule::assemble(bytes, &digest, interface)
    }

    /// The hash of the module.
    pub fn hash(&self) -> (h: &str)
        ensures
            h@ == self.metadata.hash@,
    {
        self.metadata.hash.as_str()
    }

    /// Whether the module asks for `capability`.
    pub fn requires_capability(&self, capability: &WasmCapability) -> (r: bool)
        ensures
            r == self.metadata.capabilities.has(*capability),
    {
        self.metadata.capabilities.contains(capability)
    }

    /// Whether the module is a WASI module.
    pub fn is_wasi(&self) -> (r: bool)
        ensures
            r == self.metadata.is_wasi,
    {
        self.metadata.is_wasi
    }
}

/// The hash that a module carries is the hash of the bytes that it carries.
pub open spec fn hash_is_of_bytes(m: WasmModule) -> bool {
    m.metadata.hash@ == module_hash(m.bytes@)
}

/// The hashes of a list of modules, in order.
pub open spec fn hashes(modules: Seq<WasmModule>) -> Seq<Seq<char>> {
    modules.map_values(|m: WasmModule| m.metadata.hash@)
}

/// Loaded modules by their hash.
#[derive(Debug)]
pub struct ModuleCache {
    modules: Vec<WasmModule>,
}

impl ModuleCache {
    /// The modules held, in the order in which they came.
    pub closed spec fn entries(&self) -> Seq<WasmModule> {
        self.modules@
    }

    /// No hash is held twice, and the hash of every module held is the hash
    /// of its bytes.
    pub closed spec fn wf(&self) -> bool {
        &&& hashes(self.modules@).no_duplicates()
        &&& forall|i: int|
            0 <= i < self.modules@.len() ==> hash_is_of_bytes(#[trigger] self.modules@[i])
    }

    /// Every module held is held under the hash of its own bytes, and under
    /// no other place than its own.
    pub proof fn lemma_entries_are_hashed(&self, i: int, j: int)
        requires
            self.wf(),
            0 <= i < self.entries().len(),
            0 <= j < self.entries().len(),
        ensures
            hash_is_of_bytes(self.entries()[i]),
            self.entries()[i].metadata.hash@ == self.entries()[j].metadata.hash@ ==> i == j,
    {
        assert(hashes(self.modules@)[i] == self.modules@[i].metadata.hash@);
        assert(hashes(self.modules@)[j] == self.modules@[j].metadata.hash@);
    }

    /// An empty cache.
    pub fn new() -> (c: ModuleCache)
        ensures
            c.wf(),
            c.entries() == Seq::<WasmModule>::empty(),
    {
        ModuleCache { modules: Vec::new() }
    }

    /// Number of modules held.
    pub fn len(&self) -> (n: usize)
        ensures
            n == self.entries().len(),
    {
        self.modules.len()
    }

    /// The place of the module with this hash, if it is held.
    pub fn find(&self, hash: &str) -> (r: Option<usize>)
        ensures
            match r {
                Some(i) => i < self.entries().len() && self.entries()[i as int].metadata.hash@
                    == hash@,
                None => !hashes(self.entries()).contains(hash@),
            },
    {
        let mut i: usize = 0;
        while i < self.modules.len()
            invariant
                i <= self.modules@.len(),
                forall|k: int| 0 <= k < i ==> hashes(self.modules@)[k] != hash@,
            decreases self.modules@.len() - i,
        {
            if str_eq(self.modules[i].metadata.hash.as_str(), hash) {
                return Some(i);
            }
            i = i + 1;
        }
        None
    }

    /// The module with this hash, if it is held. The cache never hands out
    /// a module with another hash than the one asked for.
    pub fn get(&self, hash: &str) -> (r: Option<&WasmModule>)
        ensures
            match r {
                Some(m) => m.metadata.hash@ == hash@ && self.entries().contains(*m) && (self.wf()
                    ==> hash_is_of_bytes(*m)),
                None => !hashes(self.entries()).contains(hash@),
            },
    {
        match self.find(hash) {
            Some(i) => Some(&self.modules[i]),
            None => None,
        }
    }

    /// The module at a place.
    pub fn at(&self, place: usize) -> (m: &WasmModule)
        requires
            place < self.entries().len(),
        ensures
            *m == self.entries()[place as int],
    {
        &self.modules[place]
    }

    /// The place of the module with the hash of `module`: where one is held
    /// already, that one stays and `module` is dropped; otherwise `module`
    /// is taken in behind the others.
    pub fn get_or_insert(&mut self, module: WasmModule) -> (place: usize)
        requires
            old(self).wf(),
            hash_is_of_bytes(module),
        ensures
            final(self).wf(),
            place < final(self).entries().len(),
            final(self).entries()[place as int].metadata.hash@ == module.metadata.hash@,
            hash_is_of_bytes(final(self).entries()[place as int]),
            hashes(old(self).entries()).contains(module.metadata.hash@) ==> final(self).entries()
                == old(self).entries(),
            !hashes(old(self).entries()).contains(module.metadata.hash@)
                ==> final(self).entries() == old(self).entries().push(module) && place
                == old(self).entries().len(),
    {
        match self.find(module.metadata.hash.as_str()) {
            Some(i) => {
                assert(hashes(self.modules@)[i as int] == module.metadata.hash@);
                i
            },
            None => {
                let place: usize = self.modules.len();
                self.modules.push(module);
                proof {
                    let hs = hashes(self.modules@);
                    assert(hs =~= hashes(old(self).modules@).push(module.metadata.hash@));
                    assert forall|a: int, b: int|
                        0 <= a < hs.len() && 0 <= b < hs.len() && a != b implies hs[a] != hs[b] by {
                        if a < place {
                            assert(hashes(old(self).modules@)[a] == hs[a]);
                            assert(hashes(old(self).modules@).contains(hs[a]));
                        }
                        if b < place {
                            assert(hashes(old(self).modules@)[b] == hs[b]);
                            assert(hashes(old(self).modules@).contains(hs[b]));
                        }
                    }
                }
                place
            },
        }
    }
}

} // verus!
