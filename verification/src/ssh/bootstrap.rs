//! Bootstrap: what is known of the remote platform, which way of starting
//! the agent is chosen, and the launcher script for it.

use vstd::prelude::*;
use crate::ssh::error::TransportError;
use crate::text::{chars_of, copy_str, str_eq, trim_range, trimmed};

verus! {

/// The command that reports architecture, system and distribution, one per line.
pub const PLATFORM_PROBE: &'static str =
    "uname -m && uname -s && (lsb_release -d 2>/dev/null || cat /etc/os-release 2>/dev/null | head -1 || echo 'Unknown')";

/// The command that prints `True` if anonymous memory files can be created.
pub const MEMFD_PROBE: &'static str =
    "python3 -c 'import ctypes; libc = ctypes.CDLL(\"libc.so.6\"); print(libc.syscall(319, b\"test\", 1) >= 0)' 2>/dev/null || echo 'False'";

/// The command that succeeds if a Python interpreter is there.
pub const PYTHON_PROBE: &'static str = "python3 --version 2>/dev/null || python --version 2>/dev/null";

/// The command that prints `available` if `/dev/shm` can be written.
pub const DEVSHM_PROBE: &'static str = "[ -d /dev/shm ] && [ -w /dev/shm ] && echo 'available'";

/// The command that prints `available` if `/tmp` can be written.
pub const TMP_PROBE: &'static str = "[ -d /tmp ] && [ -w /tmp ] && echo 'available'";

/// Launcher that runs the agent from an anonymous memory file.
pub const MEMFD_SCRIPT: &'static str =
    "set -e\npython3 -c \"\nimport os, sys, ctypes\ntry:\n    libc = ctypes.CDLL('libc.so.6')\n    fd = libc.syscall(319, b'mitoxide-agent', 1)  # memfd_create\n    if fd >= 0:\n        agent_data = sys.stdin.buffer.read()\n        os.write(fd, agent_data)\n        os.fexecve(fd, ['/proc/self/fd/%d' % fd], os.environ)\n    else:\n        raise Exception('memfd_create failed')\nexcept Exception as e:\n    print(f'memfd_create failed: {e}', file=sys.stderr)\n    sys.exit(1)\n\"";

/// Launcher that runs the agent from a named temporary file made by Python.
pub const PYTHON_SCRIPT: &'static str =
    "set -e\npython3 -c \"\nimport os, sys, tempfile, stat\ntry:\n    with tempfile.NamedTemporaryFile(delete=False, mode='wb') as f:\n        agent_data = sys.stdin.buffer.read()\n        f.write(agent_data)\n        f.flush()\n        os.chmod(f.name, stat.S_IRWXU)\n        os.execv(f.name, [f.name])\nexcept Exception as e:\n    print(f'Python bootstrap failed: {e}', file=sys.stderr)\n    sys.exit(1)\n\"";

/// Launcher that runs the agent from a file under `/dev/shm` and removes the
/// file on exit.
pub const DEVSHM_SCRIPT: &'static str =
    "set -e\nAGENT_PATH=\"/dev/shm/mitoxide-agent-$$-$(date +%s)\"\ncat > \"$AGENT_PATH\"\nchmod +x \"$AGENT_PATH\"\ntrap 'rm -f \"$AGENT_PATH\" 2>/dev/null || true' EXIT\nexec \"$AGENT_PATH\"";

/// Launcher that runs the agent from a file under `/tmp` and removes the
/// file on exit.
pub const TEMPFILE_SCRIPT: &'static str =
    "set -e\nAGENT_PATH=\"/tmp/mitoxide-agent-$$-$(date +%s)\"\ncat > \"$AGENT_PATH\"\nchmod +x \"$AGENT_PATH\"\ntrap 'rm -f \"$AGENT_PATH\" 2>/dev/null || true' EXIT\nexec \"$AGENT_PATH\"";

/// Launcher that tries `/dev/shm`, `/tmp` and `/var/tmp` in turn.
pub const SHELL_SCRIPT: &'static str =
    "set -e\n# Try to find a writable directory\nfor dir in /dev/shm /tmp /var/tmp; do\n    if [ -d \"$dir\" ] && [ -w \"$dir\" ]; then\n        AGENT_PATH=\"$dir/mitoxide-agent-$$-$(date +%s)\"\n        cat > \"$AGENT_PATH\"\n        chmod +x \"$AGENT_PATH\"\n        trap 'rm -f \"$AGENT_PATH\" 2>/dev/null || true' EXIT\n        exec \"$AGENT_PATH\"\n        break\n    fi\ndone\necho \"No writable directory found for agent bootstrap\" >&2\nexit 1";

/// Ways of starting the agent.
#[derive(Debug, Clone, Copy, PartialEq, Eq, Structural)]
pub enum BootstrapMethod {
    /// From an anonymous memory file (Linux only).
    MemfdCreate,
    /// From a file under `/tmp`.
    TempFile,
    /// From a file under `/dev/shm`.
    DevShm,
    /// Through a Python launcher.
    Python,
    /// Through a shell launcher that looks for a writable directory.
    Shell,
}

/// What is known of the remote platform.
#[derive(Debug)]
pub struct PlatformInfo {
    /// Architecture, as `uname -m` reports it.
    pub arch: String,
    /// Operating system, as `uname -s` reports it.
    pub os: String,
    /// Distribution, if reported.
    pub version: Option<String>,
    /// The ways of starting the agent that are available, best first.
    pub bootstrap_methods: Vec<BootstrapMethod>,
}

/// The first line of a text: what stands before its first line feed.
pub open spec fn first_line(s: Seq<char>) -> Seq<char> {
    match s.index_of_first('\n') {
        Some(i) => s.take(i),
        None => s,
    }
}

/// What follows the first line of a text, if the text has a line feed.
pub open spec fn after_first_line(s: Seq<char>) -> Option<Seq<char>> {
    match s.index_of_first('\n') {
        Some(i) => Some(s.skip(i + 1)),
        None => None,
    }
}

/// Architecture, system and distribution as a probe's output gives them.
pub struct PlatformReport {
    pub arch: Seq<char>,
    pub os: Seq<char>,
    pub version: Option<Seq<char>>,
}

/// What the output of the platform probe says. The output is trimmed; its
/// first line names the architecture, its second the system, its third, if
/// there is one, the distribution, each trimmed. Output of fewer than two
/// lines says nothing.
pub open spec fn platform_report(output: Seq<char>) -> Option<PlatformReport> {
    let t = trimmed(output);
    match after_first_line(t) {
        None => None,
        Some(rest) => Some(
            PlatformReport {
                arch: trimmed(first_line(t)),
                os: trimmed(first_line(rest)),
                version: match after_first_line(rest) {
                    None => None,
                    Some(more) => Some(trimmed(first_line(more))),
                },
            },
        ),
    }
}

/// What the probes found out.
#[derive(Debug, Clone, Copy, PartialEq, Eq, Structural)]
pub struct Probes {
    /// Anonymous memory files can be created.
    pub memfd: bool,
    /// `/dev/shm` can be written.
    pub devshm: bool,
    /// `/tmp` can be written.
    pub tmp: bool,
    /// A Python interpreter is there.
    pub python: bool,
}

/// The ways of starting the agent that the probes allow, best first:
/// anonymous memory file (on Linux), `/dev/shm`, `/tmp`, Python, and the
/// shell, which is always there.
pub open spec fn available_methods(os: Seq<char>, probes: Probes) -> Seq<BootstrapMethod> {
    (if os == "Linux"@ && probes.memfd {
        seq![BootstrapMethod::MemfdCreate]
    } else {
        Seq::<BootstrapMethod>::empty()
    }) + (if probes.devshm {
        seq![BootstrapMethod::DevShm]
    } else {
        Seq::<BootstrapMethod>::empty()
    }) + (if probes.tmp {
        seq![BootstrapMethod::TempFile]
    } else {
        Seq::<BootstrapMethod>::empty()
    }) + (if probes.python {
        seq![BootstrapMethod::Python]
    } else {
        Seq::<BootstrapMethod>::empty()
    }) + seq![BootstrapMethod::Shell]
}

/// The launcher script of a method.
pub open spec fn method_script(method: BootstrapMethod) -> Seq<char> {
    match method {
        BootstrapMethod::MemfdCreate => MEMFD_SCRIPT@,
        BootstrapMethod::Python => PYTHON_SCRIPT@,
        BootstrapMethod::DevShm => DEVSHM_SCRIPT@,
        BootstrapMethod::TempFile => TEMPFILE_SCRIPT@,
        BootstrapMethod::Shell => SHELL_SCRIPT@,
    }
}

fn line_end(v: &Vec<char>, from: usize) -> (end: usize)
    requires
        from <= v.len(),
    ensures
        from <= end <= v.len(),
        first_line(v@.skip(from as int)) == v@.subrange(from as int, end as int),
        end < v.len() ==> after_first_line(v@.skip(from as int)) == Some(v@.skip(end + 1)),
        end == v.len() ==> after_first_line(v@.skip(from as int)) is None,
{
    let ghost s = v@.skip(from as int);
    let mut i: usize = from;
    while i < v.len()
        invariant
            from <= i <= v.len(),
            s == v@.skip(from as int),
            forall|k: int| 0 <= k < i - from ==> s[k] != '\n',
        decreases v.len() - i,
    {
        if v[i] == '\n' {
            proof {
                assert(s[i - from] == '\n');
                assert(s.contains('\n'));
                s.index_of_first_ensures('\n');
                let at = s.index_of_first('\n').unwrap();
                assert(at == i - from);
                assert(s.take(at) =~= v@.subrange(from as int, i as int));
                assert(s.skip(at + 1) =~= v@.skip(i + 1));
            }
            return i;
        }
        i = i + 1;
    }
    proof {
        assert(!s.contains('\n'));
        s.index_of_first_ensures('\n');
        assert(s =~= v@.subrange(from as int, v.len() as int));
    }
    i
}

/// Bootstrap of an agent on a remote host.
#[derive(Debug)]
pub struct Bootstrap {
    platform_info: Option<PlatformInfo>,
    custom_script: Option<String>,
}

impl Bootstrap {
    /// What is known of the platform.
    pub closed spec fn platform(&self) -> Option<PlatformInfo> {
        self.platform_info
    }

    /// The launcher that the caller supplied.
    pub closed spec fn custom(&self) -> Option<String> {
        self.custom_script
    }

    /// A bootstrap that knows nothing of the platform yet.
    pub fn new() -> (b: Bootstrap)
        ensures
            b.platform() is None,
            b.custom() is None,
    {
        Bootstrap { platform_info: None, custom_script: None }
    }

    /// The bootstrap with a launcher that takes the place of the choice by method.
    pub fn with_custom_script(self, script: String) -> (b: Bootstrap)
        ensures
            b.platform() == self.platform(),
            b.custom() == Some(script),
    {
        Bootstrap { platform_info: self.platform_info, custom_script: Some(script) }
    }

    /// Whether the probe for anonymous memory files is of use on a system.
    pub fn wants_memfd_probe(&self, os: &str) -> (r: bool)
        ensures
            r == (os@ == "Linux"@),
    {
        str_eq(os, "Linux")
    }

    /// Whether the output of a probe is this word, white space aside.
    pub fn probe_says(&self, output: &str, word: &str) -> (r: bool)
        ensures
            r == (trimmed(output@) == word@),
    {
        let t = crate::text::trim_str(output);
        str_eq(t.as_str(), word)
    }

    /// Reads the output of the platform probe.
    pub fn parse_platform(&self, output: &str) -> (r: Result<
        (String, String, Option<String>),
        TransportError,
    >)
        ensures
            match platform_report(output@) {
                Some(report) => r matches Ok((arch, os, version)) && arch@ == report.arch && os@
                    == report.os && match report.version {
                    Some(v) => version matches Some(w) && w@ == v,
                    None => version is None,
                },
                None => r matches Err(TransportError::Bootstrap(m)) && m@
                    == "Failed to detect platform"@,
            },
    {
        let whole = crate::text::trim_str(output);
        let v = chars_of(whole.as_str());
        assert(v@.skip(0) =~= v@);
        let end0 = line_end(&v, 0);
        if end0 == v.len() {
            return Err(TransportError::Bootstrap(copy_str("Failed to detect platform")));
        }
        let arch = trim_range(&v, 0, end0);
        let end1 = line_end(&v, end0 + 1);
        let os = trim_range(&v, end0 + 1, end1);
        let version = if end1 < v.len() {
            let end2 = line_end(&v, end1 + 1);
            Some(trim_range(&v, end1 + 1, end2))
        } else {
            None
        };
        Ok((arch, os, version))
    }

    /// The ways of starting the agent that the probes allow, best first.
    pub fn methods_from_probes(&self, os: &str, probes: Probes) -> (methods: Vec<BootstrapMethod>)
        ensures
            methods@ == available_methods(os@, probes),
    {
        let mut methods: Vec<BootstrapMethod> = Vec::new();
        if str_eq(os, "Linux") && probes.memfd {
            methods.push(BootstrapMethod::MemfdCreate);
        }
        if probes.devshm {
            methods.push(BootstrapMethod::DevShm);
        }
        if probes.tmp {
            methods.push(BootstrapMethod::TempFile);
        }
        if probes.python {
            methods.push(BootstrapMethod::Python);
        }
        methods.push(BootstrapMethod::Shell);
        assert(methods@ =~= available_methods(os@, probes));
        methods
    }

    /// Takes what was found out about the platform.
    pub fn set_platform_info(&mut self, info: PlatformInfo)
        ensures
            final(self).platform() == Some(info),
            final(self).custom() == old(self).custom(),
    {
        self.platform_info = Some(info);
    }

    /// The launcher script. Without knowledge of the platform there is
    /// none. A custom launcher comes first; otherwise the launcher of the
    /// best method available is chosen.
    pub fn generate_bootstrap_script(&self, _agent_binary: &[u8]) -> (r: Result<
        String,
        TransportError,
    >)
        ensures
            match self.platform() {
                None => r matches Err(TransportError::Bootstrap(m)) && m@
                    == "Platform not detected"@,
                Some(info) => match self.custom() {
                    Some(script) => r matches Ok(s) && s@ == script@,
                    None => if info.bootstrap_methods@.len() == 0 {
                        r matches Err(TransportError::Bootstrap(m)) && m@
                            == "No bootstrap methods available"@
                    } else {
                        r matches Ok(s) && s@ == method_script(info.bootstrap_methods@[0])
                    },
                },
            },
    {
        let info = match &self.platform_info {
            Some(info) => info,
            None => {
                return Err(TransportError::Bootstrap(copy_str("Platform not detected")));
            },
        };
        if let Some(script) = &self.custom_script {
            return Ok(script.clone());
        }
        if info.bootstrap_methods.len() == 0 {
            return Err(TransportError::Bootstrap(copy_str("No bootstrap methods available")));
        }
        let script = match info.bootstrap_methods[0] {
            BootstrapMethod::MemfdCreate => self.generate_memfd_script(),
            BootstrapMethod::Python => self.generate_python_script(),
            BootstrapMethod::DevShm => self.generate_devshm_script(),
            BootstrapMethod::TempFile => self.generate_tempfile_script(),
            BootstrapMethod::Shell => self.generate_shell_script(),
        };
        Ok(script)
    }

    /// The launcher for an anonymous memory file.
    pub fn generate_memfd_script(&self) -> (s: String)
        ensures
            s@ == MEMFD_SCRIPT@,
    {
        copy_str(MEMFD_SCRIPT)
    }

    /// The Python launcher.
    pub fn generate_python_script(&self) -> (s: String)
        ensures
            s@ == PYTHON_SCRIPT@,
    {
        copy_str(PYTHON_SCRIPT)
    }

    /// The launcher for a file under `/dev/shm`.
    pub fn generate_devshm_script(&self) -> (s: String)
        ensures
            s@ == DEVSHM_SCRIPT@,
    {
        copy_str(DEVSHM_SCRIPT)
    }

    /// The launcher for a file under `/tmp`.
    pub fn generate_tempfile_script(&self) -> (s: String)
        ensures
            s@ == TEMPFILE_SCRIPT@,
    {
        copy_str(TEMPFILE_SCRIPT)
    }

    /// The shell launcher.
    pub fn generate_shell_script(&self) -> (s: String)
        ensures
            s@ == SHELL_SCRIPT@,
    {
        copy_str(SHELL_SCRIPT)
    }

    /// What is known of the platform.
    pub fn platform_info(&self) -> (r: Option<&PlatformInfo>)
        ensures
            match r {
                Some(info) => self.platform() == Some(*info),
                None => self.platform() is None,
            },
    {
        self.platform_info.as_ref()
    }
}

impl Default for Bootstrap {
    /// A bootstrap that knows nothing of the platform yet.
    fn default() -> (b: Bootstrap)
        ensures
            b.platform() is None,
            b.custom() is None,
    {
        Bootstrap::new()
    }
}

} // verus!
