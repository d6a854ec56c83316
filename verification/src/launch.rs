//! Launch-time validation of an assembled configuration and construction
//! of the jailer command line.
//!
//! Whether a path exists, resolves or is writable can only be observed by
//! the embedding program at launch time; it reports those observations as
//! plain booleans in [`HostConditions`]. This module decides, in the
//! documented order, whether the launch may proceed and with which
//! arguments; the spawn itself is the embedding program's job.

use vstd::prelude::*;

use crate::config::drive::{Drive, DriveView};
use crate::config::jailer::{Jailer, JailerMode, JailerView, Stdio};
use crate::config::machine::{Machine, MachineView};
use crate::error::Error;
use crate::numeral::{dec_i32, dec_u32, spec_dec_int, spec_dec_nat};

verus! {

/// The mathematical content of a [`Config`]: every sub-configuration as a
/// plain value.
pub ghost struct ConfigView {
    pub machine: MachineView,
    pub jailer: JailerView,
    pub drives: Seq<DriveView>,
    pub socket_path: Option<Seq<char>>,
}

/// The complete, immutable configuration of one microVM: machine, jailer
/// and drive settings, with an optional control-plane socket path.
///
/// Built through [`Config::builder`]; no field can be changed afterwards.
#[derive(Debug)]
pub struct Config {
    machine: Machine,
    jailer: Jailer,
    drives: Vec<Drive>,
    socket_path: Option<String>,
}

impl View for Config {
    type V = ConfigView;

    closed spec fn view(&self) -> ConfigView {
        ConfigView {
            machine: self.machine@,
            jailer: self.jailer@,
            drives: self.drives@.map_values(|d: Drive| d@),
            socket_path: match self.socket_path {
                Some(p) => Some(p@),
                None => None,
            },
        }
    }
}

impl Config {
    /// Create a new `ConfigBuilder` instance.
    ///
    /// Defaults: the default machine and jailer builder states, no drives,
    /// no control-plane socket.
    pub fn builder() -> (b: ConfigBuilder)
        ensures
            b@.machine == (MachineView {
                smt: false,
                track_dirty_pages: false,
                mem_size_mib: 0,
                vcpu_count: 1,
                cpu_template: None,
            }),
            b@.jailer.id.len() == 36,
            b@.jailer.numa_node is None,
            b@.jailer.exec_file == "/usr/bin/firecracker"@,
            b@.jailer.jailer_binary == "jailer"@,
            b@.jailer.chroot_base_dir == "/srv/jailer"@,
            b@.jailer.mode == JailerMode::Attached(Stdio { stdout: None, stderr: None, stdin: None }),
            b@.drives == Seq::<DriveView>::empty(),
            b@.socket_path is None,
    {
        let b = ConfigBuilder(Config {
            machine: Machine::builder().build(),
            jailer: Jailer::builder().build(),
            drives: Vec::new(),
            socket_path: None,
        });
        proof {
            assert(b@.drives =~= Seq::<DriveView>::empty());
        }
        b
    }

    /// The machine configuration.
    pub fn machine(&self) -> (r: &Machine)
        ensures
            r@ == self@.machine,
    {
        &self.machine
    }

    /// The jailer configuration.
    pub fn jailer(&self) -> (r: &Jailer)
        ensures
            r@ == self@.jailer,
    {
        &self.jailer
    }

    /// The configured guest drives.
    pub fn drives(&self) -> (r: &Vec<Drive>)
        ensures
            r@.map_values(|d: Drive| d@) == self@.drives,
    {
        &self.drives
    }

    /// The control-plane socket path, if one is configured.
    pub fn socket_path(&self) -> (r: Option<&str>)
        ensures
            match r {
                Some(p) => self@.socket_path == Some(p@),
                None => self@.socket_path is None,
            },
    {
        match &self.socket_path {
            Some(p) => Some(p.as_str()),
            None => None,
        }
    }
}

/// Builder for `Config`.
#[derive(Debug)]
pub struct ConfigBuilder(Config);

impl View for ConfigBuilder {
    type V = ConfigView;

    closed spec fn view(&self) -> ConfigView {
        self.0@
    }
}

impl ConfigBuilder {
    /// Set the machine configuration.
    pub fn machine(self, machine: Machine) -> (r: Self)
        ensures
            r@ == (ConfigView { machine: machine@, ..self@ }),
    {
        let mut inner = self.0;
        inner.machine = machine;
        ConfigBuilder(inner)
    }

    /// Set the jailer configuration.
    pub fn jailer(self, jailer: Jailer) -> (r: Self)
        ensures
            r@ == (ConfigView { jailer: jailer@, ..self@ }),
    {
        let mut inner = self.0;
        inner.jailer = jailer;
        ConfigBuilder(inner)
    }

    /// Add one guest drive after those already configured.
    pub fn add_drive(self, drive: Drive) -> (r: Self)
        ensures
            r@ == (ConfigView { drives: self@.drives.push(drive@), ..self@ }),
    {
        let mut inner = self.0;
        inner.drives.push(drive);
        let r = ConfigBuilder(inner);
        proof {
            assert(r@.drives =~= self@.drives.push(drive@));
        }
        r
    }

    /// Set the control-plane socket path.
    pub fn socket_path(self, socket_path: String) -> (r: Self)
        ensures
            r@ == (ConfigView { socket_path: Some(socket_path@), ..self@ }),
    {
        let mut inner = self.0;
        inner.socket_path = Some(socket_path);
        ConfigBuilder(inner)
    }

    /// Build the `Config`.
    ///
    /// Freezing is infallible and performs no validation; every launch-time
    /// constraint is checked by [`validate`].
    pub fn build(self) -> (c: Config)
        ensures
            c@ == self@,
    {
        self.0
    }
}

/// Building a configuration twice from one builder state is deterministic:
/// any two configurations frozen from builders with equal contents have
/// field-for-field equal contents.
pub proof fn lemma_config_build_deterministic(
    b1: ConfigBuilder,
    b2: ConfigBuilder,
    c1: Config,
    c2: Config,
)
    requires
        b1@ == b2@,
        c1@ == b1@,
        c2@ == b2@,
    ensures
        c1@ == c2@,
{
}

/// What the embedding program observed of the host immediately before the
/// launch, one plain boolean per pre-flight check.
#[derive(Debug, Clone, PartialEq, Eq)]
pub struct HostConditions {
    /// The jailer binary resolves: verbatim when its path has a separator,
    /// through the executable search path otherwise.
    pub jailer_binary_resolvable: bool,
    /// The VM-monitor executable exists.
    pub exec_file_present: bool,
    /// For each configured drive, in order, whether its host path exists.
    pub drive_paths_present: Vec<bool>,
    /// The chroot base directory exists and is writable.
    pub chroot_base_writable: bool,
    /// The configured socket path is usable: not already taken by a
    /// non-socket file. Meaningful only when a socket path is configured.
    pub socket_path_usable: bool,
}

/// The virtual CPU count must be 1 or an even number, and within range.
pub open spec fn vcpu_count_ok(n: usize) -> bool {
    1 <= n <= 32 && (n == 1 || n % 2 == 0)
}

/// Every configured drive's host path exists.
pub open spec fn all_drives_present(present: Seq<bool>) -> bool {
    forall|i: int| 0 <= i < present.len() ==> present[i]
}

/// The outcome of launch-time validation: the first failing constraint
/// decides, in this order — virtual CPU count, memory size, jailer
/// executable, VM-monitor executable, drive host paths, chroot base
/// directory, socket path. The socket path matters only when one is
/// configured.
pub open spec fn spec_validate(c: ConfigView, host: HostConditions) -> Result<(), Error> {
    if !vcpu_count_ok(c.machine.vcpu_count) {
        Err(Error::InvalidVcpuCount(c.machine.vcpu_count))
    } else if c.machine.mem_size_mib <= 0 {
        Err(Error::InvalidMemorySize(c.machine.mem_size_mib))
    } else if !host.jailer_binary_resolvable {
        Err(Error::InvalidJailerExecPath)
    } else if !host.exec_file_present {
        Err(Error::InvalidExecPath)
    } else if !all_drives_present(host.drive_paths_present@) {
        Err(Error::InvalidDrivePath)
    } else if !host.chroot_base_writable {
        Err(Error::InvalidChrootBasePath)
    } else if c.socket_path is Some && !host.socket_path_usable {
        Err(Error::InvalidSocketPath)
    } else {
        Ok(())
    }
}

/// Validate the assembled configuration against the observed host
/// conditions.
///
/// Returns `Ok` exactly when every launch-time constraint holds; otherwise
/// the error of the first failing check, in the documented order. No
/// subprocess may be created unless this returns `Ok`.
pub fn validate(config: &Config, host: &HostConditions) -> (r: Result<(), Error>)
    requires
        host.drive_paths_present@.len() == config@.drives.len(),
    ensures
        r == spec_validate(config@, *host),
        r is Ok <==> {
            &&& vcpu_count_ok(config@.machine.vcpu_count)
            &&& config@.machine.mem_size_mib > 0
            &&& host.jailer_binary_resolvable
            &&& host.exec_file_present
            &&& all_drives_present(host.drive_paths_present@)
            &&& host.chroot_base_writable
            &&& (config@.socket_path is Some ==> host.socket_path_usable)
        },
{
    let vcpu_count = config.machine().vcpu_count();
    if !(1 <= vcpu_count && vcpu_count <= 32 && (vcpu_count == 1 || vcpu_count % 2 == 0)) {
        return Err(Error::InvalidVcpuCount(vcpu_count));
    }
    if config.machine().mem_size_mib() <= 0 {
        return Err(Error::InvalidMemorySize(config.machine().mem_size_mib()));
    }
    if !host.jailer_binary_resolvable {
        return Err(Error::InvalidJailerExecPath);
    }
    if !host.exec_file_present {
        return Err(Error::InvalidExecPath);
    }
    let mut i: usize = 0;
    while i < host.drive_paths_present.len()
        invariant
            0 <= i <= host.drive_paths_present@.len(),
            forall|j: int| 0 <= j < i ==> host.drive_paths_present@[j],
            vcpu_count_ok(config@.machine.vcpu_count),
            config@.machine.mem_size_mib > 0,
            host.jailer_binary_resolvable,
            host.exec_file_present,
        decreases host.drive_paths_present@.len() - i,
    {
        if !host.drive_paths_present[i] {
            proof {
                assert(!host.drive_paths_present@[i as int]);
                assert(!all_drives_present(host.drive_paths_present@));
            }
            return Err(Error::InvalidDrivePath);
        }
        i += 1;
    }
    if !host.chroot_base_writable {
        return Err(Error::InvalidChrootBasePath);
    }
    let socket_configured = match config.socket_path() {
        Some(_) => true,
        None => false,
    };
    if socket_configured && !host.socket_path_usable {
        return Err(Error::InvalidSocketPath);
    }
    Ok(())
}

/// With every earlier check passing but some drive's host path missing,
/// validation fails with exactly `InvalidDrivePath`; since no launch may
/// proceed on an error, no subprocess is created for such a configuration.
pub proof fn lemma_missing_drive_fails(c: ConfigView, host: HostConditions)
    requires
        vcpu_count_ok(c.machine.vcpu_count),
        c.machine.mem_size_mib > 0,
        host.jailer_binary_resolvable,
        host.exec_file_present,
        !all_drives_present(host.drive_paths_present@),
    ensures
        spec_validate(c, host) == Err::<(), Error>(Error::InvalidDrivePath),
{
}

/// The arguments handed to the jailer binary, derived field by field from
/// the jailer configuration: the VM identifier, the target executable, the
/// user and group ids in decimal, the chroot base directory, then the NUMA
/// node in decimal when one is configured, then `--daemonize` exactly when
/// the mode is `Daemon`.
pub open spec fn spec_jailer_args(j: JailerView) -> Seq<Seq<char>> {
    let base = seq![
        "--id"@,
        j.id,
        "--exec-file"@,
        j.exec_file,
        "--uid"@,
        spec_dec_nat(j.uid as int),
        "--gid"@,
        spec_dec_nat(j.gid as int),
        "--chroot-base-dir"@,
        j.chroot_base_dir,
    ];
    let with_numa = match j.numa_node {
        Some(n) => base.push("--node"@).push(spec_dec_int(n as int)),
        None => base,
    };
    match j.mode {
        JailerMode::Daemon => with_numa.push("--daemonize"@),
        JailerMode::Attached(_) => with_numa,
    }
}

/// Construct the jailer command line from the configuration.
///
/// The returned vector is the argument list for the jailer binary; the
/// binary itself is named by the jailer configuration and resolved by the
/// embedding program under the usual executable search rules.
pub fn jailer_args(jailer: &Jailer) -> (args: Vec<String>)
    ensures
        args@.map_values(|s: String| s@) == spec_jailer_args(jailer@),
{
    let mut args: Vec<String> = Vec::new();
    args.push(String::from_str("--id"));
    args.push(String::from_str(jailer.id()));
    args.push(String::from_str("--exec-file"));
    args.push(String::from_str(jailer.exec_file()));
    args.push(String::from_str("--uid"));
    args.push(dec_u32(jailer.uid()));
    args.push(String::from_str("--gid"));
    args.push(dec_u32(jailer.gid()));
    args.push(String::from_str("--chroot-base-dir"));
    args.push(String::from_str(jailer.chroot_base_dir()));
    match jailer.numa_node() {
        Some(n) => {
            args.push(String::from_str("--node"));
            args.push(dec_i32(n));
        },
        None => {},
    }
    let daemonize = match jailer.mode() {
        JailerMode::Daemon => true,
        JailerMode::Attached(_) => false,
    };
    if daemonize {
        args.push(String::from_str("--daemonize"));
    }
    proof {
        assert(args@.map_values(|s: String| s@) =~~= spec_jailer_args(jailer@));
    }
    args
}

} // verus!
