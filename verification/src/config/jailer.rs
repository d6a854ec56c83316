//! API to configure and interact with jailer.

use vstd::prelude::*;

verus! {

/// A standard-stream redirection that the embedding program can realise
/// when it spawns the child: keep the caller's stream, a null sink, or a
/// pipe back to the caller.
#[derive(Debug, Clone, Copy, PartialEq, Eq, Structural)]
pub enum Redirect {
    /// Inherit the corresponding stream of the calling process.
    Inherit,
    /// Redirect the stream to a null sink.
    Null,
    /// Connect the stream to a pipe held by the calling process.
    Piped,
}

/// The standard IO handlers.
///
/// Each unset stream defaults to inheriting the caller's corresponding
/// stream.
#[derive(Debug, Clone, Copy, PartialEq, Eq, Structural)]
pub struct Stdio {
    /// Stdout specifies the redirection for STDOUT to use when spawning the jailer.
    pub stdout: Option<Redirect>,
    /// Stderr specifies the redirection for STDERR to use when spawning the jailer.
    pub stderr: Option<Redirect>,
    /// Stdin specifies the redirection for STDIN to use when spawning the jailer.
    pub stdin: Option<Redirect>,
}

impl Default for Stdio {
    /// All three streams unset: the child inherits the caller's streams.
    fn default() -> (r: Self)
        ensures
            r == (Stdio { stdout: None, stderr: None, stdin: None }),
    {
        Stdio { stdout: None, stderr: None, stdin: None }
    }
}

/// The mode of the jailer process.
///
/// The two variants carry different payloads on purpose: a detached session
/// with inherited terminal streams is unrepresentable, because only
/// `Attached` carries stream overrides.
#[derive(Debug, Clone, Copy, PartialEq, Eq, Structural)]
pub enum JailerMode {
    /// The jailer child process will run attached to the parent process.
    Attached(Stdio),
    /// Calls setsid() and redirects stdin, stdout, and stderr to a null sink.
    Daemon,
}

impl Default for JailerMode {
    /// Attached, with all three streams inherited from the caller.
    fn default() -> (r: Self)
        ensures
            r == JailerMode::Attached(Stdio { stdout: None, stderr: None, stdin: None }),
    {
        JailerMode::Attached(Stdio { stdout: None, stderr: None, stdin: None })
    }
}

/// The resolved redirection of all three standard streams, as the spawn
/// must set them up.
#[derive(Debug, Clone, Copy, PartialEq, Eq, Structural)]
pub struct StreamPlan {
    /// Redirection of the child's STDOUT.
    pub stdout: Redirect,
    /// Redirection of the child's STDERR.
    pub stderr: Redirect,
    /// Redirection of the child's STDIN.
    pub stdin: Redirect,
}

/// What the three standard streams of the child must be, given the jailer
/// mode: a daemon detaches into its own session and sends every stream to a
/// null sink; an attached child takes each explicit override and inherits
/// each unset stream.
pub open spec fn spec_stream_plan(mode: JailerMode) -> StreamPlan {
    match mode {
        JailerMode::Daemon => StreamPlan {
            stdout: Redirect::Null,
            stderr: Redirect::Null,
            stdin: Redirect::Null,
        },
        JailerMode::Attached(stdio) => StreamPlan {
            stdout: or_inherit(stdio.stdout),
            stderr: or_inherit(stdio.stderr),
            stdin: or_inherit(stdio.stdin),
        },
    }
}

/// An unset stream inherits the caller's corresponding stream.
pub open spec fn or_inherit(r: Option<Redirect>) -> Redirect {
    match r {
        Some(redirect) => redirect,
        None => Redirect::Inherit,
    }
}

/// Resolve the jailer mode into the redirection of each standard stream.
pub fn stream_plan(mode: &JailerMode) -> (p: StreamPlan)
    ensures
        p == spec_stream_plan(*mode),
{
    match mode {
        JailerMode::Daemon => StreamPlan {
            stdout: Redirect::Null,
            stderr: Redirect::Null,
            stdin: Redirect::Null,
        },
        JailerMode::Attached(stdio) => StreamPlan {
            stdout: match stdio.stdout {
                Some(redirect) => redirect,
                None => Redirect::Inherit,
            },
            stderr: match stdio.stderr {
                Some(redirect) => redirect,
                None => Redirect::Inherit,
            },
            stdin: match stdio.stdin {
                Some(redirect) => redirect,
                None => Redirect::Inherit,
            },
        },
    }
}

/// In daemon mode every standard stream goes to a null sink, whatever
/// stream overrides were configured before the mode was switched: the
/// `Daemon` variant carries no stream configuration at all, so none can
/// survive into the plan.
pub proof fn lemma_daemon_streams_null(mode: JailerMode)
    requires
        mode is Daemon,
    ensures
        spec_stream_plan(mode) == (StreamPlan {
            stdout: Redirect::Null,
            stderr: Redirect::Null,
            stdin: Redirect::Null,
        }),
{
}

/// In attached mode each explicitly overridden stream is redirected to
/// exactly that override, and each unset stream inherits the caller's.
pub proof fn lemma_attached_streams_exact(stdio: Stdio)
    ensures
        spec_stream_plan(JailerMode::Attached(stdio)).stdout == or_inherit(stdio.stdout),
        spec_stream_plan(JailerMode::Attached(stdio)).stderr == or_inherit(stdio.stderr),
        spec_stream_plan(JailerMode::Attached(stdio)).stdin == or_inherit(stdio.stdin),
        stdio.stdout is Some ==> spec_stream_plan(JailerMode::Attached(stdio)).stdout
            == stdio.stdout.unwrap(),
        stdio.stdout is None ==> spec_stream_plan(JailerMode::Attached(stdio)).stdout
            == Redirect::Inherit,
{
}

/// The mathematical content of a [`Jailer`]: every field as a plain value.
pub ghost struct JailerView {
    pub gid: u32,
    pub uid: u32,
    pub id: Seq<char>,
    pub numa_node: Option<i32>,
    pub exec_file: Seq<char>,
    pub jailer_binary: Seq<char>,
    pub chroot_base_dir: Seq<char>,
    pub mode: JailerMode,
}

/// Jailer specific configuration needed to execute the jailer.
#[derive(Debug)]
pub struct Jailer {
    gid: u32,
    uid: u32,
    id: String,
    numa_node: Option<i32>,
    exec_file: String,
    jailer_binary: String,
    chroot_base_dir: String,
    pub(crate) mode: JailerMode,
}

impl View for Jailer {
    type V = JailerView;

    closed spec fn view(&self) -> JailerView {
        JailerView {
            gid: self.gid,
            uid: self.uid,
            id: self.id@,
            numa_node: self.numa_node,
            exec_file: self.exec_file@,
            jailer_binary: self.jailer_binary@,
            chroot_base_dir: self.chroot_base_dir@,
            mode: self.mode,
        }
    }
}

impl Clone for Jailer {
    fn clone(&self) -> (r: Self)
        ensures
            r@ == self@,
    {
        Jailer {
            gid: self.gid,
            uid: self.uid,
            id: self.id.clone(),
            numa_node: self.numa_node,
            exec_file: self.exec_file.clone(),
            jailer_binary: self.jailer_binary.clone(),
            chroot_base_dir: self.chroot_base_dir.clone(),
            mode: self.mode,
        }
    }
}

/// Relies on users::get_effective_gid: the effective group id of the
/// calling process, as libc's getegid reports it. Nothing further can be
/// promised of the value.
#[verifier::external_body]
fn effective_gid() -> u32 {
    users::get_effective_gid()
}

/// Relies on users::get_effective_uid: the effective user id of the
/// calling process, as libc's geteuid reports it. Nothing further can be
/// promised of the value.
#[verifier::external_body]
fn effective_uid() -> u32 {
    users::get_effective_uid()
}

/// Relies on uuid::Uuid::new_v4 and the hyphenated Display form of a UUID:
/// the value is random, but every rendering is 36 characters, with hyphens
/// at positions 8, 13, 18 and 23 and lowercase hexadecimal digits
/// everywhere else.
#[verifier::external_body]
fn fresh_vm_id() -> (r: String)
    ensures
        r@.len() == 36,
        forall|i: int| 0 <= i < 36 ==> #[trigger] is_id_char(r@[i]),
        r@[8] == '-' && r@[13] == '-' && r@[18] == '-' && r@[23] == '-',
{
    uuid::Uuid::new_v4().to_string()
}

/// A character that a generated VM identifier may hold: a lowercase
/// hexadecimal digit or a hyphen.
pub open spec fn is_id_char(c: char) -> bool {
    ('0' <= c && c <= '9') || ('a' <= c && c <= 'f') || c == '-'
}

impl Jailer {
    /// Create a new `JailerBuilder` instance.
    ///
    /// Defaults: the effective group and user ids of the calling process, a
    /// freshly generated random VM identifier, no NUMA affinity,
    /// `/usr/bin/firecracker` as the target executable, `jailer` as the
    /// jailer binary, `/srv/jailer` as the chroot base, attached mode with
    /// inherited streams.
    pub fn builder() -> (b: JailerBuilder)
        ensures
            b@.id.len() == 36,
            forall|i: int| 0 <= i < 36 ==> #[trigger] is_id_char(b@.id[i]),
            b@.id[8] == '-' && b@.id[13] == '-' && b@.id[18] == '-' && b@.id[23] == '-',
            b@.numa_node is None,
            b@.exec_file == "/usr/bin/firecracker"@,
            b@.jailer_binary == "jailer"@,
            b@.chroot_base_dir == "/srv/jailer"@,
            b@.mode == JailerMode::Attached(Stdio { stdout: None, stderr: None, stdin: None }),
    {
        JailerBuilder(Jailer {
            gid: effective_gid(),
            uid: effective_uid(),
            id: fresh_vm_id(),
            numa_node: None,
            exec_file: String::from_str("/usr/bin/firecracker"),
            jailer_binary: String::from_str("jailer"),
            chroot_base_dir: String::from_str("/srv/jailer"),
            mode: JailerMode::default(),
        })
    }

    /// GID the jailer switches to as it execs the target binary.
    pub fn gid(&self) -> (r: u32)
        ensures
            r == self@.gid,
    {
        self.gid
    }

    /// UID the jailer switches to as it execs the target binary.
    pub fn uid(&self) -> (r: u32)
        ensures
            r == self@.uid,
    {
        self.uid
    }

    /// The unique VM identification.
    pub fn id(&self) -> (r: &str)
        ensures
            r@ == self@.id,
    {
        self.id.as_str()
    }

    /// The NUMA node the process gets assigned to.
    pub fn numa_node(&self) -> (r: Option<i32>)
        ensures
            r == self@.numa_node,
    {
        self.numa_node
    }

    /// The path to the Firecracker binary that will be exec-ed by the jailer.
    pub fn exec_file(&self) -> (r: &str)
        ensures
            r@ == self@.exec_file,
    {
        self.exec_file.as_str()
    }

    /// Specifies the jailer binary to be used for setting up the Firecracker VM jail.
    pub fn jailer_binary(&self) -> (r: &str)
        ensures
            r@ == self@.jailer_binary,
    {
        self.jailer_binary.as_str()
    }

    /// The base folder where chroot jails are built.
    pub fn chroot_base_dir(&self) -> (r: &str)
        ensures
            r@ == self@.chroot_base_dir,
    {
        self.chroot_base_dir.as_str()
    }

    /// The mode of the jailer process.
    pub fn mode(&self) -> (r: &JailerMode)
        ensures
            *r == self@.mode,
    {
        &self.mode
    }
}

/// Builder for `Jailer` instances.
#[derive(Debug)]
pub struct JailerBuilder(Jailer);

impl View for JailerBuilder {
    type V = JailerView;

    closed spec fn view(&self) -> JailerView {
        self.0@
    }
}

impl Clone for JailerBuilder {
    fn clone(&self) -> (r: Self)
        ensures
            r@ == self@,
    {
        JailerBuilder(self.0.clone())
    }
}

impl JailerBuilder {
    /// GID the jailer switches to as it execs the target binary.
    pub fn gid(self, gid: u32) -> (r: Self)
        ensures
            r@ == (JailerView { gid, ..self@ }),
    {
        let mut inner = self.0;
        inner.gid = gid;
        JailerBuilder(inner)
    }

    /// UID the jailer switches to as it execs the target binary.
    pub fn uid(self, uid: u32) -> (r: Self)
        ensures
            r@ == (JailerView { uid, ..self@ }),
    {
        let mut inner = self.0;
        inner.uid = uid;
        JailerBuilder(inner)
    }

    /// The unique VM identification string.
    ///
    /// This may contain alphanumeric characters and hyphens. The maximum id
    /// length is currently 64 characters.
    pub fn id(self, id: String) -> (r: Self)
        ensures
            r@ == (JailerView { id: id@, ..self@ }),
    {
        let mut inner = self.0;
        inner.id = id;
        JailerBuilder(inner)
    }

    /// NumaNode represents the NUMA node the process gets assigned to.
    pub fn numa_node(self, numa_node: i32) -> (r: Self)
        ensures
            r@ == (JailerView { numa_node: Some(numa_node), ..self@ }),
    {
        let mut inner = self.0;
        inner.numa_node = Some(numa_node);
        JailerBuilder(inner)
    }

    /// The path to the Firecracker binary that will be exec-ed by the jailer.
    ///
    /// The user can provide a path to any binary, but the interaction with
    /// the jailer is mostly Firecracker specific.
    pub fn exec_file(self, exec_file: String) -> (r: Self)
        ensures
            r@ == (JailerView { exec_file: exec_file@, ..self@ }),
    {
        let mut inner = self.0;
        inner.exec_file = exec_file;
        JailerBuilder(inner)
    }

    /// Specifies the jailer binary to be used for setting up the Firecracker VM jail.
    ///
    /// If the value contains no path separators, it will use the PATH
    /// environment variable to get the absolute path of the binary. If the
    /// value contains path separators, the value will be used directly to
    /// exec the jailer.
    ///
    /// If not specified it defaults to "jailer".
    pub fn jailer_binary(self, jailer_binary: String) -> (r: Self)
        ensures
            r@ == (JailerView { jailer_binary: jailer_binary@, ..self@ }),
    {
        let mut inner = self.0;
        inner.jailer_binary = jailer_binary;
        JailerBuilder(inner)
    }

    /// The base folder where chroot jails are built.
    ///
    /// The default is `/srv/jailer`.
    pub fn chroot_base_dir(self, chroot_base_dir: String) -> (r: Self)
        ensures
            r@ == (JailerView { chroot_base_dir: chroot_base_dir@, ..self@ }),
    {
        let mut inner = self.0;
        inner.chroot_base_dir = chroot_base_dir;
        JailerBuilder(inner)
    }

    /// The mode of the jailer process.
    ///
    /// Setting the mode replaces the previous mode whole: switching to
    /// `Daemon` discards any stream configuration set before.
    pub fn mode(self, mode: JailerMode) -> (r: Self)
        ensures
            r@ == (JailerView { mode, ..self@ }),
    {
        let mut inner = self.0;
        inner.mode = mode;
        JailerBuilder(inner)
    }

    /// Build the `Jailer` instance.
    ///
    /// Freezing is infallible and performs no validation: the built value
    /// holds exactly the builder's current fields.
    pub fn build(self) -> (j: Jailer)
        ensures
            j@ == self@,
    {
        self.0
    }
}

/// Building a jailer twice from one builder state is deterministic: any
/// two jailers frozen from builders with equal contents have
/// field-for-field equal contents.
pub proof fn lemma_jailer_build_deterministic(
    b1: JailerBuilder,
    b2: JailerBuilder,
    j1: Jailer,
    j2: Jailer,
)
    requires
        b1@ == b2@,
        j1@ == b1@,
        j2@ == b2@,
    ensures
        j1@ == j2@,
{
}

/// Switching a builder to daemon mode ends with every standard stream of
/// the launched child at a null sink, whatever overrides were configured
/// before the switch.
pub proof fn lemma_daemon_discards_overrides(b: JailerBuilder, j: Jailer)
    requires
        j@ == (JailerView { mode: JailerMode::Daemon, ..b@ }),
    ensures
        spec_stream_plan(j@.mode) == (StreamPlan {
            stdout: Redirect::Null,
            stderr: Redirect::Null,
            stdin: Redirect::Null,
        }),
{
}

} // verus!
