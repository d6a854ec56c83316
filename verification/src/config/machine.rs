use vstd::prelude::*;

verus! {

/// The mathematical content of a [`Machine`]: every field as a plain value.
pub ghost struct MachineView {
    pub smt: bool,
    pub track_dirty_pages: bool,
    pub mem_size_mib: i64,
    pub vcpu_count: usize,
    pub cpu_template: Option<Seq<char>>,
}

/// Machine configuration.
///
/// Immutable once built; a new value must be assembled through
/// [`Machine::builder`] to change any field.
#[derive(Debug)]
pub struct Machine {
    smt: bool,
    track_dirty_pages: bool,
    mem_size_mib: i64,
    vcpu_count: usize,
    cpu_template: Option<String>,
}

impl View for Machine {
    type V = MachineView;

    closed spec fn view(&self) -> MachineView {
        MachineView {
            smt: self.smt,
            track_dirty_pages: self.track_dirty_pages,
            mem_size_mib: self.mem_size_mib,
            vcpu_count: self.vcpu_count,
            cpu_template: match self.cpu_template {
                Some(t) => Some(t@),
                None => None,
            },
        }
    }
}

impl Clone for Machine {
    fn clone(&self) -> (r: Self)
        ensures
            r@ == self@,
    {
        Machine {
            smt: self.smt,
            track_dirty_pages: self.track_dirty_pages,
            mem_size_mib: self.mem_size_mib,
            vcpu_count: self.vcpu_count,
            cpu_template: match &self.cpu_template {
                Some(t) => Some(t.clone()),
                None => None,
            },
        }
    }
}

impl Machine {
    /// Create a new `MachineBuilder` instance.
    ///
    /// Defaults: SMT off, dirty page tracking off, memory size 0, one
    /// virtual CPU, no CPU template. The zero memory size is rejected only
    /// at launch time, not here.
    pub fn builder() -> (b: MachineBuilder)
        ensures
            b@ == (MachineView {
                smt: false,
                track_dirty_pages: false,
                mem_size_mib: 0,
                vcpu_count: 1,
                cpu_template: None,
            }),
    {
        MachineBuilder(Machine {
            smt: false,
            track_dirty_pages: false,
            mem_size_mib: 0,
            vcpu_count: 1,
            cpu_template: None,
        })
    }

    /// If simultaneous multithreading is enabled.
    pub fn smt(&self) -> (r: bool)
        ensures
            r == self@.smt,
    {
        self.smt
    }

    /// If dirty page tracking is enabled.
    pub fn track_dirty_pages(&self) -> (r: bool)
        ensures
            r == self@.track_dirty_pages,
    {
        self.track_dirty_pages
    }

    /// Memory size of VM.
    pub fn mem_size_mib(&self) -> (r: i64)
        ensures
            r == self@.mem_size_mib,
    {
        self.mem_size_mib
    }

    /// Number of vCPUs (either 1 or an even number).
    pub fn vcpu_count(&self) -> (r: usize)
        ensures
            r == self@.vcpu_count,
    {
        self.vcpu_count
    }

    /// CPU template.
    pub fn cpu_template(&self) -> (r: Option<&str>)
        ensures
            match r {
                Some(t) => self@.cpu_template == Some(t@),
                None => self@.cpu_template is None,
            },
    {
        match &self.cpu_template {
            Some(t) => Some(t.as_str()),
            None => None,
        }
    }
}

/// Builder for `Machine`.
#[derive(Debug)]
pub struct MachineBuilder(Machine);

impl View for MachineBuilder {
    type V = MachineView;

    closed spec fn view(&self) -> MachineView {
        self.0@
    }
}

impl Clone for MachineBuilder {
    fn clone(&self) -> (r: Self)
        ensures
            r@ == self@,
    {
        MachineBuilder(self.0.clone())
    }
}

impl MachineBuilder {
    /// Flag for enabling/disabling simultaneous multithreading.
    ///
    /// Can be enabled only on x86.
    pub fn smt(self, smt: bool) -> (r: Self)
        ensures
            r@ == (MachineView { smt, ..self@ }),
    {
        let mut inner = self.0;
        inner.smt = smt;
        MachineBuilder(inner)
    }

    /// Enable dirty page tracking. If this is enabled, then incremental
    /// guest memory snapshots can be created.
    pub fn track_dirty_pages(self, track_dirty_pages: bool) -> (r: Self)
        ensures
            r@ == (MachineView { track_dirty_pages, ..self@ }),
    {
        let mut inner = self.0;
        inner.track_dirty_pages = track_dirty_pages;
        MachineBuilder(inner)
    }

    /// Memory size of VM.
    pub fn mem_size_mib(self, mem_size_mib: i64) -> (r: Self)
        ensures
            r@ == (MachineView { mem_size_mib, ..self@ }),
    {
        let mut inner = self.0;
        inner.mem_size_mib = mem_size_mib;
        MachineBuilder(inner)
    }

    /// Number of vCPUs (either 1 or an even number).
    ///
    /// Maximum: 32. Minimum: 1. The bound is enforced at launch time, not
    /// here.
    pub fn vcpu_count(self, vcpu_count: usize) -> (r: Self)
        ensures
            r@ == (MachineView { vcpu_count, ..self@ }),
    {
        let mut inner = self.0;
        inner.vcpu_count = vcpu_count;
        MachineBuilder(inner)
    }

    /// CPU template.
    pub fn cpu_template(self, cpu_template: String) -> (r: Self)
        ensures
            r@ == (MachineView { cpu_template: Some(cpu_template@), ..self@ }),
    {
        let mut inner = self.0;
        inner.cpu_template = Some(cpu_template);
        MachineBuilder(inner)
    }

    /// Build the `Machine` instance.
    ///
    /// Freezing is infallible and performs no validation: the built value
    /// holds exactly the builder's current fields.
    pub fn build(self) -> (m: Machine)
        ensures
            m@ == self@,
    {
        self.0
    }
}

/// Building a machine twice from one builder state is deterministic: any
/// two machines frozen from builders with equal contents have
/// field-for-field equal contents.
pub proof fn lemma_machine_build_deterministic(
    b1: MachineBuilder,
    b2: MachineBuilder,
    m1: Machine,
    m2: Machine,
)
    requires
        b1@ == b2@,
        m1@ == b1@,
        m2@ == b2@,
    ensures
        m1@ == m2@,
{
}

} // verus!
