//! The settings tree: one global switch, one per data source, and one per
//! resource subsystem under each data source. A subsystem is effectively
//! collected only when all three switches above it are on.

use vstd::prelude::*;

verus! {

/// The five data sources a refresh cycle can draw on.
#[derive(Clone, Copy, Debug, PartialEq, Eq, Structural)]
pub enum DataSourceType {
    ProcFS,
    SysFS,
    CgroupFS,
    BytePerf,
    Ebpf,
}

/// The resource subsystems a data source is divided into.
#[derive(Clone, Copy, Debug, PartialEq, Eq, Structural)]
pub enum SubSystemType {
    Cpu,
    Mem,
    Net,
    Storage,
    Unknow,
}

/// One subsystem's switch and polling interval.
#[derive(Clone, Copy, Debug, PartialEq, Eq, Structural)]
pub struct DataSourceSubSys {
    pub enable: bool,
    pub interval: u64,
}

impl Default for DataSourceSubSys {
    fn default() -> (r: Self)
        ensures
            r == DataSourceSubSys::spec_default(),
    {
        DataSourceSubSys { enable: true, interval: 0 }
    }
}

impl DataSourceSubSys {
    pub open spec fn spec_default() -> DataSourceSubSys {
        DataSourceSubSys { enable: true, interval: 0 }
    }

    pub fn is_enable(&self) -> (r: bool)
        ensures
            r == self.enable,
    {
        self.enable
    }
}

/// One data source's switches, in the shape every data source shares.
#[derive(Clone, Copy, Debug, PartialEq, Eq, Structural)]
pub struct DataSourceConf {
    pub enable: bool,
    pub cpu: DataSourceSubSys,
    pub mem: DataSourceSubSys,
    pub storage: DataSourceSubSys,
    pub net: DataSourceSubSys,
}

/// The subsystem entry a data source maps `t` to; the catch-all kind has
/// no entry.
pub open spec fn spec_sub_of(c: DataSourceConf, t: SubSystemType) -> Option<DataSourceSubSys> {
    match t {
        SubSystemType::Cpu => Some(c.cpu),
        SubSystemType::Mem => Some(c.mem),
        SubSystemType::Net => Some(c.net),
        SubSystemType::Storage => Some(c.storage),
        SubSystemType::Unknow => None,
    }
}

/// Whether a refresh may poll subsystem `t` under a data source: the data
/// source is on, and the subsystem either has no entry (it is always
/// polled) or its own switch is on.
pub open spec fn spec_sub_allowed(c: DataSourceConf, t: SubSystemType) -> bool {
    c.enable && (match spec_sub_of(c, t) {
        Some(s) => s.enable,
        None => true,
    })
}

impl Default for DataSourceConf {
    fn default() -> (r: Self)
        ensures
            r == DataSourceConf::spec_default(),
    {
        DataSourceConf {
            enable: true,
            cpu: DataSourceSubSys::default(),
            mem: DataSourceSubSys::default(),
            storage: DataSourceSubSys::default(),
            net: DataSourceSubSys::default(),
        }
    }
}

impl DataSourceConf {
    pub open spec fn spec_default() -> DataSourceConf {
        DataSourceConf {
            enable: true,
            cpu: DataSourceSubSys::spec_default(),
            mem: DataSourceSubSys::spec_default(),
            storage: DataSourceSubSys::spec_default(),
            net: DataSourceSubSys::spec_default(),
        }
    }

    /// The configuration with everything switched off.
    pub open spec fn spec_disabled() -> DataSourceConf {
        DataSourceConf {
            enable: false,
            cpu: DataSourceSubSys { enable: false, interval: 0 },
            mem: DataSourceSubSys { enable: false, interval: 0 },
            storage: DataSourceSubSys { enable: false, interval: 0 },
            net: DataSourceSubSys { enable: false, interval: 0 },
        }
    }

    pub fn is_enable(&self) -> (r: bool)
        ensures
            r == self.enable,
    {
        self.enable
    }

    pub fn get_sub_system(&self, t: SubSystemType) -> (r: Option<DataSourceSubSys>)
        ensures
            r == spec_sub_of(*self, t),
    {
        match t {
            SubSystemType::Cpu => Some(self.cpu),
            SubSystemType::Mem => Some(self.mem),
            SubSystemType::Net => Some(self.net),
            SubSystemType::Storage => Some(self.storage),
            SubSystemType::Unknow => None,
        }
    }

    /// Whether a refresh may poll subsystem `t` under this data source.
    pub fn sub_allowed(&self, t: SubSystemType) -> (r: bool)
        ensures
            r == spec_sub_allowed(*self, t),
    {
        if !self.enable {
            return false;
        }
        match self.get_sub_system(t) {
            Some(s) => s.is_enable(),
            None => true,
        }
    }
}

/// The configuration every switch of which is off, handed to reset paths.
pub fn get_disabeld_data_source() -> (r: DataSourceConf)
    ensures
        r == DataSourceConf::spec_disabled(),
{
    DataSourceConf {
        enable: false,
        cpu: DataSourceSubSys { enable: false, interval: 0 },
        mem: DataSourceSubSys { enable: false, interval: 0 },
        storage: DataSourceSubSys { enable: false, interval: 0 },
        net: DataSourceSubSys { enable: false, interval: 0 },
    }
}

/// The ProcFS data source's switches.
#[derive(Clone, Copy, Debug, PartialEq, Eq, Structural)]
pub struct DataSourceProcFS {
    pub enable: bool,
    pub cpu: DataSourceSubSys,
    pub mem: DataSourceSubSys,
    pub storage: DataSourceSubSys,
    pub net: DataSourceSubSys,
}

impl Default for DataSourceProcFS {
    fn default() -> (r: Self)
        ensures
            r.conf_view() == DataSourceConf::spec_default(),
    {
        DataSourceProcFS::new()
    }
}

impl DataSourceProcFS {
    /// This data source's switches in the shared shape.
    pub open spec fn conf_view(&self) -> DataSourceConf {
        DataSourceConf {
            enable: self.enable,
            cpu: self.cpu,
            mem: self.mem,
            storage: self.storage,
            net: self.net,
        }
    }

    pub fn new() -> (r: DataSourceProcFS)
        ensures
            r.conf_view() == DataSourceConf::spec_default(),
    {
        DataSourceProcFS {
            enable: true,
            cpu: DataSourceSubSys::default(),
            mem: DataSourceSubSys::default(),
            storage: DataSourceSubSys::default(),
            net: DataSourceSubSys::default(),
        }
    }

    pub fn is_enable(&self) -> (r: bool)
        ensures
            r == self.enable,
    {
        self.enable
    }

    pub fn get_sub_system(&self, t: SubSystemType) -> (r: Option<DataSourceSubSys>)
        ensures
            r == spec_sub_of(self.conf_view(), t),
    {
        match t {
            SubSystemType::Cpu => Some(self.cpu),
            SubSystemType::Mem => Some(self.mem),
            SubSystemType::Net => Some(self.net),
            SubSystemType::Storage => Some(self.storage),
            SubSystemType::Unknow => None,
        }
    }

    pub fn conf(&self) -> (r: DataSourceConf)
        ensures
            r == self.conf_view(),
    {
        DataSourceConf {
            enable: self.enable,
            cpu: self.cpu,
            mem: self.mem,
            storage: self.storage,
            net: self.net,
        }
    }
}

/// The SysFS data source's switches.
#[derive(Clone, Copy, Debug, PartialEq, Eq, Structural)]
pub struct DataSourceSysFS {
    pub enable: bool,
    pub cpu: DataSourceSubSys,
    pub mem: DataSourceSubSys,
    pub storage: DataSourceSubSys,
    pub net: DataSourceSubSys,
}

impl Default for DataSourceSysFS {
    fn default() -> (r: Self)
        ensures
            r.conf_view() == DataSourceConf::spec_default(),
    {
        DataSourceSysFS::new()
    }
}

impl DataSourceSysFS {
    /// This data source's switches in the shared shape.
    pub open spec fn conf_view(&self) -> DataSourceConf {
        DataSourceConf {
            enable: self.enable,
            cpu: self.cpu,
            mem: self.mem,
            storage: self.storage,
            net: self.net,
        }
    }

    pub fn new() -> (r: DataSourceSysFS)
        ensures
            r.conf_view() == DataSourceConf::spec_default(),
    {
        DataSourceSysFS {
            enable: true,
            cpu: DataSourceSubSys::default(),
            mem: DataSourceSubSys::default(),
            storage: DataSourceSubSys::default(),
            net: DataSourceSubSys::default(),
        }
    }

    pub fn is_enable(&self) -> (r: bool)
        ensures
            r == self.enable,
    {
        self.enable
    }

    pub fn get_sub_system(&self, t: SubSystemType) -> (r: Option<DataSourceSubSys>)
        ensures
            r == spec_sub_of(self.conf_view(), t),
    {
        match t {
            SubSystemType::Cpu => Some(self.cpu),
            SubSystemType::Mem => Some(self.mem),
            SubSystemType::Net => Some(self.net),
            SubSystemType::Storage => Some(self.storage),
            SubSystemType::Unknow => None,
        }
    }

    pub fn conf(&self) -> (r: DataSourceConf)
        ensures
            r == self.conf_view(),
    {
        DataSourceConf {
            enable: self.enable,
            cpu: self.cpu,
            mem: self.mem,
            storage: self.storage,
            net: self.net,
        }
    }
}

/// The CgroupFS data source's switches.
#[derive(Clone, Copy, Debug, PartialEq, Eq, Structural)]
pub struct DataSourceCgroupFS {
    pub enable: bool,
    pub cpu: DataSourceSubSys,
    pub mem: DataSourceSubSys,
    pub storage: DataSourceSubSys,
    pub net: DataSourceSubSys,
}

impl Default for DataSourceCgroupFS {
    fn default() -> (r: Self)
        ensures
            r.conf_view() == DataSourceConf::spec_default(),
    {
        DataSourceCgroupFS::new()
    }
}

impl DataSourceCgroupFS {
    /// This data source's switches in the shared shape.
    pub open spec fn conf_view(&self) -> DataSourceConf {
        DataSourceConf {
            enable: self.enable,
            cpu: self.cpu,
            mem: self.mem,
            storage: self.storage,
            net: self.net,
        }
    }

    pub fn new() -> (r: DataSourceCgroupFS)
        ensures
            r.conf_view() == DataSourceConf::spec_default(),
    {
        DataSourceCgroupFS {
            enable: true,
            cpu: DataSourceSubSys::default(),
            mem: DataSourceSubSys::default(),
            storage: DataSourceSubSys::default(),
            net: DataSourceSubSys::default(),
        }
    }

    pub fn is_enable(&self) -> (r: bool)
        ensures
            r == self.enable,
    {
        self.enable
    }

    pub fn get_sub_system(&self, t: SubSystemType) -> (r: Option<DataSourceSubSys>)
        ensures
            r == spec_sub_of(self.conf_view(), t),
    {
        match t {
            SubSystemType::Cpu => Some(self.cpu),
            SubSystemType::Mem => Some(self.mem),
            SubSystemType::Net => Some(self.net),
            SubSystemType::Storage => Some(self.storage),
            SubSystemType::Unknow => None,
        }
    }

    pub fn conf(&self) -> (r: DataSourceConf)
        ensures
            r == self.conf_view(),
    {
        DataSourceConf {
            enable: self.enable,
            cpu: self.cpu,
            mem: self.mem,
            storage: self.storage,
            net: self.net,
        }
    }
}

/// The BytePerf data source's switches.
#[derive(Clone, Copy, Debug, PartialEq, Eq, Structural)]
pub struct DataSourceBytePerf {
    pub enable: bool,
    pub cpu: DataSourceSubSys,
    pub mem: DataSourceSubSys,
    pub storage: DataSourceSubSys,
    pub net: DataSourceSubSys,
}

impl Default for DataSourceBytePerf {
    fn default() -> (r: Self)
        ensures
            r.conf_view() == DataSourceConf::spec_default(),
    {
        DataSourceBytePerf::new()
    }
}

impl DataSourceBytePerf {
    /// This data source's switches in the shared shape.
    pub open spec fn conf_view(&self) -> DataSourceConf {
        DataSourceConf {
            enable: self.enable,
            cpu: self.cpu,
            mem: self.mem,
            storage: self.storage,
            net: self.net,
        }
    }

    pub fn new() -> (r: DataSourceBytePerf)
        ensures
            r.conf_view() == DataSourceConf::spec_default(),
    {
        DataSourceBytePerf {
            enable: true,
            cpu: DataSourceSubSys::default(),
            mem: DataSourceSubSys::default(),
            storage: DataSourceSubSys::default(),
            net: DataSourceSubSys::default(),
        }
    }

    pub fn is_enable(&self) -> (r: bool)
        ensures
            r == self.enable,
    {
        self.enable
    }

    pub fn get_sub_system(&self, t: SubSystemType) -> (r: Option<DataSourceSubSys>)
        ensures
            r == spec_sub_of(self.conf_view(), t),
    {
        match t {
            SubSystemType::Cpu => Some(self.cpu),
            SubSystemType::Mem => Some(self.mem),
            SubSystemType::Net => Some(self.net),
            SubSystemType::Storage => Some(self.storage),
            SubSystemType::Unknow => None,
        }
    }

    pub fn conf(&self) -> (r: DataSourceConf)
        ensures
            r == self.conf_view(),
    {
        DataSourceConf {
            enable: self.enable,
            cpu: self.cpu,
            mem: self.mem,
            storage: self.storage,
            net: self.net,
        }
    }
}

/// The Ebpf data source's switches.
#[derive(Clone, Copy, Debug, PartialEq, Eq, Structural)]
pub struct DataSourceEBPF {
    pub enable: bool,
    pub cpu: DataSourceSubSys,
    pub mem: DataSourceSubSys,
    pub storage: DataSourceSubSys,
    pub net: DataSourceSubSys,
}

impl Default for DataSourceEBPF {
    fn default() -> (r: Self)
        ensures
            r.conf_view() == DataSourceConf::spec_default(),
    {
        DataSourceEBPF::new()
    }
}

impl DataSourceEBPF {
    /// This data source's switches in the shared shape.
    pub open spec fn conf_view(&self) -> DataSourceConf {
        DataSourceConf {
            enable: self.enable,
            cpu: self.cpu,
            mem: self.mem,
            storage: self.storage,
            net: self.net,
        }
    }

    pub fn new() -> (r: DataSourceEBPF)
        ensures
            r.conf_view() == DataSourceConf::spec_default(),
    {
        DataSourceEBPF {
            enable: true,
            cpu: DataSourceSubSys::default(),
            mem: DataSourceSubSys::default(),
            storage: DataSourceSubSys::default(),
            net: DataSourceSubSys::default(),
        }
    }

    pub fn is_enable(&self) -> (r: bool)
        ensures
            r == self.enable,
    {
        self.enable
    }

    pub fn get_sub_system(&self, t: SubSystemType) -> (r: Option<DataSourceSubSys>)
        ensures
            r == spec_sub_of(self.conf_view(), t),
    {
        match t {
            SubSystemType::Cpu => Some(self.cpu),
            SubSystemType::Mem => Some(self.mem),
            SubSystemType::Net => Some(self.net),
            SubSystemType::Storage => Some(self.storage),
            SubSystemType::Unknow => None,
        }
    }

    pub fn conf(&self) -> (r: DataSourceConf)
        ensures
            r == self.conf_view(),
    {
        DataSourceConf {
            enable: self.enable,
            cpu: self.cpu,
            mem: self.mem,
            storage: self.storage,
            net: self.net,
        }
    }
}

/// The whole settings tree.
#[derive(Clone, Copy, Debug, PartialEq, Eq, Structural)]
pub struct Settings {
    pub enable: bool,
    pub proc: DataSourceProcFS,
    pub sys: DataSourceSysFS,
    pub cgroup: DataSourceCgroupFS,
    pub byteperf: DataSourceBytePerf,
    pub ebpf: DataSourceEBPF,
}

/// The switches of data source `t` in settings `s`.
pub open spec fn spec_data_source(s: Settings, t: DataSourceType) -> DataSourceConf {
    match t {
        DataSourceType::ProcFS => s.proc.conf_view(),
        DataSourceType::SysFS => s.sys.conf_view(),
        DataSourceType::CgroupFS => s.cgroup.conf_view(),
        DataSourceType::BytePerf => s.byteperf.conf_view(),
        DataSourceType::Ebpf => s.ebpf.conf_view(),
    }
}

/// Whether subsystem `sub` of data source `ds` is effectively collected:
/// the global switch, the data source's switch and the subsystem's own
/// switch must all be on (a subsystem without an entry needs only the
/// first two).
pub open spec fn spec_subsystem_active(s: Settings, ds: DataSourceType, sub: SubSystemType) -> bool {
    s.enable && spec_sub_allowed(spec_data_source(s, ds), sub)
}

impl Default for Settings {
    fn default() -> (r: Self)
        ensures
            r == Settings::spec_default(),
    {
        Settings {
            enable: true,
            proc: DataSourceProcFS::new(),
            sys: DataSourceSysFS::new(),
            cgroup: DataSourceCgroupFS::new(),
            byteperf: DataSourceBytePerf::new(),
            ebpf: DataSourceEBPF::new(),
        }
    }
}

impl Settings {
    pub open spec fn spec_default() -> Settings {
        Settings {
            enable: true,
            proc: DataSourceProcFS {
                enable: true,
                cpu: DataSourceSubSys::spec_default(),
                mem: DataSourceSubSys::spec_default(),
                storage: DataSourceSubSys::spec_default(),
                net: DataSourceSubSys::spec_default(),
            },
            sys: DataSourceSysFS {
                enable: true,
                cpu: DataSourceSubSys::spec_default(),
                mem: DataSourceSubSys::spec_default(),
                storage: DataSourceSubSys::spec_default(),
                net: DataSourceSubSys::spec_default(),
            },
            cgroup: DataSourceCgroupFS {
                enable: true,
                cpu: DataSourceSubSys::spec_default(),
                mem: DataSourceSubSys::spec_default(),
                storage: DataSourceSubSys::spec_default(),
                net: DataSourceSubSys::spec_default(),
            },
            byteperf: DataSourceBytePerf {
                enable: true,
                cpu: DataSourceSubSys::spec_default(),
                mem: DataSourceSubSys::spec_default(),
                storage: DataSourceSubSys::spec_default(),
                net: DataSourceSubSys::spec_default(),
            },
            ebpf: DataSourceEBPF {
                enable: true,
                cpu: DataSourceSubSys::spec_default(),
                mem: DataSourceSubSys::spec_default(),
                storage: DataSourceSubSys::spec_default(),
                net: DataSourceSubSys::spec_default(),
            },
        }
    }

    pub fn is_enable(&self) -> (r: bool)
        ensures
            r == self.enable,
    {
        self.enable
    }

    /// The switches of one data source, as one value.
    pub fn get_data_source(&self, t: DataSourceType) -> (r: DataSourceConf)
        ensures
            r == spec_data_source(*self, t),
    {
        match t {
            DataSourceType::ProcFS => self.proc.conf(),
            DataSourceType::SysFS => self.sys.conf(),
            DataSourceType::CgroupFS => self.cgroup.conf(),
            DataSourceType::BytePerf => self.byteperf.conf(),
            DataSourceType::Ebpf => self.ebpf.conf(),
        }
    }

    /// Replace every switch with the new tree's.
    pub fn update(&mut self, new_settings: Settings)
        ensures
            *final(self) == new_settings,
    {
        self.enable = new_settings.enable;
        self.proc = new_settings.proc;
        self.sys = new_settings.sys;
        self.cgroup = new_settings.cgroup;
        self.byteperf = new_settings.byteperf;
        self.ebpf = new_settings.ebpf;
    }
}

/// Which backends a shutdown must release: the kernel-counter backend and
/// the PMU backend each need an explicit release when the global switch or
/// their own data source's switch is off.
pub fn clean(settings: &Settings) -> (r: (bool, bool))
    ensures
        r.0 == (!settings.enable || !settings.ebpf.enable),
        r.1 == (!settings.enable || !settings.byteperf.enable),
{
    let mut ebpf_disable = false;
    let mut perf_disable = false;
    if !settings.is_enable() {
        ebpf_disable = true;
        perf_disable = true;
    }
    if !settings.get_data_source(DataSourceType::Ebpf).is_enable() {
        ebpf_disable = true;
    }
    if !settings.get_data_source(DataSourceType::BytePerf).is_enable() {
        perf_disable = true;
    }
    (ebpf_disable, perf_disable)
}

/// Switching the global flag off makes every subsystem of every data
/// source inactive, whatever its own switch says.
pub proof fn lemma_global_disable_cascades(s: Settings, ds: DataSourceType, sub: SubSystemType)
    requires
        !s.enable,
    ensures
        !spec_subsystem_active(s, ds, sub),
{
}

/// Switching a data source off makes every subsystem under it inactive,
/// whatever its own switch says.
pub proof fn lemma_source_disable_cascades(s: Settings, ds: DataSourceType, sub: SubSystemType)
    requires
        !spec_data_source(s, ds).enable,
    ensures
        !spec_subsystem_active(s, ds, sub),
{
}

} // verus!
