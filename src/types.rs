//! The typed records that the parsers produce, and their mathematical views.
use vstd::prelude::*;

verus! {

/// The hostname corresponding to these stats.
#[derive(Debug, PartialEq)]
pub struct Host(pub String);

/// The Lustre target corresponding to these stats.
#[derive(Debug, PartialEq)]
pub struct Target(pub String);

/// The name of the stat.
#[derive(Debug, PartialEq)]
pub struct Param(pub String);

/// The name of a filesystem known to a management target.
#[derive(Debug, PartialEq)]
pub struct FsName(pub String);

impl View for Host {
    type V = Seq<char>;

    open spec fn view(&self) -> Seq<char> {
        self.0@
    }
}

impl View for Target {
    type V = Seq<char>;

    open spec fn view(&self) -> Seq<char> {
        self.0@
    }
}

impl View for Param {
    type V = Seq<char>;

    open spec fn view(&self) -> Seq<char> {
        self.0@
    }
}

impl View for FsName {
    type V = Seq<char>;

    open spec fn view(&self) -> Seq<char> {
        self.0@
    }
}

/// One row of a statistics table.
#[derive(Debug, PartialEq)]
pub struct Stat {
    pub name: String,
    pub units: String,
    pub samples: u64,
    pub min: Option<u64>,
    pub max: Option<u64>,
    pub sum: Option<u64>,
    pub sumsquare: Option<u64>,
}

pub ghost struct StatView {
    pub name: Seq<char>,
    pub units: Seq<char>,
    pub samples: u64,
    pub min: Option<u64>,
    pub max: Option<u64>,
    pub sum: Option<u64>,
    pub sumsquare: Option<u64>,
}

impl View for Stat {
    type V = StatView;

    open spec fn view(&self) -> StatView {
        StatView {
            name: self.name@,
            units: self.units@,
            samples: self.samples,
            min: self.min,
            max: self.max,
            sum: self.sum,
            sumsquare: self.sumsquare,
        }
    }
}

impl StatView {
    /// The optional moments come in the only shapes the table format has: none of them,
    /// min/max/sum together, or min/max/sum with the sum of squares.
    pub open spec fn wf(self) -> bool {
        &&& (self.min is Some <==> self.max is Some)
        &&& (self.min is Some <==> self.sum is Some)
        &&& (self.sumsquare is Some ==> self.min is Some)
    }
}

/// A stat that belongs to the host as a whole.
#[derive(Debug, PartialEq)]
pub struct HostStat<T> {
    pub param: Param,
    pub value: T,
}

#[allow(clippy::upper_case_acronyms)]
#[derive(Debug, PartialEq, Eq, Structural, Clone, Copy)]
pub enum TargetVariant {
    OST,
    MGT,
    MDT,
}

impl TargetVariant {
    /// The variant's name as it is displayed.
    pub fn name(&self) -> (r: &'static str)
        ensures
            r@ == target_variant_name(*self),
    {
        match self {
            TargetVariant::OST => "OST",
            TargetVariant::MGT => "MGT",
            TargetVariant::MDT => "MDT",
        }
    }
}

pub open spec fn target_variant_name(v: TargetVariant) -> Seq<char> {
    match v {
        TargetVariant::OST => "OST"@,
        TargetVariant::MGT => "MGT"@,
        TargetVariant::MDT => "MDT"@,
    }
}

/// Stats specific to a target.
#[derive(Debug, PartialEq)]
pub struct TargetStat<T> {
    pub kind: TargetVariant,
    pub param: Param,
    pub target: Target,
    pub value: T,
}

/// Stats specific to a LNet Nid.
#[derive(Debug, PartialEq)]
pub struct LNetStat<T> {
    pub nid: String,
    pub param: Param,
    pub value: T,
}

/// One bucket of a histogram: its key in bytes (or plain units) and the read and write counts.
#[derive(Debug, PartialEq, Eq, Structural, Clone, Copy)]
pub struct BrwStatsBucket {
    pub name: u64,
    pub read: u64,
    pub write: u64,
}

impl View for BrwStatsBucket {
    type V = BrwStatsBucket;

    open spec fn view(&self) -> BrwStatsBucket {
        *self
    }
}

/// A named histogram.
#[derive(Debug, PartialEq)]
pub struct BrwStats {
    pub name: String,
    pub unit: String,
    pub buckets: Vec<BrwStatsBucket>,
}

pub ghost struct BrwStatsView {
    pub name: Seq<char>,
    pub unit: Seq<char>,
    pub buckets: Seq<BrwStatsBucket>,
}

impl View for BrwStats {
    type V = BrwStatsView;

    open spec fn view(&self) -> BrwStatsView {
        BrwStatsView { name: self.name@, unit: self.unit@, buckets: self.buckets@ }
    }
}

/// The recovery phase a target reports.
#[derive(Debug, PartialEq, Eq, Structural, Clone, Copy)]
pub enum RecoveryStatus {
    Complete,
    Inactive,
    Waiting,
    WaitingForClients,
    Recovering,
    Unknown,
}

#[derive(Debug, PartialEq)]
pub enum HostStats {
    MemusedMax(HostStat<u64>),
    Memused(HostStat<u64>),
    LNetMemUsed(HostStat<u64>),
    HealthCheck(HostStat<String>),
}

/// A Stat specific to a node.
#[derive(Debug, PartialEq)]
pub struct NodeStat<T> {
    pub param: Param,
    pub value: T,
}

/// Top level node stats (not directly Lustre related)
#[derive(Debug, PartialEq)]
pub enum NodeStats {
    CpuUser(NodeStat<u64>),
    CpuSystem(NodeStat<u64>),
    CpuIowait(NodeStat<u64>),
    CpuTotal(NodeStat<u64>),
    MemTotal(NodeStat<u64>),
    MemFree(NodeStat<u64>),
    SwapTotal(NodeStat<u64>),
    SwapFree(NodeStat<u64>),
}

/// The target stats currently collected.
///
/// The job statistics variants hold the job accounting document exactly as the target
/// reported it, or `None` where the target reports no jobs at all.
#[derive(Debug, PartialEq)]
pub enum TargetStats {
    JobStatsOst(TargetStat<Option<String>>),
    JobStatsMdt(TargetStat<Option<String>>),
    Stats(TargetStat<Vec<Stat>>),
    BrwStats(TargetStat<Vec<BrwStats>>),
    /// Available inodes
    FilesFree(TargetStat<u64>),
    /// Total inodes
    FilesTotal(TargetStat<u64>),
    /// Type of target
    FsType(TargetStat<String>),
    /// Available disk space
    BytesAvail(TargetStat<u64>),
    /// Free disk space
    BytesFree(TargetStat<u64>),
    /// Total disk space
    BytesTotal(TargetStat<u64>),
    NumExports(TargetStat<u64>),
    TotDirty(TargetStat<u64>),
    TotGranted(TargetStat<u64>),
    TotPending(TargetStat<u64>),
    ContendedLocks(TargetStat<u64>),
    ContentionSeconds(TargetStat<u64>),
    CtimeAgeLimit(TargetStat<u64>),
    EarlyLockCancel(TargetStat<u64>),
    LockCount(TargetStat<u64>),
    LockTimeouts(TargetStat<u64>),
    LockUnusedCount(TargetStat<u64>),
    LruMaxAge(TargetStat<u64>),
    LruSize(TargetStat<u64>),
    MaxNolockBytes(TargetStat<u64>),
    MaxParallelAst(TargetStat<u64>),
    ResourceCount(TargetStat<u64>),
    ThreadsMin(TargetStat<u64>),
    ThreadsMax(TargetStat<u64>),
    ThreadsStarted(TargetStat<u64>),
    FsNames(TargetStat<Vec<FsName>>),
    RecoveryStatus(TargetStat<RecoveryStatus>),
    RecoveryCompletedClients(TargetStat<u64>),
    RecoveryConnectedClients(TargetStat<u64>),
    RecoveryEvictedClients(TargetStat<u64>),
}

#[derive(Debug, PartialEq)]
pub enum LNetStats {
    SendCount(LNetStat<i64>),
    RecvCount(LNetStat<i64>),
    DropCount(LNetStat<i64>),
}

#[derive(Debug, PartialEq)]
pub enum Record {
    Host(HostStats),
    LNetStat(LNetStats),
    Node(NodeStats),
    Target(TargetStats),
}

/// Which statistic a host record carries.
#[derive(Debug, PartialEq, Eq, Structural, Clone, Copy)]
pub enum HostField {
    MemusedMax,
    Memused,
    LNetMemUsed,
    HealthCheck,
}

/// Which statistic a target record carries.
#[derive(Debug, PartialEq, Eq, Structural, Clone, Copy)]
pub enum TargetField {
    JobStatsOst,
    JobStatsMdt,
    Stats,
    BrwStats,
    FilesFree,
    FilesTotal,
    FsType,
    BytesAvail,
    BytesFree,
    BytesTotal,
    NumExports,
    TotDirty,
    TotGranted,
    TotPending,
    ContendedLocks,
    ContentionSeconds,
    CtimeAgeLimit,
    EarlyLockCancel,
    LockCount,
    LockTimeouts,
    LockUnusedCount,
    LruMaxAge,
    LruSize,
    MaxNolockBytes,
    MaxParallelAst,
    ResourceCount,
    ThreadsMin,
    ThreadsMax,
    ThreadsStarted,
    FsNames,
    RecoveryStatus,
    RecoveryCompletedClients,
    RecoveryConnectedClients,
    RecoveryEvictedClients,
}

/// Which statistic a network record carries.
pub ghost enum LNetField {
    SendCount,
    RecvCount,
    DropCount,
}

/// Which statistic a node record carries.
pub ghost enum NodeField {
    CpuUser,
    CpuSystem,
    CpuIowait,
    CpuTotal,
    MemTotal,
    MemFree,
    SwapTotal,
    SwapFree,
}

/// The value of a record, as plain mathematical data.
pub ghost enum ValueView {
    Count(u64),
    Text(Seq<char>),
    Table(Seq<StatView>),
    Histograms(Seq<BrwStatsView>),
    Jobs(Option<Seq<char>>),
    Names(Seq<Seq<char>>),
    Recovery(RecoveryStatus),
}

#[allow(inconsistent_fields)]
pub ghost enum RecordView {
    Host { field: HostField, param: Seq<char>, value: ValueView },
    Target {
        field: TargetField,
        kind: TargetVariant,
        target: Seq<char>,
        param: Seq<char>,
        value: ValueView,
    },
    LNet { field: LNetField, nid: Seq<char>, param: Seq<char>, value: i64 },
    Node { field: NodeField, param: Seq<char>, value: u64 },
}

pub open spec fn host_view<T>(
    field: HostField,
    s: HostStat<T>,
    value: ValueView,
) -> RecordView {
    RecordView::Host { field, param: s.param@, value }
}

pub open spec fn target_view<T>(
    field: TargetField,
    s: TargetStat<T>,
    value: ValueView,
) -> RecordView {
    RecordView::Target { field, kind: s.kind, target: s.target@, param: s.param@, value }
}

pub open spec fn lnet_view(field: LNetField, s: LNetStat<i64>) -> RecordView {
    RecordView::LNet { field, nid: s.nid@, param: s.param@, value: s.value }
}

pub open spec fn node_view(field: NodeField, s: NodeStat<u64>) -> RecordView {
    RecordView::Node { field, param: s.param@, value: s.value }
}

pub open spec fn stats_view(v: Seq<Stat>) -> Seq<StatView> {
    v.map_values(|x: Stat| x@)
}

pub open spec fn histograms_view(v: Seq<BrwStats>) -> Seq<BrwStatsView> {
    v.map_values(|x: BrwStats| x@)
}

pub open spec fn fs_names_view(v: Seq<FsName>) -> Seq<Seq<char>> {
    v.map_values(|x: FsName| x@)
}

pub open spec fn jobs_view(v: Option<String>) -> Option<Seq<char>> {
    match v {
        Some(d) => Some(d@),
        None => None,
    }
}

impl View for TargetStats {
    type V = RecordView;

    open spec fn view(&self) -> RecordView {
        match *self {
            TargetStats::JobStatsOst(s) => target_view(
                TargetField::JobStatsOst,
                s,
                ValueView::Jobs(jobs_view(s.value)),
            ),
            TargetStats::JobStatsMdt(s) => target_view(
                TargetField::JobStatsMdt,
                s,
                ValueView::Jobs(jobs_view(s.value)),
            ),
            TargetStats::Stats(s) => target_view(
                TargetField::Stats,
                s,
                ValueView::Table(stats_view(s.value@)),
            ),
            TargetStats::BrwStats(s) => target_view(
                TargetField::BrwStats,
                s,
                ValueView::Histograms(histograms_view(s.value@)),
            ),
            TargetStats::FilesFree(s) => target_view(
                TargetField::FilesFree,
                s,
                ValueView::Count(s.value),
            ),
            TargetStats::FilesTotal(s) => target_view(
                TargetField::FilesTotal,
                s,
                ValueView::Count(s.value),
            ),
            TargetStats::FsType(s) => target_view(
                TargetField::FsType,
                s,
                ValueView::Text(s.value@),
            ),
            TargetStats::BytesAvail(s) => target_view(
                TargetField::BytesAvail,
                s,
                ValueView::Count(s.value),
            ),
            TargetStats::BytesFree(s) => target_view(
                TargetField::BytesFree,
                s,
                ValueView::Count(s.value),
            ),
            TargetStats::BytesTotal(s) => target_view(
                TargetField::BytesTotal,
                s,
                ValueView::Count(s.value),
            ),
            TargetStats::NumExports(s) => target_view(
                TargetField::NumExports,
                s,
                ValueView::Count(s.value),
            ),
            TargetStats::TotDirty(s) => target_view(
                TargetField::TotDirty,
                s,
                ValueView::Count(s.value),
            ),
            TargetStats::TotGranted(s) => target_view(
                TargetField::TotGranted,
                s,
                ValueView::Count(s.value),
            ),
            TargetStats::TotPending(s) => target_view(
                TargetField::TotPending,
                s,
                ValueView::Count(s.value),
            ),
            TargetStats::ContendedLocks(s) => target_view(
                TargetField::ContendedLocks,
                s,
                ValueView::Count(s.value),
            ),
            TargetStats::ContentionSeconds(s) => target_view(
                TargetField::ContentionSeconds,
                s,
                ValueView::Count(s.value),
            ),
            TargetStats::CtimeAgeLimit(s) => target_view(
                TargetField::CtimeAgeLimit,
                s,
                ValueView::Count(s.value),
            ),
            TargetStats::EarlyLockCancel(s) => target_view(
                TargetField::EarlyLockCancel,
                s,
                ValueView::Count(s.value),
            ),
            TargetStats::LockCount(s) => target_view(
                TargetField::LockCount,
                s,
                ValueView::Count(s.value),
            ),
            TargetStats::LockTimeouts(s) => target_view(
                TargetField::LockTimeouts,
                s,
                ValueView::Count(s.value),
            ),
            TargetStats::LockUnusedCount(s) => target_view(
                TargetField::LockUnusedCount,
                s,
                ValueView::Count(s.value),
            ),
            TargetStats::LruMaxAge(s) => target_view(
                TargetField::LruMaxAge,
                s,
                ValueView::Count(s.value),
            ),
            TargetStats::LruSize(s) => target_view(
                TargetField::LruSize,
                s,
                ValueView::Count(s.value),
            ),
            TargetStats::MaxNolockBytes(s) => target_view(
                TargetField::MaxNolockBytes,
                s,
                ValueView::Count(s.value),
            ),
            TargetStats::MaxParallelAst(s) => target_view(
                TargetField::MaxParallelAst,
                s,
                ValueView::Count(s.value),
            ),
            TargetStats::ResourceCount(s) => target_view(
                TargetField::ResourceCount,
                s,
                ValueView::Count(s.value),
            ),
            TargetStats::ThreadsMin(s) => target_view(
                TargetField::ThreadsMin,
                s,
                ValueView::Count(s.value),
            ),
            TargetStats::ThreadsMax(s) => target_view(
                TargetField::ThreadsMax,
                s,
                ValueView::Count(s.value),
            ),
            TargetStats::ThreadsStarted(s) => target_view(
                TargetField::ThreadsStarted,
                s,
                ValueView::Count(s.value),
            ),
            TargetStats::FsNames(s) => target_view(
                TargetField::FsNames,
                s,
                ValueView::Names(fs_names_view(s.value@)),
            ),
            TargetStats::RecoveryStatus(s) => target_view(
                TargetField::RecoveryStatus,
                s,
                ValueView::Recovery(s.value),
            ),
            TargetStats::RecoveryCompletedClients(s) => target_view(
                TargetField::RecoveryCompletedClients,
                s,
                ValueView::Count(s.value),
            ),
            TargetStats::RecoveryConnectedClients(s) => target_view(
                TargetField::RecoveryConnectedClients,
                s,
                ValueView::Count(s.value),
            ),
            TargetStats::RecoveryEvictedClients(s) => target_view(
                TargetField::RecoveryEvictedClients,
                s,
                ValueView::Count(s.value),
            ),
        }
    }
}

impl View for Record {
    type V = RecordView;

    open spec fn view(&self) -> RecordView {
        match *self {
            Record::Host(h) => match h {
                HostStats::MemusedMax(s) => host_view(
                    HostField::MemusedMax,
                    s,
                    ValueView::Count(s.value),
                ),
                HostStats::Memused(s) => host_view(HostField::Memused, s, ValueView::Count(s.value)),
                HostStats::LNetMemUsed(s) => host_view(
                    HostField::LNetMemUsed,
                    s,
                    ValueView::Count(s.value),
                ),
                HostStats::HealthCheck(s) => host_view(
                    HostField::HealthCheck,
                    s,
                    ValueView::Text(s.value@),
                ),
            },
            Record::LNetStat(l) => match l {
                LNetStats::SendCount(s) => lnet_view(LNetField::SendCount, s),
                LNetStats::RecvCount(s) => lnet_view(LNetField::RecvCount, s),
                LNetStats::DropCount(s) => lnet_view(LNetField::DropCount, s),
            },
            Record::Node(n) => match n {
                NodeStats::CpuUser(s) => node_view(NodeField::CpuUser, s),
                NodeStats::CpuSystem(s) => node_view(NodeField::CpuSystem, s),
                NodeStats::CpuIowait(s) => node_view(NodeField::CpuIowait, s),
                NodeStats::CpuTotal(s) => node_view(NodeField::CpuTotal, s),
                NodeStats::MemTotal(s) => node_view(NodeField::MemTotal, s),
                NodeStats::MemFree(s) => node_view(NodeField::MemFree, s),
                NodeStats::SwapTotal(s) => node_view(NodeField::SwapTotal, s),
                NodeStats::SwapFree(s) => node_view(NodeField::SwapFree, s),
            },
            Record::Target(t) => t@,
        }
    }
}

pub open spec fn records_view(v: Seq<Record>) -> Seq<RecordView> {
    v.map_values(|r: Record| r@)
}

} // verus!
