use vstd::prelude::*;
use crate::log_path::{log_file_location, log_dir_of, log_file_of, LogFileLocation, TestPath};

verus! {

/// Capacity of every log pipeline's queue, in records.
pub const ASYNC_CHAN_SIZE: usize = 8192;

/// Severity of a log record, from the most to the least severe.
#[derive(Clone, Copy, Debug, PartialEq, Eq, Structural)]
pub enum Severity {
    Critical,
    Error,
    Warning,
    Info,
    Debug,
    Trace,
}

/// Rank of a severity: 1 for `Critical` up to 6 for `Trace`.
pub open spec fn rank(s: Severity) -> nat {
    match s {
        Severity::Critical => 1,
        Severity::Error => 2,
        Severity::Warning => 3,
        Severity::Info => 4,
        Severity::Debug => 5,
        Severity::Trace => 6,
    }
}

impl Severity {
    /// Rank of a severity, as a number.
    pub fn as_rank(self) -> (r: u8)
        ensures
            r as nat == rank(self),
    {
        match self {
            Severity::Critical => 1,
            Severity::Error => 2,
            Severity::Warning => 3,
            Severity::Info => 4,
            Severity::Debug => 5,
            Severity::Trace => 6,
        }
    }

    /// Whether `self` is at least as severe as `threshold`.
    pub fn is_at_least(self, threshold: Severity) -> (r: bool)
        ensures
            r == (rank(self) <= rank(threshold)),
    {
        self.as_rank() <= threshold.as_rank()
    }
}

/// What a pipeline does when its queue is full.
#[derive(Clone, Copy, Debug, PartialEq, Eq, Structural)]
pub enum OverflowPolicy {
    /// The newest record is discarded and counted; producers never wait.
    DropNewest,
    /// The producer waits until the queue has room; nothing is lost.
    Block,
}

/// A bounded, asynchronously drained log pipeline, with the least severe
/// records that it lets through.
#[derive(Clone, Copy, Debug, PartialEq, Eq, Structural)]
pub struct PipelineConfig {
    pub capacity: usize,
    pub policy: OverflowPolicy,
    pub min_severity: Severity,
}

/// The console pipeline of the root logger: every severity, never blocks.
pub open spec fn root_pipeline_spec() -> PipelineConfig {
    PipelineConfig {
        capacity: ASYNC_CHAN_SIZE,
        policy: OverflowPolicy::DropNewest,
        min_severity: Severity::Trace,
    }
}

/// The console side of a test's logger: warnings and worse, never blocks.
pub open spec fn tee_console_spec() -> PipelineConfig {
    PipelineConfig {
        capacity: ASYNC_CHAN_SIZE,
        policy: OverflowPolicy::DropNewest,
        min_severity: Severity::Warning,
    }
}

/// The file side of a test's logger: every severity, blocks when full.
pub open spec fn tee_file_spec() -> PipelineConfig {
    PipelineConfig {
        capacity: ASYNC_CHAN_SIZE,
        policy: OverflowPolicy::Block,
        min_severity: Severity::Trace,
    }
}

/// The pipeline of the root logger.
pub fn root_pipeline() -> (r: PipelineConfig)
    ensures
        r == root_pipeline_spec(),
{
    PipelineConfig {
        capacity: ASYNC_CHAN_SIZE,
        policy: OverflowPolicy::DropNewest,
        min_severity: Severity::Trace,
    }
}

/// Whether a pipeline lets a record of severity `s` through.
pub fn admits(p: &PipelineConfig, s: Severity) -> (r: bool)
    ensures
        r == (rank(s) <= rank(p.min_severity)),
{
    s.is_at_least(p.min_severity)
}

/// How a test's logger is put together.
pub enum TeePlan {
    /// The root logger itself: no file is created.
    RootOnly,
    /// Every record goes to the console pipeline and to a log file.
    Tee { console: PipelineConfig, file: PipelineConfig, location: LogFileLocation },
}

/// The logger of one test: the root logger when no logs directory is
/// configured; else a logger that duplicates each record to the console
/// (warnings and worse, never blocking) and to the test's own log file (every
/// record, blocking when full).
pub fn tee_plan(logs_base_dir: &Option<String>, test_path: &TestPath) -> (r: TeePlan)
    requires
        test_path.wf(),
    ensures
        logs_base_dir is None <==> r is RootOnly,
        logs_base_dir matches Some(base) ==> r matches TeePlan::Tee { console, file, location } && console
            == tee_console_spec() && file == tee_file_spec() && location.dir@ == log_dir_of(
            base@,
            test_path@,
        ) && location.file@ == log_file_of(base@, test_path@),
{
    match logs_base_dir {
        Some(base) => TeePlan::Tee {
            console: PipelineConfig {
                capacity: ASYNC_CHAN_SIZE,
                policy: OverflowPolicy::DropNewest,
                min_severity: Severity::Warning,
            },
            file: PipelineConfig {
                capacity: ASYNC_CHAN_SIZE,
                policy: OverflowPolicy::Block,
                min_severity: Severity::Trace,
            },
            location: log_file_location(base.as_str(), test_path),
        },
        None => TeePlan::RootOnly,
    }
}

/// Where a record of a given severity is delivered.
pub struct Delivery {
    pub console: bool,
    pub file: bool,
}

/// Where a logger built after `plan` delivers a record of severity `s`.
pub open spec fn delivery_of(plan: TeePlan, s: Severity) -> (bool, bool) {
    match plan {
        TeePlan::RootOnly => (rank(s) <= rank(root_pipeline_spec().min_severity), false),
        TeePlan::Tee { console, file, .. } => (
            rank(s) <= rank(console.min_severity),
            rank(s) <= rank(file.min_severity),
        ),
    }
}

/// Where a logger built after `plan` delivers a record of severity `s`.
pub fn delivery(plan: &TeePlan, s: Severity) -> (r: Delivery)
    ensures
        (r.console, r.file) == delivery_of(*plan, s),
{
    match plan {
        TeePlan::RootOnly => {
            let root = root_pipeline();
            Delivery { console: admits(&root, s), file: false }
        },
        TeePlan::Tee { console, file, .. } => Delivery {
            console: admits(console, s),
            file: admits(file, s),
        },
    }
}

/// With a logs directory, a record below `Warning` reaches the test's file
/// and not the console; a record at `Warning` or above reaches both.
pub proof fn lemma_tee_splits_by_severity(plan: TeePlan, s: Severity)
    requires
        plan matches TeePlan::Tee { console, file, .. } && console == tee_console_spec() && file
            == tee_file_spec(),
    ensures
        rank(s) > rank(Severity::Warning) ==> delivery_of(plan, s) == (false, true),
        rank(s) <= rank(Severity::Warning) ==> delivery_of(plan, s) == (true, true),
{
}

/// Without a logs directory, a test's logger delivers exactly what the root
/// logger does: every record to the console, none to a file.
pub proof fn lemma_root_only_is_root(s: Severity)
    ensures
        delivery_of(TeePlan::RootOnly, s) == (true, false),
{
}

} // verus!
