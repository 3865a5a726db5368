//! Host-wide memory coordination across local processes: the shared lease
//! ledger's admission rules, job reservation planning, pressure levels, and
//! the snapshot reported to operators. Reading and writing the ledger file
//! under its lock is the caller's part; the rules over its contents are here.

use vstd::prelude::*;
use crate::text::{append_decimal, decimal, str_equal, str_is_blank, is_blank, is_ascii_alnum, char_is_ascii_alnum, push_char};
use crate::paths::{path_join, std_join};
use crate::job::unix_now;
use vstd::string::*;
use sysinfo::{Pid, ProcessesToUpdate, System};
use crate::memory_reading::{MachineMemoryReading, read_system_memory_bytes};

verus! {

/// A memory amount in mebibytes.
#[derive(Clone, Copy, Debug, PartialEq, Eq, Structural)]
pub struct MemoryMb(pub u64);

/// Host-wide memory pressure derived from available memory and the reserve.
#[derive(Clone, Copy, Debug, PartialEq, Eq, Structural)]
pub enum HostMemoryPressureLevel {
    /// Plenty of headroom remains after the reserve.
    Healthy,
    /// Some headroom remains; expect reduced concurrency.
    Guarded,
    /// Very little headroom remains.
    Constrained,
    /// The reserve is exhausted.
    Critical,
}

impl Default for HostMemoryPressureLevel {
    fn default() -> (r: Self)
        ensures
            r == HostMemoryPressureLevel::Healthy,
    {
        HostMemoryPressureLevel::Healthy
    }
}

/// Server settings the coordinator reads.
#[derive(Clone, Copy, Debug, PartialEq, Eq, Structural)]
pub struct ServerConfig {
    /// Minimum free memory to preserve.
    pub memory_gate_mb: MemoryMb,
    /// Maximum concurrent worker startups across the host.
    pub max_concurrent_worker_startups: u32,
}

/// Runtime configuration of the machine-local ledger.
#[derive(Clone, Debug, PartialEq, Eq)]
pub struct HostMemoryRuntimeConfig {
    /// Shared ledger path used by local processes on this host.
    pub coordinator_path: String,
    /// Minimum free memory to preserve after reservations.
    pub reserve_mb: MemoryMb,
    /// Maximum concurrent worker/model startups across the host.
    pub max_concurrent_worker_startups: usize,
}

/// Kind of a ledger lease.
#[derive(Clone, Copy, Debug, PartialEq, Eq, Structural)]
pub enum MemoryLeaseKind {
    WorkerStartup,
    JobExecution,
    MlTestExclusive,
}

/// One lease recorded in the shared ledger.
#[derive(Clone, Debug, PartialEq, Eq)]
pub struct MemoryLeaseRecord {
    pub id: String,
    pub kind: MemoryLeaseKind,
    pub owner_pid: u32,
    pub reserved_mb: u64,
    pub startup_slot: bool,
    pub label: String,
    pub created_at_epoch_s: u64,
}

/// The shared ledger's contents.
#[derive(Clone, Debug, Default, PartialEq, Eq)]
pub struct MemoryLedger {
    pub leases: Vec<MemoryLeaseRecord>,
}

/// A request for one lease.
#[derive(Clone, Debug, PartialEq, Eq)]
pub struct MemoryLeaseRequest {
    pub kind: MemoryLeaseKind,
    pub reserved_mb: MemoryMb,
    pub startup_slot: bool,
    pub label: String,
}

/// Physical memory observed on the machine.
#[derive(Clone, Copy, Debug, PartialEq, Eq, Structural)]
pub struct SystemMemorySnapshot {
    pub total_mb: MemoryMb,
    pub available_mb: MemoryMb,
}

/// Summary of the coordination state for health reporting.
#[derive(Clone, Debug, PartialEq, Eq)]
pub struct HostMemorySnapshot {
    pub total_mb: MemoryMb,
    pub available_mb: MemoryMb,
    pub reserve_mb: MemoryMb,
    pub active_reserved_mb: MemoryMb,
    pub startup_leases: usize,
    pub job_execution_leases: usize,
    pub ml_test_locks: usize,
    pub active_lease_labels: Vec<String>,
    pub pressure_level: HostMemoryPressureLevel,
}

/// Errors of the host-memory coordinator.
#[derive(Debug, PartialEq, Eq)]
pub enum HostMemoryError {
    /// Reading or writing the ledger failed.
    Io { path: String, message: String },
    /// The ledger exists but cannot be parsed.
    CorruptLedger { path: String, message: String },
    /// The reserve would be exceeded by the requested reservation.
    CapacityRejected {
        label: String,
        available_mb: u64,
        pending_reserved_mb: u64,
        requested_mb: u64,
        reserve_mb: u64,
    },
    /// Another process holds the exclusive ML test lock.
    MlTestLockBusy { holders: Vec<String> },
    /// The host-wide startup limit is saturated.
    StartupSlotsBusy { label: String, active_slots: usize, max_slots: usize },
    /// Waiting for capacity exceeded the timeout.
    TimedOut { label: String, waited_s: u64, last_reason: String },
}

// ---------------------------------------------------------------------------
// Arithmetic
// ---------------------------------------------------------------------------

pub open spec fn sat_sub(a: int, b: int) -> int {
    if a >= b { a - b } else { 0 }
}

pub open spec fn sat_mul(a: int, b: int) -> int {
    if a * b > u64::MAX { u64::MAX as int } else { a * b }
}

/// `u64::saturating_mul`.
pub fn saturating_mul_u64(a: u64, b: u64) -> (r: u64)
    ensures
        r == sat_mul(a as int, b as int),
{
    let x: u128 = a as u128;
    let y: u128 = b as u128;
    proof {
        assert(x * y <= 0xffff_ffff_ffff_ffff * 0xffff_ffff_ffff_ffff) by (nonlinear_arith)
            requires x <= 0xffff_ffff_ffff_ffff, y <= 0xffff_ffff_ffff_ffff;
    }
    let p: u128 = x * y;
    if p > u64::MAX as u128 { u64::MAX } else { p as u64 }
}

// ---------------------------------------------------------------------------
// Pressure and planning
// ---------------------------------------------------------------------------

/// Critical at or below the reserve; otherwise by the headroom above it:
/// up to 2048 MB constrained, up to 8192 MB guarded, beyond that healthy.
pub open spec fn spec_pressure_level(available_mb: u64, reserve_mb: u64) -> HostMemoryPressureLevel {
    if available_mb <= reserve_mb {
        HostMemoryPressureLevel::Critical
    } else if available_mb - reserve_mb <= 2048 {
        HostMemoryPressureLevel::Constrained
    } else if available_mb - reserve_mb <= 8192 {
        HostMemoryPressureLevel::Guarded
    } else {
        HostMemoryPressureLevel::Healthy
    }
}

pub fn pressure_level_for(available_mb: MemoryMb, reserve_mb: MemoryMb) -> (r: HostMemoryPressureLevel)
    ensures
        r == spec_pressure_level(available_mb.0, reserve_mb.0),
{
    if available_mb.0 <= reserve_mb.0 {
        return HostMemoryPressureLevel::Critical;
    }
    let extra_headroom = available_mb.0.saturating_sub(reserve_mb.0);
    if extra_headroom <= 2_048 {
        HostMemoryPressureLevel::Constrained
    } else if extra_headroom <= 8_192 {
        HostMemoryPressureLevel::Guarded
    } else {
        HostMemoryPressureLevel::Healthy
    }
}

/// Memory requested for `workers` workers at `budget` MB each.
pub open spec fn requested_for(workers: int, budget: u64) -> int {
    sat_mul(budget as int, workers)
}

/// Whether `workers` workers fit: what stays available after the pending
/// reservations and their request is still at least the reserve.
pub open spec fn workers_fit(workers: int, budget: u64, available: u64, reserve: u64, pending: u64) -> bool {
    sat_sub(sat_sub(available as int, pending as int), requested_for(workers, budget)) >= reserve
}

/// The largest worker count from `w` down to 1 that fits, with its request.
pub open spec fn plan_from(w: int, budget: u64, available: u64, reserve: u64, pending: u64) -> Option<(usize, u64)>
    decreases w,
{
    if w <= 0 {
        None
    } else if workers_fit(w, budget, available, reserve, pending) {
        Some((w as usize, requested_for(w, budget) as u64))
    } else {
        plan_from(w - 1, budget, available, reserve, pending)
    }
}

/// Plan one job's reservation: the largest worker count up to the requested
/// one whose memory still leaves the reserve free, or `None` when not even
/// one worker fits.
pub fn plan_job_reservation(
    requested_workers: usize,
    per_worker_budget_mb: u64,
    available_mb: u64,
    reserve_mb: u64,
    pending_reserved_mb: u64,
) -> (r: Option<(usize, u64)>)
    ensures
        r == plan_from(requested_workers as int, per_worker_budget_mb, available_mb, reserve_mb, pending_reserved_mb),
{
    let mut workers = requested_workers;
    while workers >= 1
        invariant
            workers <= requested_workers,
            plan_from(requested_workers as int, per_worker_budget_mb, available_mb, reserve_mb, pending_reserved_mb)
                == plan_from(workers as int, per_worker_budget_mb, available_mb, reserve_mb, pending_reserved_mb),
        decreases workers,
    {
        let requested_mb = saturating_mul_u64(per_worker_budget_mb, workers as u64);
        let projected_available_mb = available_mb.saturating_sub(pending_reserved_mb).saturating_sub(requested_mb);
        if projected_available_mb >= reserve_mb {
            return Some((workers, requested_mb));
        }
        workers = workers - 1;
    }
    None
}

/// More workers never need less memory: a worker count that fits means
/// every smaller positive count fits too.
pub proof fn lemma_fit_is_downward_closed(w: int, v: int, budget: u64, available: u64, reserve: u64, pending: u64)
    requires
        1 <= v <= w,
        workers_fit(w, budget, available, reserve, pending),
    ensures
        workers_fit(v, budget, available, reserve, pending),
{
    assert(budget as int * v <= budget as int * w) by (nonlinear_arith)
        requires v <= w, budget >= 0;
}

/// The plan grants the largest fitting worker count: what it grants fits
/// and is at most the request, and no larger count up to the request fits.
/// It rejects exactly when a single worker would already break the reserve.
pub proof fn lemma_plan_is_largest_fit(requested: int, budget: u64, available: u64, reserve: u64, pending: u64)
    requires
        0 <= requested <= usize::MAX,
    ensures
        plan_from(requested, budget, available, reserve, pending) matches Some((g, mb)) ==> {
            &&& 1 <= g <= requested
            &&& mb == requested_for(g as int, budget)
            &&& workers_fit(g as int, budget, available, reserve, pending)
            &&& forall|w: int| g < w <= requested ==> !workers_fit(w, budget, available, reserve, pending)
        },
        plan_from(requested, budget, available, reserve, pending) is None
            <==> (requested == 0 || !workers_fit(1, budget, available, reserve, pending)),
    decreases requested,
{
    if requested > 0 {
        lemma_plan_is_largest_fit(requested - 1, budget, available, reserve, pending);
        if !workers_fit(requested, budget, available, reserve, pending) && workers_fit(1, budget, available, reserve, pending) {
            if requested - 1 == 0 {
                assert(requested == 1);
            }
        }
        if workers_fit(requested, budget, available, reserve, pending) {
            lemma_fit_is_downward_closed(requested, 1, budget, available, reserve, pending);
        }
    }
}


// ---------------------------------------------------------------------------
// Ledger contents
// ---------------------------------------------------------------------------

/// Sum of the reserved amounts of the leases.
pub open spec fn sum_reserved(l: Seq<MemoryLeaseRecord>) -> int
    decreases l.len(),
{
    if l.len() == 0 { 0 } else { sum_reserved(l.drop_last()) + l.last().reserved_mb }
}

/// Number of leases of kind `k`.
pub open spec fn count_lease_kind(l: Seq<MemoryLeaseRecord>, k: MemoryLeaseKind) -> nat
    decreases l.len(),
{
    if l.len() == 0 { 0 } else { count_lease_kind(l.drop_last(), k) + if l.last().kind == k { 1nat } else { 0nat } }
}

/// Number of leases holding a startup slot.
pub open spec fn count_startup_slots(l: Seq<MemoryLeaseRecord>) -> nat
    decreases l.len(),
{
    if l.len() == 0 { 0 } else { count_startup_slots(l.drop_last()) + if l.last().startup_slot { 1nat } else { 0nat } }
}

/// Labels of the exclusive ML test lock holders, in order.
pub open spec fn ml_holder_labels(l: Seq<MemoryLeaseRecord>) -> Seq<Seq<char>>
    decreases l.len(),
{
    if l.len() == 0 {
        Seq::empty()
    } else if l.last().kind == MemoryLeaseKind::MlTestExclusive {
        ml_holder_labels(l.drop_last()).push(l.last().label@)
    } else {
        ml_holder_labels(l.drop_last())
    }
}

/// Whether the ledger admits `request` when the machine has `system`
/// memory: an exclusive ML lock needs no other holder, a startup slot needs
/// a free slot, and what stays available after the pending and requested
/// reservations must still cover the reserve.
pub open spec fn spec_admits(l: Seq<MemoryLeaseRecord>, request: MemoryLeaseRequest, config: HostMemoryRuntimeConfig, system: SystemMemorySnapshot) -> bool {
    &&& request.kind == MemoryLeaseKind::MlTestExclusive ==> count_lease_kind(l, MemoryLeaseKind::MlTestExclusive) == 0
    &&& request.startup_slot ==> count_startup_slots(l) < config.max_concurrent_worker_startups
    &&& sat_sub(sat_sub(system.available_mb.0 as int, sum_reserved(l)), request.reserved_mb.0 as int) >= config.reserve_mb.0
}

/// `e` is the capacity rejection of a request labelled `label` for
/// `requested` MB against ledger `l` with reserve `reserve`: it names them
/// and the ledger's pending reservations, and with the available memory it
/// reports, what would stay free falls short of the reserve.
pub open spec fn capacity_shortfall(e: HostMemoryError, l: Seq<MemoryLeaseRecord>, label: Seq<char>, requested: u64, reserve: u64) -> bool {
    &&& e matches HostMemoryError::CapacityRejected { label: e_label, available_mb, pending_reserved_mb, requested_mb, reserve_mb }
    &&& e_label@ == label
    &&& pending_reserved_mb == sum_reserved(l)
    &&& requested_mb == requested
    &&& reserve_mb == reserve
    &&& sat_sub(sat_sub(available_mb as int, sum_reserved(l)), requested as int) < reserve
}

proof fn lemma_take_push_lease(s: Seq<MemoryLeaseRecord>, i: int)
    requires
        0 <= i < s.len(),
    ensures
        s.take(i + 1).drop_last() == s.take(i),
        s.take(i + 1).last() == s[i],
{
    assert(s.take(i + 1).drop_last() =~= s.take(i));
}

proof fn lemma_sum_reserved_prefix(l: Seq<MemoryLeaseRecord>, i: int)
    requires
        0 <= i <= l.len(),
    ensures
        0 <= sum_reserved(l.take(i)) <= sum_reserved(l),
    decreases l.len() - i,
{
    if i < l.len() {
        lemma_sum_reserved_prefix(l, i + 1);
        lemma_take_push_lease(l, i);
    } else {
        assert(l.take(i) =~= l);
    }
    lemma_sum_reserved_nonneg(l.take(i));
}

proof fn lemma_sum_reserved_nonneg(l: Seq<MemoryLeaseRecord>)
    ensures
        sum_reserved(l) >= 0,
    decreases l.len(),
{
    if l.len() > 0 {
        lemma_sum_reserved_nonneg(l.drop_last());
    }
}

impl MemoryLedger {
    /// Sum of the reserved amounts of all leases.
    pub fn total_reserved_mb(&self) -> (r: u64)
        requires
            sum_reserved(self.leases@) <= u64::MAX,
        ensures
            r == sum_reserved(self.leases@),
    {
        let l = &self.leases;
        let mut total: u64 = 0;
        let mut i: usize = 0;
        while i < l.len()
            invariant
                i <= l@.len(),
                sum_reserved(l@) <= u64::MAX,
                total == sum_reserved(l@.take(i as int)),
            decreases l@.len() - i,
        {
            proof {
                lemma_take_push_lease(l@, i as int);
                lemma_sum_reserved_prefix(l@, i + 1);
            }
            total = total + l[i].reserved_mb;
            i = i + 1;
        }
        assert(l@.take(l@.len() as int) =~= l@);
        total
    }

    /// Number of leases of one kind.
    pub fn count_kind(&self, kind: MemoryLeaseKind) -> (r: usize)
        ensures
            r == count_lease_kind(self.leases@, kind),
    {
        let l = &self.leases;
        let mut n: usize = 0;
        let mut i: usize = 0;
        while i < l.len()
            invariant
                i <= l@.len(),
                n <= i,
                n == count_lease_kind(l@.take(i as int), kind),
            decreases l@.len() - i,
        {
            proof { lemma_take_push_lease(l@, i as int); }
            if l[i].kind == kind {
                n = n + 1;
            }
            i = i + 1;
        }
        assert(l@.take(l@.len() as int) =~= l@);
        n
    }

    /// Number of leases holding a startup slot.
    pub fn count_startup_slots(&self) -> (r: usize)
        ensures
            r == count_startup_slots(self.leases@),
    {
        let l = &self.leases;
        let mut n: usize = 0;
        let mut i: usize = 0;
        while i < l.len()
            invariant
                i <= l@.len(),
                n <= i,
                n == count_startup_slots(l@.take(i as int)),
            decreases l@.len() - i,
        {
            proof { lemma_take_push_lease(l@, i as int); }
            if l[i].startup_slot {
                n = n + 1;
            }
            i = i + 1;
        }
        assert(l@.take(l@.len() as int) =~= l@);
        n
    }

    /// Labels of the exclusive ML test lock holders.
    pub fn ml_test_lock_holders(&self) -> (r: Vec<String>)
        ensures
            r@.map_values(|x: String| x@) == ml_holder_labels(self.leases@),
    {
        let l = &self.leases;
        let mut out: Vec<String> = Vec::new();
        let mut i: usize = 0;
        while i < l.len()
            invariant
                i <= l@.len(),
                out@.map_values(|x: String| x@) == ml_holder_labels(l@.take(i as int)),
            decreases l@.len() - i,
        {
            proof { lemma_take_push_lease(l@, i as int); }
            if l[i].kind == MemoryLeaseKind::MlTestExclusive {
                out.push(l[i].label.clone());
            }
            i = i + 1;
            assert(out@.map_values(|x: String| x@) =~= ml_holder_labels(l@.take(i as int)));
        }
        assert(l@.take(l@.len() as int) =~= l@);
        out
    }
}

proof fn lemma_no_holders_iff_no_ml_leases(l: Seq<MemoryLeaseRecord>)
    ensures
        (ml_holder_labels(l).len() == 0) == (count_lease_kind(l, MemoryLeaseKind::MlTestExclusive) == 0),
    decreases l.len(),
{
    if l.len() > 0 {
        lemma_no_holders_iff_no_ml_leases(l.drop_last());
    }
}

impl HostMemoryRuntimeConfig {
    /// Configuration from explicit sources; at least one startup slot.
    pub fn from_sources(coordinator_path: String, reserve_mb: MemoryMb, max_concurrent_worker_startups: usize) -> (r: Self)
        ensures
            r.coordinator_path == coordinator_path,
            r.reserve_mb == reserve_mb,
            r.max_concurrent_worker_startups == if max_concurrent_worker_startups >= 1 { max_concurrent_worker_startups } else { 1 },
    {
        HostMemoryRuntimeConfig {
            coordinator_path,
            reserve_mb,
            max_concurrent_worker_startups: if max_concurrent_worker_startups >= 1 { max_concurrent_worker_startups } else { 1 },
        }
    }

    /// Configuration from server settings, with the ledger at
    /// `coordinator_path`.
    pub fn from_server_config(config: &ServerConfig, coordinator_path: String) -> (r: Self)
        ensures
            r.coordinator_path == coordinator_path,
            r.reserve_mb == config.memory_gate_mb,
            r.max_concurrent_worker_startups == config.max_concurrent_worker_startups as usize,
    {
        HostMemoryRuntimeConfig {
            coordinator_path,
            reserve_mb: config.memory_gate_mb,
            max_concurrent_worker_startups: config.max_concurrent_worker_startups as usize,
        }
    }
}

/// The admission decision for one lease request against the ledger and the
/// observed machine memory.
pub fn admission_decision(
    config: &HostMemoryRuntimeConfig,
    ledger: &MemoryLedger,
    request: &MemoryLeaseRequest,
    system: SystemMemorySnapshot,
) -> (r: Result<(), HostMemoryError>)
    requires
        sum_reserved(ledger.leases@) <= u64::MAX,
    ensures
        r is Ok <==> spec_admits(ledger.leases@, *request, *config, system),
        r matches Err(HostMemoryError::MlTestLockBusy { holders }) ==> {
            &&& request.kind == MemoryLeaseKind::MlTestExclusive
            &&& holders@.map_values(|x: String| x@) == ml_holder_labels(ledger.leases@)
            &&& holders@.len() > 0
        },
        r matches Err(HostMemoryError::StartupSlotsBusy { label, active_slots, max_slots }) ==> {
            &&& request.startup_slot
            &&& label == request.label
            &&& active_slots == count_startup_slots(ledger.leases@)
            &&& max_slots == config.max_concurrent_worker_startups
            &&& active_slots >= max_slots
            &&& (request.kind == MemoryLeaseKind::MlTestExclusive ==> count_lease_kind(ledger.leases@, MemoryLeaseKind::MlTestExclusive) == 0)
        },
        r matches Err(HostMemoryError::CapacityRejected { label, available_mb, pending_reserved_mb, requested_mb, reserve_mb }) ==> {
            &&& label == request.label
            &&& available_mb == system.available_mb.0
            &&& pending_reserved_mb == sum_reserved(ledger.leases@)
            &&& requested_mb == request.reserved_mb.0
            &&& reserve_mb == config.reserve_mb.0
            &&& (request.kind == MemoryLeaseKind::MlTestExclusive ==> count_lease_kind(ledger.leases@, MemoryLeaseKind::MlTestExclusive) == 0)
            &&& (request.startup_slot ==> count_startup_slots(ledger.leases@) < config.max_concurrent_worker_startups)
        },
        r matches Err(e) ==> (e is MlTestLockBusy || e is StartupSlotsBusy || e is CapacityRejected),
{
    if request.kind == MemoryLeaseKind::MlTestExclusive {
        let holders = ledger.ml_test_lock_holders();
        proof { lemma_no_holders_iff_no_ml_leases(ledger.leases@); }
        if holders.len() > 0 {
            return Err(HostMemoryError::MlTestLockBusy { holders });
        }
    }
    if request.startup_slot {
        let active_slots = ledger.count_startup_slots();
        if active_slots >= config.max_concurrent_worker_startups {
            return Err(HostMemoryError::StartupSlotsBusy {
                label: request.label.clone(),
                active_slots,
                max_slots: config.max_concurrent_worker_startups,
            });
        }
    }
    let pending_reserved_mb = ledger.total_reserved_mb();
    let projected_available_mb = system.available_mb.0.saturating_sub(pending_reserved_mb).saturating_sub(request.reserved_mb.0);
    if projected_available_mb < config.reserve_mb.0 {
        return Err(HostMemoryError::CapacityRejected {
            label: request.label.clone(),
            available_mb: system.available_mb.0,
            pending_reserved_mb,
            requested_mb: request.reserved_mb.0,
            reserve_mb: config.reserve_mb.0,
        });
    }
    Ok(())
}

/// Whether waiting may overcome the error: capacity, ML lock and startup
/// slot rejections are transient, ledger failures and timeouts are not.
pub fn retryable_error(error: &HostMemoryError) -> (r: bool)
    ensures
        r == (error is CapacityRejected || error is MlTestLockBusy || error is StartupSlotsBusy),
{
    match error {
        HostMemoryError::CapacityRejected { .. } => true,
        HostMemoryError::MlTestLockBusy { .. } => true,
        HostMemoryError::StartupSlotsBusy { .. } => true,
        _ => false,
    }
}


// ---------------------------------------------------------------------------
// Machine observations (outside calls)
// ---------------------------------------------------------------------------

/// Whether a process with this id currently exists, from `sysinfo`
/// (`System::refresh_processes` for that one pid, then `System::process`);
/// `false` when `System::new` fails. Nothing is promised of the answer: it
/// depends on the machine at the time of the call.
#[verifier::external_body]
fn process_is_alive(pid: u32) -> (r: bool) {
    let pid = Pid::from_u32(pid);
    match System::new() {
        Ok(mut system) => {
            system.refresh_processes(ProcessesToUpdate::Some(&[pid]), false);
            system.process(pid).is_some()
        },
        Err(_) => false,
    }
}

/// A fresh random lease id: `uuid::Uuid::new_v4` in its hyphenated string
/// form, which is always 36 characters long.
#[verifier::external_body]
pub(crate) fn new_lease_id() -> (r: String)
    ensures
        r@.len() == 36,
{
    uuid::Uuid::new_v4().to_string()
}

/// Whole seconds since the Unix epoch, from the wall clock: the clock's
/// millisecond reading, never negative, divided by 1000 and rounded down.
fn unix_epoch_s() -> (r: u64)
    ensures
        exists|ms: i64| ms >= 0 && r == #[trigger] millis_to_seconds(ms as int),
{
    let now = unix_now();
    let r = (now.0 / 1000) as u64;
    assert(r == millis_to_seconds(now.0 as int));
    r
}

/// Whole seconds in `ms` milliseconds, rounding down.
pub open spec fn millis_to_seconds(ms: int) -> int {
    ms / 1000
}

/// The observed machine memory in MB: the whole-MiB conversion
/// ([`SystemMemorySnapshot::from_bytes`]) of the total and available byte
/// counts the machine reports. The byte counts themselves are not stated.
pub fn system_memory_snapshot() -> (r: SystemMemorySnapshot)
    ensures
        exists|total_bytes: u64, available_bytes: u64|
            #![trigger bytes_to_mb(total_bytes), bytes_to_mb(available_bytes)]
            r.total_mb.0 == bytes_to_mb(total_bytes) && r.available_mb.0 == bytes_to_mb(available_bytes),
{
    let (reading, system) = observe_memory();
    assert(system.total_mb.0 == bytes_to_mb(reading.spec_total_bytes()));
    assert(system.available_mb.0 == bytes_to_mb(reading.spec_available_bytes()));
    system
}

/// The snapshot, in whole MiB, of one machine reading.
pub open spec fn reading_snapshot(m: MachineMemoryReading) -> SystemMemorySnapshot {
    SystemMemorySnapshot {
        total_mb: MemoryMb(bytes_to_mb(m.spec_total_bytes())),
        available_mb: MemoryMb(bytes_to_mb(m.spec_available_bytes())),
    }
}

/// Read the machine's memory once: the reading and its snapshot in MiB.
fn observe_memory() -> (r: (MachineMemoryReading, SystemMemorySnapshot))
    ensures
        r.1 == reading_snapshot(r.0),
{
    let reading = read_system_memory_bytes();
    let system = SystemMemorySnapshot::from_bytes(reading.total_bytes(), reading.available_bytes());
    (reading, system)
}

/// Bytes to whole MiB, rounding down.
pub open spec fn bytes_to_mb(bytes: u64) -> u64 {
    bytes / 1048576
}

impl SystemMemorySnapshot {
    /// The snapshot of a machine reporting these byte counts, in whole MiB.
    pub fn from_bytes(total_bytes: u64, available_bytes: u64) -> (r: SystemMemorySnapshot)
        ensures
            r.total_mb.0 == bytes_to_mb(total_bytes),
            r.available_mb.0 == bytes_to_mb(available_bytes),
    {
        SystemMemorySnapshot {
            total_mb: MemoryMb(total_bytes / (1024 * 1024)),
            available_mb: MemoryMb(available_bytes / (1024 * 1024)),
        }
    }

    /// Memory in use: total minus available, never below zero.
    pub fn used_mb(&self) -> (r: MemoryMb)
        ensures
            r.0 == if self.total_mb.0 >= self.available_mb.0 { (self.total_mb.0 - self.available_mb.0) as u64 } else { 0 },
    {
        MemoryMb(self.total_mb.0.saturating_sub(self.available_mb.0))
    }
}

/// The memory panel of the health report.
#[derive(Clone, Copy, Debug, PartialEq, Eq, Structural)]
pub struct MemoryPanel {
    pub system_memory_total_mb: MemoryMb,
    pub system_memory_available_mb: MemoryMb,
    pub system_memory_used_mb: MemoryMb,
    pub memory_gate_threshold_mb: u64,
}

/// The health report's memory panel for this snapshot and gate threshold.
pub fn memory_panel(system: SystemMemorySnapshot, memory_gate_mb: u64) -> (r: MemoryPanel)
    ensures
        r.system_memory_total_mb == system.total_mb,
        r.system_memory_available_mb == system.available_mb,
        r.system_memory_used_mb.0 == if system.total_mb.0 >= system.available_mb.0 {
            (system.total_mb.0 - system.available_mb.0) as u64
        } else {
            0
        },
        r.memory_gate_threshold_mb == memory_gate_mb,
{
    MemoryPanel {
        system_memory_total_mb: system.total_mb,
        system_memory_available_mb: system.available_mb,
        system_memory_used_mb: system.used_mb(),
        memory_gate_threshold_mb: memory_gate_mb,
    }
}

/// `kept` is `l` with some leases dropped, order kept: a filter of `l` by
/// the mask `keep`.
pub open spec fn filter_by_mask(l: Seq<MemoryLeaseRecord>, keep: Seq<bool>) -> Seq<MemoryLeaseRecord>
    decreases l.len(),
{
    if l.len() == 0 || keep.len() != l.len() {
        Seq::empty()
    } else if keep.last() {
        filter_by_mask(l.drop_last(), keep.drop_last()).push(l.last())
    } else {
        filter_by_mask(l.drop_last(), keep.drop_last())
    }
}

/// Keep the leases whose flag in `alive` is set, in order.
pub fn retain_leases(ledger: &mut MemoryLedger, alive: &Vec<bool>)
    requires
        alive@.len() == old(ledger).leases@.len(),
    ensures
        final(ledger).leases@ == filter_by_mask(old(ledger).leases@, alive@),
{
    let mut leases: Vec<MemoryLeaseRecord> = Vec::new();
    std::mem::swap(&mut leases, &mut ledger.leases);
    let ghost old_l = leases@;
    let mut kept: Vec<MemoryLeaseRecord> = Vec::new();
    let mut i: usize = 0;
    let n = leases.len();
    while i < n
        invariant
            leases@ == old_l,
            n == old_l.len(),
            alive@.len() == n,
            i <= n,
            kept@ == filter_by_mask(old_l.take(i as int), alive@.take(i as int)),
        decreases n - i,
    {
        proof { lemma_take_push_lease(old_l, i as int); }
        if alive[i] {
            kept.push(leases[i].clone_record());
        }
        i = i + 1;
        assert(alive@.take(i as int).drop_last() =~= alive@.take(i - 1));
        assert(kept@ =~= filter_by_mask(old_l.take(i as int), alive@.take(i as int)));
    }
    assert(old_l.take(n as int) =~= old_l);
    assert(alive@.take(n as int) =~= alive@);
    ledger.leases = kept;
}

/// Drop the leases whose owner process is gone. Which owners are alive is
/// the machine's answer (asked once per lease); the rest is
/// [`retain_leases`] with those answers.
pub fn prune_stale_leases(ledger: &mut MemoryLedger)
    ensures
        exists|keep: Seq<bool>| keep.len() == old(ledger).leases@.len()
            && final(ledger).leases@ == filter_by_mask(old(ledger).leases@, keep),
{
    let mut alive: Vec<bool> = Vec::new();
    let mut i: usize = 0;
    while i < ledger.leases.len()
        invariant
            i <= ledger.leases@.len(),
            alive@.len() == i,
        decreases ledger.leases@.len() - i,
    {
        alive.push(process_is_alive(ledger.leases[i].owner_pid));
        i = i + 1;
    }
    retain_leases(ledger, &alive);
}

impl MemoryLeaseRecord {
    /// A copy of this record.
    pub fn clone_record(&self) -> (r: MemoryLeaseRecord)
        ensures
            r == *self,
    {
        MemoryLeaseRecord {
            id: self.id.clone(),
            kind: self.kind,
            owner_pid: self.owner_pid,
            reserved_mb: self.reserved_mb,
            startup_slot: self.startup_slot,
            label: self.label.clone(),
            created_at_epoch_s: self.created_at_epoch_s,
        }
    }
}


// ---------------------------------------------------------------------------
// Coordinator
// ---------------------------------------------------------------------------

/// One acquired lease; releasing it removes it from the ledger.
#[derive(Debug, PartialEq, Eq)]
pub struct HostMemoryLease {
    pub ledger_path: String,
    pub lease_id: String,
    pub released: bool,
    /// The machine memory reading the lease was granted against.
    pub granted_under: MachineMemoryReading,
}

/// The machine-wide exclusive lock held by a real-model ML test.
#[derive(Debug, PartialEq, Eq)]
pub struct MachineMlTestLock {
    pub lease: HostMemoryLease,
}

impl MachineMlTestLock {
    /// Try once to take the lock through `coordinator`; it is refused while
    /// another process holds it. Waiting between attempts is the caller's.
    pub fn acquire(coordinator: &HostMemoryCoordinator, ledger: &mut MemoryLedger, label: &str, owner_pid: u32) -> (r: Result<Self, HostMemoryError>)
        requires
            sum_reserved(old(ledger).leases@) <= u64::MAX,
        ensures
            r matches Err(_) ==> final(ledger).leases@ == old(ledger).leases@,
            count_lease_kind(old(ledger).leases@, MemoryLeaseKind::MlTestExclusive) > 0 ==> {
                &&& r matches Err(HostMemoryError::MlTestLockBusy { holders })
                &&& holders@.map_values(|x: String| x@) == ml_holder_labels(old(ledger).leases@)
            },
            count_lease_kind(old(ledger).leases@, MemoryLeaseKind::MlTestExclusive) == 0 ==> (r matches Err(e) ==>
                capacity_shortfall(e, old(ledger).leases@, label@, 0, coordinator.config.reserve_mb.0)),
            r matches Ok(lock) ==> {
                &&& final(ledger).leases@.drop_last() == old(ledger).leases@
                &&& final(ledger).leases@.len() == old(ledger).leases@.len() + 1
                &&& final(ledger).leases@.last().kind == MemoryLeaseKind::MlTestExclusive
                &&& !final(ledger).leases@.last().startup_slot
                &&& final(ledger).leases@.last().reserved_mb == 0
                &&& final(ledger).leases@.last().owner_pid == owner_pid
                &&& final(ledger).leases@.last().label@ == label@
                &&& final(ledger).leases@.last().id == lock.lease.lease_id
                &&& lock.lease.ledger_path == coordinator.config.coordinator_path
                &&& !lock.lease.released
                &&& count_lease_kind(old(ledger).leases@, MemoryLeaseKind::MlTestExclusive) == 0
            },
    {
        match coordinator.acquire_ml_test_lock(ledger, label, owner_pid) {
            Ok(lease) => Ok(MachineMlTestLock { lease }),
            Err(e) => Err(e),
        }
    }
}

/// Result of planning one job's execution reservation.
#[derive(Debug, PartialEq, Eq)]
pub struct JobExecutionPlan {
    /// Worker count granted under current host pressure.
    pub granted_workers: usize,
    /// Worker count requested before clamping.
    pub requested_workers: usize,
    /// Reservation held for the job's duration.
    pub lease: HostMemoryLease,
    /// Total reserved memory.
    pub reserved_mb: MemoryMb,
}

/// Machine-local coordinator over the shared ledger.
#[derive(Clone, Debug, PartialEq, Eq)]
pub struct HostMemoryCoordinator {
    pub config: HostMemoryRuntimeConfig,
}

/// Debug name of a lease kind.
pub open spec fn lease_kind_name(k: MemoryLeaseKind) -> Seq<char> {
    match k {
        MemoryLeaseKind::WorkerStartup => "WorkerStartup"@,
        MemoryLeaseKind::JobExecution => "JobExecution"@,
        MemoryLeaseKind::MlTestExclusive => "MlTestExclusive"@,
    }
}

/// Operator label of a lease: `Kind:label:NNNMB`.
pub open spec fn lease_debug_label(r: MemoryLeaseRecord) -> Seq<char> {
    lease_kind_name(r.kind) + ":"@ + r.label@ + ":"@ + decimal(r.reserved_mb as nat) + "MB"@
}

fn lease_kind_str(k: MemoryLeaseKind) -> (r: &'static str)
    ensures
        r@ == lease_kind_name(k),
{
    match k {
        MemoryLeaseKind::WorkerStartup => "WorkerStartup",
        MemoryLeaseKind::JobExecution => "JobExecution",
        MemoryLeaseKind::MlTestExclusive => "MlTestExclusive",
    }
}

fn lease_label_exec(r: &MemoryLeaseRecord) -> (s: String)
    ensures
        s@ == lease_debug_label(*r),
{
    let mut s = String::from_str(lease_kind_str(r.kind));
    s.append(":");
    s.append(r.label.as_str());
    s.append(":");
    append_decimal(&mut s, r.reserved_mb);
    s.append("MB");
    s
}

/// Ledger label of a worker startup lease:
/// `worker-startup:<profile>:<lang>:<engine overrides>`.
pub open spec fn worker_startup_label(profile: Seq<char>, lang: Seq<char>, engine_overrides: Seq<char>) -> Seq<char> {
    "worker-startup:"@ + profile + ":"@ + lang + ":"@ + engine_overrides
}

/// The ledger figures of a health snapshot: the reserved total, the lease
/// counts per kind, and one operator label per lease, in ledger order.
pub open spec fn ledger_report(r: HostMemorySnapshot, l: Seq<MemoryLeaseRecord>) -> bool {
    &&& r.active_reserved_mb.0 == sum_reserved(l)
    &&& r.startup_leases == count_lease_kind(l, MemoryLeaseKind::WorkerStartup)
    &&& r.job_execution_leases == count_lease_kind(l, MemoryLeaseKind::JobExecution)
    &&& r.ml_test_locks == count_lease_kind(l, MemoryLeaseKind::MlTestExclusive)
    &&& r.active_lease_labels@.len() == l.len()
    &&& forall|i: int| 0 <= i < l.len() ==> (#[trigger] r.active_lease_labels@[i])@ == lease_debug_label(l[i])
}

/// The record a granted request adds to the ledger.
pub open spec fn granted_record(rec: MemoryLeaseRecord, request: MemoryLeaseRequest, owner_pid: u32) -> bool {
    &&& rec.kind == request.kind
    &&& rec.owner_pid == owner_pid
    &&& rec.reserved_mb == request.reserved_mb.0
    &&& rec.startup_slot == request.startup_slot
    &&& rec.label == request.label
}

impl HostMemoryLease {
    fn new(ledger_path: String, lease_id: String, granted_under: MachineMemoryReading) -> (r: Self)
        ensures
            r.ledger_path == ledger_path,
            r.lease_id == lease_id,
            !r.released,
            r.granted_under == granted_under,
    {
        HostMemoryLease { ledger_path, lease_id, released: false, granted_under }
    }

    /// Remove this lease from the ledger once; a second release does nothing.
    pub fn release_internal(&mut self, ledger: &mut MemoryLedger)
        ensures
            final(self).released,
            final(self).lease_id == old(self).lease_id,
            final(self).ledger_path == old(self).ledger_path,
            old(self).released ==> final(ledger).leases@ == old(ledger).leases@,
            !old(self).released ==> final(ledger).leases@ == without_lease(old(ledger).leases@, old(self).lease_id@),
    {
        if self.released {
            return;
        }
        remove_lease(ledger, self.lease_id.as_str());
        self.released = true;
    }

    /// Release the lease now.
    pub fn release(self, ledger: &mut MemoryLedger)
        ensures
            self.released ==> final(ledger).leases@ == old(ledger).leases@,
            !self.released ==> final(ledger).leases@ == without_lease(old(ledger).leases@, self.lease_id@),
    {
        let mut lease = self;
        lease.release_internal(ledger);
    }
}

/// The leases other than those with id `id`, in order.
pub open spec fn without_lease(l: Seq<MemoryLeaseRecord>, id: Seq<char>) -> Seq<MemoryLeaseRecord>
    decreases l.len(),
{
    if l.len() == 0 {
        Seq::empty()
    } else if l.last().id@ == id {
        without_lease(l.drop_last(), id)
    } else {
        without_lease(l.drop_last(), id).push(l.last())
    }
}

fn remove_lease(ledger: &mut MemoryLedger, id: &str)
    ensures
        final(ledger).leases@ == without_lease(old(ledger).leases@, id@),
{
    let mut leases: Vec<MemoryLeaseRecord> = Vec::new();
    std::mem::swap(&mut leases, &mut ledger.leases);
    let ghost old_l = leases@;
    let mut kept: Vec<MemoryLeaseRecord> = Vec::new();
    let mut i: usize = 0;
    let n = leases.len();
    while i < n
        invariant
            leases@ == old_l,
            n == old_l.len(),
            i <= n,
            kept@ == without_lease(old_l.take(i as int), id@),
        decreases n - i,
    {
        proof { lemma_take_push_lease(old_l, i as int); }
        if !str_equal(leases[i].id.as_str(), id) {
            kept.push(leases[i].clone_record());
        }
        i = i + 1;
    }
    assert(old_l.take(n as int) =~= old_l);
    ledger.leases = kept;
}

impl HostMemoryCoordinator {
    pub fn new(config: HostMemoryRuntimeConfig) -> (r: Self)
        ensures
            r.config == config,
    {
        HostMemoryCoordinator { config }
    }

    pub fn from_server_config(config: &ServerConfig, coordinator_path: String) -> (r: Self)
        ensures
            r.config.coordinator_path == coordinator_path,
            r.config.reserve_mb == config.memory_gate_mb,
            r.config.max_concurrent_worker_startups == config.max_concurrent_worker_startups as usize,
    {
        Self::new(HostMemoryRuntimeConfig::from_server_config(config, coordinator_path))
    }

    /// The shared ledger path backing this coordinator.
    pub fn coordinator_path(&self) -> (r: &str)
        ensures
            r@ == self.config.coordinator_path@,
    {
        self.config.coordinator_path.as_str()
    }

    /// The coordination snapshot for health reporting: machine memory as
    /// observed now, ledger totals and counts, lease labels, and the pressure
    /// level of the observed availability against the reserve.
    pub fn snapshot(&self, ledger: &MemoryLedger) -> (r: HostMemorySnapshot)
        requires
            sum_reserved(ledger.leases@) <= u64::MAX,
        ensures
            exists|total_bytes: u64, available_bytes: u64|
                #![trigger bytes_to_mb(total_bytes), bytes_to_mb(available_bytes)]
                r.total_mb.0 == bytes_to_mb(total_bytes) && r.available_mb.0 == bytes_to_mb(available_bytes),
            r.reserve_mb == self.config.reserve_mb,
            ledger_report(r, ledger.leases@),
            r.pressure_level == spec_pressure_level(r.available_mb.0, self.config.reserve_mb.0),
    {
        let system = system_memory_snapshot();
        let active_reserved_mb = ledger.total_reserved_mb();
        let startup_leases = ledger.count_kind(MemoryLeaseKind::WorkerStartup);
        let job_execution_leases = ledger.count_kind(MemoryLeaseKind::JobExecution);
        let ml_test_locks = ledger.count_kind(MemoryLeaseKind::MlTestExclusive);
        let mut labels: Vec<String> = Vec::new();
        let mut i: usize = 0;
        while i < ledger.leases.len()
            invariant
                i <= ledger.leases@.len(),
                labels@.len() == i,
                forall|k: int| 0 <= k < i ==> (#[trigger] labels@[k])@ == lease_debug_label(ledger.leases@[k]),
            decreases ledger.leases@.len() - i,
        {
            labels.push(lease_label_exec(&ledger.leases[i]));
            i = i + 1;
        }
        HostMemorySnapshot {
            total_mb: system.total_mb,
            available_mb: system.available_mb,
            reserve_mb: self.config.reserve_mb,
            active_reserved_mb: MemoryMb(active_reserved_mb),
            startup_leases,
            job_execution_leases,
            ml_test_locks,
            active_lease_labels: labels,
            pressure_level: pressure_level_for(system.available_mb, self.config.reserve_mb),
        }
    }

    /// Try once to take a lease for `request` on behalf of process
    /// `owner_pid`. Admission follows [`admission_decision`] against the
    /// machine memory observed now; a granted lease is appended to the
    /// ledger under a fresh id, and a rejection leaves the ledger unchanged.
    pub fn try_acquire_lease(&self, ledger: &mut MemoryLedger, request: MemoryLeaseRequest, owner_pid: u32) -> (r: Result<HostMemoryLease, HostMemoryError>)
        requires
            sum_reserved(old(ledger).leases@) <= u64::MAX,
        ensures
            r matches Err(e) ==> final(ledger).leases@ == old(ledger).leases@
                && (e is MlTestLockBusy || e is StartupSlotsBusy || e is CapacityRejected),
            r matches Err(HostMemoryError::MlTestLockBusy { holders }) ==> request.kind == MemoryLeaseKind::MlTestExclusive
                && holders@.map_values(|x: String| x@) == ml_holder_labels(old(ledger).leases@) && holders@.len() > 0,
            r matches Err(HostMemoryError::StartupSlotsBusy { label, active_slots, max_slots }) ==> request.startup_slot
                && label == request.label && active_slots == count_startup_slots(old(ledger).leases@)
                && max_slots == self.config.max_concurrent_worker_startups && active_slots >= max_slots,
            r matches Err(e) ==> e is CapacityRejected ==> {
                &&& capacity_shortfall(e, old(ledger).leases@, request.label@, request.reserved_mb.0, self.config.reserve_mb.0)
                &&& (request.kind == MemoryLeaseKind::MlTestExclusive ==> count_lease_kind(old(ledger).leases@, MemoryLeaseKind::MlTestExclusive) == 0)
                &&& (request.startup_slot ==> count_startup_slots(old(ledger).leases@) < self.config.max_concurrent_worker_startups)
            },
            request.kind == MemoryLeaseKind::MlTestExclusive && count_lease_kind(old(ledger).leases@, MemoryLeaseKind::MlTestExclusive) > 0
                ==> r matches Err(HostMemoryError::MlTestLockBusy { .. }),
            request.startup_slot && count_startup_slots(old(ledger).leases@) >= self.config.max_concurrent_worker_startups
                && !(request.kind == MemoryLeaseKind::MlTestExclusive && count_lease_kind(old(ledger).leases@, MemoryLeaseKind::MlTestExclusive) > 0)
                ==> r matches Err(HostMemoryError::StartupSlotsBusy { .. }),
            r matches Ok(lease) ==> {
                &&& spec_admits(old(ledger).leases@, request, self.config, reading_snapshot(lease.granted_under))
                &&& sat_sub(sat_sub(bytes_to_mb(lease.granted_under.spec_available_bytes()) as int, sum_reserved(old(ledger).leases@)),
                    request.reserved_mb.0 as int) >= self.config.reserve_mb.0
                &&& exists|system: SystemMemorySnapshot| #[trigger] spec_admits(old(ledger).leases@, request, self.config, system)
                &&& final(ledger).leases@.len() == old(ledger).leases@.len() + 1
                &&& final(ledger).leases@.drop_last() == old(ledger).leases@
                &&& granted_record(final(ledger).leases@.last(), request, owner_pid)
                &&& final(ledger).leases@.last().id == lease.lease_id
                &&& lease.ledger_path == self.config.coordinator_path
                &&& !lease.released
            },
    {
        let (reading, system) = observe_memory();
        proof { lemma_no_holders_iff_no_ml_leases(ledger.leases@); }
        match admission_decision(&self.config, ledger, &request, system) {
            Err(e) => Err(e),
            Ok(()) => {
                let id = new_lease_id();
                let record = MemoryLeaseRecord {
                    id: id.clone(),
                    kind: request.kind,
                    owner_pid,
                    reserved_mb: request.reserved_mb.0,
                    startup_slot: request.startup_slot,
                    label: request.label,
                    created_at_epoch_s: unix_epoch_s(),
                };
                let lease = HostMemoryLease::new(self.config.coordinator_path.clone(), id, reading);
                let ghost old_l = ledger.leases@;
                ledger.leases.push(record);
                assert(ledger.leases@.drop_last() =~= old_l);
                Ok(lease)
            },
        }
    }

    /// Try once to take a startup lease for one worker/model load.
    pub fn acquire_worker_startup_lease(
        &self,
        ledger: &mut MemoryLedger,
        profile_label: &str,
        startup_reservation_mb: MemoryMb,
        lang: &str,
        engine_overrides: &str,
        owner_pid: u32,
    ) -> (r: Result<HostMemoryLease, HostMemoryError>)
        requires
            sum_reserved(old(ledger).leases@) <= u64::MAX,
        ensures
            r matches Err(_) ==> final(ledger).leases@ == old(ledger).leases@,
            count_startup_slots(old(ledger).leases@) >= self.config.max_concurrent_worker_startups ==> {
                &&& r matches Err(HostMemoryError::StartupSlotsBusy { label, active_slots, max_slots })
                &&& label@ == worker_startup_label(profile_label@, lang@, engine_overrides@)
                &&& active_slots == count_startup_slots(old(ledger).leases@)
                &&& max_slots == self.config.max_concurrent_worker_startups
            },
            count_startup_slots(old(ledger).leases@) < self.config.max_concurrent_worker_startups ==> (r matches Err(e) ==>
                capacity_shortfall(e, old(ledger).leases@, worker_startup_label(profile_label@, lang@, engine_overrides@),
                    startup_reservation_mb.0, self.config.reserve_mb.0)),
            r matches Ok(lease) ==> {
                &&& final(ledger).leases@.drop_last() == old(ledger).leases@
                &&& final(ledger).leases@.len() == old(ledger).leases@.len() + 1
                &&& final(ledger).leases@.last().kind == MemoryLeaseKind::WorkerStartup
                &&& final(ledger).leases@.last().startup_slot
                &&& final(ledger).leases@.last().reserved_mb == startup_reservation_mb.0
                &&& final(ledger).leases@.last().owner_pid == owner_pid
                &&& final(ledger).leases@.last().label@ == worker_startup_label(profile_label@, lang@, engine_overrides@)
                &&& final(ledger).leases@.last().id == lease.lease_id
                &&& lease.ledger_path == self.config.coordinator_path
                &&& !lease.released
                &&& count_startup_slots(old(ledger).leases@) < self.config.max_concurrent_worker_startups
            },
    {
        let mut label = String::from_str("worker-startup:");
        label.append(profile_label);
        label.append(":");
        label.append(lang);
        label.append(":");
        label.append(engine_overrides);
        let request = MemoryLeaseRequest {
            kind: MemoryLeaseKind::WorkerStartup,
            reserved_mb: startup_reservation_mb,
            startup_slot: true,
            label,
        };
        self.try_acquire_lease(ledger, request, owner_pid)
    }

    /// Try once to take the machine-wide exclusive ML test lock; it reserves
    /// no memory and is refused while another holder exists.
    pub fn acquire_ml_test_lock(&self, ledger: &mut MemoryLedger, label: &str, owner_pid: u32) -> (r: Result<HostMemoryLease, HostMemoryError>)
        requires
            sum_reserved(old(ledger).leases@) <= u64::MAX,
        ensures
            r matches Err(_) ==> final(ledger).leases@ == old(ledger).leases@,
            count_lease_kind(old(ledger).leases@, MemoryLeaseKind::MlTestExclusive) > 0 ==> {
                &&& r matches Err(HostMemoryError::MlTestLockBusy { holders })
                &&& holders@.map_values(|x: String| x@) == ml_holder_labels(old(ledger).leases@)
            },
            count_lease_kind(old(ledger).leases@, MemoryLeaseKind::MlTestExclusive) == 0 ==> (r matches Err(e) ==>
                capacity_shortfall(e, old(ledger).leases@, label@, 0, self.config.reserve_mb.0)),
            r matches Ok(lease) ==> {
                &&& final(ledger).leases@.drop_last() == old(ledger).leases@
                &&& final(ledger).leases@.len() == old(ledger).leases@.len() + 1
                &&& final(ledger).leases@.last().kind == MemoryLeaseKind::MlTestExclusive
                &&& !final(ledger).leases@.last().startup_slot
                &&& final(ledger).leases@.last().reserved_mb == 0
                &&& final(ledger).leases@.last().owner_pid == owner_pid
                &&& final(ledger).leases@.last().label@ == label@
                &&& final(ledger).leases@.last().id == lease.lease_id
                &&& lease.ledger_path == self.config.coordinator_path
                &&& !lease.released
                &&& count_lease_kind(old(ledger).leases@, MemoryLeaseKind::MlTestExclusive) == 0
            },
    {
        let request = MemoryLeaseRequest {
            kind: MemoryLeaseKind::MlTestExclusive,
            reserved_mb: MemoryMb(0),
            startup_slot: false,
            label: String::from_str(label),
        };
        proof { lemma_no_holders_iff_no_ml_leases(ledger.leases@); }
        self.try_acquire_lease(ledger, request, owner_pid)
    }

    /// Try once to plan and reserve one job's execution memory: the largest
    /// worker count up to `requested_workers` whose `per_worker_budget_mb`
    /// share fits above the reserve is granted and its memory recorded.
    pub fn try_plan_job_execution(
        &self,
        ledger: &mut MemoryLedger,
        requested_workers: usize,
        per_worker_budget_mb: MemoryMb,
        label: &str,
        owner_pid: u32,
    ) -> (r: Result<JobExecutionPlan, HostMemoryError>)
        requires
            sum_reserved(old(ledger).leases@) <= u64::MAX,
        ensures
            r matches Err(e) ==> final(ledger).leases@ == old(ledger).leases@ && {
                &&& e matches HostMemoryError::CapacityRejected { label: l, pending_reserved_mb, requested_mb, reserve_mb, .. }
                &&& l@ == label@
                &&& pending_reserved_mb == sum_reserved(old(ledger).leases@)
                &&& requested_mb == sat_mul(per_worker_budget_mb.0 as int, requested_workers as int)
                &&& reserve_mb == self.config.reserve_mb.0
                &&& plan_from(requested_workers as int, per_worker_budget_mb.0, e->available_mb, self.config.reserve_mb.0, pending_reserved_mb) is None
            },
            r matches Ok(plan) ==> {
                &&& plan_from(requested_workers as int, per_worker_budget_mb.0, reading_snapshot(plan.lease.granted_under).available_mb.0,
                    self.config.reserve_mb.0, sum_reserved(old(ledger).leases@) as u64) == Some((plan.granted_workers, plan.reserved_mb.0))
                &&& 1 <= plan.granted_workers <= requested_workers
                &&& plan.reserved_mb.0 == sat_mul(per_worker_budget_mb.0 as int, plan.granted_workers as int)
                &&& sat_sub(sat_sub(bytes_to_mb(plan.lease.granted_under.spec_available_bytes()) as int, sum_reserved(old(ledger).leases@)),
                    plan.reserved_mb.0 as int) >= self.config.reserve_mb.0
                &&& forall|w: int| plan.granted_workers < w <= requested_workers ==>
                    sat_sub(sat_sub(bytes_to_mb(plan.lease.granted_under.spec_available_bytes()) as int, sum_reserved(old(ledger).leases@)),
                        #[trigger] sat_mul(per_worker_budget_mb.0 as int, w)) < self.config.reserve_mb.0
                &&& exists|available: u64| #[trigger] plan_from(requested_workers as int, per_worker_budget_mb.0, available,
                    self.config.reserve_mb.0, sum_reserved(old(ledger).leases@) as u64) == Some((plan.granted_workers, plan.reserved_mb.0))
                &&& plan.requested_workers == requested_workers
                &&& final(ledger).leases@.drop_last() == old(ledger).leases@
                &&& final(ledger).leases@.len() == old(ledger).leases@.len() + 1
                &&& final(ledger).leases@.last().kind == MemoryLeaseKind::JobExecution
                &&& final(ledger).leases@.last().reserved_mb == plan.reserved_mb.0
                &&& !final(ledger).leases@.last().startup_slot
                &&& final(ledger).leases@.last().owner_pid == owner_pid
                &&& final(ledger).leases@.last().label@ == label@
                &&& final(ledger).leases@.last().id == plan.lease.lease_id
                &&& !plan.lease.released
            },
    {
        let (reading, system) = observe_memory();
        let pending_reserved_mb = ledger.total_reserved_mb();
        match plan_job_reservation(requested_workers, per_worker_budget_mb.0, system.available_mb.0, self.config.reserve_mb.0, pending_reserved_mb) {
            None => Err(HostMemoryError::CapacityRejected {
                label: String::from_str(label),
                available_mb: system.available_mb.0,
                pending_reserved_mb,
                requested_mb: saturating_mul_u64(per_worker_budget_mb.0, requested_workers as u64),
                reserve_mb: self.config.reserve_mb.0,
            }),
            Some((granted_workers, reserved_mb)) => {
                proof {
                    lemma_plan_is_largest_fit(requested_workers as int, per_worker_budget_mb.0, system.available_mb.0,
                        self.config.reserve_mb.0, pending_reserved_mb);
                    assert forall|w: int| granted_workers < w <= requested_workers implies
                        sat_sub(sat_sub(system.available_mb.0 as int, pending_reserved_mb as int),
                            #[trigger] sat_mul(per_worker_budget_mb.0 as int, w)) < self.config.reserve_mb.0 by {
                        assert(!workers_fit(w, per_worker_budget_mb.0, system.available_mb.0, self.config.reserve_mb.0, pending_reserved_mb));
                    }
                }
                assert(plan_from(requested_workers as int, per_worker_budget_mb.0, system.available_mb.0,
                    self.config.reserve_mb.0, sum_reserved(ledger.leases@) as u64) == Some((granted_workers, reserved_mb)));
                let id = new_lease_id();
                let record = MemoryLeaseRecord {
                    id: id.clone(),
                    kind: MemoryLeaseKind::JobExecution,
                    owner_pid,
                    reserved_mb,
                    startup_slot: false,
                    label: String::from_str(label),
                    created_at_epoch_s: unix_epoch_s(),
                };
                let lease = HostMemoryLease::new(self.config.coordinator_path.clone(), id, reading);
                let ghost old_l = ledger.leases@;
                ledger.leases.push(record);
                assert(ledger.leases@.drop_last() =~= old_l);
                Ok(JobExecutionPlan {
                    granted_workers,
                    requested_workers,
                    lease,
                    reserved_mb: MemoryMb(reserved_mb),
                })
            },
        }
    }
}


// ---------------------------------------------------------------------------
// Error messages and the waiting policy
// ---------------------------------------------------------------------------

/// The text `format!("{:?}", items)` writes for a list of strings.
pub uninterp spec fn debug_list_text(items: Seq<Seq<char>>) -> Seq<char>;

/// `format!("{:?}", items)`: Rust's `Debug` rendering of a string list.
#[verifier::external_body]
pub(crate) fn debug_format_list(items: &Vec<String>) -> (r: String)
    ensures
        r@ == debug_list_text(items@.map_values(|x: String| x@)),
{
    format!("{:?}", items)
}

/// The operator-facing message of each error.
pub open spec fn error_message(e: HostMemoryError) -> Seq<char> {
    match e {
        HostMemoryError::Io { path, message } => "host-memory ledger I/O failed at "@ + path@ + ": "@ + message@,
        HostMemoryError::CorruptLedger { path, message } => "host-memory ledger is corrupt at "@ + path@ + ": "@ + message@,
        HostMemoryError::CapacityRejected { label, available_mb, pending_reserved_mb, requested_mb, reserve_mb } =>
            "host-memory reserve would be exceeded for "@ + label@ + ": "@ + decimal(available_mb as nat) + " MB available, "@
                + decimal(pending_reserved_mb as nat) + " MB already reserved, "@ + decimal(requested_mb as nat)
                + " MB requested, "@ + decimal(reserve_mb as nat) + " MB reserved for host headroom"@,
        HostMemoryError::MlTestLockBusy { holders } =>
            "machine-wide ML test lock is already held by "@ + debug_list_text(holders@.map_values(|x: String| x@)),
        HostMemoryError::StartupSlotsBusy { label, active_slots, max_slots } =>
            "worker startup slots busy for "@ + label@ + ": "@ + decimal(active_slots as nat) + "/"@ + decimal(max_slots as nat)
                + " local startup slots in use"@,
        HostMemoryError::TimedOut { label, waited_s, last_reason } =>
            "timed out waiting for host-memory capacity for "@ + label@ + " after "@ + decimal(waited_s as nat) + "s: "@
                + last_reason@,
    }
}

impl HostMemoryError {
    /// The operator-facing message of this error.
    pub fn message(&self) -> (r: String)
        ensures
            r@ == error_message(*self),
    {
        match self {
            HostMemoryError::Io { path, message } => {
                let mut s = String::from_str("host-memory ledger I/O failed at ");
                s.append(path.as_str());
                s.append(": ");
                s.append(message.as_str());
                s
            },
            HostMemoryError::CorruptLedger { path, message } => {
                let mut s = String::from_str("host-memory ledger is corrupt at ");
                s.append(path.as_str());
                s.append(": ");
                s.append(message.as_str());
                s
            },
            HostMemoryError::CapacityRejected { label, available_mb, pending_reserved_mb, requested_mb, reserve_mb } => {
                let mut s = String::from_str("host-memory reserve would be exceeded for ");
                s.append(label.as_str());
                s.append(": ");
                append_decimal(&mut s, *available_mb);
                s.append(" MB available, ");
                append_decimal(&mut s, *pending_reserved_mb);
                s.append(" MB already reserved, ");
                append_decimal(&mut s, *requested_mb);
                s.append(" MB requested, ");
                append_decimal(&mut s, *reserve_mb);
                s.append(" MB reserved for host headroom");
                s
            },
            HostMemoryError::MlTestLockBusy { holders } => {
                let mut s = String::from_str("machine-wide ML test lock is already held by ");
                let list = debug_format_list(holders);
                s.append(list.as_str());
                s
            },
            HostMemoryError::StartupSlotsBusy { label, active_slots, max_slots } => {
                let mut s = String::from_str("worker startup slots busy for ");
                s.append(label.as_str());
                s.append(": ");
                append_decimal(&mut s, *active_slots as u64);
                s.append("/");
                append_decimal(&mut s, *max_slots as u64);
                s.append(" local startup slots in use");
                s
            },
            HostMemoryError::TimedOut { label, waited_s, last_reason } => {
                let mut s = String::from_str("timed out waiting for host-memory capacity for ");
                s.append(label.as_str());
                s.append(" after ");
                append_decimal(&mut s, *waited_s);
                s.append("s: ");
                s.append(last_reason.as_str());
                s
            },
        }
    }
}

/// What a waiting acquirer does after one rejected attempt.
#[derive(Debug, PartialEq, Eq)]
pub enum WaitStep {
    /// Sleep one poll interval and try again, remembering why.
    Retry { last_reason: String },
    /// Give up with this error.
    Stop(HostMemoryError),
}

/// The waiting policy: with a positive timeout, a transient rejection before
/// the deadline is retried; once the deadline has passed the wait ends as
/// timed out with the last recorded reason; otherwise the error is final.
pub fn next_wait_step(
    error: HostMemoryError,
    label: &str,
    timeout_ms: u64,
    now_ms: u64,
    deadline_ms: u64,
    last_reason: String,
) -> (r: WaitStep)
    ensures
        timeout_ms > 0 && now_ms < deadline_ms && (error is CapacityRejected || error is MlTestLockBusy || error is StartupSlotsBusy)
            ==> (r matches WaitStep::Retry { last_reason: reason } && reason@ == error_message(error)),
        !(timeout_ms > 0 && now_ms < deadline_ms && (error is CapacityRejected || error is MlTestLockBusy || error is StartupSlotsBusy))
            && timeout_ms > 0 && now_ms >= deadline_ms
            ==> (r matches WaitStep::Stop(HostMemoryError::TimedOut { label: l, waited_s, last_reason: reason })
                && l@ == label@ && waited_s == timeout_ms / 1000 && reason == last_reason),
        !(timeout_ms > 0 && now_ms < deadline_ms && (error is CapacityRejected || error is MlTestLockBusy || error is StartupSlotsBusy))
            && !(timeout_ms > 0 && now_ms >= deadline_ms)
            ==> r == WaitStep::Stop(error),
{
    if timeout_ms > 0 && now_ms < deadline_ms && retryable_error(&error) {
        return WaitStep::Retry { last_reason: error.message() };
    }
    if timeout_ms > 0 && now_ms >= deadline_ms {
        return WaitStep::Stop(HostMemoryError::TimedOut {
            label: String::from_str(label),
            waited_s: timeout_ms / 1000,
            last_reason,
        });
    }
    WaitStep::Stop(error)
}

// ---------------------------------------------------------------------------
// Laws
// ---------------------------------------------------------------------------

/// Releasing a freshly granted lease gives the ledger back as it was, as
/// long as no earlier lease carried the same id.
pub proof fn lemma_release_undoes_grant(l: Seq<MemoryLeaseRecord>, rec: MemoryLeaseRecord)
    requires
        forall|i: int| 0 <= i < l.len() ==> (#[trigger] l[i]).id@ != rec.id@,
    ensures
        without_lease(l.push(rec), rec.id@) == l,
{
    assert(l.push(rec).drop_last() =~= l);
    lemma_without_absent_id(l, rec.id@);
}

proof fn lemma_without_absent_id(l: Seq<MemoryLeaseRecord>, id: Seq<char>)
    requires
        forall|i: int| 0 <= i < l.len() ==> (#[trigger] l[i]).id@ != id,
    ensures
        without_lease(l, id) == l,
    decreases l.len(),
{
    if l.len() > 0 {
        let d = l.drop_last();
        assert forall|i: int| 0 <= i < d.len() implies (#[trigger] d[i]).id@ != id by {
            assert(d[i] == l[i]);
        }
        lemma_without_absent_id(d, id);
        assert(l.last() == l[l.len() - 1]);
        assert(d.push(l.last()) =~= l);
    }
}

/// Releasing the lease an acquire just appended removes exactly what a
/// release of that id removed before the acquire; so when no earlier lease
/// carried the new id, the release gives back the ledger as it was before
/// the acquire.
pub proof fn lemma_release_after_acquire(before: Seq<MemoryLeaseRecord>, after: Seq<MemoryLeaseRecord>, id: Seq<char>)
    requires
        after.len() == before.len() + 1,
        after.drop_last() == before,
        after.last().id@ == id,
    ensures
        without_lease(after, id) == without_lease(before, id),
        (forall|i: int| 0 <= i < before.len() ==> (#[trigger] before[i]).id@ != id) ==> without_lease(after, id) == before,
{
    if forall|i: int| 0 <= i < before.len() ==> (#[trigger] before[i]).id@ != id {
        lemma_without_absent_id(before, id);
    }
}

/// Releasing the lease an acquire just granted gives the health snapshot's
/// ledger figures back as they were before the acquire (reserved total,
/// lease counts per kind, lease labels), as long as no earlier lease carried
/// the new id.
pub proof fn lemma_release_after_acquire_restores_report(
    before: Seq<MemoryLeaseRecord>,
    after: Seq<MemoryLeaseRecord>,
    id: Seq<char>,
    report_before: HostMemorySnapshot,
    report_after: HostMemorySnapshot,
)
    requires
        after.len() == before.len() + 1,
        after.drop_last() == before,
        after.last().id@ == id,
        forall|i: int| 0 <= i < before.len() ==> (#[trigger] before[i]).id@ != id,
        ledger_report(report_before, before),
        ledger_report(report_after, without_lease(after, id)),
    ensures
        report_after.active_reserved_mb == report_before.active_reserved_mb,
        report_after.startup_leases == report_before.startup_leases,
        report_after.job_execution_leases == report_before.job_execution_leases,
        report_after.ml_test_locks == report_before.ml_test_locks,
        report_after.active_lease_labels@.map_values(|s: String| s@)
            == report_before.active_lease_labels@.map_values(|s: String| s@),
{
    lemma_release_after_acquire(before, after, id);
    assert(report_after.active_lease_labels@.map_values(|s: String| s@)
        =~= report_before.active_lease_labels@.map_values(|s: String| s@));
}

/// A ledger change that the coordinator's operations make: a grant appends
/// one lease, and an exclusive ML lock only onto a ledger without one; a
/// release drops the leases of one id; a prune keeps a selection of them.
pub open spec fn ml_lock_step(before: Seq<MemoryLeaseRecord>, after: Seq<MemoryLeaseRecord>) -> bool {
    ||| {
        &&& after.len() == before.len() + 1
        &&& after.drop_last() == before
        &&& (after.last().kind == MemoryLeaseKind::MlTestExclusive ==> count_lease_kind(before, MemoryLeaseKind::MlTestExclusive) == 0)
    }
    ||| exists|id: Seq<char>| after == #[trigger] without_lease(before, id)
    ||| exists|keep: Seq<bool>| keep.len() == before.len() && after == #[trigger] filter_by_mask(before, keep)
}

/// Every lease [`HostMemoryCoordinator::try_acquire_lease`] grants is such a
/// step: an admitted exclusive ML lock finds no other.
pub proof fn lemma_grant_is_ml_lock_step(
    before: Seq<MemoryLeaseRecord>,
    after: Seq<MemoryLeaseRecord>,
    request: MemoryLeaseRequest,
    config: HostMemoryRuntimeConfig,
    system: SystemMemorySnapshot,
    owner_pid: u32,
)
    requires
        spec_admits(before, request, config, system),
        after.len() == before.len() + 1,
        after.drop_last() == before,
        granted_record(after.last(), request, owner_pid),
    ensures
        ml_lock_step(before, after),
{
}

/// Consecutive ledgers of a history are related by one coordinator step.
pub open spec fn ml_lock_step_at(history: Seq<Seq<MemoryLeaseRecord>>, i: int) -> bool {
    ml_lock_step(history[i], history[i + 1])
}

proof fn lemma_release_keeps_ml_count_down(l: Seq<MemoryLeaseRecord>, id: Seq<char>)
    ensures
        count_lease_kind(without_lease(l, id), MemoryLeaseKind::MlTestExclusive) <= count_lease_kind(l, MemoryLeaseKind::MlTestExclusive),
    decreases l.len(),
{
    if l.len() > 0 {
        lemma_release_keeps_ml_count_down(l.drop_last(), id);
        let w = without_lease(l.drop_last(), id);
        assert(w.push(l.last()).drop_last() =~= w);
    }
}

proof fn lemma_prune_keeps_ml_count_down(l: Seq<MemoryLeaseRecord>, keep: Seq<bool>)
    requires
        keep.len() == l.len(),
    ensures
        count_lease_kind(filter_by_mask(l, keep), MemoryLeaseKind::MlTestExclusive) <= count_lease_kind(l, MemoryLeaseKind::MlTestExclusive),
    decreases l.len(),
{
    if l.len() > 0 {
        lemma_prune_keeps_ml_count_down(l.drop_last(), keep.drop_last());
        let w = filter_by_mask(l.drop_last(), keep.drop_last());
        assert(w.push(l.last()).drop_last() =~= w);
    }
}

/// The exclusive ML test lock stays exclusive: along any history of the
/// ledger made of grants, releases and prunes, starting from a ledger with
/// at most one ML lock, every ledger holds at most one.
pub proof fn lemma_ml_lock_stays_exclusive(history: Seq<Seq<MemoryLeaseRecord>>)
    requires
        history.len() > 0,
        count_lease_kind(history[0], MemoryLeaseKind::MlTestExclusive) <= 1,
        forall|i: int| 0 <= i < history.len() - 1 ==> #[trigger] ml_lock_step_at(history, i),
    ensures
        forall|i: int| 0 <= i < history.len() ==> #[trigger] count_lease_kind(history[i], MemoryLeaseKind::MlTestExclusive) <= 1,
    decreases history.len(),
{
    if history.len() > 1 {
        let prefix = history.drop_last();
        assert forall|i: int| 0 <= i < prefix.len() - 1 implies #[trigger] ml_lock_step_at(prefix, i) by {
            assert(ml_lock_step_at(history, i));
        }
        lemma_ml_lock_stays_exclusive(prefix);
        let n = history.len() - 1;
        let before = history[n - 1];
        let after = history[n];
        assert(ml_lock_step_at(history, n - 1));
        assert(prefix[n - 1] == before);
        assert(count_lease_kind(before, MemoryLeaseKind::MlTestExclusive) <= 1);
        if after.len() == before.len() + 1 && after.drop_last() == before
            && (after.last().kind == MemoryLeaseKind::MlTestExclusive ==> count_lease_kind(before, MemoryLeaseKind::MlTestExclusive) == 0) {
        } else if exists|id: Seq<char>| after == #[trigger] without_lease(before, id) {
            let id = choose|id: Seq<char>| after == #[trigger] without_lease(before, id);
            lemma_release_keeps_ml_count_down(before, id);
        } else {
            let keep = choose|keep: Seq<bool>| keep.len() == before.len() && after == #[trigger] filter_by_mask(before, keep);
            lemma_prune_keeps_ml_count_down(before, keep);
        }
        assert forall|i: int| 0 <= i < history.len() implies
            #[trigger] count_lease_kind(history[i], MemoryLeaseKind::MlTestExclusive) <= 1 by {
            if i < n {
                assert(history[i] == prefix[i]);
            }
        }
    }
}

/// A released lease is gone: no remaining lease carries its id.
pub proof fn lemma_release_removes_id(l: Seq<MemoryLeaseRecord>, id: Seq<char>)
    ensures
        forall|i: int| 0 <= i < without_lease(l, id).len() ==> (#[trigger] without_lease(l, id)[i]).id@ != id,
    decreases l.len(),
{
    if l.len() > 0 {
        lemma_release_removes_id(l.drop_last(), id);
    }
}

/// A granted job plan is sized to the machine's available memory as read
/// when it was granted (not its total): the reservation is the granted
/// workers' budget; the pending reservations, the plan and the reserve all
/// fit in the available memory; one more worker, up to the request, would
/// not fit; and with no reserve the whole request is granted.
pub proof fn lemma_plan_keeps_observed_reserve(
    requested: usize,
    budget: u64,
    reading: MachineMemoryReading,
    reserve: u64,
    pending: u64,
    granted: usize,
    reserved: u64,
)
    requires
        plan_from(requested as int, budget, reading_snapshot(reading).available_mb.0, reserve, pending) == Some((granted, reserved)),
    ensures
        1 <= granted <= requested,
        reserved == sat_mul(budget as int, granted as int),
        reserve > 0 ==> pending + reserved + reserve <= bytes_to_mb(reading.spec_available_bytes()),
        reserve > 0 && granted < requested ==>
            pending + sat_mul(budget as int, granted + 1) + reserve > bytes_to_mb(reading.spec_available_bytes()),
        reserve == 0 ==> granted == requested,
{
    let available = bytes_to_mb(reading.spec_available_bytes());
    lemma_plan_is_largest_fit(requested as int, budget, available, reserve, pending);
    if granted < requested {
        assert(!workers_fit(granted + 1, budget, available, reserve, pending));
    }
}

/// A granted lease keeps the reserve free in the machine's available
/// memory as read when it was granted (not its total): the pending
/// reservations, the new one and the reserve all fit in it.
pub proof fn lemma_grant_keeps_observed_reserve(
    before: Seq<MemoryLeaseRecord>,
    request: MemoryLeaseRequest,
    config: HostMemoryRuntimeConfig,
    reading: MachineMemoryReading,
)
    requires
        spec_admits(before, request, config, reading_snapshot(reading)),
    ensures
        config.reserve_mb.0 > 0 ==>
            sum_reserved(before) + request.reserved_mb.0 + config.reserve_mb.0 <= bytes_to_mb(reading.spec_available_bytes()),
        request.kind == MemoryLeaseKind::MlTestExclusive ==> count_lease_kind(before, MemoryLeaseKind::MlTestExclusive) == 0,
        request.startup_slot ==> count_startup_slots(before) < config.max_concurrent_worker_startups,
{
    lemma_sum_reserved_nonneg(before);
}

/// Granting keeps the host limits: an admitted startup lease never exceeds
/// the slot limit, an admitted exclusive lock is the only one, and the
/// memory left after all reservations still covers the reserve.
pub proof fn lemma_admission_keeps_limits(
    l: Seq<MemoryLeaseRecord>,
    request: MemoryLeaseRequest,
    config: HostMemoryRuntimeConfig,
    system: SystemMemorySnapshot,
    rec: MemoryLeaseRecord,
    owner_pid: u32,
)
    requires
        spec_admits(l, request, config, system),
        granted_record(rec, request, owner_pid),
    ensures
        request.startup_slot ==> count_startup_slots(l.push(rec)) <= config.max_concurrent_worker_startups,
        request.kind == MemoryLeaseKind::MlTestExclusive ==> count_lease_kind(l.push(rec), MemoryLeaseKind::MlTestExclusive) == 1,
        sum_reserved(l.push(rec)) + config.reserve_mb.0 <= system.available_mb.0 || config.reserve_mb.0 == 0,
{
    assert(l.push(rec).drop_last() =~= l);
    lemma_sum_reserved_nonneg(l);
}

// ---------------------------------------------------------------------------
// Default ledger location
// ---------------------------------------------------------------------------

/// A ledger-name character: ASCII letters and digits, `-` and `_` stay;
/// anything else becomes `_`.
pub open spec fn suffix_char(c: char) -> char {
    if is_ascii_alnum(c) || c == '-' || c == '_' { c } else { '_' }
}

/// The per-user suffix of the default ledger name: the `USER` variable, or
/// `USERNAME` when `USER` is unset; `default` when the chosen value is blank
/// or neither is set; then made safe for a file name.
pub open spec fn spec_ledger_suffix(user: Option<Seq<char>>, username: Option<Seq<char>>) -> Seq<char> {
    let chosen = match user { Some(u) => Some(u), None => username };
    let raw = match chosen { Some(v) => if is_blank(v) { "default"@ } else { v }, None => "default"@ };
    raw.map_values(|c: char| suffix_char(c))
}

pub fn host_ledger_suffix(user: Option<&str>, username: Option<&str>) -> (r: String)
    ensures
        r@ == spec_ledger_suffix(
            match user { Some(u) => Some(u@), None => None },
            match username { Some(u) => Some(u@), None => None },
        ),
{
    let chosen = match user {
        Some(u) => Some(u),
        None => username,
    };
    let raw: &str = match chosen {
        Some(v) => if str_is_blank(v) { "default" } else { v },
        None => "default",
    };
    let n = raw.unicode_len();
    let mut out = String::new();
    let mut i: usize = 0;
    while i < n
        invariant
            i <= n,
            n == raw@.len(),
            out@ == raw@.take(i as int).map_values(|c: char| suffix_char(c)),
        decreases n - i,
    {
        let c = raw.get_char(i);
        let d = if char_is_ascii_alnum(c) || c == '-' || c == '_' { c } else { '_' };
        push_char(&mut out, d);
        assert(raw@.take(i + 1).map_values(|c: char| suffix_char(c)) =~= raw@.take(i as int).map_values(|c: char| suffix_char(c)).push(d));
        i = i + 1;
    }
    assert(raw@.take(n as int) =~= raw@);
    out
}

/// The default ledger path: the explicit path when one is configured, else
/// `batchalign3-host-memory-SUFFIX.json` in the temporary directory.
pub open spec fn spec_default_ledger_path(explicit: Option<Seq<char>>, temp_dir: Seq<char>, suffix: Seq<char>) -> Seq<char> {
    match explicit {
        Some(p) => p,
        None => path_join(temp_dir, "batchalign3-host-memory-"@ + suffix + ".json"@),
    }
}

pub fn default_host_memory_ledger_path(explicit: Option<&str>, temp_dir: &str, user: Option<&str>, username: Option<&str>) -> (r: String)
    ensures
        r@ == spec_default_ledger_path(
            match explicit { Some(p) => Some(p@), None => None },
            temp_dir@,
            spec_ledger_suffix(
                match user { Some(u) => Some(u@), None => None },
                match username { Some(u) => Some(u@), None => None },
            ),
        ),
{
    match explicit {
        Some(p) => String::from_str(p),
        None => {
            let suffix = host_ledger_suffix(user, username);
            let mut name = String::from_str("batchalign3-host-memory-");
            name.append(suffix.as_str());
            name.append(".json");
            std_join(temp_dir, name.as_str())
        },
    }
}

} // verus!
