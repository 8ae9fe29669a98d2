//! Request counters, and what is to be sent to the metrics recorder.
//!
//! Nothing is sent from here. A function that has something to report returns it
//! as an [`Emission`], and the caller hands it to the recorder.

use vstd::prelude::*;
use crate::cache::GlobalSharedCache;

pub mod method;

verus! {

/// The labels of a metric, as names and values.
#[derive(Clone, Copy, Debug)]
pub enum Labels {
    Bare,
    One(&'static str, &'static str),
    Two(&'static str, &'static str, &'static str, &'static str),
}

/// What is done to a metric.
#[derive(Clone, Copy, Debug)]
pub enum Update {
    /// A counter rises by this much.
    Increment(u64),
    /// A gauge is set to this.
    Assign(u128),
    /// A gauge of seconds is set to this many nanoseconds.
    AssignNanos(u128),
    /// A gauge rises by one.
    Raise,
    /// A gauge falls by one.
    Lower,
    /// A histogram of seconds gets this many nanoseconds.
    RecordNanos(u128),
}

/// Something to be sent to the metrics recorder.
#[derive(Clone, Copy, Debug)]
pub struct Emission {
    pub metric: &'static str,
    pub labels: Labels,
    pub update: Update,
}

pub const REQUESTS_TOTAL: &'static str = "mev_requests_total";

pub const WORKER_PATH_TOTAL: &'static str = "mev_worker_path_total";

pub const DEGRADED_PATH_TOTAL: &'static str = "mev_degraded_path_total";

pub const DEGRADED_GAP_TOTAL: &'static str = "mev_degraded_gap_total";

pub const EPOCH_MISMATCH_TOTAL: &'static str = "mev_epoch_mismatch_total";

pub const ERRORS_TOTAL: &'static str = "mev_errors_total";

pub const E2E_SECONDS: &'static str = "mev_e2e_duration_seconds";

pub const DEGRADED_PCT: &'static str = "mev_degraded_pct";

pub const CACHE_ENTRY_COUNT: &'static str = "mev_global_cache_entry_count";

pub const CACHE_SIZE_BYTES: &'static str = "mev_global_cache_size_bytes";

/// Counts of one method, for periodic reports. They wrap at 64 bits.
#[derive(Clone, Copy, Debug)]
pub struct MethodCounters {
    /// Requests that came in.
    pub total: u64,
    /// Requests that went to the worker pool.
    pub worker: u64,
    /// Requests that were degraded to the native path.
    pub degraded: u64,
    /// Calls that a worker failed to execute: reverted, halted or gone wrong, or lost
    /// with the worker.
    pub errors: u64,
}

/// What a method counts.
pub ghost enum Counted {
    Total,
    Worker,
    Degraded,
    Error,
}

impl Default for MethodCounters {
    fn default() -> (counters: Self)
        ensures
            counters == (MethodCounters { total: 0, worker: 0, degraded: 0, errors: 0 }),
    {
        MethodCounters { total: 0, worker: 0, degraded: 0, errors: 0 }
    }
}

impl MethodCounters {
    /// One more of what `counted` tells.
    pub open spec fn raised(self, counted: Counted) -> Self {
        match counted {
            Counted::Total => MethodCounters { total: self.total.wrapping_add(1), ..self },
            Counted::Worker => MethodCounters { worker: self.worker.wrapping_add(1), ..self },
            Counted::Degraded => MethodCounters { degraded: self.degraded.wrapping_add(1), ..self },
            Counted::Error => MethodCounters { errors: self.errors.wrapping_add(1), ..self },
        }
    }

    /// One more of each of `counts`, one after the other.
    pub open spec fn raised_by(self, counts: Seq<Counted>) -> Self
        decreases counts.len(),
    {
        if counts.len() == 0 {
            self
        } else {
            self.raised_by(counts.drop_last()).raised(counts.last())
        }
    }

    pub fn inc_total(&mut self)
        ensures
            *final(self) == old(self).raised(Counted::Total),
    {
        self.total = self.total.wrapping_add(1);
    }

    pub fn inc_worker(&mut self)
        ensures
            *final(self) == old(self).raised(Counted::Worker),
    {
        self.worker = self.worker.wrapping_add(1);
    }

    pub fn inc_degraded(&mut self)
        ensures
            *final(self) == old(self).raised(Counted::Degraded),
    {
        self.degraded = self.degraded.wrapping_add(1);
    }

    pub fn inc_error(&mut self)
        ensures
            *final(self) == old(self).raised(Counted::Error),
    {
        self.errors = self.errors.wrapping_add(1);
    }

    /// The counts as they stand.
    pub fn load_all(&self) -> (snapshot: Snapshot)
        ensures
            snapshot == self.snapshot(),
    {
        Snapshot {
            total: self.total,
            worker: self.worker,
            degraded: self.degraded,
            errors: self.errors,
        }
    }

    /// The counts as they stand.
    pub open spec fn snapshot(self) -> Snapshot {
        Snapshot {
            total: self.total,
            worker: self.worker,
            degraded: self.degraded,
            errors: self.errors,
        }
    }
}

/// However many increments there are, and in whatever order they come, none is lost: every
/// count has risen by the number of its own, modulo 2 to the 64.
pub proof fn no_increment_is_lost(counters: MethodCounters, counts: Seq<Counted>)
    ensures
        counters.raised_by(counts).total == (counters.total + counts.to_multiset().count(
            Counted::Total,
        )) % 0x1_0000_0000_0000_0000,
        counters.raised_by(counts).worker == (counters.worker + counts.to_multiset().count(
            Counted::Worker,
        )) % 0x1_0000_0000_0000_0000,
        counters.raised_by(counts).degraded == (counters.degraded + counts.to_multiset().count(
            Counted::Degraded,
        )) % 0x1_0000_0000_0000_0000,
        counters.raised_by(counts).errors == (counters.errors + counts.to_multiset().count(
            Counted::Error,
        )) % 0x1_0000_0000_0000_0000,
    decreases counts.len(),
{
    broadcast use vstd::seq_lib::group_to_multiset_ensures;

    if counts.len() > 0 {
        let sooner = counts.drop_last();
        no_increment_is_lost(counters, sooner);
        assert(counts =~= sooner.push(counts.last()));
    }
}

/// Counts of one method at some moment, or over some interval.
#[derive(Clone, Copy, Debug)]
pub struct Snapshot {
    pub total: u64,
    pub worker: u64,
    pub degraded: u64,
    pub errors: u64,
}

impl Default for Snapshot {
    fn default() -> (snapshot: Self)
        ensures
            snapshot == (Snapshot { total: 0, worker: 0, degraded: 0, errors: 0 }),
    {
        Snapshot { total: 0, worker: 0, degraded: 0, errors: 0 }
    }
}

/// `a - b`, or zero where that is negative.
pub open spec fn surplus(a: u64, b: u64) -> u64 {
    if a >= b {
        (a - b) as u64
    } else {
        0
    }
}

impl Snapshot {
    /// How far each count has risen since `prev`. One that has fallen counts as
    /// not risen.
    pub open spec fn since(self, prev: Self) -> Self {
        Snapshot {
            total: surplus(self.total, prev.total),
            worker: surplus(self.worker, prev.worker),
            degraded: surplus(self.degraded, prev.degraded),
            errors: surplus(self.errors, prev.errors),
        }
    }

    /// How far each count has risen since `prev`.
    pub fn delta(&self, prev: &Self) -> (delta: Self)
        ensures
            delta == self.since(*prev),
    {
        Snapshot {
            total: self.total.saturating_sub(prev.total),
            worker: self.worker.saturating_sub(prev.worker),
            degraded: self.degraded.saturating_sub(prev.degraded),
            errors: self.errors.saturating_sub(prev.errors),
        }
    }

    /// The share of degraded requests in percent, rounded down, or zero where
    /// there were no requests. The product wraps at 64 bits.
    pub open spec fn degraded_share(self) -> u64 {
        if self.total == 0 {
            0
        } else {
            self.degraded.wrapping_mul(100) / self.total
        }
    }

    /// The share of degraded requests in percent.
    pub fn degraded_pct(&self) -> (pct: u64)
        ensures
            pct == self.degraded_share(),
    {
        if self.total == 0 {
            0
        } else {
            self.degraded.wrapping_mul(100) / self.total
        }
    }
}

/// What has been counted, taken to an earlier state and the rise since then: one
/// added to the other gives the later state, as long as no count has wrapped.
pub proof fn delta_adds_up(prev: Snapshot, now: Snapshot)
    requires
        prev.total <= now.total,
        prev.worker <= now.worker,
        prev.degraded <= now.degraded,
        prev.errors <= now.errors,
    ensures
        prev.total + now.since(prev).total == now.total,
        prev.worker + now.since(prev).worker == now.worker,
        prev.degraded + now.since(prev).degraded == now.degraded,
        prev.errors + now.since(prev).errors == now.errors,
{
}

/// No more than 100 percent of the requests are degraded, as long as the product
/// with 100 fits 64 bits.
pub proof fn share_is_a_percentage(snapshot: Snapshot)
    requires
        snapshot.degraded <= snapshot.total,
        snapshot.degraded * 100 <= u64::MAX,
    ensures
        snapshot.degraded_share() <= 100,
{
    if snapshot.total != 0 {
        let product = (snapshot.degraded * 100) as int;
        let total = snapshot.total as int;
        assert(product / total <= 100) by (nonlinear_arith)
            requires
                0 < total,
                0 <= product <= total * 100,
        ;
    }
}

/// Counters for all three methods.
#[derive(Clone, Copy, Debug)]
pub struct MevCounters {
    pub eth_call: MethodCounters,
    pub debug_trace_call: MethodCounters,
    pub trace_call: MethodCounters,
}

impl MevCounters {
    /// Counters that stand at zero.
    pub fn new() -> (counters: Self)
        ensures
            counters.eth_call == (MethodCounters { total: 0, worker: 0, degraded: 0, errors: 0 }),
            counters.debug_trace_call == counters.eth_call,
            counters.trace_call == counters.eth_call,
    {
        MevCounters {
            eth_call: MethodCounters::default(),
            debug_trace_call: MethodCounters::default(),
            trace_call: MethodCounters::default(),
        }
    }
}

/// One more on the counter `metric` of `method`.
pub open spec fn counted(metric: &'static str, method: &'static str) -> Emission {
    Emission { metric, labels: Labels::One("method", method), update: Update::Increment(1) }
}

/// One more on the counter `metric` of `method`, under the label `name`.
pub open spec fn counted_under(
    metric: &'static str,
    method: &'static str,
    name: &'static str,
    value: &'static str,
) -> Emission {
    Emission {
        metric,
        labels: Labels::Two("method", method, name, value),
        update: Update::Increment(1),
    }
}

/// Counts a request that comes in.
pub fn record_request(method: &'static str, c: &mut MethodCounters) -> (emission: Emission)
    ensures
        emission == counted(REQUESTS_TOTAL, method),
        *final(c) == (MethodCounters { total: old(c).total.wrapping_add(1), ..*old(c) }),
{
    c.inc_total();
    Emission {
        metric: REQUESTS_TOTAL,
        labels: Labels::One("method", method),
        update: Update::Increment(1),
    }
}

/// Counts a request that goes to the worker pool.
pub fn record_worker_path(method: &'static str, c: &mut MethodCounters) -> (emission: Emission)
    ensures
        emission == counted(WORKER_PATH_TOTAL, method),
        *final(c) == (MethodCounters { worker: old(c).worker.wrapping_add(1), ..*old(c) }),
{
    c.inc_worker();
    Emission {
        metric: WORKER_PATH_TOTAL,
        labels: Labels::One("method", method),
        update: Update::Increment(1),
    }
}

/// Counts a request that is degraded to the native path.
pub fn record_degraded_path(method: &'static str, c: &mut MethodCounters) -> (emission: Emission)
    ensures
        emission == counted(DEGRADED_PATH_TOTAL, method),
        *final(c) == (MethodCounters { degraded: old(c).degraded.wrapping_add(1), ..*old(c) }),
{
    c.inc_degraded();
    Emission {
        metric: DEGRADED_PATH_TOTAL,
        labels: Labels::One("method", method),
        update: Update::Increment(1),
    }
}

/// Counts a worker failure of the given kind.
pub fn record_error(
    method: &'static str,
    kind: &'static str,
    c: &mut MethodCounters,
) -> (emission: Emission)
    ensures
        emission == counted_under(ERRORS_TOTAL, method, "kind", kind),
        *final(c) == (MethodCounters { errors: old(c).errors.wrapping_add(1), ..*old(c) }),
{
    c.inc_error();
    Emission {
        metric: ERRORS_TOTAL,
        labels: Labels::Two("method", method, "kind", kind),
        update: Update::Increment(1),
    }
}

/// What is reported of how long a request took from coming in to being answered.
pub open spec fn e2e_timing(method: &'static str, nanos: u128) -> Emission {
    Emission {
        metric: E2E_SECONDS,
        labels: Labels::One("method", method),
        update: Update::RecordNanos(nanos),
    }
}

/// A request is timed to the nanosecond, under its method; and what is counted under a method
/// rises by one, there and nowhere else.
pub proof fn requests_are_timed_and_counted(
    metric: &'static str,
    method: &'static str,
    name: &'static str,
    value: &'static str,
    nanos: u128,
)
    ensures
        e2e_timing(method, nanos).metric == "mev_e2e_duration_seconds",
        e2e_timing(method, nanos).labels == Labels::One("method", method),
        e2e_timing(method, nanos).update == Update::RecordNanos(nanos),
        counted(metric, method).metric == metric,
        counted(metric, method).labels == Labels::One("method", method),
        counted(metric, method).update == Update::Increment(1),
        counted_under(metric, method, name, value).metric == metric,
        counted_under(metric, method, name, value).labels == Labels::Two(
            "method",
            method,
            name,
            value,
        ),
        counted_under(metric, method, name, value).update == Update::Increment(1),
{
}

/// Reports how long a request took from coming in to being answered.
pub fn record_e2e_latency(method: &'static str, nanos: u128) -> (emission: Emission)
    ensures
        emission == e2e_timing(method, nanos),
{
    Emission {
        metric: E2E_SECONDS,
        labels: Labels::One("method", method),
        update: Update::RecordNanos(nanos),
    }
}

/// Why a request and the active epoch do not match: one block behind is what
/// drains from the pipeline at every new block, more is a backlog, and a request
/// that names no block number has no distance.
pub open spec fn mismatch_reason(gap: Option<u64>) -> &'static str {
    match gap {
        None => "non_number",
        Some(gap) => if gap == 1 {
            "drain"
        } else {
            "stale"
        },
    }
}

fn reason_of(gap: Option<u64>) -> (reason: &'static str)
    ensures
        reason == mismatch_reason(gap),
{
    match gap {
        None => "non_number",
        Some(gap) => if gap == 1 {
            "drain"
        } else {
            "stale"
        },
    }
}

/// Counts a request that does not match the active epoch.
pub fn record_epoch_mismatch(method: &'static str, gap: Option<u64>) -> (emission: Emission)
    ensures
        emission == counted_under(EPOCH_MISMATCH_TOTAL, method, "reason", mismatch_reason(gap)),
{
    Emission {
        metric: EPOCH_MISMATCH_TOTAL,
        labels: Labels::Two("method", method, "reason", reason_of(gap)),
        update: Update::Increment(1),
    }
}

/// Counts a degraded request by its distance from the active epoch.
pub fn record_degraded_gap(method: &'static str, gap: Option<u64>) -> (emission: Emission)
    ensures
        emission == counted_under(DEGRADED_GAP_TOTAL, method, "reason", mismatch_reason(gap)),
{
    Emission {
        metric: DEGRADED_GAP_TOTAL,
        labels: Labels::Two("method", method, "reason", reason_of(gap)),
        update: Update::Increment(1),
    }
}

/// What a periodic report says of one method: its requests so far, and the counts
/// of the interval.
#[derive(Clone, Copy, Debug)]
pub struct MethodReport {
    pub total: u64,
    pub delta: Snapshot,
    pub degraded_pct: u64,
}

/// What a periodic report says.
#[derive(Clone, Copy, Debug)]
pub struct StatsReport {
    pub eth_call: MethodReport,
    pub debug_trace: MethodReport,
    pub trace_call: MethodReport,
    pub account_entries: u64,
    pub storage_entries: u64,
    pub bytecode_entries: u64,
    pub account_bytes: u64,
    pub storage_bytes: u64,
    pub bytecode_bytes: u64,
}

/// The counts as of the last periodic report.
#[derive(Clone, Copy, Debug)]
pub struct PeriodicReporter {
    pub prev_eth: Snapshot,
    pub prev_dbg: Snapshot,
    pub prev_trc: Snapshot,
}

/// The report on one method whose counts were `prev` and are `now`.
pub open spec fn method_report(prev: Snapshot, now: Snapshot) -> MethodReport {
    MethodReport {
        total: now.total,
        delta: now.since(prev),
        degraded_pct: now.since(prev).degraded_share(),
    }
}

fn report_method(prev: &Snapshot, now: &Snapshot) -> (report: MethodReport)
    ensures
        report == method_report(*prev, *now),
{
    let delta = now.delta(prev);
    MethodReport { total: now.total, delta, degraded_pct: delta.degraded_pct() }
}

impl PeriodicReporter {
    /// A reporter whose first report covers everything from the start.
    pub fn new() -> (reporter: Self)
        ensures
            reporter.prev_eth == (Snapshot { total: 0, worker: 0, degraded: 0, errors: 0 }),
            reporter.prev_dbg == reporter.prev_eth,
            reporter.prev_trc == reporter.prev_eth,
    {
        PeriodicReporter {
            prev_eth: Snapshot::default(),
            prev_dbg: Snapshot::default(),
            prev_trc: Snapshot::default(),
        }
    }

    /// Whether `report` is the one for the interval since the last, and leads from `self`
    /// to `after`.
    pub open spec fn reports(
        self,
        after: Self,
        counters: MevCounters,
        cache: GlobalSharedCache,
        report: StatsReport,
    ) -> bool {
        &&& report.eth_call == method_report(self.prev_eth, counters.eth_call.snapshot())
        &&& report.debug_trace == method_report(
            self.prev_dbg,
            counters.debug_trace_call.snapshot(),
        )
        &&& report.trace_call == method_report(self.prev_trc, counters.trace_call.snapshot())
        &&& report.account_entries == cache.account_count()
        &&& report.storage_entries == cache.storage_count()
        &&& report.bytecode_entries == cache.bytecode_count()
        &&& report.account_bytes == cache.account_size()
        &&& report.storage_bytes == cache.storage_size()
        &&& report.bytecode_bytes == cache.bytecode_size()
        &&& after.prev_eth == counters.eth_call.snapshot()
        &&& after.prev_dbg == counters.debug_trace_call.snapshot()
        &&& after.prev_trc == counters.trace_call.snapshot()
    }

    /// The report for the interval since the last one. The numbers and the
    /// weights of cache entries are estimates.
    pub fn tick(&mut self, counters: &MevCounters, cache: &GlobalSharedCache) -> (report:
        StatsReport)
        ensures
            old(self).reports(*final(self), *counters, *cache, report),
    {
        let cur_eth = counters.eth_call.load_all();
        let cur_dbg = counters.debug_trace_call.load_all();
        let cur_trc = counters.trace_call.load_all();
        let report = StatsReport {
            eth_call: report_method(&self.prev_eth, &cur_eth),
            debug_trace: report_method(&self.prev_dbg, &cur_dbg),
            trace_call: report_method(&self.prev_trc, &cur_trc),
            account_entries: cache.account_entry_count(),
            storage_entries: cache.storage_entry_count(),
            bytecode_entries: cache.bytecode_entry_count(),
            account_bytes: cache.account_weight(),
            storage_bytes: cache.storage_weight(),
            bytecode_bytes: cache.bytecode_weight(),
        };
        self.prev_eth = cur_eth;
        self.prev_dbg = cur_dbg;
        self.prev_trc = cur_trc;
        report
    }
}

/// The gauge `metric` set to `value` under one label.
pub open spec fn gauged(
    metric: &'static str,
    name: &'static str,
    label: &'static str,
    value: u64,
) -> Emission {
    Emission { metric, labels: Labels::One(name, label), update: Update::Assign(value as u128) }
}

fn gauge(
    metric: &'static str,
    name: &'static str,
    label: &'static str,
    value: u64,
) -> (emission: Emission)
    ensures
        emission == gauged(metric, name, label, value),
{
    Emission { metric, labels: Labels::One(name, label), update: Update::Assign(value as u128) }
}

impl StatsReport {
    /// The gauges that show the report.
    pub open spec fn shown(self) -> Seq<Emission> {
        seq![
            gauged(DEGRADED_PCT, "method", method::ETH_CALL, self.eth_call.degraded_pct),
            gauged(DEGRADED_PCT, "method", method::DEBUG_TRACE, self.debug_trace.degraded_pct),
            gauged(DEGRADED_PCT, "method", method::TRACE_CALL, self.trace_call.degraded_pct),
            gauged(CACHE_ENTRY_COUNT, "sub", "account", self.account_entries),
            gauged(CACHE_ENTRY_COUNT, "sub", "storage", self.storage_entries),
            gauged(CACHE_ENTRY_COUNT, "sub", "bytecode", self.bytecode_entries),
            gauged(CACHE_SIZE_BYTES, "sub", "account", self.account_bytes),
            gauged(CACHE_SIZE_BYTES, "sub", "storage", self.storage_bytes),
            gauged(CACHE_SIZE_BYTES, "sub", "bytecode", self.bytecode_bytes),
        ]
    }

    /// The gauges that show the report: the degraded share of each method, and
    /// the number and the weight of the cache entries of each kind.
    pub fn gauges(&self) -> (gauges: Vec<Emission>)
        ensures
            gauges@ == self.shown(),
    {
        let mut gauges = Vec::new();
        gauges.push(gauge(DEGRADED_PCT, "method", method::ETH_CALL, self.eth_call.degraded_pct));
        gauges.push(
            gauge(DEGRADED_PCT, "method", method::DEBUG_TRACE, self.debug_trace.degraded_pct),
        );
        gauges.push(gauge(DEGRADED_PCT, "method", method::TRACE_CALL, self.trace_call.degraded_pct));
        gauges.push(gauge(CACHE_ENTRY_COUNT, "sub", "account", self.account_entries));
        gauges.push(gauge(CACHE_ENTRY_COUNT, "sub", "storage", self.storage_entries));
        gauges.push(gauge(CACHE_ENTRY_COUNT, "sub", "bytecode", self.bytecode_entries));
        gauges.push(gauge(CACHE_SIZE_BYTES, "sub", "account", self.account_bytes));
        gauges.push(gauge(CACHE_SIZE_BYTES, "sub", "storage", self.storage_bytes));
        gauges.push(gauge(CACHE_SIZE_BYTES, "sub", "bytecode", self.bytecode_bytes));
        gauges
    }
}

/// The share of degraded requests is in percent of all requests, rounded down, as long as
/// the product with 100 fits 64 bits, and zero where there were none.
pub proof fn share_is_in_percent(snapshot: Snapshot)
    requires
        snapshot.degraded * 100 <= u64::MAX,
    ensures
        snapshot.total == 0 ==> snapshot.degraded_share() == 0,
        snapshot.total > 0 ==> snapshot.degraded_share() * snapshot.total <= snapshot.degraded * 100
            < (snapshot.degraded_share() + 1) * snapshot.total,
{
    if snapshot.total > 0 {
        let product = (snapshot.degraded * 100) as int;
        let total = snapshot.total as int;
        assert((product / total) * total <= product < (product / total + 1) * total)
            by (nonlinear_arith)
            requires
                0 < total,
                0 <= product,
        ;
    }
}

/// A count that has fallen since, as it does where it wraps or was started anew, counts as
/// not risen.
pub proof fn fallen_counts_have_not_risen(prev: Snapshot, now: Snapshot)
    ensures
        now.total <= prev.total ==> now.since(prev).total == 0,
        now.worker <= prev.worker ==> now.since(prev).worker == 0,
        now.degraded <= prev.degraded ==> now.since(prev).degraded == 0,
        now.errors <= prev.errors ==> now.since(prev).errors == 0,
{
}

/// A snapshot shows every counter under its own name.
pub proof fn snapshots_show_the_counters(counters: MethodCounters)
    ensures
        counters.snapshot().total == counters.total,
        counters.snapshot().worker == counters.worker,
        counters.snapshot().degraded == counters.degraded,
        counters.snapshot().errors == counters.errors,
{
}

/// One block behind drains from the pipeline, any other distance is stale, zero among them,
/// and a request that names no number has no distance.
pub proof fn reasons_tell_the_distance(gap: u64)
    ensures
        mismatch_reason(Some(1)) == "drain",
        gap != 1 ==> mismatch_reason(Some(gap)) == "stale",
        mismatch_reason(None) == "non_number",
{
}

/// Whether no count of `now` is below that of `prev`.
pub open spec fn has_not_fallen(prev: MethodCounters, now: MethodCounters) -> bool {
    &&& prev.total <= now.total
    &&& prev.worker <= now.worker
    &&& prev.degraded <= now.degraded
    &&& prev.errors <= now.errors
}

/// Reports leave no gap and do not overlap: where no counter wraps, the reports on two
/// intervals, one after the other, add up to what has been counted in both. Each shows the
/// requests so far, and the share of degraded ones in its own interval.
pub proof fn reports_add_up(
    first: PeriodicReporter,
    then: PeriodicReporter,
    last: PeriodicReporter,
    start: MevCounters,
    middle: MevCounters,
    finish: MevCounters,
    cache: GlobalSharedCache,
    later_cache: GlobalSharedCache,
    report: StatsReport,
    next_report: StatsReport,
)
    requires
        first.prev_eth == start.eth_call.snapshot(),
        first.prev_dbg == start.debug_trace_call.snapshot(),
        first.prev_trc == start.trace_call.snapshot(),
        first.reports(then, middle, cache, report),
        then.reports(last, finish, later_cache, next_report),
        has_not_fallen(start.eth_call, middle.eth_call),
        has_not_fallen(start.debug_trace_call, middle.debug_trace_call),
        has_not_fallen(start.trace_call, middle.trace_call),
        has_not_fallen(middle.eth_call, finish.eth_call),
        has_not_fallen(middle.debug_trace_call, finish.debug_trace_call),
        has_not_fallen(middle.trace_call, finish.trace_call),
    ensures
        interval_counts(report.eth_call, next_report.eth_call, start.eth_call, finish.eth_call),
        interval_counts(
            report.debug_trace,
            next_report.debug_trace,
            start.debug_trace_call,
            finish.debug_trace_call,
        ),
        interval_counts(
            report.trace_call,
            next_report.trace_call,
            start.trace_call,
            finish.trace_call,
        ),
        report.eth_call.total == middle.eth_call.total,
        report.debug_trace.total == middle.debug_trace_call.total,
        report.trace_call.total == middle.trace_call.total,
        report.eth_call.degraded_pct == report.eth_call.delta.degraded_share(),
        report.debug_trace.degraded_pct == report.debug_trace.delta.degraded_share(),
        report.trace_call.degraded_pct == report.trace_call.delta.degraded_share(),
        report.account_entries == cache.account_count(),
        report.storage_entries == cache.storage_count(),
        report.bytecode_entries == cache.bytecode_count(),
        report.account_bytes == cache.account_size(),
        report.storage_bytes == cache.storage_size(),
        report.bytecode_bytes == cache.bytecode_size(),
{
}

/// Whether two reports, one after the other, add up to what was counted from `start` to
/// `finish`.
pub open spec fn interval_counts(
    report: MethodReport,
    next_report: MethodReport,
    start: MethodCounters,
    finish: MethodCounters,
) -> bool {
    &&& report.delta.total + next_report.delta.total == finish.total - start.total
    &&& report.delta.worker + next_report.delta.worker == finish.worker - start.worker
    &&& report.delta.degraded + next_report.delta.degraded == finish.degraded - start.degraded
    &&& report.delta.errors + next_report.delta.errors == finish.errors - start.errors
}

/// A report is shown in full: for each method its share of degraded requests, and for each
/// kind of cache entry its number and its weight, each under its own label.
pub proof fn reports_are_shown_in_full(report: StatsReport)
    ensures
        ({
            let pct = |label: &'static str, value: u64|
                Emission {
                    metric: "mev_degraded_pct",
                    labels: Labels::One("method", label),
                    update: Update::Assign(value as u128),
                };
            let of_kind = |metric: &'static str, label: &'static str, value: u64|
                Emission {
                    metric,
                    labels: Labels::One("sub", label),
                    update: Update::Assign(value as u128),
                };
            let number = "mev_global_cache_entry_count";
            let weight = "mev_global_cache_size_bytes";
            &&& report.shown().len() == 9
            &&& report.shown().contains(pct("eth_call", report.eth_call.degraded_pct))
            &&& report.shown().contains(pct("debug_traceCall", report.debug_trace.degraded_pct))
            &&& report.shown().contains(pct("trace_call", report.trace_call.degraded_pct))
            &&& report.shown().contains(of_kind(number, "account", report.account_entries))
            &&& report.shown().contains(of_kind(number, "storage", report.storage_entries))
            &&& report.shown().contains(of_kind(number, "bytecode", report.bytecode_entries))
            &&& report.shown().contains(of_kind(weight, "account", report.account_bytes))
            &&& report.shown().contains(of_kind(weight, "storage", report.storage_bytes))
            &&& report.shown().contains(of_kind(weight, "bytecode", report.bytecode_bytes))
        }),
{
    let shown = report.shown();
    assert(shown[0] == shown[0] && shown[1] == shown[1] && shown[2] == shown[2]);
    assert(shown[3] == shown[3] && shown[4] == shown[4] && shown[5] == shown[5]);
    assert(shown[6] == shown[6] && shown[7] == shown[7] && shown[8] == shown[8]);
}

} // verus!
