//! Module timing: the statistics each pipeline stage reports, and the
//! stopwatch that produces them.

use vstd::prelude::*;

use crate::clock::{elapsed_since, instant_now, whole_millis};
use crate::scanner::stats::FetchStats;
use crate::text::owned;

verus! {

/// Statistics of one pipeline module.
#[derive(Debug, Clone)]
pub struct ModuleStats {
    /// Module name.
    pub name: String,
    /// Elapsed milliseconds.
    pub duration_ms: u128,
    /// Items in.
    pub input_count: u64,
    /// Items out.
    pub output_count: u64,
    /// Whether the module succeeded.
    pub success: bool,
    /// Errors seen.
    pub error_count: u64,
    /// Warnings seen.
    pub warning_count: u64,
}

/// Sum of the durations of a sequence of module statistics.
pub open spec fn total_duration(stats: Seq<ModuleStats>) -> nat
    decreases stats.len(),
{
    if stats.len() == 0 {
        0
    } else {
        total_duration(stats.drop_last()) + stats.last().duration_ms as nat
    }
}

impl ModuleStats {
    /// Fresh statistics: no time, no items, successful, no error or warning.
    pub fn new(name: &str) -> (r: Self)
        ensures
            r.name@ == name@,
            r.duration_ms == 0,
            r.input_count == 0,
            r.output_count == 0,
            r.success,
            r.error_count == 0,
            r.warning_count == 0,
    {
        ModuleStats {
            name: owned(name),
            duration_ms: 0,
            input_count: 0,
            output_count: 0,
            success: true,
            error_count: 0,
            warning_count: 0,
        }
    }

    /// Marker of the module in the statistics table: red when it failed,
    /// yellow when it saw errors or warnings, green otherwise.
    pub fn table_mark(&self) -> (r: &'static str)
        ensures
            r@ == (if !self.success {
                "🔴"@
            } else if self.error_count > 0 || self.warning_count > 0 {
                "🟡"@
            } else {
                "🟢"@
            }),
    {
        if !self.success {
            "🔴"
        } else if self.error_count > 0 || self.warning_count > 0 {
            "🟡"
        } else {
            "🟢"
        }
    }

    /// Marker of the module in the pipeline timeline: red when it failed,
    /// green otherwise.
    pub fn timeline_mark(&self) -> (r: &'static str)
        ensures
            r@ == (if !self.success {
                "🔴"@
            } else {
                "🟢"@
            }),
    {
        if !self.success {
            "🔴"
        } else {
            "🟢"
        }
    }

    /// Total elapsed milliseconds over all modules.
    pub fn total_duration_ms(stats: &[ModuleStats]) -> (r: u128)
        requires
            total_duration(stats@) <= u128::MAX,
        ensures
            r == total_duration(stats@),
    {
        let n = stats.len();
        let mut sum: u128 = 0;
        let mut i: usize = 0;
        while i < n
            invariant
                n == stats@.len(),
                i <= n,
                sum == total_duration(stats@.take(i as int)),
                total_duration(stats@) <= u128::MAX,
            decreases n - i,
        {
            assert(stats@.take(i as int) =~= stats@.take((i + 1) as int).drop_last());
            proof {
                lemma_total_duration_prefix(stats@, i + 1);
            }
            sum = sum + stats[i].duration_ms;
            i = i + 1;
        }
        assert(stats@.take(n as int) =~= stats@);
        sum
    }
}

/// The total over a prefix never exceeds the total over the whole sequence.
proof fn lemma_total_duration_prefix(stats: Seq<ModuleStats>, k: int)
    requires
        0 <= k <= stats.len(),
    ensures
        total_duration(stats.take(k)) <= total_duration(stats),
    decreases stats.len() - k,
{
    if k < stats.len() {
        lemma_total_duration_prefix(stats, k + 1);
        assert(stats.take(k) =~= stats.take(k + 1).drop_last());
    } else {
        assert(stats.take(k) =~= stats);
    }
}

/// A light timer: `new` records the start, `finish` yields the statistics.
pub struct Stopwatch {
    name: String,
    start: std::time::Instant,
}

impl Stopwatch {
    /// The module name the stopwatch reports under.
    pub closed spec fn label(&self) -> Seq<char> {
        self.name@
    }

    /// Starts timing a module.
    pub fn new(name: &str) -> (r: Self)
        ensures
            r.label() == name@,
    {
        Stopwatch { name: owned(name), start: instant_now() }
    }

    /// Stops timing; a failed module counts one error.
    pub fn finish(self, input: u64, output: u64, success: bool) -> (r: ModuleStats)
        ensures
            r.name@ == self.label(),
            r.input_count == input,
            r.output_count == output,
            r.success == success,
            r.error_count == (if success { 0u64 } else { 1u64 }),
            r.warning_count == 0,
    {
        let elapsed = elapsed_since(&self.start);
        ModuleStats {
            name: self.name,
            duration_ms: whole_millis(&elapsed),
            input_count: input,
            output_count: output,
            success,
            error_count: if success {
                0
            } else {
                1
            },
            warning_count: 0,
        }
    }

    /// Stops timing with explicit error and warning counts.
    pub fn finish_full(self, input: u64, output: u64, success: bool, errors: u64, warnings: u64) -> (r:
        ModuleStats)
        ensures
            r.name@ == self.label(),
            r.input_count == input,
            r.output_count == output,
            r.success == success,
            r.error_count == errors,
            r.warning_count == warnings,
    {
        let elapsed = elapsed_since(&self.start);
        ModuleStats {
            name: self.name,
            duration_ms: whole_millis(&elapsed),
            input_count: input,
            output_count: output,
            success,
            error_count: errors,
            warning_count: warnings,
        }
    }

    /// Milliseconds elapsed so far, leaving the stopwatch running.
    pub fn elapsed_ms(&self) -> u128 {
        let elapsed = elapsed_since(&self.start);
        whole_millis(&elapsed)
    }
}

/// What one scan round produced, counted by the caller from its events.
#[derive(Debug, Clone, Copy)]
pub struct RoundEventCounts {
    /// Markets fetched.
    pub markets: u64,
    /// Normalised market snapshots.
    pub snapshots: u64,
    /// Shadow trades opened.
    pub shadow_opened: u64,
    /// Paper positions opened.
    pub paper_opens: u64,
    /// Paper orders rejected.
    pub paper_rejections: u64,
    /// Execution events that placed a new order.
    pub exec_new_orders: u64,
    /// All execution events.
    pub exec_events: u64,
}

/// The module statistics `m` carry exactly these values.
pub open spec fn module_is(
    m: ModuleStats,
    name: Seq<char>,
    duration_ms: u128,
    input: u64,
    output: int,
    success: bool,
    errors: u64,
    warnings: u64,
) -> bool {
    &&& m.name@ == name
    &&& m.duration_ms == duration_ms
    &&& m.input_count == input
    &&& m.output_count == output
    &&& m.success == success
    &&& m.error_count == errors
    &&& m.warning_count == warnings
}

fn module(
    name: &str,
    duration_ms: u128,
    input: u64,
    output: u64,
    success: bool,
    errors: u64,
    warnings: u64,
) -> (r: ModuleStats)
    ensures
        module_is(r, name@, duration_ms, input, output as int, success, errors, warnings),
{
    ModuleStats {
        name: owned(name),
        duration_ms,
        input_count: input,
        output_count: output,
        success,
        error_count: errors,
        warning_count: warnings,
    }
}

/// The per-module statistics of one scan round, in pipeline order: HTTP,
/// JSON decoding, normalisation, tracker, strategy dispatch, shadow, paper,
/// execution, metrics and storage. Shadow, paper and execution run inside
/// the strategy hook, so their time is counted in the strategy row and
/// their own rows carry counts only.
pub fn build_round_module_stats(
    fetch: &FetchStats,
    norm_ms: u128,
    strat_ms: u128,
    storage_ms: u128,
    metrics_ms: u128,
    counts: &RoundEventCounts,
) -> (r: Vec<ModuleStats>)
    requires
        counts.shadow_opened + counts.paper_opens + counts.exec_new_orders <= u64::MAX,
    ensures
        r@.len() == 10,
        module_is(r@[0], "HTTP 请求"@, fetch.total_ms, 0, counts.markets as int,
            fetch.failed_count == 0, fetch.failed_count, 0),
        module_is(r@[1], "JSON 解析"@, fetch.deserialize_ms, fetch.total_bytes,
            counts.markets as int, fetch.failed_count == 0, 0, 0),
        module_is(r@[2], "市场归一化"@, norm_ms, counts.markets, counts.snapshots as int, true, 0, 0),
        module_is(r@[3], "跟踪器"@, 0, counts.snapshots, counts.snapshots as int, true, 0, 0),
        module_is(r@[4], "策略调度"@, strat_ms, counts.snapshots,
            counts.shadow_opened + counts.paper_opens + counts.exec_new_orders, true, 0, 0),
        module_is(r@[5], "影子交易"@, 0, counts.snapshots, counts.shadow_opened as int, true, 0, 0),
        module_is(r@[6], "纸面交易"@, 0, counts.snapshots, counts.paper_opens as int, true, 0,
            counts.paper_rejections),
        module_is(r@[7], "执行模拟"@, 0, counts.snapshots, counts.exec_new_orders as int, true, 0, 0),
        module_is(r@[8], "指标"@, metrics_ms, counts.exec_events, 1, true, 0, 0),
        module_is(r@[9], "存储"@, storage_ms, 0, 0, true, 0, 0),
{
    let fetch_ok = fetch.failed_count == 0;
    let strategy_out = counts.shadow_opened + counts.paper_opens + counts.exec_new_orders;
    let mut r: Vec<ModuleStats> = Vec::new();
    r.push(module("HTTP 请求", fetch.total_ms, 0, counts.markets, fetch_ok, fetch.failed_count, 0));
    r.push(module("JSON 解析", fetch.deserialize_ms, fetch.total_bytes, counts.markets, fetch_ok, 0, 0));
    r.push(module("市场归一化", norm_ms, counts.markets, counts.snapshots, true, 0, 0));
    r.push(module("跟踪器", 0, counts.snapshots, counts.snapshots, true, 0, 0));
    r.push(module("策略调度", strat_ms, counts.snapshots, strategy_out, true, 0, 0));
    r.push(module("影子交易", 0, counts.snapshots, counts.shadow_opened, true, 0, 0));
    r.push(module("纸面交易", 0, counts.snapshots, counts.paper_opens, true, 0, counts.paper_rejections));
    r.push(module("执行模拟", 0, counts.snapshots, counts.exec_new_orders, true, 0, 0));
    r.push(module("指标", metrics_ms, counts.exec_events, 1, true, 0, 0));
    r.push(module("存储", storage_ms, 0, 0, true, 0, 0));
    r
}

/// What one offline engine pass produced, counted by the caller from its
/// events.
#[derive(Debug, Clone, Copy)]
pub struct EnginePassCounts {
    /// Opportunity snapshots fed to the pass.
    pub snapshots: u64,
    /// Shadow trades opened.
    pub shadow_opened: u64,
    /// Shadow trades closed.
    pub shadow_closed: u64,
    /// Paper positions opened.
    pub paper_opens: u64,
    /// Paper orders rejected.
    pub paper_rejections: u64,
    /// Paper positions closed.
    pub paper_closes: u64,
    /// Execution events that placed a new order.
    pub exec_new_orders: u64,
    /// All execution events.
    pub exec_events: u64,
}

/// The per-module statistics of an offline engine pass, in order: tracker,
/// strategy dispatch, shadow, paper, execution, the paper/execution
/// reconciliation, metrics and storage. Shadow, paper and execution run inside
/// the strategy hooks, so their rows carry counts only; the reconciliation
/// row counts the execution events other than new orders.
pub fn build_engine_pass_module_stats(
    tracker_ms: u128,
    strategy_ms: u128,
    reconcile_ms: u128,
    counts: &EnginePassCounts,
) -> (r: Vec<ModuleStats>)
    requires
        counts.shadow_opened + counts.paper_opens + counts.exec_new_orders <= u64::MAX,
        counts.exec_new_orders <= counts.exec_events,
        counts.shadow_opened + counts.shadow_closed + counts.paper_opens + counts.paper_closes
            + counts.exec_events <= u64::MAX,
    ensures
        r@.len() == 8,
        module_is(r@[0], "跟踪器"@, tracker_ms, counts.snapshots, counts.snapshots as int, true, 0, 0),
        module_is(r@[1], "策略调度"@, strategy_ms, counts.snapshots,
            counts.shadow_opened + counts.paper_opens + counts.exec_new_orders, true, 0, 0),
        module_is(r@[2], "影子交易"@, 0, counts.snapshots, counts.shadow_opened as int, true, 0, 0),
        module_is(r@[3], "纸面交易"@, 0, counts.snapshots, counts.paper_opens as int, true, 0,
            counts.paper_rejections),
        module_is(r@[4], "执行模拟"@, 0, counts.snapshots, counts.exec_new_orders as int, true, 0, 0),
        module_is(r@[5], "纸面/执行推进"@, reconcile_ms, 0,
            counts.exec_events - counts.exec_new_orders, true, 0, 0),
        module_is(r@[6], "指标"@, 0, (counts.shadow_opened + counts.shadow_closed + counts.paper_opens
            + counts.paper_closes + counts.exec_events) as u64, 1, true, 0, 0),
        module_is(r@[7], "存储"@, 0, 0, 0, true, 0, 0),
{
    let strategy_out = counts.shadow_opened + counts.paper_opens + counts.exec_new_orders;
    let metrics_in = counts.shadow_opened + counts.shadow_closed + counts.paper_opens + counts.paper_closes
        + counts.exec_events;
    let mut r: Vec<ModuleStats> = Vec::new();
    r.push(module("跟踪器", tracker_ms, counts.snapshots, counts.snapshots, true, 0, 0));
    r.push(module("策略调度", strategy_ms, counts.snapshots, strategy_out, true, 0, 0));
    r.push(module("影子交易", 0, counts.snapshots, counts.shadow_opened, true, 0, 0));
    r.push(module("纸面交易", 0, counts.snapshots, counts.paper_opens, true, 0, counts.paper_rejections));
    r.push(module("执行模拟", 0, counts.snapshots, counts.exec_new_orders, true, 0, 0));
    r.push(module("纸面/执行推进", reconcile_ms, 0, counts.exec_events - counts.exec_new_orders, true, 0, 0));
    r.push(module("指标", 0, metrics_in, 1, true, 0, 0));
    r.push(module("存储", 0, 0, 0, true, 0, 0));
    r
}

} // verus!
