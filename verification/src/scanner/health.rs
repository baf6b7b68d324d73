//! Start-up health checks: the verdict of each check and the report that
//! decides whether scanning may start.
//!
//! The probes themselves (configuration values, files, the clock, physical
//! memory, the provider's health probe) are taken by the caller; this module
//! turns what they found into statuses and messages.

use vstd::prelude::*;

use crate::scanner::datasource::HealthProbe;
use crate::text::{decimal, decimal_text, owned};

verus! {

/// Status of a single check.
#[derive(Debug, Clone, Copy, PartialEq, Eq, Structural)]
pub enum CheckStatus {
    Pass,
    Warn,
    Fail,
}

impl CheckStatus {
    /// Traffic-light marker shown before the check's name.
    pub fn emoji(&self) -> (r: &'static str)
        ensures
            r@ == (match *self {
                CheckStatus::Pass => "🟢"@,
                CheckStatus::Warn => "🟡"@,
                CheckStatus::Fail => "🔴"@,
            }),
    {
        match self {
            CheckStatus::Pass => "🟢",
            CheckStatus::Warn => "🟡",
            CheckStatus::Fail => "🔴",
        }
    }

    /// Chinese name of the status.
    pub fn zh(&self) -> (r: &'static str)
        ensures
            r@ == (match *self {
                CheckStatus::Pass => "正常"@,
                CheckStatus::Warn => "警告"@,
                CheckStatus::Fail => "失败"@,
            }),
    {
        match self {
            CheckStatus::Pass => "正常",
            CheckStatus::Warn => "警告",
            CheckStatus::Fail => "失败",
        }
    }
}

/// Result of a single check.
#[derive(Debug, Clone)]
pub struct CheckResult {
    pub name: String,
    pub status: CheckStatus,
    pub detail: String,
}

/// Number of failed checks in a sequence of results.
pub open spec fn failures(checks: Seq<CheckResult>) -> nat
    decreases checks.len(),
{
    if checks.len() == 0 {
        0
    } else {
        failures(checks.drop_last()) + if checks.last().status == CheckStatus::Fail {
            1nat
        } else {
            0nat
        }
    }
}

/// No check failed (warnings do not block start-up).
pub open spec fn no_failure(checks: Seq<CheckResult>) -> bool {
    forall|i: int| 0 <= i < checks.len() ==> (#[trigger] checks[i]).status != CheckStatus::Fail
}

/// The whole start-up health report.
#[derive(Debug, Clone)]
pub struct HealthReport {
    pub checks: Vec<CheckResult>,
}

impl Default for HealthReport {
    fn default() -> (r: Self)
        ensures
            r.checks@.len() == 0,
    {
        HealthReport { checks: Vec::new() }
    }
}

impl HealthReport {
    /// Every check passed or only warned.
    pub fn all_pass(&self) -> (r: bool)
        ensures
            r == no_failure(self.checks@),
    {
        let n = self.checks.len();
        let mut i: usize = 0;
        while i < n
            invariant
                n == self.checks@.len(),
                i <= n,
                forall|j: int| 0 <= j < i ==> (#[trigger] self.checks@[j]).status != CheckStatus::Fail,
            decreases n - i,
        {
            if self.checks[i].status == CheckStatus::Fail {
                return false;
            }
            i = i + 1;
        }
        true
    }

    /// Number of failed checks.
    pub fn fail_count(&self) -> (r: usize)
        ensures
            r == failures(self.checks@),
    {
        let n = self.checks.len();
        let mut count: usize = 0;
        let mut i: usize = 0;
        while i < n
            invariant
                n == self.checks@.len(),
                i <= n,
                count == failures(self.checks@.take(i as int)),
                count <= i,
            decreases n - i,
        {
            assert(self.checks@.take(i as int) =~= self.checks@.take((i + 1) as int).drop_last());
            if self.checks[i].status == CheckStatus::Fail {
                count = count + 1;
            }
            i = i + 1;
        }
        assert(self.checks@.take(n as int) =~= self.checks@);
        count
    }

    /// Appends one check result.
    pub fn push(&mut self, name: &str, status: CheckStatus, detail: String)
        ensures
            final(self).checks@.len() == old(self).checks@.len() + 1,
            final(self).checks@.drop_last() == old(self).checks@,
            final(self).checks@.last().name@ == name@,
            final(self).checks@.last().status == status,
            final(self).checks@.last().detail@ == detail@,
    {
        self.checks.push(CheckResult { name: owned(name), status, detail });
    }
}

/// A report passes exactly when it counts no failure.
pub proof fn lemma_all_pass_iff_no_failures(checks: Seq<CheckResult>)
    ensures
        no_failure(checks) <==> failures(checks) == 0,
    decreases checks.len(),
{
    if checks.len() > 0 {
        lemma_all_pass_iff_no_failures(checks.drop_last());
        if no_failure(checks) {
            assert forall|i: int| 0 <= i < checks.drop_last().len() implies
                (#[trigger] checks.drop_last()[i]).status != CheckStatus::Fail by {
                assert(checks.drop_last()[i] == checks[i]);
            }
            assert(checks[checks.len() - 1] == checks.last());
        } else if failures(checks) == 0 {
            assert(no_failure(checks.drop_last()));
            assert forall|i: int| 0 <= i < checks.len() implies
                (#[trigger] checks[i]).status != CheckStatus::Fail by {
                if i < checks.len() - 1 {
                    assert(checks.drop_last()[i] == checks[i]);
                }
            }
        }
    }
}

/// The status is a successful HTTP status (2xx).
pub open spec fn http_success(status: u16) -> bool {
    200 <= status < 300
}

/// The API check's verdict on a provider probe.
pub open spec fn api_verdict(probe: HealthProbe) -> (CheckStatus, Seq<char>) {
    if http_success(probe.status) {
        (
            CheckStatus::Pass,
            "HTTP "@ + decimal(probe.status as nat) + "（"@ + decimal(probe.latency_ms as nat)
                + " 毫秒）"@,
        )
    } else if probe.status == 0 {
        (CheckStatus::Fail, probe.detail@)
    } else {
        (CheckStatus::Fail, "HTTP "@ + decimal(probe.status as nat))
    }
}

/// The JSON check's verdict on a provider probe.
pub open spec fn json_verdict(probe: HealthProbe) -> (CheckStatus, Seq<char>) {
    if http_success(probe.status) {
        if probe.ok {
            (CheckStatus::Pass, "解析 "@ + decimal(probe.market_count as nat) + " 个市场"@)
        } else {
            (CheckStatus::Fail, "JSON 解析失败"@)
        }
    } else {
        (CheckStatus::Fail, "API 不可用，无法校验 JSON"@)
    }
}

/// API check: judged on the probe's HTTP status (0 means the request never
/// reached the server, and the probe's own detail explains why).
pub fn check_api(probe: &HealthProbe) -> (r: (CheckStatus, String))
    ensures
        r.0 == api_verdict(*probe).0,
        r.1@ == api_verdict(*probe).1,
{
    if probe.status >= 200 && probe.status < 300 {
        let mut s = owned("HTTP ");
        s.append(decimal_text(probe.status as u128).as_str());
        s.append("（");
        s.append(decimal_text(probe.latency_ms).as_str());
        s.append(" 毫秒）");
        (CheckStatus::Pass, s)
    } else if probe.status == 0 {
        (CheckStatus::Fail, probe.detail.clone())
    } else {
        let mut s = owned("HTTP ");
        s.append(decimal_text(probe.status as u128).as_str());
        (CheckStatus::Fail, s)
    }
}

/// JSON check: with a successful HTTP status, judged on whether the probe
/// parsed the body.
pub fn check_json(probe: &HealthProbe) -> (r: (CheckStatus, String))
    ensures
        r.0 == json_verdict(*probe).0,
        r.1@ == json_verdict(*probe).1,
{
    if probe.status >= 200 && probe.status < 300 {
        if probe.ok {
            let mut s = owned("解析 ");
            s.append(decimal_text(probe.market_count as u128).as_str());
            s.append(" 个市场");
            (CheckStatus::Pass, s)
        } else {
            (CheckStatus::Fail, owned("JSON 解析失败"))
        }
    } else {
        (CheckStatus::Fail, owned("API 不可用，无法校验 JSON"))
    }
}

/// Smallest amount of available physical memory, in MB, that passes.
pub const MIN_AVAILABLE_MEMORY_MB: u64 = 64;

/// The memory check's verdict on the available physical memory in MB
/// (`None` where the platform cannot tell).
pub open spec fn memory_verdict(available_mb: Option<u64>) -> (CheckStatus, Seq<char>) {
    match available_mb {
        Some(mb) => if mb < MIN_AVAILABLE_MEMORY_MB {
            (CheckStatus::Fail, "可用物理内存过低: "@ + decimal(mb as nat) + " MB（< 64 MB）"@)
        } else {
            (CheckStatus::Pass, "可用物理内存: "@ + decimal(mb as nat) + " MB"@)
        },
        None => (CheckStatus::Warn, "当前平台不支持内存检查，已跳过"@),
    }
}

/// Memory check: fails under 64 MB available, warns and skips where the
/// platform reports nothing.
pub fn check_memory(available_mb: Option<u64>) -> (r: (CheckStatus, String))
    ensures
        r.0 == memory_verdict(available_mb).0,
        r.1@ == memory_verdict(available_mb).1,
{
    match available_mb {
        Some(mb) => {
            if mb < MIN_AVAILABLE_MEMORY_MB {
                let mut s = owned("可用物理内存过低: ");
                s.append(decimal_text(mb as u128).as_str());
                s.append(" MB（< 64 MB）");
                (CheckStatus::Fail, s)
            } else {
                let mut s = owned("可用物理内存: ");
                s.append(decimal_text(mb as u128).as_str());
                s.append(" MB");
                (CheckStatus::Pass, s)
            }
        },
        None => (CheckStatus::Warn, owned("当前平台不支持内存检查，已跳过")),
    }
}

/// The clock check's verdict on the local year and the rendered local time.
pub open spec fn clock_verdict(year: i32, rendered: Seq<char>) -> (CheckStatus, Seq<char>) {
    if year < 2020 || year > 2100 {
        (CheckStatus::Fail, "系统时钟异常: "@ + rendered + "（期望 2020..=2100）"@)
    } else {
        (CheckStatus::Pass, "系统时间: "@ + rendered)
    }
}

/// Clock check: the local year must lie in 2020..=2100.
pub fn check_clock(year: i32, rendered: &str) -> (r: (CheckStatus, String))
    ensures
        r.0 == clock_verdict(year, rendered@).0,
        r.1@ == clock_verdict(year, rendered@).1,
{
    if year < 2020 || year > 2100 {
        let mut s = owned("系统时钟异常: ");
        s.append(rendered);
        s.append("（期望 2020..=2100）");
        (CheckStatus::Fail, s)
    } else {
        let mut s = owned("系统时间: ");
        s.append(rendered);
        (CheckStatus::Pass, s)
    }
}

/// The check `checks[i]` has the given name, status and detail.
pub open spec fn check_is(
    checks: Seq<CheckResult>,
    i: int,
    name: Seq<char>,
    verdict: (CheckStatus, Seq<char>),
) -> bool {
    &&& checks[i].name@ == name
    &&& checks[i].status == verdict.0
    &&& checks[i].detail@ == verdict.1
}

/// Assembles the full report in its fixed order: configuration, CSV,
/// storage, clock, memory, then API and JSON, both judged on one probe.
pub fn assemble_health_report(
    config: (CheckStatus, String),
    csv: (CheckStatus, String),
    storage: (CheckStatus, String),
    clock: (CheckStatus, String),
    memory: (CheckStatus, String),
    probe: &HealthProbe,
) -> (r: HealthReport)
    ensures
        r.checks@.len() == 7,
        check_is(r.checks@, 0, "配置"@, (config.0, config.1@)),
        check_is(r.checks@, 1, "CSV"@, (csv.0, csv.1@)),
        check_is(r.checks@, 2, "存储"@, (storage.0, storage.1@)),
        check_is(r.checks@, 3, "时钟"@, (clock.0, clock.1@)),
        check_is(r.checks@, 4, "内存"@, (memory.0, memory.1@)),
        check_is(r.checks@, 5, "API"@, api_verdict(*probe)),
        check_is(r.checks@, 6, "JSON"@, json_verdict(*probe)),
{
    let mut report = HealthReport { checks: Vec::new() };
    report.push("配置", config.0, config.1);
    report.push("CSV", csv.0, csv.1);
    report.push("存储", storage.0, storage.1);
    report.push("时钟", clock.0, clock.1);
    report.push("内存", memory.0, memory.1);
    let (api_status, api_detail) = check_api(probe);
    report.push("API", api_status, api_detail);
    let (json_status, json_detail) = check_json(probe);
    report.push("JSON", json_status, json_detail);
    report
}

} // verus!
