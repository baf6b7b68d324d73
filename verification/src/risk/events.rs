//! Risk events: kinds with their names and severities, the CSV record of an
//! event, and the collector that keeps events with a count per kind.

use vstd::prelude::*;

use crate::text::{decimal, decimal_text, owned};

verus! {

/// Kind of a risk event.
#[derive(Debug, Clone, Copy, PartialEq, Eq, Structural)]
pub enum RiskEventKind {
    /// Position count at its limit.
    PositionLimit,
    /// Exposure at its limit.
    ExposureLimit,
    /// Daily loss at its limit.
    DailyLossLimit,
    /// Liquidity warning.
    LiquidityWarning,
    /// Drawdown warning.
    DrawdownWarning,
    /// Trade rejected.
    RiskReject,
    /// Consecutive-loss warning.
    ConsecutiveLossWarning,
    /// Consecutive losses at their limit.
    ConsecutiveLossLimit,
    /// Capital-usage warning.
    CapitalUsageWarning,
    /// Needs manual review.
    RiskReview,
}

/// Chinese name of each event kind.
pub open spec fn event_kind_zh(k: RiskEventKind) -> Seq<char> {
    match k {
        RiskEventKind::PositionLimit => "持仓上限"@,
        RiskEventKind::ExposureLimit => "暴露上限"@,
        RiskEventKind::DailyLossLimit => "日亏损上限"@,
        RiskEventKind::LiquidityWarning => "流动性警告"@,
        RiskEventKind::DrawdownWarning => "回撤警告"@,
        RiskEventKind::RiskReject => "风险拒绝"@,
        RiskEventKind::ConsecutiveLossWarning => "连续亏损警告"@,
        RiskEventKind::ConsecutiveLossLimit => "连续亏损上限"@,
        RiskEventKind::CapitalUsageWarning => "资金占用警告"@,
        RiskEventKind::RiskReview => "风险审核"@,
    }
}

/// Severity of each event kind (1 = warning, 2 = serious, 3 = blocking).
pub open spec fn event_severity(k: RiskEventKind) -> u8 {
    match k {
        RiskEventKind::LiquidityWarning => 1,
        RiskEventKind::DrawdownWarning => 1,
        RiskEventKind::ConsecutiveLossWarning => 1,
        RiskEventKind::CapitalUsageWarning => 1,
        RiskEventKind::RiskReview => 1,
        RiskEventKind::PositionLimit => 2,
        RiskEventKind::ExposureLimit => 2,
        RiskEventKind::ConsecutiveLossLimit => 2,
        RiskEventKind::DailyLossLimit => 3,
        RiskEventKind::RiskReject => 3,
    }
}

impl RiskEventKind {
    /// Chinese name.
    pub fn as_zh(&self) -> (s: &'static str)
        ensures
            s@ == event_kind_zh(*self),
    {
        match self {
            RiskEventKind::PositionLimit => "持仓上限",
            RiskEventKind::ExposureLimit => "暴露上限",
            RiskEventKind::DailyLossLimit => "日亏损上限",
            RiskEventKind::LiquidityWarning => "流动性警告",
            RiskEventKind::DrawdownWarning => "回撤警告",
            RiskEventKind::RiskReject => "风险拒绝",
            RiskEventKind::ConsecutiveLossWarning => "连续亏损警告",
            RiskEventKind::ConsecutiveLossLimit => "连续亏损上限",
            RiskEventKind::CapitalUsageWarning => "资金占用警告",
            RiskEventKind::RiskReview => "风险审核",
        }
    }

    /// Severity: 1 = warning, 2 = serious, 3 = blocking.
    pub fn severity(&self) -> (r: u8)
        ensures
            r == event_severity(*self),
            1 <= r <= 3,
    {
        match self {
            RiskEventKind::LiquidityWarning => 1,
            RiskEventKind::DrawdownWarning => 1,
            RiskEventKind::ConsecutiveLossWarning => 1,
            RiskEventKind::CapitalUsageWarning => 1,
            RiskEventKind::RiskReview => 1,
            RiskEventKind::PositionLimit => 2,
            RiskEventKind::ExposureLimit => 2,
            RiskEventKind::ConsecutiveLossLimit => 2,
            RiskEventKind::DailyLossLimit => 3,
            RiskEventKind::RiskReject => 3,
        }
    }
}

/// CSV record of one risk event.
#[derive(Debug, Clone)]
pub struct RiskEventRecord {
    pub time: String,
    pub event_type: String,
    pub severity: u8,
    pub description: String,
    pub market_id: String,
    pub value: String,
    pub threshold: String,
}

impl RiskEventRecord {
    /// The record of an event of kind `kind`; the time and the value and
    /// threshold columns come already rendered (empty when absent).
    pub fn new(
        kind: RiskEventKind,
        time: String,
        description: String,
        market_id: Option<String>,
        value: String,
        threshold: String,
    ) -> (r: Self)
        ensures
            r.time == time,
            r.event_type@ == event_kind_zh(kind),
            r.severity == event_severity(kind),
            r.description == description,
            r.market_id@ == match market_id {
                Some(m) => m@,
                None => Seq::<char>::empty(),
            },
            r.value == value,
            r.threshold == threshold,
    {
        let market = match market_id {
            Some(m) => m,
            None => String::new(),
        };
        RiskEventRecord {
            time,
            event_type: owned(kind.as_zh()),
            severity: kind.severity(),
            description,
            market_id: market,
            value,
            threshold,
        }
    }
}

/// Number of occurrences of `k` in `s`.
pub open spec fn occurrences(s: Seq<RiskEventKind>, k: RiskEventKind) -> nat
    decreases s.len(),
{
    if s.len() == 0 {
        0
    } else {
        occurrences(s.drop_last(), k) + if s.last() == k {
            1nat
        } else {
            0nat
        }
    }
}

/// Collector of risk events with a count per kind. The event payload `E` is
/// kept as given, in recording order.
#[derive(Debug)]
pub struct RiskEventCollector<E> {
    kinds: Vec<RiskEventKind>,
    events: Vec<E>,
    pub position_limits: usize,
    pub exposure_limits: usize,
    pub daily_loss_limits: usize,
    pub liquidity_warnings: usize,
    pub drawdown_warnings: usize,
    pub risk_rejects: usize,
    pub consecutive_loss_warnings: usize,
    pub consecutive_loss_limits: usize,
    pub capital_usage_warnings: usize,
    pub risk_reviews: usize,
}

impl<E> RiskEventCollector<E> {
    /// Kinds of the recorded events, in order.
    pub closed spec fn kinds(&self) -> Seq<RiskEventKind> {
        self.kinds@
    }

    /// Recorded event payloads, in order.
    pub closed spec fn payloads(&self) -> Seq<E> {
        self.events@
    }

    /// The count of each kind.
    pub closed spec fn count_of(&self, k: RiskEventKind) -> usize {
        match k {
            RiskEventKind::PositionLimit => self.position_limits,
            RiskEventKind::ExposureLimit => self.exposure_limits,
            RiskEventKind::DailyLossLimit => self.daily_loss_limits,
            RiskEventKind::LiquidityWarning => self.liquidity_warnings,
            RiskEventKind::DrawdownWarning => self.drawdown_warnings,
            RiskEventKind::RiskReject => self.risk_rejects,
            RiskEventKind::ConsecutiveLossWarning => self.consecutive_loss_warnings,
            RiskEventKind::ConsecutiveLossLimit => self.consecutive_loss_limits,
            RiskEventKind::CapitalUsageWarning => self.capital_usage_warnings,
            RiskEventKind::RiskReview => self.risk_reviews,
        }
    }

    /// Every per-kind counter equals the number of recorded events of that
    /// kind, and one payload is kept per recorded kind.
    pub closed spec fn well_formed(&self) -> bool {
        &&& self.kinds().len() == self.payloads().len()
        &&& forall|k: RiskEventKind| #[trigger] self.count_of(k) == occurrences(self.kinds(), k)
    }

    /// The counter of kind `k` (the public field of that kind).
    pub fn count(&self, k: RiskEventKind) -> (r: usize)
        ensures
            r == self.count_of(k),
    {
        match k {
            RiskEventKind::PositionLimit => self.position_limits,
            RiskEventKind::ExposureLimit => self.exposure_limits,
            RiskEventKind::DailyLossLimit => self.daily_loss_limits,
            RiskEventKind::LiquidityWarning => self.liquidity_warnings,
            RiskEventKind::DrawdownWarning => self.drawdown_warnings,
            RiskEventKind::RiskReject => self.risk_rejects,
            RiskEventKind::ConsecutiveLossWarning => self.consecutive_loss_warnings,
            RiskEventKind::ConsecutiveLossLimit => self.consecutive_loss_limits,
            RiskEventKind::CapitalUsageWarning => self.capital_usage_warnings,
            RiskEventKind::RiskReview => self.risk_reviews,
        }
    }

    /// Each counter equals the number of recorded events of its kind.
    pub proof fn lemma_counts_match(&self, k: RiskEventKind)
        requires
            self.well_formed(),
        ensures
            self.count_of(k) == occurrences(self.kinds(), k),
    {
    }

    /// An empty collector.
    pub fn new() -> (r: Self)
        ensures
            r.well_formed(),
            r.kinds().len() == 0,
            r.payloads().len() == 0,
    {
        RiskEventCollector {
            kinds: Vec::new(),
            events: Vec::new(),
            position_limits: 0,
            exposure_limits: 0,
            daily_loss_limits: 0,
            liquidity_warnings: 0,
            drawdown_warnings: 0,
            risk_rejects: 0,
            consecutive_loss_warnings: 0,
            consecutive_loss_limits: 0,
            capital_usage_warnings: 0,
            risk_reviews: 0,
        }
    }

    /// Records an event of kind `kind`.
    pub fn record(&mut self, kind: RiskEventKind, event: E)
        requires
            old(self).well_formed(),
            old(self).kinds().len() < usize::MAX,
        ensures
            final(self).well_formed(),
            final(self).kinds() == old(self).kinds().push(kind),
            final(self).payloads() == old(self).payloads().push(event),
            forall|k: RiskEventKind|
                #[trigger] final(self).count_of(k) == old(self).count_of(k) + if k == kind {
                    1nat
                } else {
                    0nat
                },
    {
        let ghost before = *self;
        proof {
            lemma_occurrences_le(self.kinds@, kind);
            assert(self.count_of(kind) == occurrences(self.kinds@, kind));
        }
        self.increment(kind);
        let ghost mid = *self;
        let ghost old_kinds = self.kinds@;
        self.kinds.push(kind);
        self.events.push(event);
        assert(self.kinds@.drop_last() =~= old_kinds);
        assert forall|k: RiskEventKind| #[trigger] self.count_of(k) == occurrences(self.kinds@, k) by {
            assert(before.count_of(k) == occurrences(old_kinds, k));
            assert(self.count_of(k) == mid.count_of(k));
            assert(self.kinds@.last() == kind);
            assert(occurrences(self.kinds@, k) == occurrences(old_kinds, k) + if k == kind {
                1nat
            } else {
                0nat
            });
        }
    }

    fn increment(&mut self, kind: RiskEventKind)
        requires
            old(self).count_of(kind) < usize::MAX,
        ensures
            final(self).kinds() == old(self).kinds(),
            final(self).payloads() == old(self).payloads(),
            forall|k: RiskEventKind|
                #[trigger] final(self).count_of(k) == old(self).count_of(k) + if k == kind {
                    1nat
                } else {
                    0nat
                },
    {
        match kind {
            RiskEventKind::PositionLimit => self.position_limits = self.position_limits + 1,
            RiskEventKind::ExposureLimit => self.exposure_limits = self.exposure_limits + 1,
            RiskEventKind::DailyLossLimit => self.daily_loss_limits = self.daily_loss_limits + 1,
            RiskEventKind::LiquidityWarning => self.liquidity_warnings = self.liquidity_warnings
                + 1,
            RiskEventKind::DrawdownWarning => self.drawdown_warnings = self.drawdown_warnings + 1,
            RiskEventKind::RiskReject => self.risk_rejects = self.risk_rejects + 1,
            RiskEventKind::ConsecutiveLossWarning => self.consecutive_loss_warnings =
            self.consecutive_loss_warnings + 1,
            RiskEventKind::ConsecutiveLossLimit => self.consecutive_loss_limits =
            self.consecutive_loss_limits + 1,
            RiskEventKind::CapitalUsageWarning => self.capital_usage_warnings =
            self.capital_usage_warnings + 1,
            RiskEventKind::RiskReview => self.risk_reviews = self.risk_reviews + 1,
        }
    }

    /// Number of recorded events.
    pub fn total(&self) -> (r: usize)
        requires
            self.well_formed(),
        ensures
            r == self.kinds().len(),
    {
        self.kinds.len()
    }

    /// The recorded event payloads, in order.
    pub fn events(&self) -> (r: &[E])
        ensures
            r@ == self.payloads(),
    {
        self.events.as_slice()
    }

    /// Chinese summary: the total, then one line per non-zero count of
    /// rejections, daily-loss limits, position limits, drawdown, liquidity and
    /// consecutive-loss warnings.
    pub fn summary_zh(&self) -> (s: String)
        requires
            self.well_formed(),
        ensures
            s@ == collector_summary(
                self.kinds().len(),
                self.count_of(RiskEventKind::RiskReject) as nat,
                self.count_of(RiskEventKind::DailyLossLimit) as nat,
                self.count_of(RiskEventKind::PositionLimit) as nat,
                self.count_of(RiskEventKind::DrawdownWarning) as nat,
                self.count_of(RiskEventKind::LiquidityWarning) as nat,
                self.count_of(RiskEventKind::ConsecutiveLossWarning) as nat,
            ),
    {
        let mut s = owned("风险事件总数：");
        s.append(decimal_text(self.kinds.len() as u128).as_str());
        append_count_line(&mut s, "  风险拒绝：", self.risk_rejects);
        append_count_line(&mut s, "  日亏损上限：", self.daily_loss_limits);
        append_count_line(&mut s, "  持仓上限：", self.position_limits);
        append_count_line(&mut s, "  回撤警告：", self.drawdown_warnings);
        append_count_line(&mut s, "  流动性警告：", self.liquidity_warnings);
        append_count_line(&mut s, "  连续亏损警告：", self.consecutive_loss_warnings);
        s
    }
}

/// A summary line `"\n" + label + n + " 次"`, present only when `n > 0`.
pub open spec fn count_line(label: Seq<char>, n: nat) -> Seq<char> {
    if n > 0 {
        "\n"@ + label + decimal(n) + " 次"@
    } else {
        Seq::empty()
    }
}

/// Text of the collector summary.
pub open spec fn collector_summary(
    total: nat,
    rejects: nat,
    daily_loss: nat,
    positions: nat,
    drawdown: nat,
    liquidity: nat,
    consecutive: nat,
) -> Seq<char> {
    "风险事件总数："@ + decimal(total) + count_line("  风险拒绝："@, rejects) + count_line(
        "  日亏损上限："@,
        daily_loss,
    ) + count_line("  持仓上限："@, positions) + count_line("  回撤警告："@, drawdown)
        + count_line("  流动性警告："@, liquidity) + count_line("  连续亏损警告："@, consecutive)
}

fn append_count_line(s: &mut String, label: &str, n: usize)
    ensures
        final(s)@ == old(s)@ + count_line(label@, n as nat),
{
    if n > 0 {
        s.append("\n");
        s.append(label);
        s.append(decimal_text(n as u128).as_str());
        s.append(" 次");
        assert(final(s)@ =~= old(s)@ + count_line(label@, n as nat));
    } else {
        assert(old(s)@ + count_line(label@, n as nat) =~= old(s)@);
    }
}

proof fn lemma_occurrences_le(s: Seq<RiskEventKind>, k: RiskEventKind)
    ensures
        occurrences(s, k) <= s.len(),
    decreases s.len(),
{
    if s.len() > 0 {
        lemma_occurrences_le(s.drop_last(), k);
    }
}

proof fn lemma_occurrences_sum(s: Seq<RiskEventKind>)
    ensures
        occurrences(s, RiskEventKind::PositionLimit) + occurrences(s, RiskEventKind::ExposureLimit)
            + occurrences(s, RiskEventKind::DailyLossLimit) + occurrences(
            s,
            RiskEventKind::LiquidityWarning,
        ) + occurrences(s, RiskEventKind::DrawdownWarning) + occurrences(
            s,
            RiskEventKind::RiskReject,
        ) + occurrences(s, RiskEventKind::ConsecutiveLossWarning) + occurrences(
            s,
            RiskEventKind::ConsecutiveLossLimit,
        ) + occurrences(s, RiskEventKind::CapitalUsageWarning) + occurrences(
            s,
            RiskEventKind::RiskReview,
        ) == s.len(),
    decreases s.len(),
{
    if s.len() > 0 {
        lemma_occurrences_sum(s.drop_last());
    }
}

/// The per-kind counters of a collector always add up to the number of
/// recorded events.
pub proof fn lemma_collector_counts_sum<E>(c: RiskEventCollector<E>)
    requires
        c.well_formed(),
    ensures
        c.count_of(RiskEventKind::PositionLimit) + c.count_of(RiskEventKind::ExposureLimit)
            + c.count_of(RiskEventKind::DailyLossLimit) + c.count_of(
            RiskEventKind::LiquidityWarning,
        ) + c.count_of(RiskEventKind::DrawdownWarning) + c.count_of(RiskEventKind::RiskReject)
            + c.count_of(RiskEventKind::ConsecutiveLossWarning) + c.count_of(
            RiskEventKind::ConsecutiveLossLimit,
        ) + c.count_of(RiskEventKind::CapitalUsageWarning) + c.count_of(RiskEventKind::RiskReview)
            == c.kinds().len(),
{
    lemma_occurrences_sum(c.kinds());
    assert(c.count_of(RiskEventKind::PositionLimit) == occurrences(c.kinds(), RiskEventKind::PositionLimit));
    assert(c.count_of(RiskEventKind::ExposureLimit) == occurrences(c.kinds(), RiskEventKind::ExposureLimit));
    assert(c.count_of(RiskEventKind::DailyLossLimit) == occurrences(c.kinds(), RiskEventKind::DailyLossLimit));
    assert(c.count_of(RiskEventKind::LiquidityWarning) == occurrences(c.kinds(), RiskEventKind::LiquidityWarning));
    assert(c.count_of(RiskEventKind::DrawdownWarning) == occurrences(c.kinds(), RiskEventKind::DrawdownWarning));
    assert(c.count_of(RiskEventKind::RiskReject) == occurrences(c.kinds(), RiskEventKind::RiskReject));
    assert(c.count_of(RiskEventKind::ConsecutiveLossWarning) == occurrences(c.kinds(), RiskEventKind::ConsecutiveLossWarning));
    assert(c.count_of(RiskEventKind::ConsecutiveLossLimit) == occurrences(c.kinds(), RiskEventKind::ConsecutiveLossLimit));
    assert(c.count_of(RiskEventKind::CapitalUsageWarning) == occurrences(c.kinds(), RiskEventKind::CapitalUsageWarning));
    assert(c.count_of(RiskEventKind::RiskReview) == occurrences(c.kinds(), RiskEventKind::RiskReview));
}

} // verus!
