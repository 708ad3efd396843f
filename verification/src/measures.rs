//! Behavioral measures over empirical distribution estimates: total
//! variation distance, Gini diversity, dilemma sensitivity, modal
//! consistency and defensive adaptation, all in integer basis points.

use vstd::prelude::*;
use crate::empirical::{
    action_ok, action_shares, signal_ok, signal_shares, ActionDistributionView,
    DiagnosticChoiceActionDistribution, DiagnosticChoiceCommunicationDistribution,
    EmpiricalDistributionEstimateReport, EstimateView, SignalDistributionView,
};
use crate::semantic::{catalog_domains, choice_of_domain, DiagnosticChoiceCatalog};
use crate::text::{decimal, push_decimal, push_str};

verus! {

/// Versioned schema for the diagnostic choice behavioral measures report.
pub const BEHAVIORAL_MEASURES_SCHEMA: &'static str = "m7-behavioral-measures-v1";

/// Versioned schema for behavioral distance measures (Total Variation Distance).
pub const BEHAVIORAL_DISTANCE_SCHEMA: &'static str = "m7-behavioral-distance-v1";

/// Versioned schema for behavioral entropy measures (Gini diversity index).
pub const BEHAVIORAL_ENTROPY_SCHEMA: &'static str = "m7-behavioral-entropy-v1";

/// Versioned schema for behavioral dilemma sensitivity measures.
pub const BEHAVIORAL_SENSITIVITY_SCHEMA: &'static str = "m7-behavioral-sensitivity-v1";

/// Versioned schema for repeated-sampling consistency measures.
pub const BEHAVIORAL_CONSISTENCY_SCHEMA: &'static str = "m7-behavioral-consistency-v1";

/// Versioned schema for adverse-condition adaptation measures.
pub const BEHAVIORAL_ADAPTATION_SCHEMA: &'static str = "m7-behavioral-adaptation-v1";

/// Errors raised when evaluating or comparing behavioral measures.
#[derive(Clone, Copy, Debug, PartialEq, Eq, Hash, Structural)]
pub enum BehavioralMeasuresError {
    MismatchedChoice,
    MismatchedProfile,
}

/// Absolute difference of two integers.
pub open spec fn abs_diff(x: int, y: int) -> int {
    if x >= y {
        x - y
    } else {
        y - x
    }
}

/// Sum of absolute differences of the first `n` entries of two share lists.
pub open spec fn diff_sum(a: Seq<u16>, b: Seq<u16>, n: int) -> int
    decreases n,
{
    if n <= 0 {
        0
    } else {
        diff_sum(a, b, n - 1) + abs_diff(a[n - 1] as int, b[n - 1] as int)
    }
}

/// Sum of the first `n` entries of a share list.
pub open spec fn share_sum(a: Seq<u16>, n: int) -> int
    decreases n,
{
    if n <= 0 {
        0
    } else {
        share_sum(a, n - 1) + a[n - 1]
    }
}

/// Total variation distance of two action distributions in basis points.
pub open spec fn action_distance(a: ActionDistributionView, b: ActionDistributionView) -> int {
    diff_sum(action_shares(a), action_shares(b), 3) / 2
}

/// Total variation distance of two communication distributions in basis points.
pub open spec fn signal_distance(a: SignalDistributionView, b: SignalDistributionView) -> int {
    diff_sum(signal_shares(a), signal_shares(b), 5) / 2
}

/// Sum of the action distances of the first `n` choices of two reports.
pub open spec fn action_distance_sum(a: EstimateView, b: EstimateView, n: int) -> int
    decreases n,
{
    if n <= 0 {
        0
    } else {
        action_distance_sum(a, b, n - 1) + action_distance(a.actions[n - 1], b.actions[n - 1])
    }
}

/// Sum of the communication distances of the first `n` choices of two reports.
pub open spec fn signal_distance_sum(a: EstimateView, b: EstimateView, n: int) -> int
    decreases n,
{
    if n <= 0 {
        0
    } else {
        signal_distance_sum(a, b, n - 1) + signal_distance(a.signals[n - 1], b.signals[n - 1])
    }
}

/// Differences of shares are bounded by their sums.
proof fn lemma_diff_sum_bounded(a: Seq<u16>, b: Seq<u16>, n: int)
    requires
        0 <= n,
    ensures
        diff_sum(a, b, n) <= share_sum(a, n) + share_sum(b, n),
        diff_sum(a, b, n) >= 0,
    decreases n,
{
    if n > 0 {
        lemma_diff_sum_bounded(a, b, n - 1);
    }
}

/// Total variation distances of action distributions lie within the basis-point scale.
pub proof fn lemma_action_distance_bounded(a: ActionDistributionView, b: ActionDistributionView)
    requires
        action_ok(a),
        action_ok(b),
    ensures
        0 <= action_distance(a, b) <= 10000,
{
    reveal_with_fuel(diff_sum, 6);
    reveal_with_fuel(share_sum, 6);
    crate::sample::lemma_shares_bounded(
        a.primary_count as int,
        a.alternative_count as int,
        0,
        0,
        a.sample_count as int,
    );
    crate::sample::lemma_shares_bounded(
        b.primary_count as int,
        b.alternative_count as int,
        0,
        0,
        b.sample_count as int,
    );
    lemma_diff_sum_bounded(action_shares(a), action_shares(b), 3);
    assert(share_sum(action_shares(a), 3) == 10000);
    assert(share_sum(action_shares(b), 3) == 10000);
}

/// Total variation distances of communication distributions lie within the basis-point scale.
pub proof fn lemma_signal_distance_bounded(c: SignalDistributionView, d: SignalDistributionView)
    requires
        signal_ok(c),
        signal_ok(d),
    ensures
        0 <= signal_distance(c, d) <= 10000,
{
    reveal_with_fuel(diff_sum, 6);
    reveal_with_fuel(share_sum, 6);
    crate::sample::lemma_shares_bounded(
        c.signal_counts[0] as int,
        c.signal_counts[1] as int,
        c.signal_counts[2] as int,
        c.signal_counts[3] as int,
        c.sample_count as int,
    );
    crate::sample::lemma_shares_bounded(
        d.signal_counts[0] as int,
        d.signal_counts[1] as int,
        d.signal_counts[2] as int,
        d.signal_counts[3] as int,
        d.sample_count as int,
    );
    lemma_diff_sum_bounded(signal_shares(c), signal_shares(d), 5);
    assert(share_sum(signal_shares(c), 5) == 10000);
    assert(share_sum(signal_shares(d), 5) == 10000);
}

/// The distance of a distribution to itself is zero.
pub proof fn lemma_distance_to_self_is_zero(a: ActionDistributionView, c: SignalDistributionView)
    ensures
        action_distance(a, a) == 0,
        signal_distance(c, c) == 0,
{
    reveal_with_fuel(diff_sum, 6);
    reveal_with_fuel(share_sum, 6);
    assert(diff_sum(action_shares(a), action_shares(a), 3) == 0);
    assert(diff_sum(signal_shares(c), signal_shares(c), 5) == 0);
}

/// Distance is symmetric.
pub proof fn lemma_distance_symmetric(
    a: ActionDistributionView,
    b: ActionDistributionView,
    c: SignalDistributionView,
    d: SignalDistributionView,
)
    ensures
        action_distance(a, b) == action_distance(b, a),
        signal_distance(c, d) == signal_distance(d, c),
{
    reveal_with_fuel(diff_sum, 6);
    reveal_with_fuel(share_sum, 6);
    assert(diff_sum(action_shares(a), action_shares(b), 3) == diff_sum(
        action_shares(b),
        action_shares(a),
        3,
    ));
    assert(diff_sum(signal_shares(c), signal_shares(d), 5) == diff_sum(
        signal_shares(d),
        signal_shares(c),
        5,
    ));
}

/// Bounded behavioral distance calculator (Total Variation Distance in
/// integer basis points `[0..=10,000]`).
#[derive(Clone, Copy, Debug, PartialEq, Eq, Hash, Structural)]
pub struct BehavioralDistanceMeasure;

/// The absolute difference of two shares.
fn share_diff(x: u16, y: u16) -> (r: u32)
    ensures
        r == abs_diff(x as int, y as int),
{
    if x >= y {
        (x - y) as u32
    } else {
        (y - x) as u32
    }
}

impl BehavioralDistanceMeasure {
    /// Total variation distance between two action distributions over
    /// `[primary, alternative, other]`: half the sum of absolute share differences.
    pub fn action_tvd(
        a: DiagnosticChoiceActionDistribution,
        b: DiagnosticChoiceActionDistribution,
    ) -> (r: u16)
        ensures
            r == action_distance(a@, b@),
    {
        let bp_a = a.basis_points();
        let bp_b = b.basis_points();
        let _ = a.sample_count();
        let _ = b.sample_count();
        let sum_diff = share_diff(bp_a[0], bp_b[0]) + share_diff(bp_a[1], bp_b[1]) + share_diff(
            bp_a[2],
            bp_b[2],
        );
        proof {
            reveal_with_fuel(diff_sum, 4);
            lemma_action_distance_bounded(a@, b@);
            assert(diff_sum(action_shares(a@), action_shares(b@), 3) == sum_diff);
        }
        (sum_diff / 2) as u16
    }

    /// Total variation distance between two communication distributions over
    /// the five signals.
    pub fn communication_tvd(
        a: DiagnosticChoiceCommunicationDistribution,
        b: DiagnosticChoiceCommunicationDistribution,
    ) -> (r: u16)
        ensures
            r == signal_distance(a@, b@),
    {
        let bp_a = a.basis_points();
        let bp_b = b.basis_points();
        let _ = a.sample_count();
        let _ = b.sample_count();
        let mut sum_diff: u32 = 0;
        let mut i: usize = 0;
        while i < 5
            invariant
                i <= 5,
                bp_a@ == signal_shares(a@),
                bp_b@ == signal_shares(b@),
                sum_diff == diff_sum(bp_a@, bp_b@, i as int),
                sum_diff <= 65535 * i,
            decreases 5 - i,
        {
            sum_diff = sum_diff + share_diff(bp_a[i], bp_b[i]);
            i = i + 1;
        }
        proof {
            lemma_signal_distance_bounded(a@, b@);
        }
        (sum_diff / 2) as u16
    }

    /// Mean action distance across the seven diagnostic choices.
    pub fn mean_action_distance(
        rep_a: &EmpiricalDistributionEstimateReport,
        rep_b: &EmpiricalDistributionEstimateReport,
    ) -> (r: u16)
        ensures
            r == action_distance_sum(rep_a@, rep_b@, 7) / 7,
    {
        let xs = rep_a.action_distributions();
        let ys = rep_b.action_distributions();
        let mut sum: u32 = 0;
        let mut i: usize = 0;
        while i < 7
            invariant
                i <= 7,
                xs@.len() == 7,
                ys@.len() == 7,
                xs@.map_values(|d: DiagnosticChoiceActionDistribution| d@) == rep_a@.actions,
                ys@.map_values(|d: DiagnosticChoiceActionDistribution| d@) == rep_b@.actions,
                sum == action_distance_sum(rep_a@, rep_b@, i as int),
                sum <= 10000 * i,
            decreases 7 - i,
        {
            assert(rep_a@.actions[i as int] == xs@[i as int]@);
            assert(rep_b@.actions[i as int] == ys@[i as int]@);
            let d = Self::action_tvd(xs[i], ys[i]);
            let _ = xs[i].sample_count();
            let _ = ys[i].sample_count();
            proof {
                lemma_action_distance_bounded(xs@[i as int]@, ys@[i as int]@);
            }
            sum = sum + d as u32;
            i = i + 1;
        }
        (sum / 7) as u16
    }

    /// Mean communication distance across the seven diagnostic choices.
    pub fn mean_communication_distance(
        rep_a: &EmpiricalDistributionEstimateReport,
        rep_b: &EmpiricalDistributionEstimateReport,
    ) -> (r: u16)
        ensures
            r == signal_distance_sum(rep_a@, rep_b@, 7) / 7,
    {
        let xs = rep_a.communication_distributions();
        let ys = rep_b.communication_distributions();
        let mut sum: u32 = 0;
        let mut i: usize = 0;
        while i < 7
            invariant
                i <= 7,
                xs@.len() == 7,
                ys@.len() == 7,
                xs@.map_values(|d: DiagnosticChoiceCommunicationDistribution| d@) == rep_a@.signals,
                ys@.map_values(|d: DiagnosticChoiceCommunicationDistribution| d@) == rep_b@.signals,
                sum == signal_distance_sum(rep_a@, rep_b@, i as int),
                sum <= 10000 * i,
            decreases 7 - i,
        {
            assert(rep_a@.signals[i as int] == xs@[i as int]@);
            assert(rep_b@.signals[i as int] == ys@[i as int]@);
            let d = Self::communication_tvd(xs[i], ys[i]);
            let _ = xs[i].sample_count();
            let _ = ys[i].sample_count();
            proof {
                lemma_signal_distance_bounded(xs@[i as int]@, ys@[i as int]@);
            }
            sum = sum + d as u32;
            i = i + 1;
        }
        (sum / 7) as u16
    }
}


/// Comprehensive behavioral distance report comparing two empirical
/// distribution estimate reports across all seven diagnostic dilemmas.
#[derive(Clone, Debug, PartialEq, Eq, Hash)]
pub struct BehavioralDistanceReport {
    schema: &'static str,
    baseline_profile_id: &'static str,
    candidate_profile_id: &'static str,
    action_choice_distances: [u16; 7],
    communication_choice_distances: [u16; 7],
    mean_action_distance_bp: u16,
    mean_communication_distance_bp: u16,
}

/// The content of a distance report.
pub struct DistanceReportView {
    pub schema: Seq<char>,
    pub baseline_profile_id: Seq<char>,
    pub candidate_profile_id: Seq<char>,
    pub action_choice_distances: Seq<u16>,
    pub communication_choice_distances: Seq<u16>,
    pub mean_action_distance_bp: u16,
    pub mean_communication_distance_bp: u16,
}

impl View for BehavioralDistanceReport {
    type V = DistanceReportView;

    closed spec fn view(&self) -> DistanceReportView {
        DistanceReportView {
            schema: self.schema@,
            baseline_profile_id: self.baseline_profile_id@,
            candidate_profile_id: self.candidate_profile_id@,
            action_choice_distances: self.action_choice_distances@,
            communication_choice_distances: self.communication_choice_distances@,
            mean_action_distance_bp: self.mean_action_distance_bp,
            mean_communication_distance_bp: self.mean_communication_distance_bp,
        }
    }
}

/// The distance report of two estimate reports.
pub open spec fn distance_report_of(a: EstimateView, b: EstimateView) -> DistanceReportView {
    DistanceReportView {
        schema: BEHAVIORAL_DISTANCE_SCHEMA@,
        baseline_profile_id: a.profile_id,
        candidate_profile_id: b.profile_id,
        action_choice_distances: Seq::new(
            7,
            |i: int| action_distance(a.actions[i], b.actions[i]) as u16,
        ),
        communication_choice_distances: Seq::new(
            7,
            |i: int| signal_distance(a.signals[i], b.signals[i]) as u16,
        ),
        mean_action_distance_bp: (action_distance_sum(a, b, 7) / 7) as u16,
        mean_communication_distance_bp: (signal_distance_sum(a, b, 7) / 7) as u16,
    }
}

/// Markdown rows of the first `n` choices of a distance report.
pub open spec fn distance_rows(v: DistanceReportView, n: int) -> Seq<char>
    decreases n,
{
    if n <= 0 {
        Seq::empty()
    } else {
        distance_rows(v, n - 1) + "| "@ + choice_of_domain(catalog_domains()[n - 1]).choice_id
            + " | "@ + decimal(v.action_choice_distances[n - 1] as nat) + " | "@ + decimal(
            v.communication_choice_distances[n - 1] as nat,
        ) + " |\n"@
    }
}

/// The Markdown rendering of a distance report.
pub open spec fn distance_markdown(v: DistanceReportView) -> Seq<char> {
    "# Behavioral Distance Report\n\n- schema: "@ + v.schema + "\n- baseline_profile_id: "@
        + v.baseline_profile_id + "\n- candidate_profile_id: "@ + v.candidate_profile_id
        + "\n- mean_action_distance_bp: "@ + decimal(v.mean_action_distance_bp as nat)
        + "\n- mean_communication_distance_bp: "@ + decimal(v.mean_communication_distance_bp as nat)
        + "\n\n| choice_id | action_tvd_bp | communication_tvd_bp |\n| --- | ---: |\n"@
        + distance_rows(v, 7)
}

impl BehavioralDistanceReport {
    /// Compare two empirical distribution estimate reports across all seven choices.
    pub fn from_reports(
        baseline: &EmpiricalDistributionEstimateReport,
        candidate: &EmpiricalDistributionEstimateReport,
    ) -> (r: Self)
        ensures
            r@ == distance_report_of(baseline@, candidate@),
    {
        let xs = baseline.action_distributions();
        let ys = candidate.action_distributions();
        let us = baseline.communication_distributions();
        let ws = candidate.communication_distributions();
        let mut action_choice_distances = [0u16; 7];
        let mut communication_choice_distances = [0u16; 7];
        let mut i: usize = 0;
        while i < 7
            invariant
                i <= 7,
                xs@.len() == 7,
                ys@.len() == 7,
                us@.len() == 7,
                ws@.len() == 7,
                xs@.map_values(|d: DiagnosticChoiceActionDistribution| d@) == baseline@.actions,
                ys@.map_values(|d: DiagnosticChoiceActionDistribution| d@) == candidate@.actions,
                us@.map_values(|d: DiagnosticChoiceCommunicationDistribution| d@)
                    == baseline@.signals,
                ws@.map_values(|d: DiagnosticChoiceCommunicationDistribution| d@)
                    == candidate@.signals,
                action_choice_distances@.len() == 7,
                communication_choice_distances@.len() == 7,
                forall|k: int|
                    0 <= k < i ==> #[trigger] action_choice_distances@[k] == action_distance(
                        baseline@.actions[k],
                        candidate@.actions[k],
                    ),
                forall|k: int|
                    0 <= k < i ==> #[trigger] communication_choice_distances@[k]
                        == signal_distance(baseline@.signals[k], candidate@.signals[k]),
            decreases 7 - i,
        {
            assert(baseline@.actions[i as int] == xs@[i as int]@);
            assert(candidate@.actions[i as int] == ys@[i as int]@);
            assert(baseline@.signals[i as int] == us@[i as int]@);
            assert(candidate@.signals[i as int] == ws@[i as int]@);
            action_choice_distances.set(i, BehavioralDistanceMeasure::action_tvd(xs[i], ys[i]));
            communication_choice_distances.set(
                i,
                BehavioralDistanceMeasure::communication_tvd(us[i], ws[i]),
            );
            i = i + 1;
        }
        let mean_action_distance_bp = BehavioralDistanceMeasure::mean_action_distance(
            baseline,
            candidate,
        );
        let mean_communication_distance_bp = BehavioralDistanceMeasure::mean_communication_distance(
            baseline,
            candidate,
        );
        let r = Self {
            schema: BEHAVIORAL_DISTANCE_SCHEMA,
            baseline_profile_id: baseline.profile_id(),
            candidate_profile_id: candidate.profile_id(),
            action_choice_distances,
            communication_choice_distances,
            mean_action_distance_bp,
            mean_communication_distance_bp,
        };
        assert(r@.action_choice_distances =~= distance_report_of(
            baseline@,
            candidate@,
        ).action_choice_distances);
        assert(r@.communication_choice_distances =~= distance_report_of(
            baseline@,
            candidate@,
        ).communication_choice_distances);
        r
    }

    pub fn schema(&self) -> (r: &'static str)
        ensures
            r@ == self@.schema,
    {
        self.schema
    }

    pub fn baseline_profile_id(&self) -> (r: &'static str)
        ensures
            r@ == self@.baseline_profile_id,
    {
        self.baseline_profile_id
    }

    pub fn candidate_profile_id(&self) -> (r: &'static str)
        ensures
            r@ == self@.candidate_profile_id,
    {
        self.candidate_profile_id
    }

    pub fn action_choice_distances(&self) -> (r: &[u16; 7])
        ensures
            r@ == self@.action_choice_distances,
    {
        &self.action_choice_distances
    }

    pub fn communication_choice_distances(&self) -> (r: &[u16; 7])
        ensures
            r@ == self@.communication_choice_distances,
    {
        &self.communication_choice_distances
    }

    pub fn mean_action_distance_bp(&self) -> (r: u16)
        ensures
            r == self@.mean_action_distance_bp,
    {
        self.mean_action_distance_bp
    }

    pub fn mean_communication_distance_bp(&self) -> (r: u16)
        ensures
            r == self@.mean_communication_distance_bp,
    {
        self.mean_communication_distance_bp
    }

    /// Render the distance report as Markdown.
    pub fn to_markdown(&self) -> (r: String)
        ensures
            r@ == distance_markdown(self@),
    {
        let choices = DiagnosticChoiceCatalog::all_choices();
        let ghost v = self@;
        let mut out = String::new();
        push_str(&mut out, "# Behavioral Distance Report\n\n- schema: ");
        push_str(&mut out, self.schema);
        push_str(&mut out, "\n- baseline_profile_id: ");
        push_str(&mut out, self.baseline_profile_id);
        push_str(&mut out, "\n- candidate_profile_id: ");
        push_str(&mut out, self.candidate_profile_id);
        push_str(&mut out, "\n- mean_action_distance_bp: ");
        push_decimal(&mut out, self.mean_action_distance_bp as u64);
        push_str(&mut out, "\n- mean_communication_distance_bp: ");
        push_decimal(&mut out, self.mean_communication_distance_bp as u64);
        push_str(
            &mut out,
            "\n\n| choice_id | action_tvd_bp | communication_tvd_bp |\n| --- | ---: |\n",
        );
        let ghost head = out@;
        let mut i: usize = 0;
        while i < 7
            invariant
                i <= 7,
                v == self@,
                choices@.len() == 7,
                forall|k: int|
                    0 <= k < 7 ==> (#[trigger] choices@[k])@ == choice_of_domain(
                        catalog_domains()[k],
                    ),
                self.action_choice_distances@.len() == 7,
                self.communication_choice_distances@.len() == 7,
                out@ == head + distance_rows(v, i as int),
            decreases 7 - i,
        {
            push_str(&mut out, "| ");
            push_str(&mut out, choices[i].choice_id());
            push_str(&mut out, " | ");
            push_decimal(&mut out, self.action_choice_distances[i] as u64);
            push_str(&mut out, " | ");
            push_decimal(&mut out, self.communication_choice_distances[i] as u64);
            push_str(&mut out, " |\n");
            assert(out@ =~= head + distance_rows(v, i + 1));
            i = i + 1;
        }
        assert(out@ =~= distance_markdown(v));
        out
    }
}

/// Sum of squares of the first `n` shares.
pub open spec fn square_sum(a: Seq<u16>, n: int) -> int
    decreases n,
{
    if n <= 0 {
        0
    } else {
        square_sum(a, n - 1) + (a[n - 1] as int) * (a[n - 1] as int)
    }
}

/// Gini diversity of `n` shares: 10,000 less the concentration
/// `sum(p_i^2) / 10,000`, saturating at zero.
pub open spec fn gini(a: Seq<u16>, n: int) -> int {
    let conc = square_sum(a, n) / 10000;
    if conc >= 10000 {
        0
    } else {
        10000 - conc
    }
}

/// Squares of shares of at most 10,000 each stay within `n * 10^8`.
proof fn lemma_square_sum_bounded(a: Seq<u16>, n: int)
    requires
        0 <= n <= a.len(),
        forall|k: int| 0 <= k < n ==> #[trigger] a[k] <= 10000,
    ensures
        0 <= square_sum(a, n) <= n * 100_000_000,
    decreases n,
{
    if n > 0 {
        lemma_square_sum_bounded(a, n - 1);
        let x = a[n - 1] as int;
        assert(x * x <= 100_000_000) by (nonlinear_arith)
            requires
                0 <= x <= 10000,
        ;
        assert(x * x >= 0) by (nonlinear_arith);
    }
}

/// Gini diversity of a share list whose entries add up to 10,000.
fn gini_of(a: &[u16], n: usize) -> (r: u16)
    requires
        n <= 5,
        n <= a@.len(),
        forall|k: int| 0 <= k < n ==> #[trigger] a@[k] <= 10000,
    ensures
        r == gini(a@, n as int),
        r <= 10000,
{
    let mut sum_sq: u64 = 0;
    let mut i: usize = 0;
    while i < n
        invariant
            i <= n <= 5,
            n <= a@.len(),
            forall|k: int| 0 <= k < n ==> #[trigger] a@[k] <= 10000,
            sum_sq == square_sum(a@, i as int),
            sum_sq <= i * 100_000_000,
        decreases n - i,
    {
        proof {
            lemma_square_sum_bounded(a@, i + 1);
        }
        sum_sq = sum_sq + a[i] as u64 * a[i] as u64;
        i = i + 1;
    }
    let conc = sum_sq / 10000;
    if conc >= 10000 {
        0
    } else {
        (10000 - conc) as u16
    }
}

/// Bounded behavioral entropy and diversity calculator (Gini diversity index
/// in integer basis points `[0..=10,000]`).
#[derive(Clone, Copy, Debug, PartialEq, Eq, Hash, Structural)]
pub struct BehavioralEntropyMeasure;

/// Gini diversity of an action distribution.
pub open spec fn action_diversity(v: ActionDistributionView) -> int {
    gini(action_shares(v), 3)
}

/// Gini diversity of a communication distribution.
pub open spec fn signal_diversity(v: SignalDistributionView) -> int {
    gini(signal_shares(v), 5)
}

/// Sum of the action diversities of the first `n` choices of a report.
pub open spec fn action_diversity_sum(v: EstimateView, n: int) -> int
    decreases n,
{
    if n <= 0 {
        0
    } else {
        action_diversity_sum(v, n - 1) + action_diversity(v.actions[n - 1])
    }
}

/// Sum of the communication diversities of the first `n` choices of a report.
pub open spec fn signal_diversity_sum(v: EstimateView, n: int) -> int
    decreases n,
{
    if n <= 0 {
        0
    } else {
        signal_diversity_sum(v, n - 1) + signal_diversity(v.signals[n - 1])
    }
}

impl BehavioralEntropyMeasure {
    /// Gini diversity index for an action distribution: `10,000 - sum(p_i^2)/10,000`.
    pub fn action_entropy(dist: DiagnosticChoiceActionDistribution) -> (r: u16)
        ensures
            r == action_diversity(dist@),
            r <= 10000,
    {
        let bp = dist.basis_points();
        gini_of(&bp, 3)
    }

    /// Gini diversity index for a communication distribution.
    pub fn communication_entropy(dist: DiagnosticChoiceCommunicationDistribution) -> (r: u16)
        ensures
            r == signal_diversity(dist@),
            r <= 10000,
    {
        let bp = dist.basis_points();
        gini_of(&bp, 5)
    }

    /// Mean action diversity across the seven diagnostic choices of a report.
    pub fn mean_action_entropy(report: &EmpiricalDistributionEstimateReport) -> (r: u16)
        ensures
            r == action_diversity_sum(report@, 7) / 7,
    {
        let xs = report.action_distributions();
        let mut sum: u32 = 0;
        let mut i: usize = 0;
        while i < 7
            invariant
                i <= 7,
                xs@.len() == 7,
                xs@.map_values(|d: DiagnosticChoiceActionDistribution| d@) == report@.actions,
                sum == action_diversity_sum(report@, i as int),
                sum <= 10000 * i,
            decreases 7 - i,
        {
            assert(report@.actions[i as int] == xs@[i as int]@);
            sum = sum + Self::action_entropy(xs[i]) as u32;
            i = i + 1;
        }
        (sum / 7) as u16
    }

    /// Mean communication diversity across the seven diagnostic choices of a report.
    pub fn mean_communication_entropy(report: &EmpiricalDistributionEstimateReport) -> (r: u16)
        ensures
            r == signal_diversity_sum(report@, 7) / 7,
    {
        let xs = report.communication_distributions();
        let mut sum: u32 = 0;
        let mut i: usize = 0;
        while i < 7
            invariant
                i <= 7,
                xs@.len() == 7,
                xs@.map_values(|d: DiagnosticChoiceCommunicationDistribution| d@) == report@.signals,
                sum == signal_diversity_sum(report@, i as int),
                sum <= 10000 * i,
            decreases 7 - i,
        {
            assert(report@.signals[i as int] == xs@[i as int]@);
            sum = sum + Self::communication_entropy(xs[i]) as u32;
            i = i + 1;
        }
        (sum / 7) as u16
    }
}

/// Primary share of the `i`-th action distribution of a report.
pub open spec fn primary_share(v: EstimateView, i: int) -> int {
    action_shares(v.actions[i])[0] as int
}

/// Bounded behavioral sensitivity calculator measuring shifts across
/// contrasting dilemma pairs.
#[derive(Clone, Copy, Debug, PartialEq, Eq, Hash, Structural)]
pub struct BehavioralSensitivityMeasure;

/// The absolute difference of two shares.
fn u16_diff(x: u16, y: u16) -> (r: u16)
    ensures
        r == abs_diff(x as int, y as int),
{
    if x >= y {
        x - y
    } else {
        y - x
    }
}

impl BehavioralSensitivityMeasure {
    /// Primary-share shift between ContestConcede (index 0) and Surprise (index 5).
    pub fn surprise_sensitivity(report: &EmpiricalDistributionEstimateReport) -> (r: u16)
        ensures
            r == abs_diff(primary_share(report@, 0), primary_share(report@, 5)),
    {
        let xs = report.action_distributions();
        assert(report@.actions[0] == xs@[0]@);
        assert(report@.actions[5] == xs@[5]@);
        u16_diff(xs[0].primary_share_basis_points(), xs[5].primary_share_basis_points())
    }

    /// Primary-share shift between ContestConcede (index 0) and Sacrifice (index 4).
    pub fn sacrifice_sensitivity(report: &EmpiricalDistributionEstimateReport) -> (r: u16)
        ensures
            r == abs_diff(primary_share(report@, 0), primary_share(report@, 4)),
    {
        let xs = report.action_distributions();
        assert(report@.actions[0] == xs@[0]@);
        assert(report@.actions[4] == xs@[4]@);
        u16_diff(xs[0].primary_share_basis_points(), xs[4].primary_share_basis_points())
    }

    /// Primary-share shift between ContestConcede (index 0) and ResponseToFailure (index 6).
    pub fn failure_sensitivity(report: &EmpiricalDistributionEstimateReport) -> (r: u16)
        ensures
            r == abs_diff(primary_share(report@, 0), primary_share(report@, 6)),
    {
        let xs = report.action_distributions();
        assert(report@.actions[0] == xs@[0]@);
        assert(report@.actions[6] == xs@[6]@);
        u16_diff(xs[0].primary_share_basis_points(), xs[6].primary_share_basis_points())
    }
}

/// The largest of the first `n` shares (zero when `n` is zero).
pub open spec fn max_share(a: Seq<u16>, n: int) -> int
    decreases n,
{
    if n <= 0 {
        0
    } else if a[n - 1] as int > max_share(a, n - 1) {
        a[n - 1] as int
    } else {
        max_share(a, n - 1)
    }
}

/// Modal consistency of an action distribution: its largest share.
pub open spec fn action_consistency_of(v: ActionDistributionView) -> int {
    max_share(action_shares(v), 3)
}

/// Modal consistency of a communication distribution: its largest share.
pub open spec fn signal_consistency_of(v: SignalDistributionView) -> int {
    max_share(signal_shares(v), 5)
}

/// Sum of the action consistencies of the first `n` choices of a report.
pub open spec fn action_consistency_sum(v: EstimateView, n: int) -> int
    decreases n,
{
    if n <= 0 {
        0
    } else {
        action_consistency_sum(v, n - 1) + action_consistency_of(v.actions[n - 1])
    }
}

/// Sum of the communication consistencies of the first `n` choices of a report.
pub open spec fn signal_consistency_sum(v: EstimateView, n: int) -> int
    decreases n,
{
    if n <= 0 {
        0
    } else {
        signal_consistency_sum(v, n - 1) + signal_consistency_of(v.signals[n - 1])
    }
}

/// The largest of the first `n` entries of a share list.
fn max_of(a: &[u16], n: usize) -> (r: u16)
    requires
        n <= a@.len(),
    ensures
        r == max_share(a@, n as int),
{
    let mut m: u16 = 0;
    let mut i: usize = 0;
    while i < n
        invariant
            i <= n <= a@.len(),
            m == max_share(a@, i as int),
        decreases n - i,
    {
        if a[i] > m {
            m = a[i];
        }
        i = i + 1;
    }
    m
}

/// Bounded behavioral consistency calculator measuring modal adherence
/// across repeated samples.
#[derive(Clone, Copy, Debug, PartialEq, Eq, Hash, Structural)]
pub struct BehavioralConsistencyMeasure;

impl BehavioralConsistencyMeasure {
    /// Modal action consistency: the largest share.
    pub fn action_consistency(dist: DiagnosticChoiceActionDistribution) -> (r: u16)
        ensures
            r == action_consistency_of(dist@),
            r <= 10000,
    {
        let bp = dist.basis_points();
        proof {
            reveal_with_fuel(max_share, 4);
        }
        max_of(&bp, 3)
    }

    /// Modal communication consistency: the largest share.
    pub fn communication_consistency(dist: DiagnosticChoiceCommunicationDistribution) -> (r: u16)
        ensures
            r == signal_consistency_of(dist@),
            r <= 10000,
    {
        let bp = dist.basis_points();
        proof {
            reveal_with_fuel(max_share, 6);
        }
        max_of(&bp, 5)
    }

    /// Mean action consistency across the seven diagnostic choices of a report.
    pub fn mean_action_consistency(report: &EmpiricalDistributionEstimateReport) -> (r: u16)
        ensures
            r == action_consistency_sum(report@, 7) / 7,
    {
        let xs = report.action_distributions();
        let mut sum: u32 = 0;
        let mut i: usize = 0;
        while i < 7
            invariant
                i <= 7,
                xs@.len() == 7,
                xs@.map_values(|d: DiagnosticChoiceActionDistribution| d@) == report@.actions,
                sum == action_consistency_sum(report@, i as int),
                sum <= 10000 * i,
            decreases 7 - i,
        {
            assert(report@.actions[i as int] == xs@[i as int]@);
            sum = sum + Self::action_consistency(xs[i]) as u32;
            i = i + 1;
        }
        (sum / 7) as u16
    }

    /// Mean communication consistency across the seven diagnostic choices of a report.
    pub fn mean_communication_consistency(report: &EmpiricalDistributionEstimateReport) -> (r: u16)
        ensures
            r == signal_consistency_sum(report@, 7) / 7,
    {
        let xs = report.communication_distributions();
        let mut sum: u32 = 0;
        let mut i: usize = 0;
        while i < 7
            invariant
                i <= 7,
                xs@.len() == 7,
                xs@.map_values(|d: DiagnosticChoiceCommunicationDistribution| d@) == report@.signals,
                sum == signal_consistency_sum(report@, i as int),
                sum <= 10000 * i,
            decreases 7 - i,
        {
            assert(report@.signals[i as int] == xs@[i as int]@);
            sum = sum + Self::communication_consistency(xs[i]) as u32;
            i = i + 1;
        }
        (sum / 7) as u16
    }
}

/// Bounded behavioral adaptation calculator measuring defensive adjustment
/// under adverse dilemmas.
#[derive(Clone, Copy, Debug, PartialEq, Eq, Hash, Structural)]
pub struct BehavioralAdaptationMeasure;

impl BehavioralAdaptationMeasure {
    /// Defensive adaptation in Surprise (index 5): the primary withdrawal share.
    pub fn surprise_adaptation_bp(report: &EmpiricalDistributionEstimateReport) -> (r: u16)
        ensures
            r == primary_share(report@, 5),
    {
        let xs = report.action_distributions();
        assert(report@.actions[5] == xs@[5]@);
        xs[5].primary_share_basis_points()
    }

    /// Defensive adaptation in ResponseToFailure (index 6): the primary yield share.
    pub fn failure_adaptation_bp(report: &EmpiricalDistributionEstimateReport) -> (r: u16)
        ensures
            r == primary_share(report@, 6),
    {
        let xs = report.action_distributions();
        assert(report@.actions[6] == xs@[6]@);
        xs[6].primary_share_basis_points()
    }

    /// Composite adaptation score: the mean defensive shift across both adverse conditions.
    pub fn composite_adaptation_bp(report: &EmpiricalDistributionEstimateReport) -> (r: u16)
        ensures
            r == (primary_share(report@, 5) + primary_share(report@, 6)) / 2,
    {
        let s = Self::surprise_adaptation_bp(report) as u32;
        let f = Self::failure_adaptation_bp(report) as u32;
        ((s + f) / 2) as u16
    }
}

/// Unified behavioral measures summary report aggregating entropy,
/// consistency, sensitivity and adaptation.
#[derive(Clone, Debug, PartialEq, Eq, Hash)]
pub struct BehavioralMeasuresReport {
    schema: &'static str,
    profile_id: &'static str,
    mean_action_entropy_bp: u16,
    mean_communication_entropy_bp: u16,
    mean_action_consistency_bp: u16,
    mean_communication_consistency_bp: u16,
    surprise_sensitivity_bp: u16,
    sacrifice_sensitivity_bp: u16,
    failure_sensitivity_bp: u16,
    composite_adaptation_bp: u16,
}

/// The content of a measures report.
pub struct MeasuresView {
    pub schema: Seq<char>,
    pub profile_id: Seq<char>,
    pub mean_action_entropy_bp: int,
    pub mean_communication_entropy_bp: int,
    pub mean_action_consistency_bp: int,
    pub mean_communication_consistency_bp: int,
    pub surprise_sensitivity_bp: int,
    pub sacrifice_sensitivity_bp: int,
    pub failure_sensitivity_bp: int,
    pub composite_adaptation_bp: int,
}

impl View for BehavioralMeasuresReport {
    type V = MeasuresView;

    closed spec fn view(&self) -> MeasuresView {
        MeasuresView {
            schema: self.schema@,
            profile_id: self.profile_id@,
            mean_action_entropy_bp: self.mean_action_entropy_bp as int,
            mean_communication_entropy_bp: self.mean_communication_entropy_bp as int,
            mean_action_consistency_bp: self.mean_action_consistency_bp as int,
            mean_communication_consistency_bp: self.mean_communication_consistency_bp as int,
            surprise_sensitivity_bp: self.surprise_sensitivity_bp as int,
            sacrifice_sensitivity_bp: self.sacrifice_sensitivity_bp as int,
            failure_sensitivity_bp: self.failure_sensitivity_bp as int,
            composite_adaptation_bp: self.composite_adaptation_bp as int,
        }
    }
}

/// The measures report of an estimate report.
pub open spec fn measures_of(v: EstimateView) -> MeasuresView {
    MeasuresView {
        schema: BEHAVIORAL_MEASURES_SCHEMA@,
        profile_id: v.profile_id,
        mean_action_entropy_bp: action_diversity_sum(v, 7) / 7,
        mean_communication_entropy_bp: signal_diversity_sum(v, 7) / 7,
        mean_action_consistency_bp: action_consistency_sum(v, 7) / 7,
        mean_communication_consistency_bp: signal_consistency_sum(v, 7) / 7,
        surprise_sensitivity_bp: abs_diff(primary_share(v, 0), primary_share(v, 5)),
        sacrifice_sensitivity_bp: abs_diff(primary_share(v, 0), primary_share(v, 4)),
        failure_sensitivity_bp: abs_diff(primary_share(v, 0), primary_share(v, 6)),
        composite_adaptation_bp: (primary_share(v, 5) + primary_share(v, 6)) / 2,
    }
}

/// The Markdown rendering of a measures report.
pub open spec fn measures_markdown(v: MeasuresView) -> Seq<char> {
    "# Behavioral Measures Report\n\n- schema: "@ + v.schema + "\n- profile_id: "@ + v.profile_id
        + "\n- mean_action_entropy_bp: "@ + decimal(v.mean_action_entropy_bp as nat)
        + "\n- mean_communication_entropy_bp: "@ + decimal(v.mean_communication_entropy_bp as nat)
        + "\n- mean_action_consistency_bp: "@ + decimal(v.mean_action_consistency_bp as nat)
        + "\n- mean_communication_consistency_bp: "@ + decimal(
        v.mean_communication_consistency_bp as nat,
    ) + "\n- surprise_sensitivity_bp: "@ + decimal(v.surprise_sensitivity_bp as nat)
        + "\n- sacrifice_sensitivity_bp: "@ + decimal(v.sacrifice_sensitivity_bp as nat)
        + "\n- failure_sensitivity_bp: "@ + decimal(v.failure_sensitivity_bp as nat)
        + "\n- composite_adaptation_bp: "@ + decimal(v.composite_adaptation_bp as nat) + "\n"@
}

impl BehavioralMeasuresReport {
    /// Generate a unified behavioral measures report from an empirical estimate report.
    pub fn from_report(report: &EmpiricalDistributionEstimateReport) -> (r: Self)
        ensures
            r@ == measures_of(report@),
    {
        Self {
            schema: BEHAVIORAL_MEASURES_SCHEMA,
            profile_id: report.profile_id(),
            mean_action_entropy_bp: BehavioralEntropyMeasure::mean_action_entropy(report),
            mean_communication_entropy_bp: BehavioralEntropyMeasure::mean_communication_entropy(
                report,
            ),
            mean_action_consistency_bp: BehavioralConsistencyMeasure::mean_action_consistency(
                report,
            ),
            mean_communication_consistency_bp:
                BehavioralConsistencyMeasure::mean_communication_consistency(report),
            surprise_sensitivity_bp: BehavioralSensitivityMeasure::surprise_sensitivity(report),
            sacrifice_sensitivity_bp: BehavioralSensitivityMeasure::sacrifice_sensitivity(report),
            failure_sensitivity_bp: BehavioralSensitivityMeasure::failure_sensitivity(report),
            composite_adaptation_bp: BehavioralAdaptationMeasure::composite_adaptation_bp(report),
        }
    }

    pub fn schema(&self) -> (r: &'static str)
        ensures
            r@ == self@.schema,
    {
        self.schema
    }

    pub fn profile_id(&self) -> (r: &'static str)
        ensures
            r@ == self@.profile_id,
    {
        self.profile_id
    }

    pub fn mean_action_entropy_bp(&self) -> (r: u16)
        ensures
            r == self@.mean_action_entropy_bp,
    {
        self.mean_action_entropy_bp
    }

    pub fn mean_communication_entropy_bp(&self) -> (r: u16)
        ensures
            r == self@.mean_communication_entropy_bp,
    {
        self.mean_communication_entropy_bp
    }

    pub fn mean_action_consistency_bp(&self) -> (r: u16)
        ensures
            r == self@.mean_action_consistency_bp,
    {
        self.mean_action_consistency_bp
    }

    pub fn mean_communication_consistency_bp(&self) -> (r: u16)
        ensures
            r == self@.mean_communication_consistency_bp,
    {
        self.mean_communication_consistency_bp
    }

    pub fn surprise_sensitivity_bp(&self) -> (r: u16)
        ensures
            r == self@.surprise_sensitivity_bp,
    {
        self.surprise_sensitivity_bp
    }

    pub fn sacrifice_sensitivity_bp(&self) -> (r: u16)
        ensures
            r == self@.sacrifice_sensitivity_bp,
    {
        self.sacrifice_sensitivity_bp
    }

    pub fn failure_sensitivity_bp(&self) -> (r: u16)
        ensures
            r == self@.failure_sensitivity_bp,
    {
        self.failure_sensitivity_bp
    }

    pub fn composite_adaptation_bp(&self) -> (r: u16)
        ensures
            r == self@.composite_adaptation_bp,
    {
        self.composite_adaptation_bp
    }

    /// Render the unified behavioral measures report as Markdown.
    pub fn to_markdown(&self) -> (r: String)
        ensures
            r@ == measures_markdown(self@),
    {
        let mut out = String::new();
        push_str(&mut out, "# Behavioral Measures Report\n\n- schema: ");
        push_str(&mut out, self.schema);
        push_str(&mut out, "\n- profile_id: ");
        push_str(&mut out, self.profile_id);
        push_str(&mut out, "\n- mean_action_entropy_bp: ");
        push_decimal(&mut out, self.mean_action_entropy_bp as u64);
        push_str(&mut out, "\n- mean_communication_entropy_bp: ");
        push_decimal(&mut out, self.mean_communication_entropy_bp as u64);
        push_str(&mut out, "\n- mean_action_consistency_bp: ");
        push_decimal(&mut out, self.mean_action_consistency_bp as u64);
        push_str(&mut out, "\n- mean_communication_consistency_bp: ");
        push_decimal(&mut out, self.mean_communication_consistency_bp as u64);
        push_str(&mut out, "\n- surprise_sensitivity_bp: ");
        push_decimal(&mut out, self.surprise_sensitivity_bp as u64);
        push_str(&mut out, "\n- sacrifice_sensitivity_bp: ");
        push_decimal(&mut out, self.sacrifice_sensitivity_bp as u64);
        push_str(&mut out, "\n- failure_sensitivity_bp: ");
        push_decimal(&mut out, self.failure_sensitivity_bp as u64);
        push_str(&mut out, "\n- composite_adaptation_bp: ");
        push_decimal(&mut out, self.composite_adaptation_bp as u64);
        push_str(&mut out, "\n");
        assert(out@ =~= measures_markdown(self@));
        out
    }
}
} // verus!
