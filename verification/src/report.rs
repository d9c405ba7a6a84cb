//! Simulation reports: pass/fail counts and timing percentiles over the
//! results of simulated protocol flows, overall and per tenant.
//!
//! Durations are whole nanoseconds.
use vstd::prelude::*;
use vstd::relations::{sorted_by, total_ordering};

use crate::env::str_eq;

verus! {

broadcast use vstd::seq_lib::group_to_multiset_ensures;

/// Per-step timings of one simulated flow (nanoseconds).
#[derive(Debug, Clone, Copy, PartialEq, Eq)]
pub struct FlowTimings {
    pub authenticate: u128,
    pub fetch_questions: u128,
    pub blind_and_sign: u128,
    pub encrypt_and_submit: u128,
    pub total: u128,
}

/// How a simulated flow ended.
#[derive(Debug, Clone, PartialEq, Eq)]
pub enum FlowOutcome {
    Success,
    Failed { step: String, error: String },
}

/// The result of one simulated employee's flow.
#[derive(Debug, Clone)]
pub struct FlowResult {
    pub tenant_name: String,
    pub employee_id: String,
    pub outcome: FlowOutcome,
    pub timings: FlowTimings,
}

/// Percentile statistics for a timing measurement (nanoseconds).
#[derive(Debug, Clone, Copy, PartialEq, Eq)]
pub struct PercentileStats {
    pub p50: u128,
    pub p90: u128,
    pub p99: u128,
    pub max: u128,
}

/// Aggregate timing statistics across flows.
#[derive(Debug, Clone, Copy, PartialEq, Eq)]
pub struct AggregateTimings {
    pub authenticate: PercentileStats,
    pub fetch_questions: PercentileStats,
    pub blind_and_sign: PercentileStats,
    pub encrypt_and_submit: PercentileStats,
    pub total_flow: PercentileStats,
}

/// Per-tenant simulation results.
#[derive(Debug)]
pub struct TenantReport {
    pub tenant_name: String,
    pub total_flows: usize,
    pub successful: usize,
    pub failed: usize,
    pub timing: AggregateTimings,
}

/// Complete simulation results.
#[derive(Debug)]
pub struct SimulationReport {
    pub total_flows: usize,
    pub successful: usize,
    pub failed: usize,
    pub errors: Vec<FlowResult>,
    pub timing: AggregateTimings,
    pub per_tenant: Vec<TenantReport>,
    /// Wall-clock time of the whole simulation (nanoseconds).
    pub duration: u128,
}

/// Which step's timing a statistic is about.
#[derive(Debug, Clone, Copy, PartialEq, Eq)]
pub enum TimingField {
    Authenticate,
    FetchQuestions,
    BlindAndSign,
    EncryptAndSubmit,
    Total,
}

/// One step's timing.
pub open spec fn field_of(t: FlowTimings, f: TimingField) -> u128 {
    match f {
        TimingField::Authenticate => t.authenticate,
        TimingField::FetchQuestions => t.fetch_questions,
        TimingField::BlindAndSign => t.blind_and_sign,
        TimingField::EncryptAndSubmit => t.encrypt_and_submit,
        TimingField::Total => t.total,
    }
}

/// The order used for timings.
pub open spec fn timing_order() -> spec_fn(u128, u128) -> bool {
    |x: u128, y: u128| x <= y
}

/// The values in ascending order.
pub open spec fn ascending(values: Seq<u128>) -> Seq<u128> {
    values.sort_by(timing_order())
}

/// The 50th, 90th and 99th percentiles and the maximum of the values: with
/// the `n` values in ascending order, the elements at indices `n*50/100`,
/// `n*90/100`, `min(n*99/100, n-1)` and `n-1`. All zero for no values.
pub open spec fn percentiles(values: Seq<u128>) -> PercentileStats {
    if values.len() == 0 {
        PercentileStats { p50: 0, p90: 0, p99: 0, max: 0 }
    } else {
        let s = ascending(values);
        let n = values.len() as int;
        let i99 = if n * 99 / 100 < n - 1 { n * 99 / 100 } else { n - 1 };
        PercentileStats { p50: s[n * 50 / 100], p90: s[n * 90 / 100], p99: s[i99], max: s[n - 1] }
    }
}

/// One step's timings across flows.
pub open spec fn field_values(timings: Seq<FlowTimings>, f: TimingField) -> Seq<u128> {
    timings.map_values(|t: FlowTimings| field_of(t, f))
}

/// Percentiles of every step across flows.
pub open spec fn aggregate(timings: Seq<FlowTimings>) -> AggregateTimings {
    AggregateTimings {
        authenticate: percentiles(field_values(timings, TimingField::Authenticate)),
        fetch_questions: percentiles(field_values(timings, TimingField::FetchQuestions)),
        blind_and_sign: percentiles(field_values(timings, TimingField::BlindAndSign)),
        encrypt_and_submit: percentiles(field_values(timings, TimingField::EncryptAndSubmit)),
        total_flow: percentiles(field_values(timings, TimingField::Total)),
    }
}

/// Whether a flow succeeded.
pub open spec fn is_success(r: FlowResult) -> bool {
    r.outcome is Success
}

/// Whether a flow failed.
pub open spec fn is_failure(r: FlowResult) -> bool {
    r.outcome is Failed
}

/// Whether a flow belongs to the tenant named `name`.
pub open spec fn of_tenant(r: FlowResult, name: Seq<char>) -> bool {
    r.tenant_name@ == name
}

/// The successful flows, in order.
pub open spec fn successes(results: Seq<FlowResult>) -> Seq<FlowResult> {
    results.filter(|r: FlowResult| is_success(r))
}

/// The failed flows, in order.
pub open spec fn failures(results: Seq<FlowResult>) -> Seq<FlowResult> {
    results.filter(|r: FlowResult| is_failure(r))
}

/// The timings of the successful flows, in order.
pub open spec fn success_timings(results: Seq<FlowResult>) -> Seq<FlowTimings> {
    successes(results).map_values(|r: FlowResult| r.timings)
}

/// The flows of the tenant named `name`, in order.
pub open spec fn tenant_results(results: Seq<FlowResult>, name: Seq<char>) -> Seq<FlowResult> {
    results.filter(|r: FlowResult| of_tenant(r, name))
}

/// What the report of a tenant says: its name, how many of its flows ran,
/// passed and failed, and the percentiles of its successful flows.
pub open spec fn tenant_report_matches(t: TenantReport, results: Seq<FlowResult>, name: Seq<char>) -> bool {
    let mine = tenant_results(results, name);
    &&& t.tenant_name@ == name
    &&& t.total_flows == mine.len()
    &&& t.successful == successes(mine).len()
    &&& t.failed == t.total_flows - t.successful
    &&& t.timing == aggregate(success_timings(mine))
}

proof fn lemma_leq_total()
    ensures
        total_ordering(timing_order()),
{
}

/// Insert `x` into the ascending vector `v`, keeping it ascending.
fn insert_sorted(v: &mut Vec<u128>, x: u128)
    requires
        sorted_by(old(v)@, timing_order()),
    ensures
        sorted_by(final(v)@, timing_order()),
        final(v)@.to_multiset() == old(v)@.to_multiset().insert(x),
{
    let mut p: usize = 0;
    while p < v.len() && v[p] <= x
        invariant
            p <= v@.len(),
            forall|k: int| 0 <= k < p ==> v@[k] <= x,
        decreases v@.len() - p,
    {
        p = p + 1;
    }
    let ghost before = v@;
    v.insert(p, x);
    proof {
        vstd::seq_lib::to_multiset_insert(before, p as int, x);
        assert(v@ == before.insert(p as int, x));
        assert forall|i: int, j: int| 0 <= i < j < v@.len() implies #[trigger] timing_order()(v@[i], v@[j]) by {
            if j < p {
                assert(timing_order()(before[i], before[j]));
            } else if j == p {
                assert(v@[i] == before[i]);
            } else if i == p {
                assert(v@[j] == before[j - 1]);
                assert(!(before[p as int] <= x));
                if j - 1 > p {
                    assert(timing_order()(before[p as int], before[j - 1]));
                }
            } else if i < p {
                assert(v@[i] == before[i]);
                assert(v@[j] == before[j - 1]);
                assert(timing_order()(before[i], before[j - 1]));
            } else {
                assert(timing_order()(before[i - 1], before[j - 1]));
            }
        }
    }
}

/// One step's timings of `timings`, in ascending order.
fn sorted_field_values(timings: &Vec<FlowTimings>, f: TimingField) -> (r: Vec<u128>)
    ensures
        r@ == ascending(field_values(timings@, f)),
{
    let ghost vals = field_values(timings@, f);
    let mut out: Vec<u128> = Vec::new();
    let mut i: usize = 0;
    while i < timings.len()
        invariant
            i <= timings@.len(),
            vals == field_values(timings@, f),
            sorted_by(out@, timing_order()),
            out@.to_multiset() == vals.take(i as int).to_multiset(),
        decreases timings@.len() - i,
    {
        let t = timings[i];
        let x = match f {
            TimingField::Authenticate => t.authenticate,
            TimingField::FetchQuestions => t.fetch_questions,
            TimingField::BlindAndSign => t.blind_and_sign,
            TimingField::EncryptAndSubmit => t.encrypt_and_submit,
            TimingField::Total => t.total,
        };
        insert_sorted(&mut out, x);
        proof {
            assert(vals.take(i + 1) =~= vals.take(i as int).push(x));
            vstd::seq_lib::to_multiset_build(vals.take(i as int), x);
        }
        i = i + 1;
    }
    proof {
        assert(vals.take(i as int) =~= vals);
        vals.lemma_sort_by_ensures(timing_order());
        lemma_leq_total();
        vstd::seq_lib::lemma_sorted_unique(out@, ascending(vals), timing_order());
    }
    out
}

/// Percentile statistics of one step's timings.
pub fn percentiles_of(timings: &Vec<FlowTimings>, f: TimingField) -> (r: PercentileStats)
    ensures
        r == percentiles(field_values(timings@, f)),
{
    if timings.len() == 0 {
        return PercentileStats { p50: 0, p90: 0, p99: 0, max: 0 };
    }
    let values = sorted_field_values(timings, f);
    proof {
        let vals = field_values(timings@, f);
        vals.lemma_sort_by_ensures(timing_order());
        assert(vals.to_multiset().len() == vals.len());
        assert(values@.to_multiset().len() == values@.len());
    }
    let n: usize = values.len();
    let i50: usize = ((n as u128) * 50 / 100) as usize;
    let i90: usize = ((n as u128) * 90 / 100) as usize;
    let q99: usize = ((n as u128) * 99 / 100) as usize;
    let i99: usize = if q99 < n - 1 { q99 } else { n - 1 };
    PercentileStats { p50: values[i50], p90: values[i90], p99: values[i99], max: values[n - 1] }
}

/// Percentiles of every step.
pub fn compute_aggregate(timings: &Vec<FlowTimings>) -> (r: AggregateTimings)
    ensures
        r == aggregate(timings@),
{
    AggregateTimings {
        authenticate: percentiles_of(timings, TimingField::Authenticate),
        fetch_questions: percentiles_of(timings, TimingField::FetchQuestions),
        blind_and_sign: percentiles_of(timings, TimingField::BlindAndSign),
        encrypt_and_submit: percentiles_of(timings, TimingField::EncryptAndSubmit),
        total_flow: percentiles_of(timings, TimingField::Total),
    }
}

/// How the filtered views of the flows grow when one more flow is appended.
proof fn lemma_push_flow(s: Seq<FlowResult>, x: FlowResult, name: Seq<char>)
    ensures
        successes(s.push(x)) == if is_success(x) { successes(s).push(x) } else { successes(s) },
        failures(s.push(x)) == if is_failure(x) { failures(s).push(x) } else { failures(s) },
        success_timings(s.push(x)) == if is_success(x) {
            success_timings(s).push(x.timings)
        } else {
            success_timings(s)
        },
        tenant_results(s.push(x), name) == if of_tenant(x, name) {
            tenant_results(s, name).push(x)
        } else {
            tenant_results(s, name)
        },
{
    s.lemma_filter_push(x, |r: FlowResult| is_success(r));
    s.lemma_filter_push(x, |r: FlowResult| is_failure(r));
    s.lemma_filter_push(x, |r: FlowResult| of_tenant(r, name));
    if is_success(x) {
        assert(successes(s).push(x).map_values(|r: FlowResult| r.timings)
            =~= success_timings(s).push(x.timings));
    }
}

/// A copy of a flow result.
fn copy_result(r: &FlowResult) -> (c: FlowResult)
    ensures
        c == *r,
{
    let outcome = match &r.outcome {
        FlowOutcome::Success => FlowOutcome::Success,
        FlowOutcome::Failed { step, error } => FlowOutcome::Failed {
            step: step.clone(),
            error: error.clone(),
        },
    };
    FlowResult {
        tenant_name: r.tenant_name.clone(),
        employee_id: r.employee_id.clone(),
        outcome,
        timings: r.timings,
    }
}

/// The report of the tenant named `name` over `results`.
fn tenant_report(results: &Vec<FlowResult>, name: &String) -> (t: TenantReport)
    ensures
        tenant_report_matches(t, results@, name@),
{
    let mut total: usize = 0;
    let mut succ: usize = 0;
    let mut timings: Vec<FlowTimings> = Vec::new();
    let mut i: usize = 0;
    while i < results.len()
        invariant
            i <= results@.len(),
            total == tenant_results(results@.take(i as int), name@).len(),
            succ == successes(tenant_results(results@.take(i as int), name@)).len(),
            timings@ == success_timings(tenant_results(results@.take(i as int), name@)),
            total <= i,
            succ <= total,
        decreases results@.len() - i,
    {
        let r = &results[i];
        proof {
            assert(results@.take(i + 1) =~= results@.take(i as int).push(results@[i as int]));
            lemma_push_flow(results@.take(i as int), results@[i as int], name@);
            lemma_push_flow(tenant_results(results@.take(i as int), name@), results@[i as int], name@);
        }
        if str_eq(r.tenant_name.as_str(), name.as_str()) {
            total = total + 1;
            if matches!(r.outcome, FlowOutcome::Success) {
                succ = succ + 1;
                timings.push(r.timings);
            }
        }
        i = i + 1;
    }
    proof {
        assert(results@.take(i as int) =~= results@);
    }
    TenantReport {
        tenant_name: name.clone(),
        total_flows: total,
        successful: succ,
        failed: total - succ,
        timing: compute_aggregate(&timings),
    }
}

/// What a report built from `results` says.
pub open spec fn report_matches(
    report: SimulationReport,
    results: Seq<FlowResult>,
    duration: u128,
    tenant_names: Seq<String>,
) -> bool {
    &&& report.total_flows == results.len()
    &&& report.successful == successes(results).len()
    &&& report.failed == report.total_flows - report.successful
    &&& report.errors@ == failures(results)
    &&& report.timing == aggregate(success_timings(results))
    &&& report.per_tenant@.len() == tenant_names.len()
    &&& forall|k: int|
        0 <= k < tenant_names.len() ==> #[trigger] tenant_report_matches(
            report.per_tenant@[k],
            results,
            tenant_names[k]@,
        )
    &&& report.duration == duration
}

impl SimulationReport {
    /// Build a report from collected flow results: overall counts, the
    /// failed flows in their order, percentiles over the successful flows,
    /// and one report per named tenant, in the order of `tenant_names`.
    pub fn from_results(results: Vec<FlowResult>, duration: u128, tenant_names: &Vec<String>) -> (r: Self)
        ensures
            report_matches(r, results@, duration, tenant_names@),
    {
        let mut succ: usize = 0;
        let mut timings: Vec<FlowTimings> = Vec::new();
        let mut errors: Vec<FlowResult> = Vec::new();
        let mut i: usize = 0;
        while i < results.len()
            invariant
                i <= results@.len(),
                succ == successes(results@.take(i as int)).len(),
                timings@ == success_timings(results@.take(i as int)),
                errors@ == failures(results@.take(i as int)),
                succ <= i,
            decreases results@.len() - i,
        {
            let r = &results[i];
            proof {
                assert(results@.take(i + 1) =~= results@.take(i as int).push(results@[i as int]));
                lemma_push_flow(results@.take(i as int), results@[i as int], Seq::empty());
            }
            match &r.outcome {
                FlowOutcome::Success => {
                    succ = succ + 1;
                    timings.push(r.timings);
                },
                FlowOutcome::Failed { .. } => {
                    errors.push(copy_result(r));
                },
            }
            i = i + 1;
        }
        proof {
            assert(results@.take(i as int) =~= results@);
        }
        let timing = compute_aggregate(&timings);
        let mut per_tenant: Vec<TenantReport> = Vec::new();
        let mut k: usize = 0;
        while k < tenant_names.len()
            invariant
                k <= tenant_names@.len(),
                per_tenant@.len() == k,
                forall|j: int|
                    0 <= j < k ==> #[trigger] tenant_report_matches(
                        per_tenant@[j],
                        results@,
                        tenant_names@[j]@,
                    ),
            decreases tenant_names@.len() - k,
        {
            let t = tenant_report(&results, &tenant_names[k]);
            per_tenant.push(t);
            k = k + 1;
        }
        SimulationReport {
            total_flows: results.len(),
            successful: succ,
            failed: results.len() - succ,
            errors,
            timing,
            per_tenant,
            duration,
        }
    }
}

/// The statistics are ordered: p50 <= p90 <= p99 <= max, and each is one
/// of the values (all zero for no values).
pub proof fn percentiles_are_ordered(values: Seq<u128>)
    ensures
        percentiles(values).p50 <= percentiles(values).p90,
        percentiles(values).p90 <= percentiles(values).p99,
        percentiles(values).p99 <= percentiles(values).max,
        values.len() > 0 ==> values.contains(percentiles(values).p50),
        values.len() > 0 ==> values.contains(percentiles(values).max),
{
    if values.len() > 0 {
        let s = ascending(values);
        let n = values.len() as int;
        values.lemma_sort_by_ensures(timing_order());
        lemma_leq_total();
        assert(values.to_multiset().len() == values.len());
        assert(s.to_multiset().len() == s.len());
        let i50 = n * 50 / 100;
        let i90 = n * 90 / 100;
        let q99 = n * 99 / 100;
        let i99 = if q99 < n - 1 { q99 } else { n - 1 };
        assert(0 <= i50 <= i90 <= q99 <= n) by (nonlinear_arith)
            requires
                n > 0,
                i50 == n * 50 / 100,
                i90 == n * 90 / 100,
                q99 == n * 99 / 100,
        {}
        assert(i90 <= i99) by {
            assert(i90 < n) by (nonlinear_arith)
                requires
                    n > 0,
                    i90 == n * 90 / 100,
            {}
        }
        if i50 < i90 {
            assert(timing_order()(s[i50], s[i90]));
        }
        if i90 < i99 {
            assert(timing_order()(s[i90], s[i99]));
        }
        if i99 < n - 1 {
            assert(timing_order()(s[i99], s[n - 1]));
        }
        assert(s.contains(s[i50]));
        assert(s.contains(s[n - 1]));
        assert(s.to_multiset().count(s[i50]) > 0);
        assert(values.to_multiset().count(s[i50]) > 0);
        assert(s.to_multiset().count(s[n - 1]) > 0);
        assert(values.to_multiset().count(s[n - 1]) > 0);
    }
}

} // verus!
