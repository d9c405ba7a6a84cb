//! Configuration of protocol simulations: the tenants, their employees and
//! question batches, and how the command line chooses them.
use vstd::prelude::*;

use crate::decimal::{decimal_text, parse_unsigned, parse_usize, push_decimal};
use crate::env::str_eq;
use crate::messages::ResponseType;
use crate::newtypes::{QuestionText, SegmentLabel};

verus! {

/// Configuration for a question batch in the simulation.
pub struct QuestionBatchSetup {
    pub question_text: QuestionText,
    pub response_type: ResponseType,
    pub segment_labels: Vec<SegmentLabel>,
}

/// Configuration for a simulated tenant (company).
pub struct TenantSetup {
    pub name: String,
    pub employee_count: usize,
    pub question_batches: Vec<QuestionBatchSetup>,
    pub max_tokens_per_batch: u32,
}

/// Top-level simulation configuration.
pub struct SimulationConfig {
    pub tenants: Vec<TenantSetup>,
    /// Maximum number of simultaneous protocol flows.
    pub concurrency: usize,
    /// Provision analytics infrastructure for post-run verification.
    pub with_analytics: bool,
}

/// Orchestrates protocol flows across the tenants of a running cluster.
pub struct SimulationRunner<C> {
    pub cluster: C,
    pub concurrency: usize,
}

impl<C> SimulationRunner<C> {
    /// A runner over `cluster` that keeps at most `concurrency` flows running.
    pub fn new(cluster: C, concurrency: usize) -> (r: Self)
        ensures
            r.cluster == cluster,
            r.concurrency == concurrency,
    {
        SimulationRunner { cluster, concurrency }
    }
}

/// The standard tenant of a simulation: one batch with one Scale5 question
/// about how work feels today, segmented by company, one token per batch.
pub open spec fn is_standard_tenant(t: TenantSetup, name: Seq<char>, employee_count: usize) -> bool {
    &&& t.name@ == name
    &&& t.employee_count == employee_count
    &&& t.max_tokens_per_batch == 1
    &&& t.question_batches@.len() == 1
    &&& t.question_batches@[0].question_text.0@ == "How are you feeling about work today?"@
    &&& t.question_batches@[0].response_type is Scale5
    &&& t.question_batches@[0].segment_labels@.len() == 1
    &&& t.question_batches@[0].segment_labels@[0].0@ == "company"@
}

/// The standard tenant named `name` with `employee_count` employees.
pub fn make_tenant(name: &str, employee_count: usize) -> (t: TenantSetup)
    ensures
        is_standard_tenant(t, name@, employee_count),
{
    let mut segment_labels: Vec<SegmentLabel> = Vec::new();
    segment_labels.push(SegmentLabel::from_text("company"));
    let mut question_batches: Vec<QuestionBatchSetup> = Vec::new();
    question_batches.push(
        QuestionBatchSetup {
            question_text: QuestionText::from_text("How are you feeling about work today?"),
            response_type: ResponseType::Scale5,
            segment_labels,
        },
    );
    TenantSetup {
        name: String::from_str(name),
        employee_count,
        question_batches,
        max_tokens_per_batch: 1,
    }
}

/// Whether `i` is the first position of `flag` among the arguments.
pub open spec fn first_position(args: Seq<String>, flag: Seq<char>, i: int) -> bool {
    &&& 0 <= i < args.len()
    &&& args[i]@ == flag
    &&& forall|j: int| 0 <= j < i ==> args[j]@ != flag
}

/// Whether `flag` occurs among the arguments.
pub open spec fn has_flag(args: Seq<String>, flag: Seq<char>) -> bool {
    exists|i: int| 0 <= i < args.len() && #[trigger] args[i]@ == flag
}

/// The value after the first occurrence of `flag`, parsed as a `usize`:
/// `None` when the flag is absent, is the last argument, or is followed by
/// something that is not a decimal `usize`.
pub open spec fn flag_value(args: Seq<String>, flag: Seq<char>) -> Option<int> {
    if exists|i: int| first_position(args, flag, i) {
        let i = choose|i: int| first_position(args, flag, i);
        if i + 1 < args.len() {
            parse_unsigned(args[i + 1]@, usize::MAX as int)
        } else {
            None
        }
    } else {
        None
    }
}

/// The value of `flag` on the command line, as [`flag_value`] describes it.
pub fn find_arg(args: &Vec<String>, flag: &str) -> (r: Option<usize>)
    ensures
        r matches Some(v) ==> flag_value(args@, flag@) == Some(v as int),
        r is None ==> flag_value(args@, flag@) is None,
{
    let mut i: usize = 0;
    while i < args.len()
        invariant
            i <= args@.len(),
            forall|j: int| 0 <= j < i ==> args@[j]@ != flag@,
        decreases args@.len() - i,
    {
        if str_eq(args[i].as_str(), flag) {
            proof {
                assert(first_position(args@, flag@, i as int));
                let k = choose|k: int| first_position(args@, flag@, k);
                assert(k == i) by {
                    if k < i {
                        assert(args@[k]@ != flag@);
                    } else if k > i {
                        assert(args@[i as int]@ != flag@);
                    }
                }
            }
            if i + 1 < args.len() {
                return parse_usize(args[i + 1].as_str());
            } else {
                return None;
            }
        }
        i = i + 1;
    }
    proof {
        assert(!exists|k: int| first_position(args@, flag@, k));
    }
    None
}

/// The value of `flag`, or `default` where [`flag_value`] gives none.
pub open spec fn flag_or(args: Seq<String>, flag: Seq<char>, default: int) -> int {
    match flag_value(args, flag) {
        Some(v) => v,
        None => default,
    }
}

/// The name of the `i`-th generated tenant: `Tenant-` and `i` in decimal.
pub open spec fn generated_tenant_name(i: nat) -> Seq<char> {
    "Tenant-"@ + decimal_text(i)
}

/// What the command line asks for. With `--stress` anywhere: three standard
/// tenants (Acme Corp, Widgets Inc, Gadgets Ltd) of 500 employees and
/// concurrency 200. Otherwise `--tenants` standard tenants (default 1) named
/// `Tenant-0`, `Tenant-1`, ..., of `--employees` employees each (default 10),
/// and concurrency `--concurrency` (default 10). Analytics always on.
pub open spec fn config_matches(c: SimulationConfig, args: Seq<String>) -> bool {
    &&& c.with_analytics
    &&& if has_flag(args, "--stress"@) {
        &&& c.concurrency == 200
        &&& c.tenants@.len() == 3
        &&& is_standard_tenant(c.tenants@[0], "Acme Corp"@, 500)
        &&& is_standard_tenant(c.tenants@[1], "Widgets Inc"@, 500)
        &&& is_standard_tenant(c.tenants@[2], "Gadgets Ltd"@, 500)
    } else {
        let employees = flag_or(args, "--employees"@, 10);
        &&& c.concurrency == flag_or(args, "--concurrency"@, 10)
        &&& c.tenants@.len() == flag_or(args, "--tenants"@, 1)
        &&& forall|i: int|
            0 <= i < c.tenants@.len() ==> #[trigger] is_standard_tenant(
                c.tenants@[i],
                generated_tenant_name(i as nat),
                employees as usize,
            )
    }
}

/// The simulation that the command-line arguments `args` ask for, as
/// [`config_matches`] describes it.
pub fn parse_args(args: &Vec<String>) -> (c: SimulationConfig)
    ensures
        config_matches(c, args@),
{
    let mut stress = false;
    let mut i: usize = 0;
    while i < args.len()
        invariant
            i <= args@.len(),
            stress <==> exists|j: int| 0 <= j < i && #[trigger] args@[j]@ == "--stress"@,
        decreases args@.len() - i,
    {
        if str_eq(args[i].as_str(), "--stress") {
            stress = true;
        }
        i = i + 1;
    }
    if stress {
        let mut tenants: Vec<TenantSetup> = Vec::new();
        tenants.push(make_tenant("Acme Corp", 500));
        tenants.push(make_tenant("Widgets Inc", 500));
        tenants.push(make_tenant("Gadgets Ltd", 500));
        return SimulationConfig { tenants, concurrency: 200, with_analytics: true };
    }
    let employees: usize = match find_arg(args, "--employees") {
        Some(v) => v,
        None => 10,
    };
    let concurrency: usize = match find_arg(args, "--concurrency") {
        Some(v) => v,
        None => 10,
    };
    let tenants_count: usize = match find_arg(args, "--tenants") {
        Some(v) => v,
        None => 1,
    };
    let mut tenants: Vec<TenantSetup> = Vec::new();
    let mut k: usize = 0;
    while k < tenants_count
        invariant
            k <= tenants_count,
            tenants@.len() == k,
            forall|j: int|
                0 <= j < k ==> #[trigger] is_standard_tenant(
                    tenants@[j],
                    generated_tenant_name(j as nat),
                    employees,
                ),
        decreases tenants_count - k,
    {
        let mut name = String::from_str("Tenant-");
        push_decimal(&mut name, k);
        tenants.push(make_tenant(name.as_str(), employees));
        k = k + 1;
    }
    SimulationConfig { tenants, concurrency, with_analytics: true }
}

} // verus!
