use pulse::messages::ResponseType;
use pulse::simulation::{find_arg, make_tenant, parse_args, SimulationRunner};

fn args(list: &[&str]) -> Vec<String> {
    list.iter().map(|s| s.to_string()).collect()
}

#[test]
fn make_tenant_is_standard() {
    let t = make_tenant("Acme Corp", 500);
    assert_eq!(t.name, "Acme Corp");
    assert_eq!(t.employee_count, 500);
    assert_eq!(t.max_tokens_per_batch, 1);
    assert_eq!(t.question_batches.len(), 1);
    let b = &t.question_batches[0];
    assert_eq!(b.question_text.0, "How are you feeling about work today?");
    assert_eq!(b.response_type, ResponseType::Scale5);
    assert_eq!(b.segment_labels.len(), 1);
    assert_eq!(b.segment_labels[0].0, "company");
}

#[test]
fn find_arg_reads_the_value_after_the_flag() {
    let a = args(&["pulse-simulate", "--employees", "100", "--concurrency", "50"]);
    assert_eq!(find_arg(&a, "--employees"), Some(100));
    assert_eq!(find_arg(&a, "--concurrency"), Some(50));
    assert_eq!(find_arg(&a, "--tenants"), None);
    // flag last, value not a number, first occurrence wins
    assert_eq!(find_arg(&args(&["x", "--tenants"]), "--tenants"), None);
    assert_eq!(find_arg(&args(&["x", "--tenants", "many"]), "--tenants"), None);
    assert_eq!(find_arg(&args(&["x", "--tenants", "-1"]), "--tenants"), None);
    assert_eq!(find_arg(&args(&["x", "--tenants", "+7"]), "--tenants"), Some(7));
    assert_eq!(find_arg(&args(&["--tenants", "2", "--tenants", "3"]), "--tenants"), Some(2));
}

#[test]
fn parse_args_defaults() {
    let c = parse_args(&args(&["pulse-simulate"]));
    assert_eq!(c.concurrency, 10);
    assert!(c.with_analytics);
    assert_eq!(c.tenants.len(), 1);
    assert_eq!(c.tenants[0].name, "Tenant-0");
    assert_eq!(c.tenants[0].employee_count, 10);
}

#[test]
fn parse_args_named_counts() {
    let c = parse_args(&args(&["sim", "--tenants", "12", "--employees", "3", "--concurrency", "4"]));
    assert_eq!(c.concurrency, 4);
    assert_eq!(c.tenants.len(), 12);
    assert_eq!(c.tenants[10].name, "Tenant-10");
    assert_eq!(c.tenants[11].name, "Tenant-11");
    assert!(c.tenants.iter().all(|t| t.employee_count == 3));
}

#[test]
fn parse_args_stress() {
    let c = parse_args(&args(&["sim", "--employees", "1", "--stress"]));
    assert_eq!(c.concurrency, 200);
    let names: Vec<&str> = c.tenants.iter().map(|t| t.name.as_str()).collect();
    assert_eq!(names, vec!["Acme Corp", "Widgets Inc", "Gadgets Ltd"]);
    assert!(c.tenants.iter().all(|t| t.employee_count == 500));
}

#[test]
fn runner_keeps_its_cluster() {
    let r = SimulationRunner::new("cluster", 7);
    assert_eq!(r.cluster, "cluster");
    assert_eq!(r.concurrency, 7);
}
