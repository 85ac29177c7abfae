use fiobench::matrix::plan_invocations;

#[test]
fn matrix_order_per_job() {
    let jobs = vec!["random_r".to_string()];
    let bss = vec!["4k".to_string(), "64k".to_string()];
    let depths = vec![1u32, 4u32];
    let plan = plan_invocations(&jobs, &bss, &depths);
    assert_eq!(plan.len(), 4);
    let got: Vec<(String, u32)> = plan.iter().map(|p| (p.bs.clone(), p.iodepth)).collect();
    assert_eq!(
        got,
        vec![
            ("4k".to_string(), 1),
            ("4k".to_string(), 4),
            ("64k".to_string(), 1),
            ("64k".to_string(), 4),
        ]
    );
    for p in &plan {
        assert_eq!(p.job, "random_r");
    }
}

#[test]
fn matrix_jobs_outermost() {
    let jobs = vec!["a".to_string(), "b".to_string()];
    let bss = vec!["4k".to_string(), "64k".to_string()];
    let depths = vec![1u32, 4u32];
    let plan = plan_invocations(&jobs, &bss, &depths);
    assert_eq!(plan.len(), 8);
    let triples: Vec<(String, String, u32)> = plan
        .iter()
        .map(|p| (p.job.clone(), p.bs.clone(), p.iodepth))
        .collect();
    let mut expected = Vec::new();
    for job in ["a", "b"] {
        for bs in ["4k", "64k"] {
            for depth in [1u32, 4u32] {
                expected.push((job.to_string(), bs.to_string(), depth));
            }
        }
    }
    assert_eq!(triples, expected);
}

#[test]
fn matrix_empty_dimension_gives_no_runs() {
    let jobs = vec!["a".to_string()];
    let bss: Vec<String> = vec![];
    let depths = vec![1u32];
    assert_eq!(plan_invocations(&jobs, &bss, &depths).len(), 0);
}
