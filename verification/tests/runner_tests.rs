use fiobench::lists::parse_u32;
use fiobench::lists::parse_u32_list;
use fiobench::lists::split_commas;
use fiobench::runner::banner;
use fiobench::runner::prepare_job;

#[test]
fn prepare_known_job_combines_preset_and_overrides() {
    let plan = prepare_job(&"random_r".to_string(), "/dev/sdx", "1G", 30, "4k", 8, 1)
        .expect("registered name");
    assert_eq!(plan.config.rw, "randread");
    assert_eq!(plan.config.rwmixread, 100);
    assert_eq!(plan.config.filename, "/dev/sdx");
    assert_eq!(plan.config.size, "1G");
    assert_eq!(plan.config.runtime, 30);
    assert_eq!(plan.config.bs, "4k");
    assert_eq!(plan.config.numjobs, 8);
    assert_eq!(plan.config.iodepth, 1);
    assert_eq!(plan.title, "random_r_4k_1");
    assert!(plan.rendered.contains("runtime=30"));
    assert!(plan.rendered.contains("rw=randread"));
    assert_eq!(plan.args.len(), 18);
    assert_eq!(plan.args[0], "--name=random_r_4k_1");
    assert_eq!(plan.args[17], "--output-format=json");
}

#[test]
fn prepare_unknown_job_never_starts() {
    assert!(prepare_job(&"bogus".to_string(), "/dev/sdx", "1G", 30, "4k", 8, 1).is_none());
}

#[test]
fn banner_wraps_title() {
    assert_eq!(
        banner("random_r_4k_1"),
        "===========random_r_4k_1=============="
    );
}

#[test]
fn split_commas_exact_pieces() {
    assert_eq!(split_commas("4k,64k"), vec!["4k", "64k"]);
    assert_eq!(split_commas("1,4,8,32"), vec!["1", "4", "8", "32"]);
    assert_eq!(split_commas("solo"), vec!["solo"]);
    assert_eq!(split_commas(""), vec![""]);
    assert_eq!(split_commas("a,,b"), vec!["a", "", "b"]);
    assert_eq!(split_commas(",x,"), vec!["", "x", ""]);
}

#[test]
fn parse_u32_exact() {
    assert_eq!(parse_u32("8"), Some(8));
    assert_eq!(parse_u32("0"), Some(0));
    assert_eq!(parse_u32("4294967295"), Some(u32::MAX));
    assert_eq!(parse_u32("4294967296"), None);
    assert_eq!(parse_u32(""), None);
    assert_eq!(parse_u32("1x"), None);
    assert_eq!(parse_u32("-1"), None);
    assert_eq!(parse_u32(" 1"), None);
}

#[test]
fn parse_u32_list_all_or_nothing() {
    let ok = parse_u32_list(&vec!["1".to_string(), "4".to_string(), "32".to_string()]);
    assert_eq!(ok, Some(vec![1, 4, 32]));
    let bad = parse_u32_list(&vec!["1".to_string(), "x".to_string()]);
    assert_eq!(bad, None);
    assert_eq!(parse_u32_list(&vec![]), Some(vec![]));
}
