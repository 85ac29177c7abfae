use fiobench::find_fio_pattern;
use fiobench::registry::pattern_names;
use fiobench::registry::pattern_report;
use fiobench::registry::unknown_pattern_message;

#[test]
fn lookup_known_presets_match_table() {
    let cases = vec![
        ("random_r", "randread", 100),
        ("random_w", "randwrite", 0),
        ("random_7r3w", "randrw", 70),
        ("seq_r", "read", 100),
        ("seq_w", "write", 0),
        ("seq_7r3w", "rw", 70),
        ("seq_9r1w", "rw", 90),
    ];
    for (name, mode, mix) in cases {
        let c = find_fio_pattern(&name.to_string())
            .unwrap_or_else(|| panic!("{} should be registered", name));
        assert_eq!(c.rw, mode);
        assert_eq!(c.rwmixread, mix);
        assert_eq!(c.ioengine, "libaio");
        assert_eq!(c.runtime, 20);
        assert_eq!(c.numjobs, 1);
        assert_eq!(c.iodepth, 8);
        assert_eq!(c.bs, "1M");
        assert_eq!(c.size, "10G");
        assert_eq!(c.filename, "/dev/sdzz");
        assert_eq!(c.thread, 1);
        assert_eq!(c.direct, 1);
        assert_eq!(c.norandommap, 1);
        assert_eq!(c.randrepeat, 0);
        assert!(c.time_based);
        assert!(c.group_reporting);
        assert!(c.stonewall);
    }
}

#[test]
fn lookup_unregistered_returns_none() {
    assert!(find_fio_pattern(&"bogus".to_string()).is_none());
    assert!(find_fio_pattern(&"".to_string()).is_none());
    assert!(find_fio_pattern(&"random_R".to_string()).is_none());
    assert!(find_fio_pattern(&"random_r ".to_string()).is_none());
}

#[test]
fn list_names_each_registry_key_once() {
    let names = pattern_names();
    let expected = vec![
        "random_r",
        "random_w",
        "random_7r3w",
        "seq_r",
        "seq_w",
        "seq_7r3w",
        "seq_9r1w",
    ];
    assert_eq!(names.len(), expected.len());
    for key in &expected {
        assert_eq!(
            names.iter().filter(|n| n.as_str() == *key).count(),
            1,
            "{} should be listed exactly once",
            key
        );
    }
    for name in &names {
        assert!(find_fio_pattern(name).is_some());
    }
}

#[test]
fn print_unknown_pattern_gives_message() {
    assert_eq!(
        unknown_pattern_message("nope"),
        "nope is Unknown fio pattern"
    );
    let lines = pattern_report(&vec!["nope".to_string()]);
    assert_eq!(lines, vec!["nope is Unknown fio pattern".to_string()]);
}

#[test]
fn print_known_pattern_gives_config_block() {
    let lines = pattern_report(&vec!["random_r".to_string(), "what".to_string()]);
    assert_eq!(lines.len(), 2);
    assert!(lines[0].contains("rw=randread\n"));
    assert!(lines[0].contains("rwmixread=100\n"));
    assert!(lines[0].starts_with("[global]\n"));
    assert_eq!(lines[1], "what is Unknown fio pattern");
}
