use fiobench::config::fio_args;
use fiobench::config::job_title;
use fiobench::config::render;
use fiobench::u64_to_dec;
use fiobench::FioConfig;

#[test]
fn decimal_rendering_exact() {
    assert_eq!(u64_to_dec(0), "0");
    assert_eq!(u64_to_dec(7), "7");
    assert_eq!(u64_to_dec(20), "20");
    assert_eq!(u64_to_dec(100), "100");
    assert_eq!(u64_to_dec(u64::MAX), "18446744073709551615");
}

#[test]
fn render_contains_runtime_and_numjobs_verbatim() {
    let c = FioConfig::new("/dev/sdx", "10G", 20, "randread", 100, "4k", 1, 8);
    let block = render(&c);
    assert!(block.contains("runtime=20"));
    assert!(block.contains("numjobs=1"));
}

#[test]
fn render_whole_block_exact() {
    let c = FioConfig::new("/data/f", "1G", 30, "randrw", 70, "64k", 2, 4);
    let block = render(&c);
    let expected = "[global]\n\
        thread=1\n\
        direct=1\n\
        timebased\n\
        runtime=30\n\
        numjobs=2\n\
        randrepeat=0\n\
        norandommap=1\n\
        group_reporting\n\
        \n\
        [config]\n\
        stonewall\n\
        rw=randrw\n\
        rwmixread=70\n\
        ioengine=libaio\n\
        iodepth=4\n\
        bs=64k\n\
        size=1G\n\
        filename=/data/f\n";
    assert_eq!(block, expected);
}

#[test]
fn job_title_joins_with_underscores() {
    assert_eq!(job_title("random_r", "4k", 8), "random_r_4k_8");
    assert_eq!(job_title("seq_w", "1M", 32), "seq_w_1M_32");
}

#[test]
fn fio_args_exact_flag_set() {
    let c = FioConfig::new("/dev/sdx", "10G", 20, "randread", 100, "4k", 8, 1);
    let title = job_title("random_r", "4k", 1);
    let args = fio_args(&title, &c);
    let expected = vec![
        "--name=random_r_4k_1",
        "--filename=/dev/sdx",
        "--size=10G",
        "--runtime=20",
        "--rw=randread",
        "--rwmixread=100",
        "--ioengine=libaio",
        "--bs=4k",
        "--iodepth=1",
        "--numjobs=8",
        "--direct=1",
        "--thread=1",
        "--norandommap=1",
        "--randrepeat=0",
        "--time_based",
        "--group_reporting",
        "--stonewall",
        "--output-format=json",
    ];
    assert_eq!(args, expected);
}
