use fiobench::numbers::format_fixed;
use fiobench::report::metric_from_text;
use fiobench::numbers::parse_fixed6;
use fiobench::numbers::round_div;
use fiobench::report::report_lines;
use fiobench::report::FioError;

fn direction_json(
    iops: &str,
    bw: &str,
    mean: &str,
    p90: &str,
    p95: &str,
    p99: &str,
    p999: &str,
) -> String {
    let mut s = format!("{{\"iops\":{},\"bw\":{},\"lat_ns\":{{\"mean\":{}}},", iops, bw, mean);
    s.push_str(&format!(
        "\"clat_ns\":{{\"percentile\":{{\"90.000000\":{},\"95.000000\":{},",
        p90, p95
    ));
    s.push_str(&format!(
        "\"99.000000\":{},\"99.900000\":{}}}}}}}",
        p99, p999
    ));
    s
}

fn job_json(read: &str, write: &str) -> String {
    format!("{{\"jobs\":[{{\"read\":{},\"write\":{}}}]}}", read, write)
}

#[test]
fn synthetic_result_read_row_converts_units() {
    let read = direction_json(
        "100.0",
        "2048.0",
        "1000000.0",
        "2000000.0",
        "3000000.0",
        "4000000.0",
        "5000000.0",
    );
    let write = direction_json(
        "50.5",
        "1024.0",
        "500000.0",
        "1500000.0",
        "2500000.0",
        "3500000.0",
        "4500000.0",
    );
    let lines = report_lines(&job_json(&read, &write)).expect("well-formed result");
    assert_eq!(lines.len(), 7);
    assert_eq!(lines[0], "-".repeat(95));
    assert_eq!(
        lines[1],
        "| type|      iops| bandwidth| latency_avg| latency_90%| latency_95%| latency_99%|latency_99.9%|"
    );
    let sep = "+-----+----------+----------+------------+------------+------------+------------+-------------+";
    assert_eq!(lines[2], sep);
    assert_eq!(
        lines[3],
        "| read|    100.00|      2.00|       1.000|       2.000|       3.000|       4.000|        5.000|"
    );
    assert_eq!(lines[4], sep);
    assert_eq!(
        lines[5],
        "|write|     50.50|      1.00|       0.500|       1.500|       2.500|       3.500|        4.500|"
    );
    assert_eq!(lines[6], "-".repeat(95));
}

#[test]
fn integer_metrics_are_accepted() {
    let read = direction_json("100", "2048", "1000000", "1", "2", "3", "4");
    let write = direction_json("0", "0", "0", "0", "0", "0", "0");
    let lines = report_lines(&job_json(&read, &write)).expect("well-formed result");
    assert!(lines[3].starts_with("| read|    100.00|      2.00|       1.000|"));
    assert!(lines[5].starts_with("|write|      0.00|      0.00|       0.000|"));
}

#[test]
fn invalid_json_is_fatal() {
    assert_eq!(report_lines("not json at all"), Err(FioError::InvalidJson));
    assert_eq!(report_lines(""), Err(FioError::InvalidJson));
}

#[test]
fn missing_shape_is_fatal() {
    assert_eq!(report_lines("{}"), Err(FioError::MissingField));
    assert_eq!(report_lines("{\"jobs\":[]}"), Err(FioError::MissingField));
    let no_write = format!(
        "{{\"jobs\":[{{\"read\":{}}}]}}",
        direction_json("1", "1", "1", "1", "1", "1", "1")
    );
    assert_eq!(report_lines(&no_write), Err(FioError::MissingField));
}

#[test]
fn non_numeric_field_is_fatal() {
    let read = direction_json("\"fast\"", "2048.0", "1.0", "1.0", "1.0", "1.0", "1.0");
    let write = direction_json("1", "1", "1", "1", "1", "1", "1");
    assert_eq!(
        report_lines(&job_json(&read, &write)),
        Err(FioError::MissingField)
    );
}

#[test]
fn out_of_range_field_is_fatal() {
    let read = direction_json("1e300", "1", "1", "1", "1", "1", "1");
    let write = direction_json("1", "1", "1", "1", "1", "1", "1");
    assert_eq!(
        report_lines(&job_json(&read, &write)),
        Err(FioError::ValueOutOfRange)
    );
    let read_neg = direction_json("-5.0", "1", "1", "1", "1", "1", "1");
    assert_eq!(
        report_lines(&job_json(&read_neg, &write)),
        Err(FioError::ValueOutOfRange)
    );
}

#[test]
fn metric_decision_from_text() {
    assert_eq!(metric_from_text(None), Err(FioError::MissingField));
    assert_eq!(metric_from_text(Some("2048.000000".to_string())), Ok(2_048_000_000));
    assert_eq!(metric_from_text(Some("0.000001".to_string())), Ok(1));
    assert_eq!(
        metric_from_text(Some("-1.000000".to_string())),
        Err(FioError::ValueOutOfRange)
    );
    assert_eq!(
        metric_from_text(Some("18446744073709.551616".to_string())),
        Err(FioError::ValueOutOfRange)
    );
    assert_eq!(
        metric_from_text(Some("18446744073709.551615".to_string())),
        Ok(u64::MAX)
    );
}

#[test]
fn error_messages() {
    assert_eq!(FioError::InvalidJson.message(), "invalid json result");
    assert_eq!(
        FioError::MissingField.message(),
        "missing or non-numeric field in json result"
    );
    assert_eq!(
        FioError::ValueOutOfRange.message(),
        "numeric field out of range in json result"
    );
}

#[test]
fn parse_fixed6_exact_values() {
    assert_eq!(parse_fixed6("2048.000000"), Some(2_048_000_000));
    assert_eq!(parse_fixed6("0.000001"), Some(1));
    assert_eq!(parse_fixed6("0.000000"), Some(0));
    assert_eq!(parse_fixed6("311194.357143"), Some(311_194_357_143));
    assert_eq!(parse_fixed6("18446744073709.551615"), Some(u64::MAX));
    assert_eq!(parse_fixed6("18446744073709.551616"), None);
    assert_eq!(parse_fixed6("-1.000000"), None);
    assert_eq!(parse_fixed6("1.0"), None);
    assert_eq!(parse_fixed6(""), None);
    assert_eq!(parse_fixed6("abc.defghi"), None);
}

#[test]
fn fixed_point_rounding_half_up() {
    assert_eq!(round_div(15_000, 10_000), 2);
    assert_eq!(round_div(14_999, 10_000), 1);
    assert_eq!(round_div(25_000, 10_000), 3);
    assert_eq!(round_div(1_499_999_999, 1_000_000_000), 1);
    assert_eq!(round_div(1_500_000_000, 1_000_000_000), 2);
}

#[test]
fn fixed_point_formatting() {
    assert_eq!(format_fixed(200, 2), "2.00");
    assert_eq!(format_fixed(5, 2), "0.05");
    assert_eq!(format_fixed(1000, 3), "1.000");
    assert_eq!(format_fixed(12, 3), "0.012");
    assert_eq!(format_fixed(123456, 2), "1234.56");
}
