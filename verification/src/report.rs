//! Parsing of the JSON summary that the benchmarking process prints, and the
//! fixed-width latency/throughput table built from it.
//!
//! The JSON document itself is read through `serde_json`; every numeric field
//! is brought over as a six-fraction-digit decimal text and from there on
//! handled as an exact fixed-point count of millionths.
use vstd::prelude::*;

use crate::numbers::fixed6_nonneg;
use crate::numbers::fixed6_val;
use crate::numbers::fixed_render;
use crate::numbers::format_fixed;
use crate::numbers::is_fixed6;
use crate::numbers::left_pad;
use crate::numbers::left_pad_spec;
use crate::numbers::repeat_spec;
use crate::numbers::repeat_str;
use crate::numbers::round_div;
use crate::numbers::round_div_spec;
use crate::numbers::parse_fixed6;

verus! {

/// serde_json's document value, carried through opaquely: nothing inside a
/// value of it is visible here.
#[verifier::external_type_specification]
#[verifier::external_body]
pub struct ExValue(serde_json::Value);

/// serde_json's decode error, carried through opaquely and mapped at once to
/// `FioError::InvalidJson`.
#[verifier::external_type_specification]
#[verifier::external_body]
pub struct ExJsonError(serde_json::Error);

/// Whether a string decodes as one JSON document. What serde_json accepts
/// takes pages to state, but it depends on the characters alone, so the
/// outcome is named rather than spelled out.
pub uninterp spec fn json_parses(s: Seq<char>) -> bool;

/// Relies on serde_json::from_str: decodes a string as one JSON document.
/// Success depends on the characters alone; nothing is assumed of the
/// decoded value itself.
#[verifier::external_body]
fn json_from_str(s: &str) -> (r: Result<serde_json::Value, serde_json::Error>)
    ensures
        (r is Ok) == json_parses(s@),
{
    serde_json::from_str(s)
}

/// Relies on serde_json::Value::get with a string index: the member of a
/// JSON object under the given key, if the value is an object that has it.
#[verifier::external_body]
fn json_get<'a>(v: &'a serde_json::Value, key: &str) -> Option<&'a serde_json::Value> {
    v.get(key)
}

/// Relies on serde_json::Value::get with a numeric index: the element of a
/// JSON array at the given position, if the value is an array that long.
#[verifier::external_body]
fn json_at(v: &serde_json::Value, idx: usize) -> Option<&serde_json::Value> {
    v.get(idx)
}

/// Relies on serde_json::Value::as_f64, which yields a finite number for
/// every JSON number, and on Rust's fixed-precision formatting, which
/// renders a finite number as an optional minus sign, at least one integer
/// digit, a point, and exactly six fraction digits.
#[verifier::external_body]
fn json_number_fixed6(v: &serde_json::Value) -> (r: Option<String>)
    ensures
        r matches Some(t) ==> is_fixed6(t@),
{
    v.as_f64().map(|x| format!("{:.6}", x))
}

/// Why reading the benchmark summary failed. Every case is fatal to the
/// whole run: there is no partial reporting.
#[derive(Clone, Copy, Debug, PartialEq, Eq, Structural)]
pub enum FioError {
    /// The process output is not a JSON document.
    InvalidJson,
    /// The document lacks the expected `jobs` shape, or a metric field is
    /// missing or not a number.
    MissingField,
    /// A metric is negative or too large to carry as a fixed-point count.
    ValueOutOfRange,
}

/// The message printed for each way the summary can be unusable.
pub open spec fn error_message_spec(e: FioError) -> Seq<char> {
    match e {
        FioError::InvalidJson => "invalid json result"@,
        FioError::MissingField => "missing or non-numeric field in json result"@,
        FioError::ValueOutOfRange => "numeric field out of range in json result"@,
    }
}

impl FioError {
    /// The message of this failure, exactly as `error_message_spec` describes.
    pub fn message(&self) -> (s: String)
        ensures
            s@ == error_message_spec(*self),
    {
        match self {
            FioError::InvalidJson => String::from_str("invalid json result"),
            FioError::MissingField => String::from_str(
                "missing or non-numeric field in json result",
            ),
            FioError::ValueOutOfRange => String::from_str(
                "numeric field out of range in json result",
            ),
        }
    }
}

/// The metrics of one transfer direction, each as a fixed-point count of
/// millionths: I/O operations per second, bandwidth in KiB/s, and the mean
/// and tail latencies in nanoseconds.
#[derive(Clone, Copy, PartialEq, Eq, Structural)]
pub struct DirMetrics {
    pub iops: u64,
    pub bw: u64,
    pub lat_mean: u64,
    pub lat_p90: u64,
    pub lat_p95: u64,
    pub lat_p99: u64,
    pub lat_p999: u64,
}

/// A latency in millionths of a nanosecond shown in milliseconds with three
/// fraction digits: divide by 10^9, rounding to the nearest thousandth.
pub open spec fn latency_cell(v: nat) -> Seq<char> {
    fixed_render(round_div_spec(v, 1000000000), 3)
}

/// A rate in millionths shown with two fraction digits: round to the
/// nearest hundredth.
pub open spec fn rate_cell(v: nat) -> Seq<char> {
    fixed_render(round_div_spec(v, 10000), 2)
}

/// Bandwidth arrives in KiB/s and is shown in MiB/s with two fraction
/// digits: divide by 1024, rounding to the nearest hundredth.
pub open spec fn bandwidth_cell(v: nat) -> Seq<char> {
    fixed_render(round_div_spec(v, 10240000), 2)
}

/// One table row: the direction label and each metric cell, right-aligned
/// in its fixed-width column.
pub open spec fn row_spec(label: Seq<char>, m: DirMetrics) -> Seq<char> {
    "|"@ + left_pad_spec(label, 5) + "|"@ + left_pad_spec(rate_cell(m.iops as nat), 10) + "|"@
        + left_pad_spec(bandwidth_cell(m.bw as nat), 10) + "|"@ + left_pad_spec(
        latency_cell(m.lat_mean as nat),
        12,
    ) + "|"@ + left_pad_spec(latency_cell(m.lat_p90 as nat), 12) + "|"@ + left_pad_spec(
        latency_cell(m.lat_p95 as nat),
        12,
    ) + "|"@ + left_pad_spec(latency_cell(m.lat_p99 as nat), 12) + "|"@ + left_pad_spec(
        latency_cell(m.lat_p999 as nat),
        13,
    ) + "|"@
}

fn latency_text(v: u64) -> (s: String)
    ensures
        s@ == latency_cell(v as nat),
{
    format_fixed(round_div(v, 1000000000), 3)
}

/// Builds one table row, exactly as `row_spec` describes.
pub fn format_direction_row(label: &str, m: &DirMetrics) -> (s: String)
    ensures
        s@ == row_spec(label@, *m),
{
    let mut s = String::from_str("|");
    s.append(left_pad(label, 5).as_str());
    s.append("|");
    s.append(left_pad(format_fixed(round_div(m.iops, 10000), 2).as_str(), 10).as_str());
    s.append("|");
    s.append(left_pad(format_fixed(round_div(m.bw, 10240000), 2).as_str(), 10).as_str());
    s.append("|");
    s.append(left_pad(latency_text(m.lat_mean).as_str(), 12).as_str());
    s.append("|");
    s.append(left_pad(latency_text(m.lat_p90).as_str(), 12).as_str());
    s.append("|");
    s.append(left_pad(latency_text(m.lat_p95).as_str(), 12).as_str());
    s.append("|");
    s.append(left_pad(latency_text(m.lat_p99).as_str(), 12).as_str());
    s.append("|");
    s.append(left_pad(latency_text(m.lat_p999).as_str(), 13).as_str());
    s.append("|");
    proof {
        assert(s@ =~= row_spec(label@, *m));
    }
    s
}

/// The heading above the metric columns.
pub open spec fn header_spec() -> Seq<char> {
    "| type|      iops| bandwidth| latency_avg| latency_90%| latency_95%| latency_99%|latency_99.9%|"@
}

/// The ruled line between rows: one `+`-separated run of dashes per column.
pub open spec fn separator_spec() -> Seq<char> {
    "+"@ + repeat_spec("-"@, 5) + "+"@ + repeat_spec("-"@, 10) + "+"@ + repeat_spec("-"@, 10) + "+"@
        + repeat_spec("-"@, 12) + "+"@ + repeat_spec("-"@, 12) + "+"@ + repeat_spec("-"@, 12) + "+"@
        + repeat_spec("-"@, 12) + "+"@ + repeat_spec("-"@, 13) + "+"@
}

/// The full-width rule above and below the table.
pub open spec fn full_rule_spec() -> Seq<char> {
    repeat_spec("-"@, 95)
}

fn separator_line() -> (s: String)
    ensures
        s@ == separator_spec(),
{
    let mut s = String::from_str("+");
    s.append(repeat_str("-", 5).as_str());
    s.append("+");
    s.append(repeat_str("-", 10).as_str());
    s.append("+");
    s.append(repeat_str("-", 10).as_str());
    s.append("+");
    s.append(repeat_str("-", 12).as_str());
    s.append("+");
    s.append(repeat_str("-", 12).as_str());
    s.append("+");
    s.append(repeat_str("-", 12).as_str());
    s.append("+");
    s.append(repeat_str("-", 12).as_str());
    s.append("+");
    s.append(repeat_str("-", 13).as_str());
    s.append("+");
    proof {
        assert(s@ =~= separator_spec());
    }
    s
}

/// What one metric's text yields: the exact value of a non-negative
/// six-fraction-digit numeral that fits a machine word; the missing-field
/// error when there is no text at all; the out-of-range error otherwise
/// (a negative numeral, or one too large to carry).
pub open spec fn metric_of_text(text: Option<Seq<char>>) -> Result<u64, FioError> {
    match text {
        Option::None => Result::Err(FioError::MissingField),
        Option::Some(t) => if fixed6_nonneg(t) && fixed6_val(t) <= u64::MAX {
            Result::Ok(fixed6_val(t) as u64)
        } else {
            Result::Err(FioError::ValueOutOfRange)
        },
    }
}

/// Decides one metric from its text, exactly as `metric_of_text` describes:
/// the report's error decision is made here, on plain values, after the
/// JSON boundary has been crossed.
pub fn metric_from_text(text: Option<String>) -> (r: Result<u64, FioError>)
    ensures
        r == metric_of_text(text.deep_view()),
{
    match text {
        None => Err(FioError::MissingField),
        Some(t) => match parse_fixed6(t.as_str()) {
            Some(x) => Ok(x),
            None => Err(FioError::ValueOutOfRange),
        },
    }
}

fn metric_field(v: &serde_json::Value, key: &str) -> (r: Result<u64, FioError>)
    ensures
        r matches Err(e) ==> (e == FioError::MissingField || e == FioError::ValueOutOfRange),
{
    match json_get(v, key) {
        None => Err(FioError::MissingField),
        Some(inner) => metric_from_text(json_number_fixed6(inner)),
    }
}

fn percentile_field(dir: &serde_json::Value, key: &str) -> (r: Result<u64, FioError>)
    ensures
        r matches Err(e) ==> (e == FioError::MissingField || e == FioError::ValueOutOfRange),
{
    match json_get(dir, "clat_ns") {
        None => Err(FioError::MissingField),
        Some(clat) => match json_get(clat, "percentile") {
            None => Err(FioError::MissingField),
            Some(pct) => metric_field(pct, key),
        },
    }
}

/// Reads every metric of one direction out of the direction's JSON object.
/// Whatever the document held, a success carries exact fixed-point counts
/// that the row formatting then handles precisely.
fn direction_metrics(dir: &serde_json::Value) -> (r: Result<DirMetrics, FioError>)
    ensures
        r matches Err(e) ==> (e == FioError::MissingField || e == FioError::ValueOutOfRange),
{
    let iops = match metric_field(dir, "iops") {
        Ok(x) => x,
        Err(e) => {
            return Err(e);
        },
    };
    let bw = match metric_field(dir, "bw") {
        Ok(x) => x,
        Err(e) => {
            return Err(e);
        },
    };
    let lat_mean = match json_get(dir, "lat_ns") {
        None => {
            return Err(FioError::MissingField);
        },
        Some(lat) => match metric_field(lat, "mean") {
            Ok(x) => x,
            Err(e) => {
                return Err(e);
            },
        },
    };
    let lat_p90 = match percentile_field(dir, "90.000000") {
        Ok(x) => x,
        Err(e) => {
            return Err(e);
        },
    };
    let lat_p95 = match percentile_field(dir, "95.000000") {
        Ok(x) => x,
        Err(e) => {
            return Err(e);
        },
    };
    let lat_p99 = match percentile_field(dir, "99.000000") {
        Ok(x) => x,
        Err(e) => {
            return Err(e);
        },
    };
    let lat_p999 = match percentile_field(dir, "99.900000") {
        Ok(x) => x,
        Err(e) => {
            return Err(e);
        },
    };
    Ok(DirMetrics { iops, bw, lat_mean, lat_p90, lat_p95, lat_p99, lat_p999 })
}

/// Decodes the benchmarking process's standard output and builds the whole
/// report table: a full-width rule, the column heading, a ruled line, the
/// read row, a ruled line, the write row, and a closing full-width rule.
/// Fails, rather than reporting partially, when the document cannot be
/// decoded or lacks a metric: the decode failure comes exactly on text that
/// is no JSON document; the other failures depend on what the opaque
/// document holds, and their decision from each metric's text is made by
/// `metric_from_text` against its exact contract.
pub fn report_lines(stdout: &str) -> (r: Result<Vec<String>, FioError>)
    ensures
        (r == Result::<Vec<String>, FioError>::Err(FioError::InvalidJson)) <==> !json_parses(
            stdout@,
        ),
        r matches Ok(lines) ==> {
            &&& lines@.len() == 7
            &&& lines@[0]@ == full_rule_spec()
            &&& lines@[1]@ == header_spec()
            &&& lines@[2]@ == separator_spec()
            &&& (exists|m: DirMetrics| lines@[3]@ == row_spec("read"@, m))
            &&& lines@[4]@ == separator_spec()
            &&& (exists|m: DirMetrics| lines@[5]@ == row_spec("write"@, m))
            &&& lines@[6]@ == full_rule_spec()
        },
{
    let root = match json_from_str(stdout) {
        Ok(v) => v,
        Err(_) => {
            return Err(FioError::InvalidJson);
        },
    };
    let job = match json_get(&root, "jobs") {
        None => {
            return Err(FioError::MissingField);
        },
        Some(jobs) => match json_at(jobs, 0) {
            None => {
                return Err(FioError::MissingField);
            },
            Some(job) => job,
        },
    };
    let read_metrics = match json_get(job, "read") {
        None => {
            return Err(FioError::MissingField);
        },
        Some(dir) => match direction_metrics(dir) {
            Ok(m) => m,
            Err(e) => {
                return Err(e);
            },
        },
    };
    let write_metrics = match json_get(job, "write") {
        None => {
            return Err(FioError::MissingField);
        },
        Some(dir) => match direction_metrics(dir) {
            Ok(m) => m,
            Err(e) => {
                return Err(e);
            },
        },
    };
    let mut lines: Vec<String> = Vec::new();
    lines.push(repeat_str("-", 95));
    lines.push(String::from_str(
        "| type|      iops| bandwidth| latency_avg| latency_90%| latency_95%| latency_99%|latency_99.9%|",
    ));
    lines.push(separator_line());
    let read_row = format_direction_row("read", &read_metrics);
    proof {
        assert(read_row@ == row_spec("read"@, read_metrics));
    }
    lines.push(read_row);
    lines.push(separator_line());
    let write_row = format_direction_row("write", &write_metrics);
    proof {
        assert(write_row@ == row_spec("write"@, write_metrics));
    }
    lines.push(write_row);
    lines.push(repeat_str("-", 95));
    Ok(lines)
}

} // verus!
