//! The read-only registry of named preset I/O patterns, and the report that
//! the print mode produces from a list of names.
use vstd::prelude::*;

use crate::config::FioConfig;
use crate::config::render;
use crate::config::render_fields;

verus! {

/// The names of every registered preset, in registry order.
pub open spec fn preset_names() -> Seq<Seq<char>> {
    seq![
        "random_r"@,
        "random_w"@,
        "random_7r3w"@,
        "seq_r"@,
        "seq_w"@,
        "seq_7r3w"@,
        "seq_9r1w"@,
    ]
}

/// Whether a name is registered.
pub open spec fn is_preset(name: Seq<char>) -> bool {
    preset_names().contains(name)
}

/// The read/write mode of a registered preset.
pub open spec fn preset_mode(name: Seq<char>) -> Seq<char> {
    if name == "random_r"@ {
        "randread"@
    } else if name == "random_w"@ {
        "randwrite"@
    } else if name == "random_7r3w"@ {
        "randrw"@
    } else if name == "seq_r"@ {
        "read"@
    } else if name == "seq_w"@ {
        "write"@
    } else {
        "rw"@
    }
}

/// The read percentage of a registered preset's mix.
pub open spec fn preset_mix(name: Seq<char>) -> u32 {
    if name == "random_r"@ {
        100
    } else if name == "random_w"@ {
        0
    } else if name == "random_7r3w"@ {
        70
    } else if name == "seq_r"@ {
        100
    } else if name == "seq_w"@ {
        0
    } else if name == "seq_7r3w"@ {
        70
    } else {
        90
    }
}

/// What the registry stores under a registered name: the preset's own mode
/// and mix, the fixed engine defaults, and the placeholder run parameters.
pub open spec fn is_preset_profile(name: Seq<char>, c: FioConfig) -> bool {
    &&& c.thread == 1
    &&& c.direct == 1
    &&& c.norandommap == 1
    &&& c.randrepeat == 0
    &&& c.time_based
    &&& c.group_reporting
    &&& c.stonewall
    &&& c.ioengine@ == "libaio"@
    &&& c.rw@ == preset_mode(name)
    &&& c.rwmixread == preset_mix(name)
    &&& c.bs@ == "1M"@
    &&& c.numjobs == 1
    &&& c.iodepth == 8
    &&& c.runtime == 20
    &&& c.size@ == "10G"@
    &&& c.filename@ == "/dev/sdzz"@
}

fn eq_lit(name: &String, lit: &str) -> (r: bool)
    ensures
        r == (name@ == lit@),
{
    let s = String::from_str(lit);
    *name == s
}

/// Looks a name up in the registry: the matching preset profile for a
/// registered name, nothing otherwise.
pub fn find_fio_pattern(name: &String) -> (r: Option<FioConfig>)
    ensures
        r is Some <==> is_preset(name@),
        r matches Some(c) ==> is_preset_profile(name@, c),
{
    let r = if eq_lit(name, "random_r") {
        Some(FioConfig::new("/dev/sdzz", "10G", 20, "randread", 100, "1M", 1, 8))
    } else if eq_lit(name, "random_w") {
        Some(FioConfig::new("/dev/sdzz", "10G", 20, "randwrite", 0, "1M", 1, 8))
    } else if eq_lit(name, "random_7r3w") {
        Some(FioConfig::new("/dev/sdzz", "10G", 20, "randrw", 70, "1M", 1, 8))
    } else if eq_lit(name, "seq_r") {
        Some(FioConfig::new("/dev/sdzz", "10G", 20, "read", 100, "1M", 1, 8))
    } else if eq_lit(name, "seq_w") {
        Some(FioConfig::new("/dev/sdzz", "10G", 20, "write", 0, "1M", 1, 8))
    } else if eq_lit(name, "seq_7r3w") {
        Some(FioConfig::new("/dev/sdzz", "10G", 20, "rw", 70, "1M", 1, 8))
    } else if eq_lit(name, "seq_9r1w") {
        Some(FioConfig::new("/dev/sdzz", "10G", 20, "rw", 90, "1M", 1, 8))
    } else {
        proof {
            assert forall|i: int| 0 <= i < preset_names().len() implies preset_names()[i]
                != name@ by {}
            assert(!is_preset(name@));
        }
        None
    };
    r
}

/// Lists every registered name once, in registry order.
pub fn pattern_names() -> (names: Vec<String>)
    ensures
        names.deep_view() == preset_names(),
{
    let mut names: Vec<String> = Vec::new();
    names.push(String::from_str("random_r"));
    names.push(String::from_str("random_w"));
    names.push(String::from_str("random_7r3w"));
    names.push(String::from_str("seq_r"));
    names.push(String::from_str("seq_w"));
    names.push(String::from_str("seq_7r3w"));
    names.push(String::from_str("seq_9r1w"));
    proof {
        assert(names.deep_view() =~~= preset_names());
    }
    names
}

/// No name appears in the registry twice: listing the registry names each
/// name exactly once.
pub proof fn lemma_preset_names_unique()
    ensures
        preset_names().no_duplicates(),
{
    reveal_strlit("random_r");
    reveal_strlit("random_w");
    reveal_strlit("random_7r3w");
    reveal_strlit("seq_r");
    reveal_strlit("seq_w");
    reveal_strlit("seq_7r3w");
    reveal_strlit("seq_9r1w");
    assert(preset_names()[0].len() == 8);
    assert(preset_names()[1].len() == 8);
    assert(preset_names()[2].len() == 11);
    assert(preset_names()[3].len() == 5);
    assert(preset_names()[4].len() == 5);
    assert(preset_names()[5].len() == 8);
    assert(preset_names()[6].len() == 8);
    assert(preset_names()[0][7] != preset_names()[1][7]);
    assert(preset_names()[0][0] != preset_names()[5][0]);
    assert(preset_names()[0][0] != preset_names()[6][0]);
    assert(preset_names()[1][0] != preset_names()[5][0]);
    assert(preset_names()[1][0] != preset_names()[6][0]);
    assert(preset_names()[3][4] != preset_names()[4][4]);
    assert(preset_names()[5][4] != preset_names()[6][4]);
}

/// The configuration block of the preset registered under a name.
pub open spec fn preset_render(name: Seq<char>) -> Seq<char> {
    render_fields(
        1,
        1,
        20,
        1,
        0,
        1,
        preset_mode(name),
        preset_mix(name) as nat,
        "libaio"@,
        8,
        "1M"@,
        "10G"@,
        "/dev/sdzz"@,
    )
}

/// The line printed for a name that is not registered.
pub open spec fn unknown_message_spec(name: Seq<char>) -> Seq<char> {
    name + " is Unknown fio pattern"@
}

/// Builds the line printed for an unregistered name, exactly as
/// `unknown_message_spec` describes.
pub fn unknown_pattern_message(name: &str) -> (s: String)
    ensures
        s@ == unknown_message_spec(name@),
{
    let mut s = String::from_str(name);
    s.append(" is Unknown fio pattern");
    s
}

/// What the print mode shows for one requested name: the preset's rendered
/// configuration block where the name is registered, the unknown-pattern
/// line otherwise. No benchmark process is involved either way.
pub open spec fn report_entry_spec(name: Seq<char>) -> Seq<char> {
    if is_preset(name) {
        preset_render(name)
    } else {
        unknown_message_spec(name)
    }
}

/// Builds the print-mode report: one entry per requested name, in the order
/// given, each exactly as `report_entry_spec` describes.
pub fn pattern_report(job_names: &Vec<String>) -> (lines: Vec<String>)
    ensures
        lines.len() == job_names.len(),
        forall|i: int|
            0 <= i < job_names@.len() ==> #[trigger] lines.deep_view()[i] == report_entry_spec(
                job_names@[i]@,
            ),
{
    let mut lines: Vec<String> = Vec::new();
    let mut k: usize = 0;
    while k < job_names.len()
        invariant
            0 <= k <= job_names.len(),
            lines.len() == k,
            forall|i: int|
                0 <= i < k ==> #[trigger] lines.deep_view()[i] == report_entry_spec(
                    job_names@[i]@,
                ),
        decreases job_names.len() - k,
    {
        let ghost prev = lines.deep_view();
        let name = &job_names[k];
        let entry = match find_fio_pattern(name) {
            None => unknown_pattern_message(name.as_str()),
            Some(c) => render(&c),
        };
        proof {
            assert(entry@ == report_entry_spec(job_names@[k as int]@));
        }
        let ghost entry_view = entry@;
        lines.push(entry);
        proof {
            assert(lines.deep_view() =~~= prev.push(entry_view));
        }
        k = k + 1;
    }
    lines
}

} // verus!
