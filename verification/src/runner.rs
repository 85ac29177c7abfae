//! Preparing one benchmark run: the derived profile, its title, its rendered
//! configuration block, and the argument list of the process invocation.
use vstd::prelude::*;

use crate::config::FioConfig;
use crate::config::fio_args;
use crate::config::fio_args_spec;
use crate::config::job_title;
use crate::config::job_title_spec;
use crate::config::render;
use crate::config::render_spec;
use crate::registry::find_fio_pattern;
use crate::registry::is_preset;
use crate::registry::preset_mix;
use crate::registry::preset_mode;

verus! {

/// Everything one run of the benchmarking process needs, computed before the
/// process is spawned.
pub struct JobPlan {
    pub config: FioConfig,
    pub title: String,
    pub rendered: String,
    pub args: Vec<String>,
}

/// The profile a run executes: the read/write mode and mix of exactly one
/// registry preset, combined with the caller-supplied destination, size,
/// runtime, block size, job count and queue depth; the fixed engine defaults
/// stay. A preset never executes directly.
pub open spec fn derived_profile_ok(
    job: Seq<char>,
    filename: Seq<char>,
    size: Seq<char>,
    runtime: u32,
    bs: Seq<char>,
    numjobs: u32,
    iodepth: u32,
    c: FioConfig,
) -> bool {
    &&& c.thread == 1
    &&& c.direct == 1
    &&& c.norandommap == 1
    &&& c.randrepeat == 0
    &&& c.time_based
    &&& c.group_reporting
    &&& c.stonewall
    &&& c.ioengine@ == "libaio"@
    &&& c.rw@ == preset_mode(job)
    &&& c.rwmixread == preset_mix(job)
    &&& c.bs@ == bs
    &&& c.numjobs == numjobs
    &&& c.iodepth == iodepth
    &&& c.runtime == runtime
    &&& c.size@ == size
    &&& c.filename@ == filename
}

/// Builds the plan of one run: the derived profile, the run's title, the
/// configuration block shown before execution, and the full process
/// argument list. Returns nothing exactly when the job name is not
/// registered — such a run never starts.
pub fn prepare_job(
    job: &String,
    filename: &str,
    size: &str,
    runtime: u32,
    bs: &str,
    numjobs: u32,
    iodepth: u32,
) -> (r: Option<JobPlan>)
    ensures
        r is Some <==> is_preset(job@),
        r matches Some(p) ==> {
            &&& derived_profile_ok(
                job@,
                filename@,
                size@,
                runtime,
                bs@,
                numjobs,
                iodepth,
                p.config,
            )
            &&& p.title@ == job_title_spec(job@, bs@, iodepth as nat)
            &&& p.rendered@ == render_spec(p.config)
            &&& p.args.deep_view() == fio_args_spec(p.title@, p.config)
        },
{
    let sample = match find_fio_pattern(job) {
        None => {
            return None;
        },
        Some(c) => c,
    };
    let config = FioConfig::new(
        filename,
        size,
        runtime,
        sample.rw.as_str(),
        sample.rwmixread,
        bs,
        numjobs,
        iodepth,
    );
    let title = job_title(job.as_str(), bs, iodepth);
    let rendered = render(&config);
    let args = fio_args(title.as_str(), &config);
    Some(JobPlan { config, title, rendered, args })
}

/// The banner printed above one run's configuration block.
pub open spec fn banner_spec(title: Seq<char>) -> Seq<char> {
    "==========="@ + title + "=============="@
}

/// Builds the banner of one run, exactly as `banner_spec` describes.
pub fn banner(title: &str) -> (s: String)
    ensures
        s@ == banner_spec(title@),
{
    let mut s = String::from_str("===========");
    s.append(title);
    s.append("==============");
    proof {
        assert(s@ =~= banner_spec(title@));
    }
    s
}

} // verus!
