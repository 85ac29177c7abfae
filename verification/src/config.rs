//! The full parameter set handed to one `fio` run, its rendered
//! configuration block, and the argument list of the process invocation.
use vstd::prelude::*;

use crate::numbers::dec_spec;
use crate::numbers::u64_to_dec;

verus! {

/// Every parameter of one benchmark run. A value is always built by `new`:
/// the fixed fields carry the documented defaults, the rest come from a
/// preset and from caller-supplied overrides.
#[derive(Clone)]
pub struct FioConfig {
    pub thread: u32,
    pub direct: u32,
    pub norandommap: u32,
    pub randrepeat: u32,
    pub time_based: bool,
    pub group_reporting: bool,
    pub stonewall: bool,
    pub ioengine: String,
    pub rw: String,
    pub rwmixread: u32,
    pub bs: String,
    pub numjobs: u32,
    pub iodepth: u32,
    pub runtime: u32,
    pub size: String,
    pub filename: String,
}

impl FioConfig {
    /// Builds a profile with the fixed engine defaults and the given
    /// read/write mode, mix, and run parameters.
    pub fn new(
        filename: &str,
        size: &str,
        runtime: u32,
        rwmode: &str,
        rwmixread: u32,
        bs: &str,
        numjobs: u32,
        iodepth: u32,
    ) -> (c: FioConfig)
        ensures
            c.thread == 1,
            c.direct == 1,
            c.norandommap == 1,
            c.randrepeat == 0,
            c.time_based,
            c.group_reporting,
            c.stonewall,
            c.ioengine@ == "libaio"@,
            c.rw@ == rwmode@,
            c.rwmixread == rwmixread,
            c.bs@ == bs@,
            c.numjobs == numjobs,
            c.iodepth == iodepth,
            c.runtime == runtime,
            c.size@ == size@,
            c.filename@ == filename@,
    {
        FioConfig {
            thread: 1,
            direct: 1,
            norandommap: 1,
            randrepeat: 0,
            time_based: true,
            group_reporting: true,
            stonewall: true,
            ioengine: String::from_str("libaio"),
            rw: String::from_str(rwmode),
            rwmixread,
            bs: String::from_str(bs),
            numjobs,
            iodepth,
            runtime,
            size: String::from_str(size),
            filename: String::from_str(filename),
        }
    }
}

/// The configuration block rendered from the given field values: a
/// `[global]` section with the run-wide settings, then a `[config]` section
/// with the workload, each setting on a line of its own.
pub open spec fn render_fields(
    thread: nat,
    direct: nat,
    runtime: nat,
    numjobs: nat,
    randrepeat: nat,
    norandommap: nat,
    rw: Seq<char>,
    rwmixread: nat,
    ioengine: Seq<char>,
    iodepth: nat,
    bs: Seq<char>,
    size: Seq<char>,
    filename: Seq<char>,
) -> Seq<char> {
    "[global]\nthread="@ + dec_spec(thread) + "\ndirect="@ + dec_spec(direct) + "\ntimebased\nruntime="@
        + dec_spec(runtime) + "\nnumjobs="@ + dec_spec(numjobs) + "\nrandrepeat="@ + dec_spec(
        randrepeat,
    ) + "\nnorandommap="@ + dec_spec(norandommap) + "\ngroup_reporting\n\n[config]\nstonewall\nrw="@
        + rw + "\nrwmixread="@ + dec_spec(rwmixread) + "\nioengine="@ + ioengine + "\niodepth="@
        + dec_spec(iodepth) + "\nbs="@ + bs + "\nsize="@ + size + "\nfilename="@ + filename + "\n"@
}

/// The configuration block of a whole profile.
pub open spec fn render_spec(c: FioConfig) -> Seq<char> {
    render_fields(
        c.thread as nat,
        c.direct as nat,
        c.runtime as nat,
        c.numjobs as nat,
        c.randrepeat as nat,
        c.norandommap as nat,
        c.rw@,
        c.rwmixread as nat,
        c.ioengine@,
        c.iodepth as nat,
        c.bs@,
        c.size@,
        c.filename@,
    )
}

/// Renders the human-readable configuration block of a profile, exactly as
/// `render_spec` describes.
pub fn render(c: &FioConfig) -> (s: String)
    ensures
        s@ == render_spec(*c),
{
    let mut s = String::from_str("[global]\nthread=");
    s.append(u64_to_dec(c.thread as u64).as_str());
    s.append("\ndirect=");
    s.append(u64_to_dec(c.direct as u64).as_str());
    s.append("\ntimebased\nruntime=");
    s.append(u64_to_dec(c.runtime as u64).as_str());
    s.append("\nnumjobs=");
    s.append(u64_to_dec(c.numjobs as u64).as_str());
    s.append("\nrandrepeat=");
    s.append(u64_to_dec(c.randrepeat as u64).as_str());
    s.append("\nnorandommap=");
    s.append(u64_to_dec(c.norandommap as u64).as_str());
    s.append("\ngroup_reporting\n\n[config]\nstonewall\nrw=");
    s.append(c.rw.as_str());
    s.append("\nrwmixread=");
    s.append(u64_to_dec(c.rwmixread as u64).as_str());
    s.append("\nioengine=");
    s.append(c.ioengine.as_str());
    s.append("\niodepth=");
    s.append(u64_to_dec(c.iodepth as u64).as_str());
    s.append("\nbs=");
    s.append(c.bs.as_str());
    s.append("\nsize=");
    s.append(c.size.as_str());
    s.append("\nfilename=");
    s.append(c.filename.as_str());
    s.append("\n");
    proof {
        assert(s@ =~= render_spec(*c));
    }
    s
}

/// The title of one run: job name, block size and queue depth joined by
/// underscores.
pub open spec fn job_title_spec(job: Seq<char>, bs: Seq<char>, iodepth: nat) -> Seq<char> {
    job + "_"@ + bs + "_"@ + dec_spec(iodepth)
}

/// Builds the title of one run, exactly as `job_title_spec` describes.
pub fn job_title(job: &str, bs: &str, iodepth: u32) -> (s: String)
    ensures
        s@ == job_title_spec(job@, bs@, iodepth as nat),
{
    let mut s = String::from_str(job);
    s.append("_");
    s.append(bs);
    s.append("_");
    s.append(u64_to_dec(iodepth as u64).as_str());
    proof {
        assert(s@ =~= job_title_spec(job@, bs@, iodepth as nat));
    }
    s
}

/// One `key=value` command-line argument.
pub open spec fn arg_spec(key: Seq<char>, value: Seq<char>) -> Seq<char> {
    key + value
}

/// The full argument list of one `fio` invocation for the given title and
/// profile, in the order the process expects them.
pub open spec fn fio_args_spec(title: Seq<char>, c: FioConfig) -> Seq<Seq<char>> {
    seq![
        arg_spec("--name="@, title),
        arg_spec("--filename="@, c.filename@),
        arg_spec("--size="@, c.size@),
        arg_spec("--runtime="@, dec_spec(c.runtime as nat)),
        arg_spec("--rw="@, c.rw@),
        arg_spec("--rwmixread="@, dec_spec(c.rwmixread as nat)),
        arg_spec("--ioengine="@, c.ioengine@),
        arg_spec("--bs="@, c.bs@),
        arg_spec("--iodepth="@, dec_spec(c.iodepth as nat)),
        arg_spec("--numjobs="@, dec_spec(c.numjobs as nat)),
        arg_spec("--direct="@, dec_spec(c.direct as nat)),
        arg_spec("--thread="@, dec_spec(c.thread as nat)),
        arg_spec("--norandommap="@, dec_spec(c.norandommap as nat)),
        arg_spec("--randrepeat="@, dec_spec(c.randrepeat as nat)),
        "--time_based"@,
        "--group_reporting"@,
        "--stonewall"@,
        "--output-format=json"@,
    ]
}

fn keyed_arg(key: &str, value: &str) -> (s: String)
    ensures
        s@ == arg_spec(key@, value@),
{
    let mut s = String::from_str(key);
    s.append(value);
    s
}

/// Builds the argument list of one invocation, exactly as `fio_args_spec`
/// describes.
pub fn fio_args(title: &str, c: &FioConfig) -> (args: Vec<String>)
    ensures
        args.deep_view() == fio_args_spec(title@, *c),
{
    let mut args: Vec<String> = Vec::new();
    args.push(keyed_arg("--name=", title));
    args.push(keyed_arg("--filename=", c.filename.as_str()));
    args.push(keyed_arg("--size=", c.size.as_str()));
    args.push(keyed_arg("--runtime=", u64_to_dec(c.runtime as u64).as_str()));
    args.push(keyed_arg("--rw=", c.rw.as_str()));
    args.push(keyed_arg("--rwmixread=", u64_to_dec(c.rwmixread as u64).as_str()));
    args.push(keyed_arg("--ioengine=", c.ioengine.as_str()));
    args.push(keyed_arg("--bs=", c.bs.as_str()));
    args.push(keyed_arg("--iodepth=", u64_to_dec(c.iodepth as u64).as_str()));
    args.push(keyed_arg("--numjobs=", u64_to_dec(c.numjobs as u64).as_str()));
    args.push(keyed_arg("--direct=", u64_to_dec(c.direct as u64).as_str()));
    args.push(keyed_arg("--thread=", u64_to_dec(c.thread as u64).as_str()));
    args.push(keyed_arg("--norandommap=", u64_to_dec(c.norandommap as u64).as_str()));
    args.push(keyed_arg("--randrepeat=", u64_to_dec(c.randrepeat as u64).as_str()));
    args.push(String::from_str("--time_based"));
    args.push(String::from_str("--group_reporting"));
    args.push(String::from_str("--stonewall"));
    args.push(String::from_str("--output-format=json"));
    proof {
        assert(args.deep_view() =~~= fio_args_spec(title@, *c));
    }
    args
}

} // verus!
