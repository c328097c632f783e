//! The command-line backend: argument lists for the `gluster` tool and the
//! checks on what it reports.
//!
//! Running the tool and reading its XML output is left to the caller, which
//! hands the decoded output to `Info::try_from` or `Volume::try_from`.
use crate::json::{decimal, decimal_of};
use vstd::prelude::*;

verus! {

/// An identifier that the cluster assigned to a volume.
#[derive(Clone, Debug, PartialEq, Eq, Hash)]
pub struct VolumeId(pub String);

/// A volume as the tool reports it.
#[derive(Clone, Debug)]
pub struct Volume {
    pub name: String,
    pub id: VolumeId,
}

/// The volumes of the cluster.
#[derive(Debug)]
pub struct Info {
    pub volumes: Vec<Volume>,
}

/// The list of volumes inside [`VolInfo`].
#[derive(Debug)]
pub struct Volumes {
    pub volume: Vec<Volume>,
}

/// The volume information of an `info` report.
#[derive(Debug)]
pub struct VolInfo {
    pub volumes: Volumes,
}

/// What `gluster volume info` reports.
#[derive(Debug)]
pub struct InfoCliOutput {
    pub op_ret: i32,
    pub op_errno: i32,
    pub op_errstr: String,
    pub vol_info: VolInfo,
}

/// What `gluster volume create` reports.
#[derive(Debug)]
pub struct CreateCliOutput {
    pub op_ret: i32,
    pub op_errno: i32,
    pub op_errstr: String,
    pub volume: Volume,
}

/// The volumes of an `info` report, or its error text where the tool
/// reports a failure.
pub open spec fn info_of(o: InfoCliOutput) -> Result<Info, String> {
    if o.op_ret != 0 || o.op_errno != 0 {
        Err(o.op_errstr)
    } else {
        Ok(Info { volumes: o.vol_info.volumes.volume })
    }
}

/// The created volume of a `create` report, or its error text where the
/// tool reports a failure.
pub open spec fn created_of(o: CreateCliOutput) -> Result<Volume, String> {
    if o.op_ret != 0 || o.op_errno != 0 {
        Err(o.op_errstr)
    } else {
        Ok(o.volume)
    }
}

impl TryFrom<InfoCliOutput> for Info {
    type Error = String;

    fn try_from(o: InfoCliOutput) -> (r: Result<Info, String>)
        ensures
            r == info_of(o),
    {
        if o.op_ret != 0 || o.op_errno != 0 {
            Err(o.op_errstr)
        } else {
            Ok(Info { volumes: o.vol_info.volumes.volume })
        }
    }
}

impl vstd::std_specs::convert::TryFromSpecImpl<InfoCliOutput> for Info {
    open spec fn obeys_try_from_spec() -> bool {
        true
    }

    open spec fn try_from_spec(o: InfoCliOutput) -> Result<Info, String> {
        info_of(o)
    }
}

impl TryFrom<CreateCliOutput> for Volume {
    type Error = String;

    fn try_from(o: CreateCliOutput) -> (r: Result<Volume, String>)
        ensures
            r == created_of(o),
    {
        if o.op_ret != 0 || o.op_errno != 0 {
            Err(o.op_errstr)
        } else {
            Ok(o.volume)
        }
    }
}

impl vstd::std_specs::convert::TryFromSpecImpl<CreateCliOutput> for Volume {
    open spec fn obeys_try_from_spec() -> bool {
        true
    }

    open spec fn try_from_spec(o: CreateCliOutput) -> Result<Volume, String> {
        created_of(o)
    }
}

/// The options that every invocation starts with: no prompts, XML output.
pub open spec fn common_args() -> Seq<Seq<char>> {
    seq!["--mode=script"@, "--xml"@, "volume"@]
}

/// The arguments of `gluster volume info`.
pub open spec fn info_args_of() -> Seq<Seq<char>> {
    common_args().push("info"@)
}

/// `host:path` for each brick.
pub open spec fn brick_args_of(bricks: Seq<(&str, &str)>) -> Seq<Seq<char>>
    decreases bricks.len(),
{
    if bricks.len() == 0 {
        seq![]
    } else {
        brick_args_of(bricks.drop_last()).push(
            bricks.last().0@ + ":"@ + bricks.last().1@,
        )
    }
}

/// The arguments of `gluster volume create`.
pub open spec fn create_args_of(
    name: Seq<char>,
    replica: nat,
    bricks: Seq<(&str, &str)>,
    force: bool,
) -> Seq<Seq<char>> {
    let base = common_args() + seq!["create"@, name, "replica"@, decimal_of(replica)]
        + brick_args_of(bricks);
    if force {
        base.push("force"@)
    } else {
        base
    }
}

/// The views of a list of arguments.
pub open spec fn views_of(v: Seq<String>) -> Seq<Seq<char>> {
    v.map_values(|s: String| s@)
}

/// Appends `s` to `args`.
fn push_arg(args: &mut Vec<String>, s: String)
    ensures
        views_of(final(args)@) == views_of(old(args)@).push(s@),
{
    args.push(s);
    assert(views_of(final(args)@) =~= views_of(old(args)@).push(s@));
}

/// A list holding the options that every invocation starts with.
fn common() -> (r: Vec<String>)
    ensures
        views_of(r@) == common_args(),
{
    let mut r: Vec<String> = Vec::new();
    push_arg(&mut r, "--mode=script".to_owned());
    push_arg(&mut r, "--xml".to_owned());
    push_arg(&mut r, "volume".to_owned());
    assert(views_of(r@) =~= common_args());
    r
}

/// The arguments of `gluster volume info`.
pub fn info_args() -> (r: Vec<String>)
    ensures
        views_of(r@) == info_args_of(),
{
    let mut r = common();
    push_arg(&mut r, "info".to_owned());
    r
}

/// The arguments of `gluster volume create`, for a volume `name` with
/// `replica` copies over `bricks` (host and path of each).
pub fn create_args(name: &str, replica: u32, bricks: &[(&str, &str)], force: bool) -> (r: Vec<
    String,
>)
    ensures
        views_of(r@) == create_args_of(name@, replica as nat, bricks@, force),
{
    let mut r = common();
    push_arg(&mut r, "create".to_owned());
    push_arg(&mut r, name.to_owned());
    push_arg(&mut r, "replica".to_owned());
    push_arg(&mut r, decimal(replica as usize));
    let ghost head = views_of(r@);
    assert(head =~= common_args() + seq!["create"@, name@, "replica"@, decimal_of(replica as nat)]);
    let mut i: usize = 0;
    while i < bricks.len()
        invariant
            i <= bricks@.len(),
            views_of(r@) == head + brick_args_of(bricks@.subrange(0, i as int)),
        decreases bricks@.len() - i,
    {
        let (host, path) = bricks[i];
        let mut brick = host.to_owned();
        brick.append(":");
        brick.append(path);
        push_arg(&mut r, brick);
        proof {
            let t = bricks@.subrange(0, i + 1);
            assert(t.drop_last() =~= bricks@.subrange(0, i as int));
            assert(views_of(r@) =~= head + brick_args_of(t));
        }
        i = i + 1;
    }
    assert(bricks@.subrange(0, i as int) =~= bricks@);
    if force {
        push_arg(&mut r, "force".to_owned());
    }
    r
}

} // verus!
