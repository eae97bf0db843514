//! Getting the privilege to create symlinks, once before a `link` run,
//! on platforms that restrict it.
use vstd::prelude::*;

verus! {

/// How elevated the current process is.
#[derive(Clone, Copy, Debug, PartialEq, Eq, Structural)]
pub enum ElevationType {
    /// The session can grant the privilege to this process directly.
    Default,
    /// The process has to be started anew, elevated, to get the privilege.
    Limited,
    /// The process already holds the privilege.
    Full,
}

/// What to do before any entry is linked.
#[derive(Clone, Copy, Debug, PartialEq, Eq, Structural)]
pub enum PrivilegeStep {
    /// Go on: the capability is there.
    Proceed,
    /// Enable the privilege in this process; failing that, abort the run.
    EnablePrivilege,
    /// Run the same command again in an elevated process, with the
    /// relaunch marker, and exit with its exit code.
    Relaunch,
    /// Abort the run: this process was already relaunched and is still not
    /// elevated.
    Refuse,
}

/// The argument that marks a relaunched process.
pub open spec fn relaunch_marker() -> Seq<char> {
    "--wait-prompt"@
}

/// The argument that marks a relaunched process.
pub fn marker() -> (r: String)
    ensures
        r@ == relaunch_marker(),
{
    "--wait-prompt".to_string()
}

pub open spec fn privilege_step(restricted: bool, elevation: ElevationType, relaunched: bool) -> PrivilegeStep {
    if !restricted {
        PrivilegeStep::Proceed
    } else {
        match elevation {
            ElevationType::Full => PrivilegeStep::Proceed,
            ElevationType::Default => PrivilegeStep::EnablePrivilege,
            ElevationType::Limited => if relaunched {
                PrivilegeStep::Refuse
            } else {
                PrivilegeStep::Relaunch
            },
        }
    }
}

/// Decides how to get the capability to create symlinks. Where the platform
/// does not restrict it (`restricted` false) there is nothing to do.
pub fn check_symlink_privilege(restricted: bool, elevation: ElevationType, relaunched: bool) -> (r:
    PrivilegeStep)
    ensures
        r == privilege_step(restricted, elevation, relaunched),
{
    if !restricted {
        return PrivilegeStep::Proceed;
    }
    match elevation {
        ElevationType::Full => PrivilegeStep::Proceed,
        ElevationType::Default => PrivilegeStep::EnablePrivilege,
        ElevationType::Limited => if relaunched {
            PrivilegeStep::Refuse
        } else {
            PrivilegeStep::Relaunch
        },
    }
}

pub open spec fn strings_view(v: Seq<String>) -> Seq<Seq<char>> {
    v.map_values(|s: String| s@)
}

/// Whether the command line `args` (program name first) holds the relaunch
/// marker.
pub fn is_relaunched(args: &Vec<String>) -> (r: bool)
    ensures
        r == exists|i: int| 1 <= i < args.len() && #[trigger] args@[i]@ == relaunch_marker(),
{
    let marker = marker();
    let mut i: usize = 1;
    while i < args.len()
        invariant
            1 <= i || args.len() == 0,
            marker@ == relaunch_marker(),
            forall|j: int| 1 <= j < i && j < args.len() ==> #[trigger] args@[j]@ != relaunch_marker(),
        decreases args.len() - i,
    {
        if args[i].eq(&marker) {
            return true;
        }
        i = i + 1;
    }
    false
}

/// The arguments after the program name.
pub open spec fn rest_args(v: Seq<Seq<char>>) -> Seq<Seq<char>> {
    if v.len() == 0 {
        seq![]
    } else {
        v.drop_first()
    }
}

/// The arguments of the elevated relaunch: the marker, then the original
/// arguments without the program name.
pub fn relaunch_args(args: &Vec<String>) -> (r: Vec<String>)
    ensures
        strings_view(r@) == seq![relaunch_marker()] + rest_args(strings_view(args@)),
{
    let mut r: Vec<String> = Vec::new();
    r.push(marker());
    let mut i: usize = 1;
    assert(strings_view(r@) =~= seq![relaunch_marker()]);
    while i < args.len()
        invariant
            args.len() >= 1 ==> 1 <= i <= args.len(),
            args.len() >= 1 ==> strings_view(r@) == seq![relaunch_marker()] + strings_view(
                args@,
            ).subrange(1, i as int),
            args.len() == 0 ==> strings_view(r@) == seq![relaunch_marker()],
        decreases args.len() - i,
    {
        let ghost prev = r@;
        r.push(args[i].clone());
        assert(strings_view(r@) =~= strings_view(prev).push(args@[i as int]@));
        assert(strings_view(args@).subrange(1, i + 1) =~= strings_view(args@).subrange(
            1,
            i as int,
        ).push(args@[i as int]@));
        i = i + 1;
    }
    if args.len() >= 1 {
        assert(strings_view(args@).subrange(1, args.len() as int) =~= strings_view(
            args@,
        ).drop_first());
    }
    assert(strings_view(r@) =~= seq![relaunch_marker()] + rest_args(strings_view(args@)));
    r
}

} // verus!
