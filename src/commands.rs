//! The commands over the whole entry set, and their exit statuses.
use vstd::prelude::*;
use crate::catalog::Dotfiles;
use crate::reconcile::{
    check_entry, count_failures, count_false, healthy, link_plan, outcome, plan_link,
    plan_unlink, settle, unlink_plan, Plan,
};
use crate::resolve::{home_var, lookup, root_dir_of, root_error, with_home, Environment};
use crate::state::LinkState;

verus! {

/// One invocation of the tool: the managed collection and the modes that the
/// command line chose.
#[derive(Debug, PartialEq, Eq)]
pub struct App {
    pub dotfiles: Dotfiles,
    pub dry_run: bool,
    pub verbose: bool,
}

/// The error given where the home directory cannot be determined.
pub open spec fn home_error() -> Seq<char> {
    "failed to determine the home directory"@
}

/// Per entry, whether `check` finds it healthy.
pub open spec fn health(states: Seq<LinkState>) -> Seq<bool> {
    states.map_values(|s: LinkState| healthy(s))
}

/// Per entry, whether it ended in the desired state.
pub open spec fn outcomes(plans: Seq<Plan>, performed: Seq<bool>) -> Seq<bool> {
    Seq::new(plans.len(), |i: int| outcome(plans[i], performed[i]))
}

impl App {
    /// Sets up an invocation: `HOME` is filled in from the system's home
    /// directory where it is unset, then the source root is resolved. Fails
    /// where the source root or the home directory cannot be determined.
    pub fn new(env: Environment, dry_run: bool, verbose: bool) -> (r: Result<App, String>)
        ensures
            ({
                let vars = with_home(env.vars_view(), env.home_view());
                match (root_dir_of(vars, env.home_view()), lookup(vars, home_var())) {
                    (Some(root), Some(home)) => r matches Ok(app) && app.dotfiles.root_view()
                        == root && app.dotfiles.home_view() == home && app.dry_run == dry_run
                        && app.verbose == verbose,
                    (None, _) => r matches Err(e) && e@ == root_error(),
                    (Some(_), None) => r matches Err(e) && e@ == home_error(),
                }
            }),
    {
        let mut env = env;
        env.fill_home();
        let root = env.root_dir()?;
        proof {
            reveal_strlit("HOME");
            reveal_strlit("failed to determine the home directory");
        }
        match env.var("HOME") {
            Some(home) => Ok(App { dotfiles: Dotfiles::new(root, home), dry_run, verbose }),
            None => Err("failed to determine the home directory".to_string()),
        }
    }

    /// The command line that clones `url` into `dotdir`, or into the source
    /// root where none is given.
    pub fn command_clone(&self, url: &str, dotdir: Option<String>) -> (r: Vec<String>)
        ensures
            r@.len() == 4,
            r@[0]@ == "git"@,
            r@[1]@ == "clone"@,
            r@[2]@ == url@,
            r@[3]@ == match dotdir {
                Some(d) => d@,
                None => self.dotfiles.root_view(),
            },
    {
        let dir = match dotdir {
            Some(d) => d,
            None => self.dotfiles.root_dir().clone(),
        };
        let mut r: Vec<String> = Vec::new();
        r.push("git".to_string());
        r.push("clone".to_string());
        r.push(url.to_string());
        r.push(dir);
        r
    }

    /// The exit status of `check`: the number of unhealthy entries.
    pub fn command_check(&self, states: &Vec<LinkState>) -> (r: i32)
        requires
            states.len() <= i32::MAX,
        ensures
            r == count_false(health(states@)),
    {
        let mut oks: Vec<bool> = Vec::new();
        let mut i: usize = 0;
        while i < states.len()
            invariant
                i <= states.len(),
                oks@ == health(states@).take(i as int),
            decreases states.len() - i,
        {
            let ok = check_entry(states[i]);
            oks.push(ok);
            assert(oks@ =~= health(states@).take(i + 1));
            i = i + 1;
        }
        assert(oks@ =~= health(states@));
        count_failures(&oks)
    }

    /// The plans of a `link` run, one per entry.
    pub fn command_link(&self, states: &Vec<LinkState>) -> (r: Vec<Plan>)
        ensures
            r@ == states@.map_values(|s: LinkState| link_plan(s, self.dry_run)),
    {
        let mut r: Vec<Plan> = Vec::new();
        let mut i: usize = 0;
        while i < states.len()
            invariant
                i <= states.len(),
                r@ == states@.map_values(|s: LinkState| link_plan(s, self.dry_run)).take(i as int),
            decreases states.len() - i,
        {
            r.push(plan_link(states[i], self.dry_run));
            assert(r@ =~= states@.map_values(|s: LinkState| link_plan(s, self.dry_run)).take(i + 1));
            i = i + 1;
        }
        assert(r@ =~= states@.map_values(|s: LinkState| link_plan(s, self.dry_run)));
        r
    }

    /// The plans of a `clean` run, one per entry.
    pub fn command_clean(&self, states: &Vec<LinkState>) -> (r: Vec<Plan>)
        ensures
            r@ == states@.map_values(|s: LinkState| unlink_plan(s, self.dry_run)),
    {
        let mut r: Vec<Plan> = Vec::new();
        let mut i: usize = 0;
        while i < states.len()
            invariant
                i <= states.len(),
                r@ == states@.map_values(|s: LinkState| unlink_plan(s, self.dry_run)).take(i as int),
            decreases states.len() - i,
        {
            r.push(plan_unlink(states[i], self.dry_run));
            assert(r@ =~= states@.map_values(|s: LinkState| unlink_plan(s, self.dry_run)).take(i + 1));
            i = i + 1;
        }
        assert(r@ =~= states@.map_values(|s: LinkState| unlink_plan(s, self.dry_run)));
        r
    }

    /// Whether `link` must pass the privilege gate first: only a run that
    /// creates links does.
    pub fn needs_privilege(&self) -> (r: bool)
        ensures
            r == !self.dry_run,
    {
        !self.dry_run
    }
}

/// The exit status of a `link` or `clean` run: the number of entries that
/// did not reach the desired state, given whether each planned operation
/// succeeded.
pub fn count_unsettled(plans: &Vec<Plan>, performed: &Vec<bool>) -> (r: i32)
    requires
        plans.len() == performed.len(),
        plans.len() <= i32::MAX,
    ensures
        r == count_false(outcomes(plans@, performed@)),
{
    let mut oks: Vec<bool> = Vec::new();
    let mut i: usize = 0;
    while i < plans.len()
        invariant
            i <= plans.len() == performed.len(),
            oks@ == outcomes(plans@, performed@).take(i as int),
        decreases plans.len() - i,
    {
        oks.push(settle(plans[i], performed[i]));
        assert(oks@ =~= outcomes(plans@, performed@).take(i + 1));
        i = i + 1;
    }
    assert(oks@ =~= outcomes(plans@, performed@));
    count_failures(&oks)
}

} // verus!
