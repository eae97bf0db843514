//! Resolving the source root directory from the environment.
use vstd::prelude::*;

verus! {

/// The environment that paths are resolved in: variables in the order they
/// were set (a later one overrides an earlier one of the same name), and the
/// user's home directory as the system reports it.
#[derive(Debug, PartialEq, Eq)]
pub struct Environment {
    pub vars: Vec<(String, String)>,
    pub home_dir: Option<String>,
}

pub open spec fn pairs_view(vars: Seq<(String, String)>) -> Seq<(Seq<char>, Seq<char>)> {
    vars.map_values(|p: (String, String)| (p.0@, p.1@))
}

pub open spec fn opt_view(o: Option<String>) -> Option<Seq<char>> {
    match o {
        Some(s) => Some(s@),
        None => None,
    }
}

/// The value of the variable `name`: the one set last.
pub open spec fn lookup(vars: Seq<(Seq<char>, Seq<char>)>, name: Seq<char>) -> Option<Seq<char>>
    decreases vars.len(),
{
    if vars.len() == 0 {
        None
    } else if vars.last().0 == name {
        Some(vars.last().1)
    } else {
        lookup(vars.drop_last(), name)
    }
}

/// What full shell-like expansion (variables, then a leading tilde) makes of
/// `input` with the given home directory and variables; `None` where a
/// variable that `input` refers to without a default is unset.
pub uninterp spec fn expansion_of(
    input: Seq<char>,
    home: Option<Seq<char>>,
    vars: Seq<(Seq<char>, Seq<char>)>,
) -> Option<Seq<char>>;

/// Inputs that expansion handles the same way on every platform and
/// without failing: every `$` that is followed by a character is followed by
/// an ASCII one, and a leading tilde stands alone or before a `/`.
pub open spec fn expandable(s: Seq<char>) -> bool {
    &&& forall|i: int| 0 <= i < s.len() - 1 && #[trigger] s[i] == '$' ==> (s[i + 1] as u32) < 128
    &&& !(s.len() >= 2 && s[0] == '~' && s[1] != '/')
}

/// The error given where the source root cannot be determined.
pub open spec fn root_error() -> Seq<char> {
    "failed to determine dotdir"@
}

/// The variable that names the source root directory.
pub open spec fn root_var() -> Seq<char> {
    "DOT_DIR"@
}

/// The variable that names the home directory.
pub open spec fn home_var() -> Seq<char> {
    "HOME"@
}

/// Where the source root is when `root_var` is unset.
pub open spec fn default_root() -> Seq<char> {
    "$HOME/.dotfiles"@
}

/// The variables once `HOME` has been filled in from the system's home
/// directory, where it was unset and the system knows one.
pub open spec fn with_home(vars: Seq<(Seq<char>, Seq<char>)>, home: Option<Seq<char>>) -> Seq<
    (Seq<char>, Seq<char>),
> {
    if lookup(vars, home_var()) is None && home is Some {
        vars.push((home_var(), home->0))
    } else {
        vars
    }
}

/// The source root in a given environment, `None` where it cannot be
/// determined.
pub open spec fn root_dir_of(vars: Seq<(Seq<char>, Seq<char>)>, home: Option<Seq<char>>) -> Option<
    Seq<char>,
> {
    match lookup(vars, root_var()) {
        Some(d) => Some(d),
        None => expansion_of(default_root(), home, vars),
    }
}

impl Environment {
    pub open spec fn vars_view(&self) -> Seq<(Seq<char>, Seq<char>)> {
        pairs_view(self.vars@)
    }

    pub open spec fn home_view(&self) -> Option<Seq<char>> {
        opt_view(self.home_dir)
    }

    /// The value of the variable `name`, if it is set.
    pub fn var(&self, name: &str) -> (r: Option<String>)
        ensures
            opt_view(r) == lookup(self.vars_view(), name@),
    {
        let wanted = name.to_owned();
        let mut i: usize = self.vars.len();
        assert(self.vars_view().take(i as int) =~= self.vars_view());
        while i > 0
            invariant
                i <= self.vars.len(),
                wanted@ == name@,
                lookup(self.vars_view(), name@) == lookup(self.vars_view().take(i as int), name@),
            decreases i,
        {
            let pair = &self.vars[i - 1];
            proof {
                assert(self.vars_view().take(i as int).drop_last() =~= self.vars_view().take(
                    i - 1,
                ));
                assert(self.vars_view().take(i as int).last() == (pair.0@, pair.1@));
            }
            if pair.0.eq(&wanted) {
                return Some(pair.1.clone());
            }
            i = i - 1;
        }
        None
    }

    /// What variable expansion hands back for `name`: its value, or an error
    /// where it is unset.
    fn expansion_context(&self, name: &str) -> (r: Result<Option<String>, ()>)
        ensures
            match lookup(self.vars_view(), name@) {
                Some(v) => r matches Ok(Some(s)) && s@ == v,
                None => r is Err,
            },
    {
        match self.var(name) {
            Some(v) => Ok(Some(v)),
            None => Err(()),
        }
    }

    /// Sets `HOME` from the system's home directory where it is unset.
    pub fn fill_home(&mut self)
        ensures
            final(self).vars_view() == with_home(old(self).vars_view(), old(self).home_view()),
            final(self).home_dir == old(self).home_dir,
    {
        let missing = self.var("HOME").is_none();
        proof {
            reveal_strlit("HOME");
        }
        if missing {
            match &self.home_dir {
                Some(h) => {
                    let ghost prev = self.vars@;
                    let h = h.clone();
                    self.vars.push(("HOME".to_string(), h));
                    assert(pairs_view(self.vars@) =~= pairs_view(prev).push((home_var(), h@)));
                },
                None => {},
            }
        }
    }

    /// Full shell-like expansion of `input` in this environment.
    pub fn expand(&self, input: &str) -> (r: Option<String>)
        requires
            expandable(input@),
        ensures
            opt_view(r) == expansion_of(input@, self.home_view(), self.vars_view()),
    {
        expand_full(input, self)
    }

    /// The source root directory: `DOT_DIR` where it is set, otherwise
    /// `$HOME/.dotfiles` expanded.
    pub fn root_dir(&self) -> (r: Result<String, String>)
        ensures
            match root_dir_of(self.vars_view(), self.home_view()) {
                Some(d) => r matches Ok(s) && s@ == d,
                None => r matches Err(e) && e@ == root_error(),
            },
    {
        proof {
            reveal_strlit("DOT_DIR");
            reveal_strlit("$HOME/.dotfiles");
            assert(expandable("$HOME/.dotfiles"@));
        }
        match self.var("DOT_DIR") {
            Some(d) => pick_root_dir(Some(d), None),
            None => pick_root_dir(None, self.expand("$HOME/.dotfiles")),
        }
    }
}

/// The source root from the value of `DOT_DIR` and from the expansion of
/// the default location: the former where it is set, else the latter where
/// it succeeded; an error where neither gives a directory.
pub fn pick_root_dir(dot_dir: Option<String>, expanded_default: Option<String>) -> (r: Result<
    String,
    String,
>)
    ensures
        match (dot_dir, expanded_default) {
            (Some(d), _) => r matches Ok(s) && s@ == d@,
            (None, Some(e)) => r matches Ok(s) && s@ == e@,
            (None, None) => r matches Err(e) && e@ == root_error(),
        },
{
    proof {
        reveal_strlit("failed to determine dotdir");
    }
    match dot_dir {
        Some(d) => Ok(d),
        None => match expanded_default {
            Some(e) => Ok(e),
            None => Err("failed to determine dotdir".to_string()),
        },
    }
}

/// Relies on shellexpand::full_with_context: expansion of variables and of a
/// leading tilde, failing where the lookup of a referenced variable fails.
#[verifier::external_body]
fn expand_full(input: &str, env: &Environment) -> (r: Option<String>)
    requires
        expandable(input@),
    ensures
        opt_view(r) == expansion_of(input@, env.home_view(), env.vars_view()),
{
    match shellexpand::full_with_context(
        input,
        || env.home_dir.clone(),
        |name: &str| env.expansion_context(name),
    ) {
        Ok(s) => Some(s.into_owned()),
        Err(_) => None,
    }
}

} // verus!
