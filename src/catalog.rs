//! The managed collection: which children of the source root are entries,
//! and where each one is linked.
use vstd::prelude::*;

verus! {

broadcast use {vstd::string::next_postcondition, vstd::string::axiom_spec_iter};

/// Names that belong to the collection's own machinery (version-control
/// metadata, the tool's hidden control files) and are never linked.
pub open spec fn reserved(name: Seq<char>) -> bool {
    name.len() == 0 || name[0] == '.'
}

/// The source path of the item `name` inside the root directory.
pub open spec fn source_of(root: Seq<char>, name: Seq<char>) -> Seq<char> {
    root + seq!['/'] + name
}

/// Where the item `name` is linked: a hidden file of the same name in the
/// home directory.
pub open spec fn target_of(home: Seq<char>, name: Seq<char>) -> Seq<char> {
    home + seq!['/', '.'] + name
}

/// The entries, as (name, source path, target path), that the listed
/// children of the root directory give, in listing order.
pub open spec fn catalog(root: Seq<char>, home: Seq<char>, names: Seq<Seq<char>>) -> Seq<
    (Seq<char>, Seq<char>, Seq<char>),
>
    decreases names.len(),
{
    if names.len() == 0 {
        seq![]
    } else {
        let rest = catalog(root, home, names.drop_last());
        let n = names.last();
        if reserved(n) {
            rest
        } else {
            rest.push((n, source_of(root, n), target_of(home, n)))
        }
    }
}

/// One managed configuration item.
#[derive(Debug, PartialEq, Eq)]
pub struct Entry {
    pub name: String,
    pub source_path: String,
    pub target_path: String,
}

impl View for Entry {
    type V = (Seq<char>, Seq<char>, Seq<char>);

    open spec fn view(&self) -> Self::V {
        (self.name@, self.source_path@, self.target_path@)
    }
}

/// The managed collection, rooted at `root_dir`, linked into `home_dir`.
#[derive(Debug, PartialEq, Eq)]
pub struct Dotfiles {
    pub root_dir: String,
    pub home_dir: String,
}

/// Whether `name` is reserved.
pub fn is_reserved(name: &String) -> (r: bool)
    ensures
        r == reserved(name@),
{
    let mut chars = name.as_str().chars();
    match chars.next() {
        None => true,
        Some(c) => c == '.',
    }
}

fn joined(dir: &String, sep: &str, name: &String) -> (r: String)
    ensures
        r@ == dir@ + sep@ + name@,
{
    let r = dir.clone().concat(sep).concat(name.as_str());
    r
}

impl Dotfiles {
    pub open spec fn root_view(&self) -> Seq<char> {
        self.root_dir@
    }

    pub open spec fn home_view(&self) -> Seq<char> {
        self.home_dir@
    }

    pub fn new(root_dir: String, home_dir: String) -> (r: Dotfiles)
        ensures
            r.root_view() == root_dir@,
            r.home_view() == home_dir@,
    {
        Dotfiles { root_dir, home_dir }
    }

    pub fn root_dir(&self) -> (r: &String)
        ensures
            r@ == self.root_view(),
    {
        &self.root_dir
    }

    pub fn home_dir(&self) -> (r: &String)
        ensures
            r@ == self.home_view(),
    {
        &self.home_dir
    }

    /// The entries that the listed children of the root directory give,
    /// reserved names left out, in listing order.
    pub fn entries(&self, names: &Vec<String>) -> (r: Vec<Entry>)
        ensures
            r@.map_values(|e: Entry| e@) == catalog(
                self.root_view(),
                self.home_view(),
                names@.map_values(|n: String| n@),
            ),
    {
        let ghost views = names@.map_values(|n: String| n@);
        let mut r: Vec<Entry> = Vec::new();
        let mut i: usize = 0;
        while i < names.len()
            invariant
                i <= names.len(),
                views == names@.map_values(|n: String| n@),
                r@.map_values(|e: Entry| e@) == catalog(
                    self.root_view(),
                    self.home_view(),
                    views.take(i as int),
                ),
            decreases names.len() - i,
        {
            let name = &names[i];
            proof {
                assert(views.take(i + 1).drop_last() =~= views.take(i as int));
                assert(views.take(i + 1).last() == name@);
            }
            if !is_reserved(name) {
                let e = Entry {
                    name: name.clone(),
                    source_path: joined(&self.root_dir, "/", name),
                    target_path: joined(&self.home_dir, "/.", name),
                };
                proof {
                    reveal_strlit("/");
                    reveal_strlit("/.");
                    assert("/"@ =~= seq!['/']);
                    assert("/."@ =~= seq!['/', '.']);
                    assert(e@ == (name@, source_of(self.root_dir@, name@), target_of(self.home_dir@, name@)));
                }
                let ghost prev = r@;
                r.push(e);
                assert(r@.map_values(|e: Entry| e@) =~= prev.map_values(|e: Entry| e@).push(e@));
            }
            i = i + 1;
        }
        assert(views.take(names.len() as int) =~= views);
        r
    }
}

} // verus!
