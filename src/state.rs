//! What stands at an entry's target path, relative to its source.
use vstd::prelude::*;

verus! {

/// The relationship between an entry's target path and its source path.
#[derive(Clone, Copy, Debug, PartialEq, Eq, Structural)]
pub enum LinkState {
    /// Nothing exists at the target path.
    Absent,
    /// The target is a symlink that resolves to the source.
    LinkedCorrectly,
    /// The target is a symlink that resolves to some other existing place.
    LinkedElsewhere,
    /// The target is a regular file or directory.
    OccupiedByFile,
    /// The target is a symlink whose destination does not exist.
    BrokenLink,
    /// The filesystem could not be queried.
    InspectionError,
}

/// What a look at the target path found, without following a symlink there.
#[derive(Debug, PartialEq, Eq)]
pub enum Probe {
    /// Querying the target path failed.
    Failed,
    /// No entry of any kind exists at the target path.
    Nothing,
    /// A file or directory that is not a symlink.
    NotALink,
    /// A symlink; `resolved` is the canonical path it leads to, or `None`
    /// when it dangles.
    Symlink { resolved: Option<String> },
}

/// The classification of a probe against the canonical source path.
pub open spec fn classify(probe: Probe, source: Seq<char>) -> LinkState {
    match probe {
        Probe::Failed => LinkState::InspectionError,
        Probe::Nothing => LinkState::Absent,
        Probe::NotALink => LinkState::OccupiedByFile,
        Probe::Symlink { resolved } => match resolved {
            None => LinkState::BrokenLink,
            Some(p) => if p@ == source {
                LinkState::LinkedCorrectly
            } else {
                LinkState::LinkedElsewhere
            },
        },
    }
}

/// Classifies what was found at a target path.
pub fn inspect(probe: &Probe, source: &String) -> (r: LinkState)
    ensures
        r == classify(*probe, source@),
{
    match probe {
        Probe::Failed => LinkState::InspectionError,
        Probe::Nothing => LinkState::Absent,
        Probe::NotALink => LinkState::OccupiedByFile,
        Probe::Symlink { resolved } => match resolved {
            None => LinkState::BrokenLink,
            Some(p) => if p.eq(source) {
                LinkState::LinkedCorrectly
            } else {
                LinkState::LinkedElsewhere
            },
        },
    }
}

impl LinkState {
    pub open spec fn description(self) -> Seq<char> {
        match self {
            LinkState::Absent => "not linked"@,
            LinkState::LinkedCorrectly => "linked"@,
            LinkState::LinkedElsewhere => "linked to another place"@,
            LinkState::OccupiedByFile => "occupied by a file that is not a link"@,
            LinkState::BrokenLink => "a broken link"@,
            LinkState::InspectionError => "could not be inspected"@,
        }
    }

    /// A short description of the state, for verbose reports.
    pub fn describe(&self) -> (r: String)
        ensures
            r@ == self.description(),
    {
        match self {
            LinkState::Absent => "not linked".to_string(),
            LinkState::LinkedCorrectly => "linked".to_string(),
            LinkState::LinkedElsewhere => "linked to another place".to_string(),
            LinkState::OccupiedByFile => "occupied by a file that is not a link".to_string(),
            LinkState::BrokenLink => "a broken link".to_string(),
            LinkState::InspectionError => "could not be inspected".to_string(),
        }
    }
}

} // verus!
