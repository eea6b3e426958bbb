//! What the listings say about a snapshot, before any of it is printed.

use crate::submodule::SubmoduleInfo;
use vstd::prelude::*;

verus! {

/// How a checkout stands to its upstream.
#[derive(Clone, Copy, Debug, PartialEq, Eq, Structural)]
pub enum Tracking {
    UpToDate,
    Ahead(usize),
    Behind(usize),
    Diverged(usize, usize),
}

/// How a checkout that is `ahead` commits ahead and `behind` commits behind stands.
pub open spec fn tracking_of(ahead: usize, behind: usize) -> Tracking {
    if ahead == 0 && behind == 0 {
        Tracking::UpToDate
    } else if behind == 0 {
        Tracking::Ahead(ahead)
    } else if ahead == 0 {
        Tracking::Behind(behind)
    } else {
        Tracking::Diverged(ahead, behind)
    }
}

/// How the submodule stands to its upstream.
pub fn tracking(info: &SubmoduleInfo) -> (t: Tracking)
    ensures
        t == tracking_of(info.ahead, info.behind),
{
    if info.ahead == 0 && info.behind == 0 {
        Tracking::UpToDate
    } else if info.behind == 0 {
        Tracking::Ahead(info.ahead)
    } else if info.ahead == 0 {
        Tracking::Behind(info.behind)
    } else {
        Tracking::Diverged(info.ahead, info.behind)
    }
}

/// Whether the working tree has nothing to commit: nothing staged, modified or untracked.
pub fn is_clean(info: &SubmoduleInfo) -> (clean: bool)
    ensures
        clean == (info.staged == 0 && info.modified == 0 && info.untracked == 0),
{
    info.staged == 0 && info.modified == 0 && info.untracked == 0
}

} // verus!
