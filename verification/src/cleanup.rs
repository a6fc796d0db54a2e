//! What a cleanup run does with the versions it found.

use crate::version::Version;
use vstd::prelude::*;
use vstd::string::StrSliceExecFns;

verus! {

/// The versions without a tag, in the order in which they were listed.
pub open spec fn untagged(versions: Seq<Version>) -> Seq<Version> {
    versions.filter(|version: Version| version.untagged())
}

/// The versions that a list of references points to.
pub open spec fn referents(picked: Seq<&Version>) -> Seq<Version> {
    picked.map_values(|version: &Version| *version)
}

/// What to do after the versions of an image were listed.
pub enum Plan<'a> {
    /// The image has no versions: there is nothing to do.
    NoVersions,
    /// Every version carries a tag: there is nothing to delete.
    NoUntagged,
    /// These versions carry no tag: ask whether to delete them.
    Confirm(Vec<&'a Version>),
}

/// Picks the versions without a tag, in the order in which they were listed.
pub fn untagged_versions(versions: &Vec<Version>) -> (picked: Vec<&Version>)
    ensures
        referents(picked@) == untagged(versions@),
{
    let mut picked: Vec<&Version> = Vec::new();
    let mut i: usize = 0;
    proof {
        reveal(Seq::filter);
    }
    while i < versions.len()
        invariant
            i <= versions.len(),
            referents(picked@) == untagged(versions@.take(i as int)),
        decreases versions.len() - i,
    {
        let version = &versions[i];
        proof {
            reveal(Seq::filter);
        }
        assert(versions@.take(i + 1).drop_last() =~= versions@.take(i as int));
        if version.is_untagged() {
            picked.push(version);
        }
        i = i + 1;
    }
    assert(versions@.take(versions.len() as int) =~= versions@);
    picked
}

/// Decides what to do with the versions that were listed: stop when there are
/// none, stop when none is untagged, else ask about the untagged ones.
pub fn plan(versions: &Vec<Version>) -> (plan: Plan<'_>)
    ensures
        match plan {
            Plan::NoVersions => versions@.len() == 0,
            Plan::NoUntagged => versions@.len() > 0 && untagged(versions@).len() == 0,
            Plan::Confirm(picked) => {
                &&& versions@.len() > 0
                &&& picked@.len() > 0
                &&& referents(picked@) == untagged(versions@)
            },
        },
{
    if versions.len() == 0 {
        return Plan::NoVersions;
    }
    let picked = untagged_versions(versions);
    if picked.len() == 0 {
        Plan::NoUntagged
    } else {
        Plan::Confirm(picked)
    }
}

/// Whether an answer says yes: it is `y` or `Y` and nothing else.
pub open spec fn affirmative(answer: Seq<char>) -> bool {
    answer == seq!['y'] || answer == seq!['Y']
}

/// Whether an answer to the question of deleting says yes.
pub fn is_affirmative(answer: &str) -> (yes: bool)
    ensures
        yes == affirmative(answer@),
{
    if answer.unicode_len() != 1 {
        return false;
    }
    let c = answer.get_char(0);
    let yes = c == 'y' || c == 'Y';
    assert(yes ==> answer@ =~= seq![c]);
    yes
}

} // verus!
