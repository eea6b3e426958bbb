//! What holds of every snapshot, stated over the models of the `submodule` module.

use crate::status::{count_modified, count_staged, count_untracked, modified, staged};
use crate::submodule::{
    branch_label, divergence, select, selected, upstream_ref, DeclaredView, ObservationView,
    SubmoduleView,
};
use vstd::prelude::*;

verus! {

/// A submodule that is not on disk has a record that carries its declaration and nothing
/// else: no branch, no commit, no message, not dirty, and every count zero.
pub proof fn lemma_not_checked_out_is_unpopulated(d: DeclaredView)
    ensures
        ({
            let record = SubmoduleView::not_checked_out(d.name, d.path, d.url);
            &&& record.of(d)
            &&& record.snapshot_of(d)
            &&& record.unpopulated()
            &&& record.consistent()
            &&& !record.parent_changed
        }),
{
}

/// Every snapshot of a declaration carries that declaration and is consistent.
pub proof fn lemma_snapshot_is_consistent(record: SubmoduleView, d: DeclaredView)
    requires
        record.snapshot_of(d),
    ensures
        record.of(d),
        record.consistent(),
{
}

/// Where the observation is well formed, the record is ahead and behind by what was
/// counted, and by nothing where nothing was counted.
pub proof fn lemma_divergence_of_well_formed(obs: ObservationView)
    requires
        obs.well_formed(),
    ensures
        divergence(obs) == match obs.ahead_behind {
            Some(counts) => counts,
            None => (0nat, 0nat),
        },
{
}

/// A record is dirty exactly when something is staged or modified.
pub proof fn lemma_checked_out_is_consistent(d: DeclaredView, obs: ObservationView)
    ensures
        ({
            let record = SubmoduleView::checked_out(d.name, d.path, d.url, obs);
            &&& record.of(d)
            &&& record.consistent()
            &&& record.is_dirty == (record.staged > 0 || record.modified > 0)
        }),
{
}

/// One more entry that is neither staged nor modified, such as an untracked file, changes
/// neither the staged and modified counts nor whether the record is dirty.
pub proof fn lemma_dirty_ignores_other_entries(d: DeclaredView, obs: ObservationView, flags: u32)
    requires
        !staged(flags),
        !modified(flags),
    ensures
        ({
            let more = ObservationView { statuses: obs.statuses.push(flags), ..obs };
            let before = SubmoduleView::checked_out(d.name, d.path, d.url, obs);
            let after = SubmoduleView::checked_out(d.name, d.path, d.url, more);
            &&& after.is_dirty == before.is_dirty
            &&& after.staged == before.staged
            &&& after.modified == before.modified
        }),
{
    obs.statuses.lemma_filter_push(flags, |f: u32| staged(f));
    obs.statuses.lemma_filter_push(flags, |f: u32| modified(f));
}

/// A working tree whose entries are all neither staged nor modified is not dirty, however
/// many of them there are.
pub proof fn lemma_only_other_entries_is_clean(d: DeclaredView, obs: ObservationView)
    requires
        forall|i: int| 0 <= i < obs.statuses.len() ==> !staged(obs.statuses[i]) && !modified(
            obs.statuses[i],
        ),
    ensures
        !SubmoduleView::checked_out(d.name, d.path, d.url, obs).is_dirty,
{
    let is_staged = |f: u32| staged(f);
    let is_modified = |f: u32| modified(f);
    assert(obs.statuses.all(|f: u32| !is_staged(f)));
    assert(obs.statuses.all(|f: u32| !is_modified(f)));
    obs.statuses.lemma_all_neg_filter_empty(is_staged);
    obs.statuses.lemma_all_neg_filter_empty(is_modified);
}

/// Where no entry of the working tree was found, as after two failed enumerations, every
/// count is zero and the record is not dirty.
pub proof fn lemma_no_entries_is_clean(d: DeclaredView, obs: ObservationView)
    requires
        obs.statuses.len() == 0,
    ensures
        ({
            let record = SubmoduleView::checked_out(d.name, d.path, d.url, obs);
            &&& record.staged == 0
            &&& record.modified == 0
            &&& record.untracked == 0
            &&& !record.is_dirty
        }),
{
    broadcast use Seq::lemma_filter_len;

}

/// Without an upstream tracking reference the record is neither ahead nor behind.
pub proof fn lemma_no_upstream_is_up_to_date(d: DeclaredView, obs: ObservationView)
    requires
        obs.upstream is None,
    ensures
        SubmoduleView::checked_out(d.name, d.path, d.url, obs).ahead == 0,
        SubmoduleView::checked_out(d.name, d.path, d.url, obs).behind == 0,
{
}

/// A checkout that is on no named branch is neither ahead nor behind, whatever was read
/// besides.
pub proof fn lemma_no_branch_is_up_to_date(d: DeclaredView, obs: ObservationView)
    requires
        upstream_ref(obs.head) is None,
    ensures
        divergence(obs) == (0nat, 0nat),
        SubmoduleView::checked_out(d.name, d.path, d.url, obs).ahead == 0,
        SubmoduleView::checked_out(d.name, d.path, d.url, obs).behind == 0,
        branch_label(obs.head) is None ==> upstream_ref(obs.head) is None,
{
}

/// Without a filter every declaration is selected.
pub proof fn lemma_no_filter_selects_all(declared: Seq<DeclaredView>)
    ensures
        select(declared, None) == declared,
    decreases declared.len(),
{
    reveal(Seq::filter);
    if declared.len() > 0 {
        lemma_no_filter_selects_all(declared.drop_last());
        assert(declared.drop_last().push(declared.last()) =~= declared);
    }
}

/// Every selected declaration bears the name that was asked for.
pub proof fn lemma_selected_bear_the_name(declared: Seq<DeclaredView>, name: Seq<char>)
    ensures
        forall|i: int|
            0 <= i < select(declared, Some(name)).len() ==> (#[trigger] select(
                declared,
                Some(name),
            )[i]).name == name,
{
    let keep = |d: DeclaredView| selected(d, Some(name));
    assert forall|i: int| 0 <= i < select(declared, Some(name)).len() implies (#[trigger] select(
        declared,
        Some(name),
    )[i]).name == name by {
        declared.lemma_filter_pred(keep, i);
    }
}

/// A name that no declaration bears selects nothing.
pub proof fn lemma_filter_without_match(declared: Seq<DeclaredView>, name: Seq<char>)
    requires
        forall|i: int| 0 <= i < declared.len() ==> declared[i].name != name,
    ensures
        select(declared, Some(name)).len() == 0,
{
    let keep = |d: DeclaredView| selected(d, Some(name));
    assert(declared.all(|d: DeclaredView| !keep(d)));
    declared.lemma_all_neg_filter_empty(keep);
}

/// A name that exactly one declaration bears selects that declaration alone.
pub proof fn lemma_filter_with_one_match(declared: Seq<DeclaredView>, name: Seq<char>, at: int)
    requires
        0 <= at < declared.len(),
        declared[at].name == name,
        forall|i: int| 0 <= i < declared.len() && i != at ==> declared[i].name != name,
    ensures
        select(declared, Some(name)) == seq![declared[at]],
        select(declared, Some(name)).len() == 1,
        select(declared, Some(name))[0].name == name,
{
    let keep = |d: DeclaredView| selected(d, Some(name));
    let before = declared.take(at);
    let after = declared.skip(at + 1);
    assert(declared =~= before + seq![declared[at]] + after);
    Seq::filter_distributes_over_add(before + seq![declared[at]], after, keep);
    Seq::filter_distributes_over_add(before, seq![declared[at]], keep);
    assert(before.all(|d: DeclaredView| !keep(d)));
    assert(after.all(|d: DeclaredView| !keep(d)));
    before.lemma_all_neg_filter_empty(keep);
    after.lemma_all_neg_filter_empty(keep);
    assert(seq![declared[at]].filter(keep) =~= seq![declared[at]]) by {
        reveal_with_fuel(Seq::filter, 2);
        assert(seq![declared[at]].drop_last() =~= Seq::<DeclaredView>::empty());
    }
    assert(select(declared, Some(name)) =~= seq![declared[at]]);
}

/// The counts of a record are those of the categories, each entry counted in every
/// category it belongs to.
pub proof fn lemma_counts_follow_the_categories(d: DeclaredView, obs: ObservationView)
    ensures
        ({
            let record = SubmoduleView::checked_out(d.name, d.path, d.url, obs);
            &&& record.staged == count_staged(obs.statuses)
            &&& record.modified == count_modified(obs.statuses)
            &&& record.untracked == count_untracked(obs.statuses)
        }),
        count_staged(obs.statuses) <= obs.statuses.len(),
        count_modified(obs.statuses) <= obs.statuses.len(),
        count_untracked(obs.statuses) <= obs.statuses.len(),
{
    broadcast use Seq::lemma_filter_len;

}

} // verus!
