//! What holds of every swap, whatever the caller reports.

use crate::configs::paths_config::PathsConfigView;
use crate::hotline_mod::{HotlineModView, ListedEntry};
use crate::replace_mod::replace_mods::{patch_files, ReplaceModErrorView};
use crate::replace_mod::{
    abort_spec, advance_spec, begin_spec, install_spec, persist_request, ModSwapView,
    SwapErrorView, SwapReplyView, SwapRequestView, SwapStage,
};
use vstd::prelude::*;

verus! {

/// Where a swap stands after a sequence of reports.
pub open spec fn run_spec(swap: ModSwapView, replies: Seq<SwapReplyView>) -> ModSwapView
    decreases replies.len(),
{
    if replies.len() == 0 {
        swap
    } else {
        run_spec(advance_spec(swap, replies[0]).0, replies.drop_first())
    }
}

/// `count` reports of success.
pub open spec fn completed(count: nat) -> Seq<SwapReplyView> {
    Seq::new(count, |i: int| SwapReplyView::Completed)
}

/// The number of reports of success that bring a swap from the end of the
/// cleanup to its end: one for the bulk copy where the bundle has mod
/// files, one for the write of the current bundle.
pub open spec fn steps_after_cleanup(swap: ModSwapView) -> nat {
    if swap.copy is Some {
        2
    } else {
        1
    }
}

/// One report leads where one step leads.
pub proof fn lemma_run_one(swap: ModSwapView, reply: SwapReplyView)
    ensures
        run_spec(swap, seq![reply]) == advance_spec(swap, reply).0,
{
    let replies = seq![reply];
    let next = advance_spec(swap, replies[0]).0;
    assert(replies.drop_first().len() == 0);
    assert(run_spec(next, replies.drop_first()) == next);
}

/// Reports taken one sequence after the other lead where the two sequences
/// lead in a row.
pub proof fn lemma_run_in_two_parts(
    swap: ModSwapView,
    first: Seq<SwapReplyView>,
    second: Seq<SwapReplyView>,
)
    ensures
        run_spec(swap, first + second) == run_spec(run_spec(swap, first), second),
    decreases first.len(),
{
    if first.len() == 0 {
        assert(first + second == second);
    } else {
        assert((first + second)[0] == first[0]);
        assert((first + second).drop_first() == first.drop_first() + second);
        lemma_run_in_two_parts(advance_spec(swap, first[0]).0, first.drop_first(), second);
    }
}

/// A step changes neither the bundle that is installed, nor its bulk copy,
/// nor the directory that is cleaned, and leaves the swap well-formed.
pub proof fn lemma_advance_keeps_bundle(swap: ModSwapView, reply: SwapReplyView)
    ensures
        advance_spec(swap, reply).0.name == swap.name,
        advance_spec(swap, reply).0.copy == swap.copy,
        advance_spec(swap, reply).0.mods_path == swap.mods_path,
        advance_spec(swap, reply).0.wf(),
{
}

/// Whatever is reported, a swap goes on for the bundle it began with.
pub proof fn lemma_run_keeps_bundle(swap: ModSwapView, replies: Seq<SwapReplyView>)
    ensures
        run_spec(swap, replies).name == swap.name,
        run_spec(swap, replies).copy == swap.copy,
        run_spec(swap, replies).mods_path == swap.mods_path,
    decreases replies.len(),
{
    if replies.len() > 0 {
        lemma_run_keeps_bundle(advance_spec(swap, replies[0]).0, replies.drop_first());
    }
}

/// A directory that cannot be listed. Where the listing of the active mods
/// directory fails, the swap ends with the error of the cleanup, which
/// carries the cause.
pub proof fn lemma_unlistable_directory_aborts(swap: ModSwapView, cause: Seq<char>)
    requires
        swap.stage == SwapStage::ListingMods,
    ensures
        advance_spec(swap, SwapReplyView::Failed(cause)) == abort_spec(
            swap,
            SwapErrorView::Mods(ReplaceModErrorView::ReadingModsDirectory(cause)),
        ),
        advance_spec(swap, SwapReplyView::Failed(cause)).0.stage == SwapStage::Failed,
{
}

/// A failure of any step ends the swap in failure: no later step is
/// requested.
pub proof fn lemma_failure_ends_swap(swap: ModSwapView, cause: Seq<char>)
    requires
        swap.is_live(),
    ensures
        advance_spec(swap, SwapReplyView::Failed(cause)).0.stage == SwapStage::Failed,
        advance_spec(swap, SwapReplyView::Failed(cause)).1 is Abort,
{
}

/// A swap that has failed stays failed, whatever is reported to it.
pub proof fn lemma_failed_swap_stays_failed(swap: ModSwapView, replies: Seq<SwapReplyView>)
    requires
        swap.stage == SwapStage::Failed,
    ensures
        run_spec(swap, replies) == swap,
    decreases replies.len(),
{
    if replies.len() > 0 {
        lemma_failed_swap_stays_failed(swap, replies.drop_first());
    }
}

/// After a failure there is no success: a swap that meets a failure before
/// its end is never done, whatever is reported afterwards.
pub proof fn lemma_no_success_after_failure(
    swap: ModSwapView,
    cause: Seq<char>,
    later: Seq<SwapReplyView>,
)
    requires
        swap.is_live(),
    ensures
        run_spec(swap, seq![SwapReplyView::Failed(cause)] + later).stage == SwapStage::Failed,
{
    let first = seq![SwapReplyView::Failed(cause)];
    lemma_run_in_two_parts(swap, first, later);
    lemma_run_one(swap, SwapReplyView::Failed(cause));
    lemma_failed_swap_stays_failed(run_spec(swap, first), later);
}

/// A swap becomes done by one step only: the successful write of the
/// current bundle's file, which is the last request of all.
pub proof fn lemma_done_follows_persisting(swap: ModSwapView, reply: SwapReplyView)
    ensures
        advance_spec(swap, reply).0.stage == SwapStage::Done ==> swap.stage == SwapStage::Done || (
        swap.stage == SwapStage::Persisting && reply is Completed),
        advance_spec(swap, reply).1 is Persist ==> swap.is_live() && !(reply is Failed),
{
}

/// The patch files to delete are those of the listing, and the first
/// deletion requested is that of the first of them.
pub proof fn lemma_listing_starts_cleanup(swap: ModSwapView, entries: Seq<ListedEntry>)
    requires
        swap.stage == SwapStage::ListingMods,
    ensures
        advance_spec(swap, SwapReplyView::Listing(entries)).0.pending == patch_files(entries),
        patch_files(entries).len() > 0 ==> advance_spec(swap, SwapReplyView::Listing(entries)).1
            == (SwapRequestView::RemoveFile { path: patch_files(entries)[0] }),
{
}

/// A bundle without mod files has no bulk copy.
pub proof fn lemma_bundle_without_mods_has_no_copy(
    target: HotlineModView,
    default_music: Option<Seq<char>>,
    paths: PathsConfigView,
)
    requires
        target.mods.len() == 0,
    ensures
        begin_spec(target, default_music, paths).0.copy is None,
        !(begin_spec(target, default_music, paths).1 is CopyMods),
{
}

/// A swap without bulk copy never requests one.
pub proof fn lemma_no_bulk_copy_without_mods(swap: ModSwapView, reply: SwapReplyView)
    requires
        swap.copy is None,
    ensures
        !(advance_spec(swap, reply).1 is CopyMods),
        advance_spec(swap, reply).0.copy is None,
{
}

/// Where every deletion succeeds, the cleanup ends after as many reports as
/// there are patch files, and the next step is the bulk copy or, without
/// mod files, the write of the current bundle.
pub proof fn lemma_removals_complete(swap: ModSwapView)
    requires
        swap.stage == SwapStage::RemovingMods,
        swap.wf(),
    ensures
        run_spec(swap, completed(swap.pending.len())).stage == if swap.copy is Some {
            SwapStage::CopyingMods
        } else {
            SwapStage::Persisting
        },
        run_spec(swap, completed(swap.pending.len())).copy == swap.copy,
    decreases swap.pending.len(),
{
    let replies = completed(swap.pending.len());
    let next = advance_spec(swap, SwapReplyView::Completed).0;
    assert(replies[0] == SwapReplyView::Completed);
    assert(replies.drop_first() == completed((swap.pending.len() - 1) as nat));
    if swap.pending.len() > 1 {
        assert(next.pending == swap.pending.drop_first());
        lemma_removals_complete(next);
    } else {
        assert(replies.drop_first().len() == 0);
        assert(run_spec(next, replies.drop_first()) == next);
    }
}

/// A swap in which every step succeeds ends done. From the listing on, it
/// takes the listing, one report of success for each patch file, one for
/// the bulk copy where the bundle has mod files, and one for the write of
/// the current bundle.
pub proof fn lemma_clean_swap_succeeds(swap: ModSwapView, entries: Seq<ListedEntry>)
    requires
        swap.stage == SwapStage::ListingMods,
    ensures
        run_spec(
            swap,
            seq![SwapReplyView::Listing(entries)] + completed(patch_files(entries).len())
                + completed(steps_after_cleanup(swap)),
        ).stage == SwapStage::Done,
{
    let listing = seq![SwapReplyView::Listing(entries)];
    let removals = completed(patch_files(entries).len());
    let rest = completed(steps_after_cleanup(swap));
    let listed = advance_spec(swap, SwapReplyView::Listing(entries)).0;
    lemma_run_one(swap, SwapReplyView::Listing(entries));
    lemma_run_in_two_parts(swap, listing + removals, rest);
    lemma_run_in_two_parts(swap, listing, removals);
    let cleaned = run_spec(listed, removals);
    if patch_files(entries).len() > 0 {
        lemma_removals_complete(listed);
    } else {
        assert(removals.len() == 0);
    }
    assert(cleaned.copy == swap.copy);
    assert(rest[0] == SwapReplyView::Completed);
    let after_first = advance_spec(cleaned, SwapReplyView::Completed).0;
    if swap.copy is Some {
        assert(rest.drop_first() == seq![SwapReplyView::Completed]);
        lemma_run_one(after_first, SwapReplyView::Completed);
    } else {
        assert(rest == seq![SwapReplyView::Completed]);
        lemma_run_one(cleaned, SwapReplyView::Completed);
    }
}

/// The requests that a sequence of reports brings forth, one for each
/// report.
pub open spec fn requests_of(swap: ModSwapView, replies: Seq<SwapReplyView>) -> Seq<
    SwapRequestView,
>
    decreases replies.len(),
{
    if replies.len() == 0 {
        Seq::empty()
    } else {
        seq![advance_spec(swap, replies[0]).1] + requests_of(
            advance_spec(swap, replies[0]).0,
            replies.drop_first(),
        )
    }
}

/// The requests to delete these files, in order.
pub open spec fn removals(paths: Seq<Seq<char>>) -> Seq<SwapRequestView> {
    paths.map_values(|path: Seq<char>| SwapRequestView::RemoveFile { path })
}

/// The requests that follow the cleanup: the bulk copy where the bundle has
/// mod files, the write of the current bundle, and the end.
pub open spec fn closing_requests(swap: ModSwapView) -> Seq<SwapRequestView> {
    match swap.copy {
        Some(copy) => seq![
            SwapRequestView::CopyMods(copy),
            persist_request(swap.name),
            SwapRequestView::Finish,
        ],
        None => seq![persist_request(swap.name), SwapRequestView::Finish],
    }
}

/// The requests of reports taken one sequence after the other are those of
/// the first sequence followed by those of the second.
pub proof fn lemma_requests_in_two_parts(
    swap: ModSwapView,
    first: Seq<SwapReplyView>,
    second: Seq<SwapReplyView>,
)
    ensures
        requests_of(swap, first + second) == requests_of(swap, first) + requests_of(
            run_spec(swap, first),
            second,
        ),
    decreases first.len(),
{
    if first.len() == 0 {
        assert(first + second == second);
        assert(requests_of(swap, first) + requests_of(swap, second) == requests_of(swap, second));
    } else {
        let next = advance_spec(swap, first[0]).0;
        assert((first + second)[0] == first[0]);
        assert((first + second).drop_first() == first.drop_first() + second);
        lemma_requests_in_two_parts(next, first.drop_first(), second);
        assert(seq![advance_spec(swap, first[0]).1] + (requests_of(next, first.drop_first())
            + requests_of(run_spec(next, first.drop_first()), second)) == (seq![
            advance_spec(swap, first[0]).1,
        ] + requests_of(next, first.drop_first())) + requests_of(
            run_spec(next, first.drop_first()),
            second,
        ));
    }
}

proof fn lemma_requests_of_one(swap: ModSwapView, reply: SwapReplyView)
    ensures
        requests_of(swap, seq![reply]) == seq![advance_spec(swap, reply).1],
{
    let replies = seq![reply];
    let next = advance_spec(swap, replies[0]).0;
    assert(replies.drop_first().len() == 0);
    assert(requests_of(next, replies.drop_first()) == Seq::<SwapRequestView>::empty());
    assert(seq![advance_spec(swap, reply).1] + Seq::<SwapRequestView>::empty() == seq![
        advance_spec(swap, reply).1,
    ]);
}

proof fn lemma_requests_of_removals(swap: ModSwapView)
    requires
        swap.stage == SwapStage::RemovingMods,
        swap.wf(),
    ensures
        requests_of(swap, completed(swap.pending.len())) == removals(swap.pending.drop_first())
            + seq![install_spec(swap).1],
    decreases swap.pending.len(),
{
    let replies = completed(swap.pending.len());
    let step = advance_spec(swap, SwapReplyView::Completed);
    let rest = swap.pending.drop_first();
    assert(replies[0] == SwapReplyView::Completed);
    assert(replies.drop_first() == completed(rest.len()));
    if rest.len() > 0 {
        assert(step.0.pending == rest);
        lemma_requests_of_removals(step.0);
        assert(install_spec(step.0).1 == install_spec(swap).1);
        assert(removals(rest) == seq![step.1] + removals(rest.drop_first()));
        assert(seq![step.1] + (removals(rest.drop_first()) + seq![install_spec(swap).1]) == (seq![
            step.1,
        ] + removals(rest.drop_first())) + seq![install_spec(swap).1]);
    } else {
        assert(replies.drop_first().len() == 0);
        assert(requests_of(step.0, replies.drop_first()) == Seq::<SwapRequestView>::empty());
        assert(removals(rest) == Seq::<SwapRequestView>::empty());
        assert(step.1 == install_spec(swap).1);
        assert(seq![step.1] + Seq::<SwapRequestView>::empty() == Seq::<SwapRequestView>::empty()
            + seq![step.1]);
    }
}

/// What a swap does on disk where every step succeeds. From the listing on,
/// the requests are: the deletion of every patch file of the listing, in
/// listing order, and of nothing else; then the bulk copy where the bundle
/// has mod files; then the write of the current bundle; then the end.
pub proof fn lemma_clean_swap_requests(swap: ModSwapView, entries: Seq<ListedEntry>)
    requires
        swap.stage == SwapStage::ListingMods,
    ensures
        requests_of(
            swap,
            seq![SwapReplyView::Listing(entries)] + completed(patch_files(entries).len())
                + completed(steps_after_cleanup(swap)),
        ) == removals(patch_files(entries)) + closing_requests(swap),
{
    let listing = seq![SwapReplyView::Listing(entries)];
    let files = patch_files(entries);
    let confirmations = completed(files.len());
    let rest = completed(steps_after_cleanup(swap));
    let listed = advance_spec(swap, SwapReplyView::Listing(entries));
    let install = install_spec(ModSwapView { pending: files, ..swap }).1;
    lemma_requests_in_two_parts(swap, listing + confirmations, rest);
    lemma_requests_in_two_parts(swap, listing, confirmations);
    lemma_run_in_two_parts(swap, listing, confirmations);
    lemma_requests_of_one(swap, SwapReplyView::Listing(entries));
    lemma_run_one(swap, SwapReplyView::Listing(entries));
    let cleaned = run_spec(listed.0, confirmations);
    // The listing and the confirmations bring forth the deletions and the
    // request that follows the cleanup.
    if files.len() > 0 {
        lemma_requests_of_removals(listed.0);
        lemma_removals_complete(listed.0);
        assert(removals(files) == seq![listed.1] + removals(files.drop_first()));
        assert(seq![listed.1] + (removals(files.drop_first()) + seq![install]) == removals(files)
            + seq![install]);
    } else {
        assert(confirmations.len() == 0);
        assert(requests_of(listed.0, confirmations) == Seq::<SwapRequestView>::empty());
        assert(removals(files) == Seq::<SwapRequestView>::empty());
        assert(seq![listed.1] + Seq::<SwapRequestView>::empty() == removals(files) + seq![
            install,
        ]);
    }
    assert(requests_of(swap, listing + confirmations) == removals(files) + seq![install]);
    lemma_run_keeps_bundle(listed.0, confirmations);
    assert(rest[0] == SwapReplyView::Completed);
    let after_first = advance_spec(cleaned, SwapReplyView::Completed);
    if swap.copy is Some {
        assert(rest.drop_first() == seq![SwapReplyView::Completed]);
        lemma_requests_of_one(after_first.0, SwapReplyView::Completed);
        assert(requests_of(cleaned, rest) == seq![
            persist_request(swap.name),
            SwapRequestView::Finish,
        ]);
        assert((removals(files) + seq![install]) + seq![
            persist_request(swap.name),
            SwapRequestView::Finish,
        ] == removals(files) + closing_requests(swap));
    } else {
        assert(rest == seq![SwapReplyView::Completed]);
        lemma_requests_of_one(cleaned, SwapReplyView::Completed);
        assert((removals(files) + seq![install]) + seq![SwapRequestView::Finish] == removals(files)
            + closing_requests(swap));
    }
}

} // verus!
