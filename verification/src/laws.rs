//! The engine's batch-level and policy-level guarantees, stated and
//! proved over the specification functions that the executable
//! functions' contracts use.

use vstd::prelude::*;

use crate::numfmt::decimal_str;
use crate::plan::{spec_item_result, spec_rename_files, FsOutcomeView, PlanItemView};
use crate::retry::{spec_is_transient, spec_should_retry, RENAME_MAX_RETRIES};

verus! {

/// Law: a batch's records line up one-to-one with its plan items — same
/// length, and record `i` echoes item `i`'s identifier, source path and
/// target path, whatever the filesystem outcomes were.
pub proof fn lemma_batch_preserves_identity(
    items: Seq<PlanItemView>,
    outcomes: Seq<Option<FsOutcomeView>>,
)
    ensures
        spec_rename_files(items, outcomes).len() == items.len(),
        forall|i: int|
            0 <= i < items.len() ==> {
                let r = #[trigger] spec_rename_files(items, outcomes)[i];
                r.item_id == items[i].item_id && r.source_path == items[i].source_path
                    && r.target_path == items[i].target_path
            },
{
}

/// Law: an item whose action is not "rename" is always reported as
/// skipped, with the message "skipped_by_plan", whatever the host saw on
/// the filesystem.
pub proof fn lemma_non_rename_always_skipped(item: PlanItemView, fs: Option<FsOutcomeView>)
    requires
        item.action != "rename"@,
    ensures
        spec_item_result(item, fs).result == "skipped"@,
        spec_item_result(item, fs).message == Some("skipped_by_plan"@),
{
}

/// Law: an eligible item whose source path was found missing is reported
/// as failed with the message "source_not_found". Re-running a batch
/// whose renames succeeded puts every such item in exactly this case,
/// since its source no longer exists at the original path.
pub proof fn lemma_missing_source_fails(item: PlanItemView)
    requires
        item.action == "rename"@,
    ensures
        spec_item_result(item, Some(FsOutcomeView::SourceMissing)).result == "failed"@,
        spec_item_result(item, Some(FsOutcomeView::SourceMissing)).message == Some(
            "source_not_found"@,
        ),
{
}

/// Law: an eligible item whose rename succeeded is reported as renamed,
/// with no message.
pub proof fn lemma_success_reported_clean(item: PlanItemView)
    requires
        item.action == "rename"@,
    ensures
        spec_item_result(item, Some(FsOutcomeView::Renamed)).result == "renamed"@,
        spec_item_result(item, Some(FsOutcomeView::Renamed)).message is None,
{
}

/// Law: a transient failure is retried exactly while the attempt count is
/// under the bound, and an attempt at or past the bound is never retried.
pub proof fn lemma_retry_bounded(attempt: u32, code: Option<i32>)
    ensures
        spec_is_transient(code) && attempt < RENAME_MAX_RETRIES ==> spec_should_retry(
            attempt,
            code,
        ),
        attempt >= RENAME_MAX_RETRIES ==> !spec_should_retry(attempt, code),
{
}

/// Law: when the retries on a transient code are exhausted, the item is
/// reported as failed and its message is the retry-exhaustion diagnostic:
/// it starts with "file_in_use_after_retry:" and carries the OS error
/// text and the numeric code.
pub proof fn lemma_exhausted_retries_diagnostic(item: PlanItemView, code: i32, text: Seq<char>)
    requires
        item.action == "rename"@,
        spec_is_transient(Some(code)),
    ensures
        ({
            let r = spec_item_result(
                item,
                Some(FsOutcomeView::Failed { os_code: Some(code), os_text: text }),
            );
            r.result == "failed"@ && r.message == Some(
                "file_in_use_after_retry:"@ + text + " (os error "@ + decimal_str(code as int)
                    + ")"@,
            ) && "file_in_use_after_retry:"@.is_prefix_of(r.message->Some_0)
        }),
{
    let r = spec_item_result(
        item,
        Some(FsOutcomeView::Failed { os_code: Some(code), os_text: text }),
    );
    let pre = "file_in_use_after_retry:"@;
    let m = r.message->Some_0;
    assert(pre =~= m.subrange(0, pre.len() as int));
}

/// Law: a non-transient failure is never retried, whatever the attempt
/// count, and the item's message is the OS error text unchanged.
pub proof fn lemma_permanent_failure_immediate(
    item: PlanItemView,
    attempt: u32,
    code: Option<i32>,
    text: Seq<char>,
)
    requires
        item.action == "rename"@,
        !spec_is_transient(code),
    ensures
        !spec_should_retry(attempt, code),
        spec_item_result(item, Some(FsOutcomeView::Failed { os_code: code, os_text: text })).result
            == "failed"@,
        spec_item_result(
            item,
            Some(FsOutcomeView::Failed { os_code: code, os_text: text }),
        ).message == Some(text),
{
}

} // verus!
