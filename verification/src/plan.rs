//! The batch rename executor.
//!
//! The engine receives an ordered plan of rename items and produces one
//! result record per item, in the same order. Per item it decides whether
//! the plan asks for a rename at all ([`needs_rename`]), and turns the
//! filesystem outcome the host observed into a terminal record
//! ([`item_result`]). The host performs the existence check, the rename
//! calls and the retry delays; [`rename_files`] assembles the whole
//! batch's records and never drops, reorders or fabricates an item.

use vstd::prelude::*;

use crate::retry::{failure_message, spec_failure_message};
use crate::text::str_eq;

verus! {

/// One requested rename operation, as received from the planning layer.
/// Only the literal action value "rename" triggers execution; any other
/// action makes the engine skip the item without touching the filesystem.
#[derive(Debug, Clone)]
pub struct RenamePlanItem {
    pub item_id: String,
    pub source_path: String,
    pub target_path: String,
    pub action: String,
}

/// Ghost image of a plan item: each field as its character sequence.
pub struct PlanItemView {
    pub item_id: Seq<char>,
    pub source_path: Seq<char>,
    pub target_path: Seq<char>,
    pub action: Seq<char>,
}

impl View for RenamePlanItem {
    type V = PlanItemView;

    open spec fn view(&self) -> PlanItemView {
        PlanItemView {
            item_id: self.item_id@,
            source_path: self.source_path@,
            target_path: self.target_path@,
            action: self.action@,
        }
    }
}

/// The terminal record for one plan item: the item's identity echoed
/// back, a result status of "renamed", "skipped" or "failed", and a
/// message for the skipped and failed outcomes.
#[derive(Debug, Clone)]
pub struct RenameResultItem {
    pub item_id: String,
    pub source_path: String,
    pub target_path: String,
    pub result: String,
    pub message: Option<String>,
}

/// Ghost image of a result record.
pub struct ResultItemView {
    pub item_id: Seq<char>,
    pub source_path: Seq<char>,
    pub target_path: Seq<char>,
    pub result: Seq<char>,
    pub message: Option<Seq<char>>,
}

impl View for RenameResultItem {
    type V = ResultItemView;

    open spec fn view(&self) -> ResultItemView {
        ResultItemView {
            item_id: self.item_id@,
            source_path: self.source_path@,
            target_path: self.target_path@,
            result: self.result@,
            message: match self.message {
                Some(ref m) => Some(m@),
                None => None,
            },
        }
    }
}

/// What the host observed on the filesystem for one eligible item.
pub enum FsOutcome {
    /// The pre-flight existence check found nothing at the source path.
    SourceMissing,
    /// A rename attempt succeeded.
    Renamed,
    /// The final rename attempt failed with this OS error code and text;
    /// the host's retry loop has already given up.
    Failed { os_code: Option<i32>, os_text: String },
}

/// Ghost image of a filesystem outcome.
pub enum FsOutcomeView {
    SourceMissing,
    Renamed,
    Failed { os_code: Option<i32>, os_text: Seq<char> },
}

impl View for FsOutcome {
    type V = FsOutcomeView;

    open spec fn view(&self) -> FsOutcomeView {
        match self {
            FsOutcome::SourceMissing => FsOutcomeView::SourceMissing,
            FsOutcome::Renamed => FsOutcomeView::Renamed,
            FsOutcome::Failed { os_code, os_text } => FsOutcomeView::Failed {
                os_code: *os_code,
                os_text: os_text@,
            },
        }
    }
}

/// Ghost image of an optional filesystem outcome (`None` when the host
/// never touched the filesystem because the item was skipped).
pub open spec fn outcome_view(o: Option<FsOutcome>) -> Option<FsOutcomeView> {
    match o {
        Some(f) => Some(f@),
        None => None,
    }
}

/// The record for an item the plan excludes from execution.
pub open spec fn spec_skipped_result(item: PlanItemView) -> ResultItemView {
    ResultItemView {
        item_id: item.item_id,
        source_path: item.source_path,
        target_path: item.target_path,
        result: "skipped"@,
        message: Some("skipped_by_plan"@),
    }
}

/// The record for an eligible item, from the filesystem outcome the host
/// observed.
pub open spec fn spec_rename_result(item: PlanItemView, fs: FsOutcomeView) -> ResultItemView {
    match fs {
        FsOutcomeView::SourceMissing => ResultItemView {
            item_id: item.item_id,
            source_path: item.source_path,
            target_path: item.target_path,
            result: "failed"@,
            message: Some("source_not_found"@),
        },
        FsOutcomeView::Renamed => ResultItemView {
            item_id: item.item_id,
            source_path: item.source_path,
            target_path: item.target_path,
            result: "renamed"@,
            message: None,
        },
        FsOutcomeView::Failed { os_code, os_text } => ResultItemView {
            item_id: item.item_id,
            source_path: item.source_path,
            target_path: item.target_path,
            result: "failed"@,
            message: Some(spec_failure_message(os_code, os_text)),
        },
    }
}

/// The record for any plan item: a skip when the action is not "rename",
/// otherwise the record for the observed filesystem outcome.
pub open spec fn spec_item_result(item: PlanItemView, fs: Option<FsOutcomeView>) -> ResultItemView {
    if item.action != "rename"@ {
        spec_skipped_result(item)
    } else {
        spec_rename_result(item, fs->Some_0)
    }
}

/// The whole batch's records, one per plan item, in plan order.
pub open spec fn spec_rename_files(
    items: Seq<PlanItemView>,
    outcomes: Seq<Option<FsOutcomeView>>,
) -> Seq<ResultItemView> {
    Seq::new(items.len(), |i: int| spec_item_result(items[i], outcomes[i]))
}

/// True when the plan marks this item for execution: only the literal
/// action value "rename" does.
pub fn needs_rename(item: &RenamePlanItem) -> (r: bool)
    ensures
        r == (item@.action == "rename"@),
{
    str_eq(item.action.as_str(), "rename")
}

/// Builds the terminal record for one plan item. `fs` is what the host
/// observed on the filesystem, or `None` for an item it never executed
/// because the plan excludes it.
pub fn item_result(item: &RenamePlanItem, fs: &Option<FsOutcome>) -> (r: RenameResultItem)
    requires
        item@.action == "rename"@ ==> (*fs) is Some,
    ensures
        r@ == spec_item_result(item@, outcome_view(*fs)),
{
    if !needs_rename(item) {
        RenameResultItem {
            item_id: item.item_id.clone(),
            source_path: item.source_path.clone(),
            target_path: item.target_path.clone(),
            result: String::from_str("skipped"),
            message: Some(String::from_str("skipped_by_plan")),
        }
    } else {
        match fs {
            Some(FsOutcome::SourceMissing) => RenameResultItem {
                item_id: item.item_id.clone(),
                source_path: item.source_path.clone(),
                target_path: item.target_path.clone(),
                result: String::from_str("failed"),
                message: Some(String::from_str("source_not_found")),
            },
            Some(FsOutcome::Renamed) => RenameResultItem {
                item_id: item.item_id.clone(),
                source_path: item.source_path.clone(),
                target_path: item.target_path.clone(),
                result: String::from_str("renamed"),
                message: None,
            },
            Some(FsOutcome::Failed { os_code, os_text }) => RenameResultItem {
                item_id: item.item_id.clone(),
                source_path: item.source_path.clone(),
                target_path: item.target_path.clone(),
                result: String::from_str("failed"),
                message: Some(failure_message(*os_code, os_text.as_str())),
            },
            None => unreached(),
        }
    }
}

/// Assembles the records for a whole batch: one record per plan item, in
/// plan order. One item's failure never affects another item's record.
/// `outcomes[i]` is what the host observed for item `i`, and is `Some`
/// for every item whose action is "rename".
pub fn rename_files(
    plan_items: &Vec<RenamePlanItem>,
    outcomes: &Vec<Option<FsOutcome>>,
) -> (r: Vec<RenameResultItem>)
    requires
        outcomes@.len() == plan_items@.len(),
        forall|i: int|
            0 <= i < plan_items@.len() ==> (plan_items@[i]@.action == "rename"@
                ==> outcomes@[i] is Some),
    ensures
        r@.len() == plan_items@.len(),
        forall|i: int|
            0 <= i < r@.len() ==> r@[i]@ == spec_item_result(
                plan_items@[i]@,
                outcome_view(outcomes@[i]),
            ),
        r@.map_values(|rec: RenameResultItem| rec@) == spec_rename_files(
            plan_items@.map_values(|item: RenamePlanItem| item@),
            outcomes@.map_values(|o: Option<FsOutcome>| outcome_view(o)),
        ),
{
    let mut results: Vec<RenameResultItem> = Vec::new();
    let n = plan_items.len();
    let mut i: usize = 0;
    while i < n
        invariant
            n == plan_items@.len(),
            outcomes@.len() == n,
            forall|k: int|
                0 <= k < n ==> (plan_items@[k]@.action == "rename"@ ==> outcomes@[k] is Some),
            i <= n,
            results@.len() == i,
            forall|j: int|
                0 <= j < i ==> results@[j]@ == spec_item_result(
                    plan_items@[j]@,
                    outcome_view(outcomes@[j]),
                ),
        decreases n - i,
    {
        let rec = item_result(&plan_items[i], &outcomes[i]);
        results.push(rec);
        i += 1;
    }
    proof {
        assert(results@.map_values(|rec: RenameResultItem| rec@) =~= spec_rename_files(
            plan_items@.map_values(|item: RenamePlanItem| item@),
            outcomes@.map_values(|o: Option<FsOutcome>| outcome_view(o)),
        ));
    }
    results
}

} // verus!
