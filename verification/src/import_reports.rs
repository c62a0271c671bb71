//! What the import commands and the read-only skeletons report.

use vstd::prelude::*;
use crate::cli::{text_output, text_report, CommandOutput, CommandOutputView};
use crate::model::{dataset_name, media_kind_name, DatasetKind, MediaKind};
use crate::text::{nat_text, owned, push_str, push_u64};

verus! {

/// The report of `import-fixtures`.
pub open spec fn import_fixtures_text(imported: u64, db_path: Seq<char>) -> Seq<char> {
    "sync-v2 import-fixtures: imported "@ + nat_text(imported as nat)
        + " collection entries into "@ + db_path + " (read-only provider fixture import)\n"@
}

/// The output of `import-fixtures` once the snapshot was imported.
pub fn import_fixtures_output(imported: u64, db_path: &str) -> (r: CommandOutput)
    ensures
        r@ == text_output(import_fixtures_text(imported, db_path@)),
{
    let mut out = owned("sync-v2 import-fixtures: imported ");
    push_u64(&mut out, imported);
    push_str(&mut out, " collection entries into ");
    push_str(&mut out, db_path);
    push_str(&mut out, " (read-only provider fixture import)\n");
    text_report(out)
}

/// The report of `import-legacy-config`.
pub open spec fn import_legacy_config_text(manual: u64, ignored: u64, db_path: Seq<char>) -> Seq<
    char,
> {
    "sync-v2 import-legacy-config: manual_relations="@ + nat_text(manual as nat)
        + " ignore_entries="@ + nat_text(ignored as nat) + " into "@ + db_path
        + " (local-only identity import)\n"@
}

/// The output of `import-legacy-config`; a file that was not given counts
/// zero entries.
pub fn import_legacy_config_output(
    manual_relations: u64,
    ignore_entries: u64,
    db_path: &str,
) -> (r: CommandOutput)
    ensures
        r@ == text_output(import_legacy_config_text(manual_relations, ignore_entries, db_path@)),
{
    let mut out = owned("sync-v2 import-legacy-config: manual_relations=");
    push_u64(&mut out, manual_relations);
    push_str(&mut out, " ignore_entries=");
    push_u64(&mut out, ignore_entries);
    push_str(&mut out, " into ");
    push_str(&mut out, db_path);
    push_str(&mut out, " (local-only identity import)\n");
    text_report(out)
}

/// The report of `import-dataset`; the media kind is named only for the
/// Bangumi dataset.
pub open spec fn import_dataset_text(
    dataset: DatasetKind,
    media_kind: Option<MediaKind>,
    imported: u64,
    db_path: Seq<char>,
) -> Seq<char> {
    "sync-v2 import-dataset: dataset="@ + dataset_name(dataset) + match (dataset, media_kind) {
        (DatasetKind::BangumiData, Some(k)) => " media_kind="@ + media_kind_name(k),
        _ => Seq::empty(),
    } + " imported="@ + nat_text(imported as nat) + " into "@ + db_path
        + " (local-only match cache import)\n"@
}

/// The output of `import-dataset` once the dataset was imported.
pub fn import_dataset_output(
    dataset: DatasetKind,
    media_kind: Option<MediaKind>,
    imported: u64,
    db_path: &str,
) -> (r: CommandOutput)
    ensures
        r@ == text_output(import_dataset_text(dataset, media_kind, imported, db_path@)),
{
    let mut out = owned("sync-v2 import-dataset: dataset=");
    push_str(&mut out, dataset.as_str());
    match (dataset, media_kind) {
        (DatasetKind::BangumiData, Some(k)) => {
            push_str(&mut out, " media_kind=");
            push_str(&mut out, k.as_str());
        },
        _ => {},
    }
    push_str(&mut out, " imported=");
    push_u64(&mut out, imported);
    push_str(&mut out, " into ");
    push_str(&mut out, db_path);
    push_str(&mut out, " (local-only match cache import)\n");
    assert(out@ =~= import_dataset_text(dataset, media_kind, imported, db_path@));
    text_report(out)
}

/// The notice of `inspect-match` without arguments.
pub fn inspect_match_notice() -> (r: CommandOutput)
    ensures
        r@ == text_output("sync-v2 inspect-match: read-only skeleton command; dry-run behavior only\n"@),
{
    text_report(owned("sync-v2 inspect-match: read-only skeleton command; dry-run behavior only\n"))
}

/// Whether an automatic match was accepted or needs a person's review.
#[derive(Clone, Copy, Debug, PartialEq, Eq, Structural)]
pub enum AutoMatchDecisionKind {
    Accepted,
    NeedsReview,
}

pub open spec fn decision_name(d: AutoMatchDecisionKind) -> Seq<char> {
    match d {
        AutoMatchDecisionKind::Accepted => "accepted"@,
        AutoMatchDecisionKind::NeedsReview => "needs_review"@,
    }
}

/// The name of a match decision in reports.
pub fn auto_match_decision_name(decision: AutoMatchDecisionKind) -> (r: &'static str)
    ensures
        r@ == decision_name(decision),
{
    match decision {
        AutoMatchDecisionKind::Accepted => "accepted",
        AutoMatchDecisionKind::NeedsReview => "needs_review",
    }
}

} // verus!
