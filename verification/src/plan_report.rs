//! A sync plan as the tool reports it: its actions, conflicts and
//! diagnostics, in the text and JSON forms of the `plan` command and of the
//! previews that `apply` and `sync` print.

use vstd::prelude::*;
use crate::json::{json_str, opt_str_json, Json, JsonArray, JsonObject, JsonValue};
use crate::model::{media_kind_name, provider_name, MediaKind, Provider};
use crate::text::{bool_text, int_text, nat_text, owned, push_bool, push_i64, push_str, push_u64,
    str_eq};

verus! {

// ---------------------------------------------------------------------------
// The plan
// ---------------------------------------------------------------------------

/// A field of a collection entry that a plan can change: `name` is how
/// reports and JSON name it, `label` how the full text plan names it, and
/// `is_status` marks the watch status field, whose values the text plan
/// spells in its own way.
pub struct SyncField {
    pub name: String,
    pub label: String,
    pub is_status: bool,
}

/// Whether an action adds a new entry at the target or updates one.
#[derive(Clone, Copy, Debug, PartialEq, Eq, Structural)]
pub enum PlannedActionKind {
    AddEntry,
    UpdateEntry,
}

/// One field an action changes, with its value before (if any) and after.
pub struct FieldChange {
    pub field: SyncField,
    pub old_value: Option<String>,
    pub new_value: String,
}

/// A write that the plan would make at one provider.
pub struct PlannedAction {
    pub kind: PlannedActionKind,
    pub work_id: i64,
    pub source_provider: Provider,
    pub target_provider: Provider,
    pub target_provider_entry_id: String,
    pub media_kind: MediaKind,
    pub field_updates: Vec<SyncField>,
    pub field_changes: Vec<FieldChange>,
    pub reason: String,
}

/// The value one provider holds for a field in conflict.
pub struct ConflictValue {
    pub provider: Provider,
    pub value: String,
}

/// A field on which providers disagree and no rule decides.
pub struct PlanConflict {
    pub work_id: i64,
    pub field: SyncField,
    pub values: Vec<ConflictValue>,
    pub reason: String,
}

/// A note on a field the plan left alone.
pub struct PlanDiagnostic {
    pub work_id: i64,
    pub source_provider: Provider,
    pub target_provider: Provider,
    pub target_provider_entry_id: String,
    pub media_kind: MediaKind,
    pub field: SyncField,
    pub reason: String,
}

/// A sync plan: its actions, conflicts and diagnostics, and how many
/// entries it skipped for want of a match.
pub struct SyncPlan {
    pub dry_run: bool,
    pub actions: Vec<PlannedAction>,
    pub conflicts: Vec<PlanConflict>,
    pub diagnostics: Vec<PlanDiagnostic>,
    pub skipped_unmatched: u64,
}

pub open spec fn kind_name(k: PlannedActionKind) -> Seq<char> {
    match k {
        PlannedActionKind::AddEntry => "add"@,
        PlannedActionKind::UpdateEntry => "update"@,
    }
}

/// The name of an action kind in reports.
pub fn planned_action_kind_name(kind: PlannedActionKind) -> (r: &'static str)
    ensures
        r@ == kind_name(kind),
{
    match kind {
        PlannedActionKind::AddEntry => "add",
        PlannedActionKind::UpdateEntry => "update",
    }
}

/// Why applying the plan is refused: conflicts, or nothing.
pub open spec fn blocked_reason(plan: SyncPlan) -> Option<Seq<char>> {
    if plan.conflicts@.len() == 0 {
        None
    } else {
        Some("conflicts_present"@)
    }
}

/// Why applying the plan is refused, if it is.
pub fn plan_apply_blocked_reason(plan: &SyncPlan) -> (r: Option<&'static str>)
    ensures
        r matches Some(s) ==> blocked_reason(*plan) == Some(s@),
        r is None <==> blocked_reason(*plan) is None,
{
    if plan.conflicts.len() == 0 {
        None
    } else {
        Some("conflicts_present")
    }
}

/// Whether applying the plan is refused: exactly when it holds a conflict.
pub fn plan_apply_blocked(plan: &SyncPlan) -> (r: bool)
    ensures
        r == (blocked_reason(*plan) is Some),
        r == (plan.conflicts@.len() > 0),
{
    plan_apply_blocked_reason(plan).is_some()
}

/// How the text plan spells a conflicting value: the watch status values in
/// their long form, every other value as it is.
pub open spec fn conflict_value_text(is_status: bool, value: Seq<char>) -> Seq<char> {
    if !is_status {
        value
    } else if value == "in_progress"@ {
        "InProgress"@
    } else if value == "completed"@ {
        "Completed"@
    } else if value == "paused"@ {
        "Paused"@
    } else if value == "dropped"@ {
        "Dropped"@
    } else if value == "planned"@ {
        "Planned"@
    } else {
        value
    }
}

/// How the text plan spells a conflicting value of `field`.
pub fn text_conflict_value(field: &SyncField, value: &str) -> (r: String)
    ensures
        r@ == conflict_value_text(field.is_status, value@),
{
    if !field.is_status {
        return owned(value);
    }
    if str_eq(value, "in_progress") {
        owned("InProgress")
    } else if str_eq(value, "completed") {
        owned("Completed")
    } else if str_eq(value, "paused") {
        owned("Paused")
    } else if str_eq(value, "dropped") {
        owned("Dropped")
    } else if str_eq(value, "planned") {
        owned("Planned")
    } else {
        owned(value)
    }
}

// ---------------------------------------------------------------------------
// Text
// ---------------------------------------------------------------------------

pub open spec fn field_word(f: SyncField, labels: bool) -> Seq<char> {
    if labels {
        f.label@
    } else {
        f.name@
    }
}

/// The fields, by label or by name, separated by commas.
pub open spec fn field_list(fields: Seq<SyncField>, labels: bool) -> Seq<char>
    decreases fields.len(),
{
    if fields.len() == 0 {
        Seq::empty()
    } else if fields.len() == 1 {
        field_word(fields[0], labels)
    } else {
        field_list(fields.drop_last(), labels) + ","@ + field_word(fields.last(), labels)
    }
}

pub open spec fn change_line(c: FieldChange) -> Seq<char> {
    "  change "@ + c.field.name@ + " "@ + match c.old_value {
        Some(v) => v@,
        None => "<unset>"@,
    } + " -> "@ + c.new_value@ + "\n"@
}

pub open spec fn change_lines(changes: Seq<FieldChange>) -> Seq<char>
    decreases changes.len(),
{
    if changes.len() == 0 {
        Seq::empty()
    } else {
        change_lines(changes.drop_last()) + change_line(changes.last())
    }
}

/// An action's lines: in the full plan its fields by label and one line per
/// change; in a preview its fields by name and nothing more.
pub open spec fn action_text(a: PlannedAction, preview: bool) -> Seq<char> {
    (if preview {
        "- preview "@
    } else {
        "- "@
    }) + kind_name(a.kind) + " "@ + provider_name(a.source_provider) + " -> "@ + provider_name(
        a.target_provider,
    ) + " target="@ + a.target_provider_entry_id@ + " fields="@ + field_list(
        a.field_updates@,
        !preview,
    ) + " reason="@ + a.reason@ + "\n"@ + (if preview {
        Seq::empty()
    } else {
        change_lines(a.field_changes@)
    })
}

pub open spec fn action_lines(actions: Seq<PlannedAction>, preview: bool) -> Seq<char>
    decreases actions.len(),
{
    if actions.len() == 0 {
        Seq::empty()
    } else {
        action_lines(actions.drop_last(), preview) + action_text(actions.last(), preview)
    }
}

pub open spec fn conflict_value_word(is_status: bool, v: ConflictValue) -> Seq<char> {
    provider_name(v.provider) + "="@ + conflict_value_text(is_status, v.value@)
}

/// The values in conflict as `provider=value`, separated by commas.
pub open spec fn conflict_value_list(is_status: bool, values: Seq<ConflictValue>) -> Seq<char>
    decreases values.len(),
{
    if values.len() == 0 {
        Seq::empty()
    } else if values.len() == 1 {
        conflict_value_word(is_status, values[0])
    } else {
        conflict_value_list(is_status, values.drop_last()) + ","@ + conflict_value_word(
            is_status,
            values.last(),
        )
    }
}

pub open spec fn conflict_text(c: PlanConflict, preview: bool) -> Seq<char> {
    (if preview {
        "- preview conflict work="@
    } else {
        "- conflict work="@
    }) + int_text(c.work_id as int) + " field="@ + c.field.label@ + " values="@
        + conflict_value_list(c.field.is_status, c.values@) + " reason="@ + c.reason@ + "\n"@
}

pub open spec fn conflict_lines(conflicts: Seq<PlanConflict>, preview: bool) -> Seq<char>
    decreases conflicts.len(),
{
    if conflicts.len() == 0 {
        Seq::empty()
    } else {
        conflict_lines(conflicts.drop_last(), preview) + conflict_text(conflicts.last(), preview)
    }
}

/// The counts that open every plan report.
pub open spec fn plan_counts(plan: SyncPlan) -> Seq<char> {
    " actions="@ + nat_text(plan.actions@.len()) + " conflicts="@ + nat_text(
        plan.conflicts@.len(),
    ) + " unmatched="@ + nat_text(plan.skipped_unmatched as nat) + " apply_blocked="@ + bool_text(
        plan.conflicts@.len() > 0,
    ) + " apply_blocked_reason="@ + match blocked_reason(plan) {
        Some(r) => r,
        None => "none"@,
    } + "\n"@
}

/// The text report of a dry-run plan.
pub open spec fn plan_text(plan: SyncPlan) -> Seq<char> {
    "sync-v2 plan: dry-run plan"@ + plan_counts(plan) + action_lines(plan.actions@, false)
        + conflict_lines(plan.conflicts@, false)
}

/// The preview of a plan that `command` prints before or instead of
/// applying it.
pub open spec fn plan_preview_text(command: Seq<char>, plan: SyncPlan) -> Seq<char> {
    "sync-v2 "@ + command + ": plan_preview"@ + plan_counts(plan) + action_lines(
        plan.actions@,
        true,
    ) + conflict_lines(plan.conflicts@, true)
}

fn push_field_list(out: &mut String, fields: &Vec<SyncField>, labels: bool)
    ensures
        final(out)@ == old(out)@ + field_list(fields@, labels),
{
    let ghost start = out@;
    let mut i: usize = 0;
    while i < fields.len()
        invariant
            i <= fields.len(),
            out@ == start + field_list(fields@.subrange(0, i as int), labels),
        decreases fields.len() - i,
    {
        if i > 0 {
            push_str(out, ",");
        }
        if labels {
            push_str(out, fields[i].label.as_str());
        } else {
            push_str(out, fields[i].name.as_str());
        }
        proof {
            assert(fields@.subrange(0, i + 1).drop_last() =~= fields@.subrange(0, i as int));
        }
        i = i + 1;
        assert(out@ =~= start + field_list(fields@.subrange(0, i as int), labels));
    }
    assert(fields@.subrange(0, fields@.len() as int) =~= fields@);
}

fn push_change_lines(out: &mut String, changes: &Vec<FieldChange>)
    ensures
        final(out)@ == old(out)@ + change_lines(changes@),
{
    let ghost start = out@;
    let mut i: usize = 0;
    while i < changes.len()
        invariant
            i <= changes.len(),
            out@ == start + change_lines(changes@.subrange(0, i as int)),
        decreases changes.len() - i,
    {
        let c = &changes[i];
        push_str(out, "  change ");
        push_str(out, c.field.name.as_str());
        push_str(out, " ");
        match &c.old_value {
            Some(v) => push_str(out, v.as_str()),
            None => push_str(out, "<unset>"),
        }
        push_str(out, " -> ");
        push_str(out, c.new_value.as_str());
        push_str(out, "\n");
        proof {
            assert(changes@.subrange(0, i + 1).drop_last() =~= changes@.subrange(0, i as int));
        }
        i = i + 1;
        assert(out@ =~= start + change_lines(changes@.subrange(0, i as int)));
    }
    assert(changes@.subrange(0, changes@.len() as int) =~= changes@);
}

fn push_action_text(out: &mut String, a: &PlannedAction, preview: bool)
    ensures
        final(out)@ == old(out)@ + action_text(*a, preview),
{
    let ghost start = out@;
    if preview {
        push_str(out, "- preview ");
    } else {
        push_str(out, "- ");
    }
    push_str(out, planned_action_kind_name(a.kind));
    push_str(out, " ");
    push_str(out, a.source_provider.as_str());
    push_str(out, " -> ");
    push_str(out, a.target_provider.as_str());
    push_str(out, " target=");
    push_str(out, a.target_provider_entry_id.as_str());
    push_str(out, " fields=");
    push_field_list(out, &a.field_updates, !preview);
    push_str(out, " reason=");
    push_str(out, a.reason.as_str());
    push_str(out, "\n");
    if !preview {
        push_change_lines(out, &a.field_changes);
    }
    assert(out@ =~= start + action_text(*a, preview));
}

fn push_action_lines(out: &mut String, actions: &Vec<PlannedAction>, preview: bool)
    ensures
        final(out)@ == old(out)@ + action_lines(actions@, preview),
{
    let ghost start = out@;
    let mut i: usize = 0;
    while i < actions.len()
        invariant
            i <= actions.len(),
            out@ == start + action_lines(actions@.subrange(0, i as int), preview),
        decreases actions.len() - i,
    {
        push_action_text(out, &actions[i], preview);
        proof {
            assert(actions@.subrange(0, i + 1).drop_last() =~= actions@.subrange(0, i as int));
        }
        i = i + 1;
        assert(out@ =~= start + action_lines(actions@.subrange(0, i as int), preview));
    }
    assert(actions@.subrange(0, actions@.len() as int) =~= actions@);
}

fn push_conflict_values(out: &mut String, field: &SyncField, values: &Vec<ConflictValue>)
    ensures
        final(out)@ == old(out)@ + conflict_value_list(field.is_status, values@),
{
    let ghost start = out@;
    let mut i: usize = 0;
    while i < values.len()
        invariant
            i <= values.len(),
            out@ == start + conflict_value_list(field.is_status, values@.subrange(0, i as int)),
        decreases values.len() - i,
    {
        if i > 0 {
            push_str(out, ",");
        }
        push_str(out, values[i].provider.as_str());
        push_str(out, "=");
        let shown = text_conflict_value(field, values[i].value.as_str());
        push_str(out, shown.as_str());
        proof {
            assert(values@.subrange(0, i + 1).drop_last() =~= values@.subrange(0, i as int));
        }
        i = i + 1;
        assert(out@ =~= start + conflict_value_list(
            field.is_status,
            values@.subrange(0, i as int),
        ));
    }
    assert(values@.subrange(0, values@.len() as int) =~= values@);
}

fn push_conflict_lines(out: &mut String, conflicts: &Vec<PlanConflict>, preview: bool)
    ensures
        final(out)@ == old(out)@ + conflict_lines(conflicts@, preview),
{
    let ghost start = out@;
    let mut i: usize = 0;
    while i < conflicts.len()
        invariant
            i <= conflicts.len(),
            out@ == start + conflict_lines(conflicts@.subrange(0, i as int), preview),
        decreases conflicts.len() - i,
    {
        let c = &conflicts[i];
        let ghost before = out@;
        if preview {
            push_str(out, "- preview conflict work=");
        } else {
            push_str(out, "- conflict work=");
        }
        push_i64(out, c.work_id);
        push_str(out, " field=");
        push_str(out, c.field.label.as_str());
        push_str(out, " values=");
        push_conflict_values(out, &c.field, &c.values);
        push_str(out, " reason=");
        push_str(out, c.reason.as_str());
        push_str(out, "\n");
        assert(out@ =~= before + conflict_text(*c, preview));
        proof {
            assert(conflicts@.subrange(0, i + 1).drop_last() =~= conflicts@.subrange(
                0,
                i as int,
            ));
        }
        i = i + 1;
        assert(out@ =~= start + conflict_lines(conflicts@.subrange(0, i as int), preview));
    }
    assert(conflicts@.subrange(0, conflicts@.len() as int) =~= conflicts@);
}

fn push_plan_counts(out: &mut String, plan: &SyncPlan)
    ensures
        final(out)@ == old(out)@ + plan_counts(*plan),
{
    let ghost start = out@;
    push_str(out, " actions=");
    push_u64(out, plan.actions.len() as u64);
    push_str(out, " conflicts=");
    push_u64(out, plan.conflicts.len() as u64);
    push_str(out, " unmatched=");
    push_u64(out, plan.skipped_unmatched);
    push_str(out, " apply_blocked=");
    push_bool(out, plan_apply_blocked(plan));
    push_str(out, " apply_blocked_reason=");
    match plan_apply_blocked_reason(plan) {
        Some(r) => push_str(out, r),
        None => push_str(out, "none"),
    }
    push_str(out, "\n");
    assert(out@ =~= start + plan_counts(*plan));
}

/// The text report of a dry-run plan: a line of counts, then each action
/// with its changes, then each conflict.
pub fn write_text_plan(plan: &SyncPlan) -> (r: String)
    ensures
        r@ == plan_text(*plan),
{
    let mut out = owned("sync-v2 plan: dry-run plan");
    push_plan_counts(&mut out, plan);
    push_action_lines(&mut out, &plan.actions, false);
    push_conflict_lines(&mut out, &plan.conflicts, false);
    assert(out@ =~= plan_text(*plan));
    out
}

/// The preview of a plan that `command` prints: a line of counts, then each
/// action and each conflict on a line of its own.
pub fn write_text_plan_preview_for_command(command: &str, plan: &SyncPlan) -> (r: String)
    ensures
        r@ == plan_preview_text(command@, *plan),
{
    let mut out = owned("sync-v2 ");
    push_str(&mut out, command);
    push_str(&mut out, ": plan_preview");
    push_plan_counts(&mut out, plan);
    push_action_lines(&mut out, &plan.actions, true);
    push_conflict_lines(&mut out, &plan.conflicts, true);
    assert(out@ =~= plan_preview_text(command@, *plan));
    out
}

/// The preview of a plan that `sync` prints.
pub fn write_text_plan_preview(plan: &SyncPlan) -> (r: String)
    ensures
        r@ == plan_preview_text("sync"@, *plan),
{
    write_text_plan_preview_for_command("sync", plan)
}

// ---------------------------------------------------------------------------
// JSON
// ---------------------------------------------------------------------------

pub open spec fn field_names_json(fields: Seq<SyncField>) -> Seq<Json>
    decreases fields.len(),
{
    if fields.len() == 0 {
        Seq::empty()
    } else {
        field_names_json(fields.drop_last()).push(Json::Str(fields.last().name@))
    }
}

pub open spec fn change_json(c: FieldChange) -> Json {
    Json::Object(
        seq![
            ("field"@, Json::Str(c.field.name@)),
            ("old"@, Json::Str(match c.old_value {
                Some(v) => v@,
                None => "<unset>"@,
            })),
            ("new"@, Json::Str(c.new_value@)),
        ],
    )
}

pub open spec fn changes_json(changes: Seq<FieldChange>) -> Seq<Json>
    decreases changes.len(),
{
    if changes.len() == 0 {
        Seq::empty()
    } else {
        changes_json(changes.drop_last()).push(change_json(changes.last()))
    }
}

pub open spec fn action_json(a: PlannedAction) -> Json {
    Json::Object(
        seq![
            ("kind"@, Json::Str(kind_name(a.kind))),
            ("work_id"@, Json::Int(a.work_id as int)),
            ("source_provider"@, Json::Str(provider_name(a.source_provider))),
            ("target_provider"@, Json::Str(provider_name(a.target_provider))),
            ("target_provider_entry_id"@, Json::Str(a.target_provider_entry_id@)),
            ("media_kind"@, Json::Str(media_kind_name(a.media_kind))),
            ("field_updates"@, Json::Array(field_names_json(a.field_updates@))),
            ("field_changes"@, Json::Array(changes_json(a.field_changes@))),
            ("reason"@, Json::Str(a.reason@)),
        ],
    )
}

pub open spec fn actions_json(actions: Seq<PlannedAction>) -> Seq<Json>
    decreases actions.len(),
{
    if actions.len() == 0 {
        Seq::empty()
    } else {
        actions_json(actions.drop_last()).push(action_json(actions.last()))
    }
}

pub open spec fn conflict_value_json(v: ConflictValue) -> Json {
    Json::Object(
        seq![("provider"@, Json::Str(provider_name(v.provider))), ("value"@, Json::Str(v.value@))],
    )
}

pub open spec fn conflict_values_json(values: Seq<ConflictValue>) -> Seq<Json>
    decreases values.len(),
{
    if values.len() == 0 {
        Seq::empty()
    } else {
        conflict_values_json(values.drop_last()).push(conflict_value_json(values.last()))
    }
}

pub open spec fn conflict_json(c: PlanConflict) -> Json {
    Json::Object(
        seq![
            ("work_id"@, Json::Int(c.work_id as int)),
            ("field"@, Json::Str(c.field.name@)),
            ("values"@, Json::Array(conflict_values_json(c.values@))),
            ("reason"@, Json::Str(c.reason@)),
        ],
    )
}

pub open spec fn conflicts_json(conflicts: Seq<PlanConflict>) -> Seq<Json>
    decreases conflicts.len(),
{
    if conflicts.len() == 0 {
        Seq::empty()
    } else {
        conflicts_json(conflicts.drop_last()).push(conflict_json(conflicts.last()))
    }
}

pub open spec fn diagnostic_json(d: PlanDiagnostic) -> Json {
    Json::Object(
        seq![
            ("work_id"@, Json::Int(d.work_id as int)),
            ("source_provider"@, Json::Str(provider_name(d.source_provider))),
            ("target_provider"@, Json::Str(provider_name(d.target_provider))),
            ("target_provider_entry_id"@, Json::Str(d.target_provider_entry_id@)),
            ("media_kind"@, Json::Str(media_kind_name(d.media_kind))),
            ("field"@, Json::Str(d.field.name@)),
            ("reason"@, Json::Str(d.reason@)),
        ],
    )
}

pub open spec fn diagnostics_json(diagnostics: Seq<PlanDiagnostic>) -> Seq<Json>
    decreases diagnostics.len(),
{
    if diagnostics.len() == 0 {
        Seq::empty()
    } else {
        diagnostics_json(diagnostics.drop_last()).push(diagnostic_json(diagnostics.last()))
    }
}

/// The JSON report of a plan.
pub open spec fn plan_json(plan: SyncPlan) -> Json {
    Json::Object(
        seq![
            ("dry_run"@, Json::Bool(plan.dry_run)),
            ("actions"@, Json::Array(actions_json(plan.actions@))),
            ("conflicts"@, Json::Array(conflicts_json(plan.conflicts@))),
            ("diagnostics"@, Json::Array(diagnostics_json(plan.diagnostics@))),
            ("apply_blocked"@, Json::Bool(plan.conflicts@.len() > 0)),
            ("apply_blocked_reason"@, opt_str_json(blocked_reason(plan))),
            ("apply_blocking_conflicts"@, Json::Int(plan.conflicts@.len() as int)),
            ("unmatched"@, Json::Int(plan.skipped_unmatched as int)),
        ],
    )
}

/// The names of the fields, as a JSON array.
pub fn field_names_to_json(fields: &Vec<SyncField>) -> (r: JsonValue)
    ensures
        r@ == Json::Array(field_names_json(fields@)),
{
    let mut arr = JsonArray::new();
    let mut i: usize = 0;
    while i < fields.len()
        invariant
            i <= fields.len(),
            arr@ == field_names_json(fields@.subrange(0, i as int)),
        decreases fields.len() - i,
    {
        arr.push(json_str(fields[i].name.as_str()));
        proof {
            assert(fields@.subrange(0, i + 1).drop_last() =~= fields@.subrange(0, i as int));
        }
        i = i + 1;
    }
    assert(fields@.subrange(0, fields@.len() as int) =~= fields@);
    arr.into_value()
}

fn changes_to_json(changes: &Vec<FieldChange>) -> (r: JsonValue)
    ensures
        r@ == Json::Array(changes_json(changes@)),
{
    let mut arr = JsonArray::new();
    let mut i: usize = 0;
    while i < changes.len()
        invariant
            i <= changes.len(),
            arr@ == changes_json(changes@.subrange(0, i as int)),
        decreases changes.len() - i,
    {
        let c = &changes[i];
        let mut o = JsonObject::new();
        o.insert("field", json_str(c.field.name.as_str()));
        match &c.old_value {
            Some(v) => o.insert("old", json_str(v.as_str())),
            None => o.insert("old", json_str("<unset>")),
        }
        o.insert("new", json_str(c.new_value.as_str()));
        assert(o@ =~= change_json(*c)->Object_0);
        arr.push(o.into_value());
        proof {
            assert(changes@.subrange(0, i + 1).drop_last() =~= changes@.subrange(0, i as int));
        }
        i = i + 1;
    }
    assert(changes@.subrange(0, changes@.len() as int) =~= changes@);
    arr.into_value()
}

fn action_to_json(a: &PlannedAction) -> (r: JsonValue)
    ensures
        r@ == action_json(*a),
{
    let mut o = JsonObject::new();
    o.insert("kind", json_str(planned_action_kind_name(a.kind)));
    o.insert("work_id", JsonValue::Int(a.work_id));
    o.insert("source_provider", json_str(a.source_provider.as_str()));
    o.insert("target_provider", json_str(a.target_provider.as_str()));
    o.insert("target_provider_entry_id", json_str(a.target_provider_entry_id.as_str()));
    o.insert("media_kind", json_str(a.media_kind.as_str()));
    o.insert("field_updates", field_names_to_json(&a.field_updates));
    o.insert("field_changes", changes_to_json(&a.field_changes));
    o.insert("reason", json_str(a.reason.as_str()));
    assert(o@ =~= action_json(*a)->Object_0);
    o.into_value()
}

fn conflict_to_json(c: &PlanConflict) -> (r: JsonValue)
    ensures
        r@ == conflict_json(*c),
{
    let mut values = JsonArray::new();
    let mut i: usize = 0;
    while i < c.values.len()
        invariant
            i <= c.values.len(),
            values@ == conflict_values_json(c.values@.subrange(0, i as int)),
        decreases c.values.len() - i,
    {
        let mut v = JsonObject::new();
        v.insert("provider", json_str(c.values[i].provider.as_str()));
        v.insert("value", json_str(c.values[i].value.as_str()));
        assert(v@ =~= conflict_value_json(c.values@[i as int])->Object_0);
        values.push(v.into_value());
        proof {
            assert(c.values@.subrange(0, i + 1).drop_last() =~= c.values@.subrange(0, i as int));
        }
        i = i + 1;
    }
    assert(c.values@.subrange(0, c.values@.len() as int) =~= c.values@);
    let mut o = JsonObject::new();
    o.insert("work_id", JsonValue::Int(c.work_id));
    o.insert("field", json_str(c.field.name.as_str()));
    o.insert("values", values.into_value());
    o.insert("reason", json_str(c.reason.as_str()));
    assert(o@ =~= conflict_json(*c)->Object_0);
    o.into_value()
}

fn diagnostic_to_json(d: &PlanDiagnostic) -> (r: JsonValue)
    ensures
        r@ == diagnostic_json(*d),
{
    let mut o = JsonObject::new();
    o.insert("work_id", JsonValue::Int(d.work_id));
    o.insert("source_provider", json_str(d.source_provider.as_str()));
    o.insert("target_provider", json_str(d.target_provider.as_str()));
    o.insert("target_provider_entry_id", json_str(d.target_provider_entry_id.as_str()));
    o.insert("media_kind", json_str(d.media_kind.as_str()));
    o.insert("field", json_str(d.field.name.as_str()));
    o.insert("reason", json_str(d.reason.as_str()));
    assert(o@ =~= diagnostic_json(*d)->Object_0);
    o.into_value()
}

/// The JSON report of a plan: its actions, conflicts and diagnostics, and
/// whether applying it is refused.
pub fn plan_to_json_value(plan: &SyncPlan) -> (r: JsonValue)
    ensures
        r@ == plan_json(*plan),
{
    let mut actions = JsonArray::new();
    let mut i: usize = 0;
    while i < plan.actions.len()
        invariant
            i <= plan.actions.len(),
            actions@ == actions_json(plan.actions@.subrange(0, i as int)),
        decreases plan.actions.len() - i,
    {
        actions.push(action_to_json(&plan.actions[i]));
        proof {
            assert(plan.actions@.subrange(0, i + 1).drop_last() =~= plan.actions@.subrange(
                0,
                i as int,
            ));
        }
        i = i + 1;
    }
    assert(plan.actions@.subrange(0, plan.actions@.len() as int) =~= plan.actions@);
    let mut conflicts = JsonArray::new();
    let mut i: usize = 0;
    while i < plan.conflicts.len()
        invariant
            i <= plan.conflicts.len(),
            conflicts@ == conflicts_json(plan.conflicts@.subrange(0, i as int)),
        decreases plan.conflicts.len() - i,
    {
        conflicts.push(conflict_to_json(&plan.conflicts[i]));
        proof {
            assert(plan.conflicts@.subrange(0, i + 1).drop_last() =~= plan.conflicts@.subrange(
                0,
                i as int,
            ));
        }
        i = i + 1;
    }
    assert(plan.conflicts@.subrange(0, plan.conflicts@.len() as int) =~= plan.conflicts@);
    let mut diagnostics = JsonArray::new();
    let mut i: usize = 0;
    while i < plan.diagnostics.len()
        invariant
            i <= plan.diagnostics.len(),
            diagnostics@ == diagnostics_json(plan.diagnostics@.subrange(0, i as int)),
        decreases plan.diagnostics.len() - i,
    {
        diagnostics.push(diagnostic_to_json(&plan.diagnostics[i]));
        proof {
            assert(plan.diagnostics@.subrange(0, i + 1).drop_last()
                =~= plan.diagnostics@.subrange(0, i as int));
        }
        i = i + 1;
    }
    assert(plan.diagnostics@.subrange(0, plan.diagnostics@.len() as int) =~= plan.diagnostics@);
    let mut o = JsonObject::new();
    o.insert("dry_run", JsonValue::Bool(plan.dry_run));
    o.insert("actions", actions.into_value());
    o.insert("conflicts", conflicts.into_value());
    o.insert("diagnostics", diagnostics.into_value());
    o.insert("apply_blocked", JsonValue::Bool(plan_apply_blocked(plan)));
    match plan_apply_blocked_reason(plan) {
        Some(reason) => o.insert("apply_blocked_reason", json_str(reason)),
        None => o.insert("apply_blocked_reason", JsonValue::Null),
    }
    o.insert("apply_blocking_conflicts", JsonValue::UInt(plan.conflicts.len() as u64));
    o.insert("unmatched", JsonValue::UInt(plan.skipped_unmatched));
    assert(o@ =~= plan_json(*plan)->Object_0);
    o.into_value()
}

} // verus!
