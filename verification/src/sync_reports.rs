//! What `plan --refresh-snapshots`, `apply` and `sync` report: snapshot
//! imports, recorded provider writes and the outcome of a sync cycle, as
//! text and as JSON.

use vstd::prelude::*;
use crate::json::{
    json_get, json_str, lemma_member_value_absent, lemma_member_value_at, lemma_member_value_concat,
    member_value, Json, JsonArray, JsonObject,
    JsonValue,
};
use crate::model::{media_kind_name, provider_name, MediaKind, Provider};
use crate::plan_report::{
    field_list, field_names_json, field_names_to_json, kind_name, plan_json, plan_preview_text,
    plan_text, planned_action_kind_name, plan_to_json_value, write_text_plan,
    write_text_plan_preview_for_command, PlannedAction, SyncPlan,
};
use crate::session::{auth_bootstrap_mode_name, bootstrap_mode_name, AuthBootstrapMode};
use crate::text::{bool_text, nat_text, owned, push_bool, push_str, push_u64};

verus! {

// ---------------------------------------------------------------------------
// Imports, writes and summaries
// ---------------------------------------------------------------------------

/// What importing one provider collection into the local snapshot found.
#[derive(Clone, Copy, Debug, PartialEq, Eq, Structural)]
pub enum ImportOutcome {
    Imported { imported: u64 },
    RefreshRequired,
    Reauthorize { preferred_mode: AuthBootstrapMode },
}

/// The import of one provider collection of one media kind.
#[derive(Clone, Copy, Debug, PartialEq, Eq, Structural)]
pub struct ImportSummary {
    pub provider: Provider,
    pub media_kind: MediaKind,
    pub outcome: ImportOutcome,
}

/// The HTTP method of a provider write.
#[derive(Clone, Copy, Debug, PartialEq, Eq, Structural)]
pub enum WriteRequestMethod {
    Post,
    Patch,
    Put,
}

/// A provider write recorded by the test write transport.
pub struct WriteRequest {
    pub provider: Provider,
    pub method: WriteRequestMethod,
    pub url: String,
    pub content_type: String,
}

/// The counts of an apply run.
#[derive(Clone, Copy, Debug, PartialEq, Eq, Structural)]
pub struct ApplySummary {
    pub attempted: u64,
    pub succeeded: u64,
    pub failed: u64,
    pub post_write_verified: u64,
    pub post_write_skipped: u64,
}

/// The result of refreshing snapshots and planning: a plan, or the imports
/// alone when credentials must be renewed first.
pub enum SyncCycleOutcome {
    Planned { imports: Vec<ImportSummary>, plan: SyncPlan },
    CredentialsRequired { imports: Vec<ImportSummary> },
}

/// Where a report's credentials came from and how they are stored, and what
/// else the run did before planning.
pub struct RunLabels<'a> {
    pub credential_source: &'a str,
    pub credential_bundle_codec: Option<&'a str>,
    pub auto_link_local: bool,
    pub test_token_transport: bool,
    pub token_request_count: u64,
}

pub open spec fn method_name(m: WriteRequestMethod) -> Seq<char> {
    match m {
        WriteRequestMethod::Post => "POST"@,
        WriteRequestMethod::Patch => "PATCH"@,
        WriteRequestMethod::Put => "PUT"@,
    }
}

/// The HTTP method's name in reports.
pub fn provider_write_request_method_name(method: WriteRequestMethod) -> (r: &'static str)
    ensures
        r@ == method_name(method),
{
    match method {
        WriteRequestMethod::Post => "POST",
        WriteRequestMethod::Patch => "PATCH",
        WriteRequestMethod::Put => "PUT",
    }
}

pub open spec fn import_outcome_spec(o: ImportOutcome) -> Seq<char> {
    match o {
        ImportOutcome::Imported { imported } => "imported="@ + nat_text(imported as nat),
        ImportOutcome::RefreshRequired => "refresh_required"@,
        ImportOutcome::Reauthorize { preferred_mode } => "reauthorize mode="@ + bootstrap_mode_name(
            preferred_mode,
        ),
    }
}

/// How an import outcome reads in the text reports.
pub fn import_outcome_text(outcome: ImportOutcome) -> (r: String)
    ensures
        r@ == import_outcome_spec(outcome),
{
    let mut out = String::new();
    match outcome {
        ImportOutcome::Imported { imported } => {
            push_str(&mut out, "imported=");
            push_u64(&mut out, imported);
        },
        ImportOutcome::RefreshRequired => push_str(&mut out, "refresh_required"),
        ImportOutcome::Reauthorize { preferred_mode } => {
            push_str(&mut out, "reauthorize mode=");
            push_str(&mut out, auth_bootstrap_mode_name(preferred_mode));
        },
    }
    assert(out@ =~= import_outcome_spec(outcome));
    out
}

pub open spec fn import_line(s: ImportSummary) -> Seq<char> {
    "- import "@ + provider_name(s.provider) + " "@ + media_kind_name(s.media_kind) + " "@
        + import_outcome_spec(s.outcome) + "\n"@
}

pub open spec fn import_lines(imports: Seq<ImportSummary>) -> Seq<char>
    decreases imports.len(),
{
    if imports.len() == 0 {
        Seq::empty()
    } else {
        import_lines(imports.drop_last()) + import_line(imports.last())
    }
}

fn push_import_lines(out: &mut String, imports: &Vec<ImportSummary>)
    ensures
        final(out)@ == old(out)@ + import_lines(imports@),
{
    let ghost start = out@;
    let mut i: usize = 0;
    while i < imports.len()
        invariant
            i <= imports.len(),
            out@ == start + import_lines(imports@.subrange(0, i as int)),
        decreases imports.len() - i,
    {
        let s = imports[i];
        push_str(out, "- import ");
        push_str(out, s.provider.as_str());
        push_str(out, " ");
        push_str(out, s.media_kind.as_str());
        push_str(out, " ");
        let t = import_outcome_text(s.outcome);
        push_str(out, t.as_str());
        push_str(out, "\n");
        proof {
            assert(imports@.subrange(0, i + 1).drop_last() =~= imports@.subrange(0, i as int));
        }
        i = i + 1;
        assert(out@ =~= start + import_lines(imports@.subrange(0, i as int)));
    }
    assert(imports@.subrange(0, imports@.len() as int) =~= imports@);
}

/// One line per import: provider, media kind and outcome.
pub fn write_text_import_summaries(imports: &Vec<ImportSummary>) -> (r: String)
    ensures
        r@ == import_lines(imports@),
{
    let mut out = String::new();
    push_import_lines(&mut out, imports);
    assert(out@ =~= import_lines(imports@));
    out
}

pub open spec fn import_json(s: ImportSummary) -> Json {
    Json::Object(
        seq![
            ("provider"@, Json::Str(provider_name(s.provider))),
            ("media_kind"@, Json::Str(media_kind_name(s.media_kind))),
        ] + match s.outcome {
            ImportOutcome::Imported { imported } => seq![
                ("outcome"@, Json::Str("imported"@)),
                ("imported"@, Json::Int(imported as int)),
            ],
            ImportOutcome::RefreshRequired => seq![("outcome"@, Json::Str("refresh_required"@))],
            ImportOutcome::Reauthorize { preferred_mode } => seq![
                ("outcome"@, Json::Str("reauthorize"@)),
                ("mode"@, Json::Str(bootstrap_mode_name(preferred_mode))),
            ],
        },
    )
}

pub open spec fn imports_json(imports: Seq<ImportSummary>) -> Seq<Json>
    decreases imports.len(),
{
    if imports.len() == 0 {
        Seq::empty()
    } else {
        imports_json(imports.drop_last()).push(import_json(imports.last()))
    }
}

/// The JSON form of one import.
pub fn import_summary_to_json(summary: ImportSummary) -> (r: JsonValue)
    ensures
        r@ == import_json(summary),
{
    let mut o = JsonObject::new();
    o.insert("provider", json_str(summary.provider.as_str()));
    o.insert("media_kind", json_str(summary.media_kind.as_str()));
    match summary.outcome {
        ImportOutcome::Imported { imported } => {
            o.insert("outcome", json_str("imported"));
            o.insert("imported", JsonValue::UInt(imported));
        },
        ImportOutcome::RefreshRequired => {
            o.insert("outcome", json_str("refresh_required"));
        },
        ImportOutcome::Reauthorize { preferred_mode } => {
            o.insert("outcome", json_str("reauthorize"));
            o.insert("mode", json_str(auth_bootstrap_mode_name(preferred_mode)));
        },
    }
    assert(o@ =~= import_json(summary)->Object_0);
    o.into_value()
}

fn imports_to_json(imports: &Vec<ImportSummary>) -> (r: JsonValue)
    ensures
        r@ == Json::Array(imports_json(imports@)),
{
    let mut arr = JsonArray::new();
    let mut i: usize = 0;
    while i < imports.len()
        invariant
            i <= imports.len(),
            arr@ == imports_json(imports@.subrange(0, i as int)),
        decreases imports.len() - i,
    {
        arr.push(import_summary_to_json(imports[i]));
        proof {
            assert(imports@.subrange(0, i + 1).drop_last() =~= imports@.subrange(0, i as int));
        }
        i = i + 1;
    }
    assert(imports@.subrange(0, imports@.len() as int) =~= imports@);
    arr.into_value()
}

// ---------------------------------------------------------------------------
// Pieces shared by the reports
// ---------------------------------------------------------------------------

pub open spec fn opt_str_view(o: Option<&str>) -> Option<Seq<char>> {
    match o {
        Some(s) => Some(s@),
        None => None,
    }
}

/// ` credential_bundle_codec=<label>` when there is a bundle.
pub open spec fn codec_suffix(codec: Option<Seq<char>>) -> Seq<char> {
    match codec {
        Some(l) => " credential_bundle_codec="@ + l,
        None => Seq::empty(),
    }
}

/// ` local_auto_link=true` when local auto-linking ran.
pub open spec fn auto_link_suffix(auto_link: bool) -> Seq<char> {
    if auto_link {
        " local_auto_link=true"@
    } else {
        Seq::empty()
    }
}

/// The token request count when the test token transport was used.
pub open spec fn token_suffix(test_token_transport: bool, count: u64) -> Seq<char> {
    if test_token_transport {
        " test_token_transport=true token_request_count="@ + nat_text(count as nat)
    } else {
        Seq::empty()
    }
}

/// `credential_source=..` and the optional parts that follow it.
pub open spec fn labels_text(l: RunLabels) -> Seq<char> {
    " credential_source="@ + l.credential_source@ + codec_suffix(
        opt_str_view(l.credential_bundle_codec),
    ) + auto_link_suffix(l.auto_link_local) + token_suffix(
        l.test_token_transport,
        l.token_request_count,
    )
}

fn push_labels(out: &mut String, labels: &RunLabels)
    ensures
        final(out)@ == old(out)@ + labels_text(*labels),
{
    let ghost start = out@;
    push_str(out, " credential_source=");
    push_str(out, labels.credential_source);
    match labels.credential_bundle_codec {
        Some(l) => {
            push_str(out, " credential_bundle_codec=");
            push_str(out, l);
        },
        None => {},
    }
    if labels.auto_link_local {
        push_str(out, " local_auto_link=true");
    }
    if labels.test_token_transport {
        push_str(out, " test_token_transport=true token_request_count=");
        push_u64(out, labels.token_request_count);
    }
    assert(out@ =~= start + labels_text(*labels));
}

/// The optional members that follow `credential_source` in JSON reports.
pub open spec fn labels_members(l: RunLabels) -> Seq<(Seq<char>, Json)> {
    (match l.credential_bundle_codec {
        Some(c) => seq![("credential_bundle_codec"@, Json::Str(c@))],
        None => Seq::empty(),
    }) + (if l.test_token_transport {
        seq![
            ("test_token_transport"@, Json::Bool(true)),
            ("token_request_count"@, Json::Int(l.token_request_count as int)),
        ]
    } else {
        Seq::empty()
    })
}

fn insert_label_members(o: &mut JsonObject, labels: &RunLabels)
    ensures
        final(o)@ == old(o)@ + labels_members(*labels),
{
    let ghost start = o@;
    match labels.credential_bundle_codec {
        Some(c) => o.insert("credential_bundle_codec", json_str(c)),
        None => {},
    }
    if labels.test_token_transport {
        o.insert("test_token_transport", JsonValue::Bool(true));
        o.insert("token_request_count", JsonValue::UInt(labels.token_request_count));
    }
    assert(o@ =~= start + labels_members(*labels));
}

/// The same labels without the token transport, as `apply` reports them.
pub open spec fn without_tokens(l: RunLabels) -> RunLabels {
    RunLabels { test_token_transport: false, token_request_count: 0, ..l }
}

// ---------------------------------------------------------------------------
// apply
// ---------------------------------------------------------------------------

/// The plan action at `i`, if the plan has that many.
pub open spec fn action_at(actions: Seq<PlannedAction>, i: int) -> Option<PlannedAction> {
    if 0 <= i < actions.len() {
        Some(actions[i])
    } else {
        None
    }
}

pub open spec fn write_line(r: WriteRequest, action: Option<PlannedAction>) -> Seq<char> {
    "- write "@ + provider_name(r.provider) + " "@ + method_name(r.method) + " "@ + r.url@
        + " content_type="@ + r.content_type@ + match action {
        Some(a) => " kind="@ + kind_name(a.kind) + " media_kind="@ + media_kind_name(a.media_kind)
            + " target="@ + a.target_provider_entry_id@ + " fields="@ + field_list(
            a.field_updates@,
            false,
        ),
        None => Seq::empty(),
    } + "\n"@
}

/// One line per recorded write, with the plan action at the same place.
pub open spec fn write_lines(requests: Seq<WriteRequest>, actions: Seq<PlannedAction>) -> Seq<
    char,
>
    decreases requests.len(),
{
    if requests.len() == 0 {
        Seq::empty()
    } else {
        write_lines(requests.drop_last(), actions) + write_line(
            requests.last(),
            action_at(actions, requests.len() - 1),
        )
    }
}

fn push_field_names(out: &mut String, a: &PlannedAction)
    ensures
        final(out)@ == old(out)@ + field_list(a.field_updates@, false),
{
    let ghost start = out@;
    let fields = &a.field_updates;
    let mut i: usize = 0;
    while i < fields.len()
        invariant
            i <= fields.len(),
            fields@ == a.field_updates@,
            out@ == start + field_list(fields@.subrange(0, i as int), false),
        decreases fields.len() - i,
    {
        if i > 0 {
            push_str(out, ",");
        }
        push_str(out, fields[i].name.as_str());
        proof {
            assert(fields@.subrange(0, i + 1).drop_last() =~= fields@.subrange(0, i as int));
        }
        i = i + 1;
        assert(out@ =~= start + field_list(fields@.subrange(0, i as int), false));
    }
    assert(fields@.subrange(0, fields@.len() as int) =~= fields@);
}

#[verifier::spinoff_prover]
#[verifier::rlimit(40)]
fn push_write_line(
    out: &mut String,
    r: &WriteRequest,
    actions: &Vec<PlannedAction>,
    index: usize,
)
    ensures
        final(out)@ == old(out)@ + write_line(*r, action_at(actions@, index as int)),
{
    let ghost start = out@;
    push_str(out, "- write ");
    push_str(out, r.provider.as_str());
    push_str(out, " ");
    push_str(out, provider_write_request_method_name(r.method));
    push_str(out, " ");
    push_str(out, r.url.as_str());
    push_str(out, " content_type=");
    push_str(out, r.content_type.as_str());
    if index < actions.len() {
        let a = &actions[index];
        push_str(out, " kind=");
        push_str(out, planned_action_kind_name(a.kind));
        push_str(out, " media_kind=");
        push_str(out, a.media_kind.as_str());
        push_str(out, " target=");
        push_str(out, a.target_provider_entry_id.as_str());
        push_str(out, " fields=");
        push_field_names(out, a);
    }
    push_str(out, "\n");
    assert(out@ =~= start + write_line(*r, action_at(actions@, index as int)));
}

fn push_write_lines(out: &mut String, requests: &Vec<WriteRequest>, actions: &Vec<PlannedAction>)
    ensures
        final(out)@ == old(out)@ + write_lines(requests@, actions@),
{
    let ghost start = out@;
    let mut i: usize = 0;
    while i < requests.len()
        invariant
            i <= requests.len(),
            out@ == start + write_lines(requests@.subrange(0, i as int), actions@),
        decreases requests.len() - i,
    {
        push_write_line(out, &requests[i], actions, i);
        proof {
            assert(requests@.subrange(0, i + 1).drop_last() =~= requests@.subrange(0, i as int));
        }
        i = i + 1;
        assert(out@ =~= start + write_lines(requests@.subrange(0, i as int), actions@));
    }
    assert(requests@.subrange(0, requests@.len() as int) =~= requests@);
}

pub open spec fn summary_counts(s: ApplySummary) -> Seq<char> {
    " attempted="@ + nat_text(s.attempted as nat) + " succeeded="@ + nat_text(s.succeeded as nat)
        + " failed="@ + nat_text(s.failed as nat) + " post_write_verified="@ + nat_text(
        s.post_write_verified as nat,
    ) + " post_write_skipped="@ + nat_text(s.post_write_skipped as nat)
}

fn push_summary_counts(out: &mut String, s: ApplySummary)
    ensures
        final(out)@ == old(out)@ + summary_counts(s),
{
    let ghost start = out@;
    push_str(out, " attempted=");
    push_u64(out, s.attempted);
    push_str(out, " succeeded=");
    push_u64(out, s.succeeded);
    push_str(out, " failed=");
    push_u64(out, s.failed);
    push_str(out, " post_write_verified=");
    push_u64(out, s.post_write_verified);
    push_str(out, " post_write_skipped=");
    push_u64(out, s.post_write_skipped);
    assert(out@ =~= start + summary_counts(s));
}

/// The text report of an apply run: its counts, then one line per write.
pub open spec fn apply_text(
    s: ApplySummary,
    plan: SyncPlan,
    requests: Seq<WriteRequest>,
    l: RunLabels,
) -> Seq<char> {
    "sync-v2 apply: test-write-transport local-only live_provider_writes=false"@ + labels_text(
        without_tokens(l),
    ) + summary_counts(s) + " write_requests="@ + nat_text(requests.len()) + "\n"@ + write_lines(
        requests,
        plan.actions@,
    )
}

/// The text report of an apply run. Token transport labels do not appear.
pub fn write_text_apply(
    summary: ApplySummary,
    plan: &SyncPlan,
    requests: &Vec<WriteRequest>,
    labels: &RunLabels,
) -> (r: String)
    ensures
        r@ == apply_text(summary, *plan, requests@, *labels),
{
    let plain = RunLabels {
        credential_source: labels.credential_source,
        credential_bundle_codec: labels.credential_bundle_codec,
        auto_link_local: labels.auto_link_local,
        test_token_transport: false,
        token_request_count: 0,
    };
    let mut out = owned(
        "sync-v2 apply: test-write-transport local-only live_provider_writes=false",
    );
    push_labels(&mut out, &plain);
    push_summary_counts(&mut out, summary);
    push_str(&mut out, " write_requests=");
    push_u64(&mut out, requests.len() as u64);
    push_str(&mut out, "\n");
    push_write_lines(&mut out, requests, &plan.actions);
    assert(out@ =~= apply_text(summary, *plan, requests@, *labels));
    out
}

pub open spec fn write_request_json(r: WriteRequest, action: Option<PlannedAction>) -> Json {
    Json::Object(
        seq![
            ("provider"@, Json::Str(provider_name(r.provider))),
            ("method"@, Json::Str(method_name(r.method))),
            ("url"@, Json::Str(r.url@)),
            ("content_type"@, Json::Str(r.content_type@)),
            ("body_present"@, Json::Bool(true)),
            ("authorization"@, Json::Str("redacted"@)),
        ] + match action {
            Some(a) => seq![
                ("kind"@, Json::Str(kind_name(a.kind))),
                ("work_id"@, Json::Int(a.work_id as int)),
                ("source_provider"@, Json::Str(provider_name(a.source_provider))),
                ("target_provider"@, Json::Str(provider_name(a.target_provider))),
                ("target_provider_entry_id"@, Json::Str(a.target_provider_entry_id@)),
                ("media_kind"@, Json::Str(media_kind_name(a.media_kind))),
                ("field_updates"@, Json::Array(field_names_json(a.field_updates@))),
            ],
            None => Seq::empty(),
        },
    )
}

pub open spec fn write_requests_json(requests: Seq<WriteRequest>,
    actions: Seq<PlannedAction>) -> Seq<
    Json,
>
    decreases requests.len(),
{
    if requests.len() == 0 {
        Seq::empty()
    } else {
        write_requests_json(requests.drop_last(), actions).push(
            write_request_json(requests.last(), action_at(actions, requests.len() - 1)),
        )
    }
}

/// The JSON form of a recorded write, with the plan action it carried out
/// when there is one. The authorization header is never shown.
pub fn authorized_write_request_to_json(
    actions: &Vec<PlannedAction>,
    index: usize,
    request: &WriteRequest,
) -> (r: JsonValue)
    ensures
        r@ == write_request_json(*request, action_at(actions@, index as int)),
{
    let mut o = JsonObject::new();
    o.insert("provider", json_str(request.provider.as_str()));
    o.insert("method", json_str(provider_write_request_method_name(request.method)));
    o.insert("url", json_str(request.url.as_str()));
    o.insert("content_type", json_str(request.content_type.as_str()));
    o.insert("body_present", JsonValue::Bool(true));
    o.insert("authorization", json_str("redacted"));
    if index < actions.len() {
        let a = &actions[index];
        o.insert("kind", json_str(planned_action_kind_name(a.kind)));
        o.insert("work_id", JsonValue::Int(a.work_id));
        o.insert("source_provider", json_str(a.source_provider.as_str()));
        o.insert("target_provider", json_str(a.target_provider.as_str()));
        o.insert("target_provider_entry_id", json_str(a.target_provider_entry_id.as_str()));
        o.insert("media_kind", json_str(a.media_kind.as_str()));
        o.insert("field_updates", field_names_to_json(&a.field_updates));
    }
    assert(o@ =~= write_request_json(*request, action_at(actions@, index as int))->Object_0);
    o.into_value()
}

pub open spec fn summary_json(s: ApplySummary) -> Json {
    Json::Object(
        seq![
            ("attempted"@, Json::Int(s.attempted as int)),
            ("succeeded"@, Json::Int(s.succeeded as int)),
            ("failed"@, Json::Int(s.failed as int)),
            ("post_write_verified"@, Json::Int(s.post_write_verified as int)),
            ("post_write_skipped"@, Json::Int(s.post_write_skipped as int)),
        ],
    )
}

/// The JSON report of an apply run.
pub open spec fn apply_json(
    s: ApplySummary,
    plan: SyncPlan,
    requests: Seq<WriteRequest>,
    l: RunLabels,
) -> Json {
    Json::Object(
        seq![
            ("dry_run"@, Json::Bool(false)),
            ("local_only"@, Json::Bool(true)),
            ("live_provider_writes"@, Json::Bool(false)),
            ("test_write_transport"@, Json::Bool(true)),
            ("local_auto_link"@, Json::Bool(l.auto_link_local)),
            ("local_write_journal"@, Json::Bool(true)),
            ("credential_source"@, Json::Str(l.credential_source@)),
            ("summary"@, summary_json(s)),
            ("write_requests"@, Json::Array(write_requests_json(requests, plan.actions@))),
        ] + labels_members(without_tokens(l)),
    )
}

/// The JSON report of an apply run. Token transport labels do not appear.
pub fn apply_to_json_value(
    summary: ApplySummary,
    plan: &SyncPlan,
    requests: &Vec<WriteRequest>,
    labels: &RunLabels,
) -> (r: JsonValue)
    ensures
        r@ == apply_json(summary, *plan, requests@, *labels),
{
    let mut writes = JsonArray::new();
    let mut i: usize = 0;
    while i < requests.len()
        invariant
            i <= requests.len(),
            writes@ == write_requests_json(requests@.subrange(0, i as int), plan.actions@),
        decreases requests.len() - i,
    {
        writes.push(authorized_write_request_to_json(&plan.actions, i, &requests[i]));
        proof {
            assert(requests@.subrange(0, i + 1).drop_last() =~= requests@.subrange(0, i as int));
        }
        i = i + 1;
    }
    assert(requests@.subrange(0, requests@.len() as int) =~= requests@);
    let mut counts = JsonObject::new();
    counts.insert("attempted", JsonValue::UInt(summary.attempted));
    counts.insert("succeeded", JsonValue::UInt(summary.succeeded));
    counts.insert("failed", JsonValue::UInt(summary.failed));
    counts.insert("post_write_verified", JsonValue::UInt(summary.post_write_verified));
    counts.insert("post_write_skipped", JsonValue::UInt(summary.post_write_skipped));
    assert(counts@ =~= summary_json(summary)->Object_0);
    let plain = RunLabels {
        credential_source: labels.credential_source,
        credential_bundle_codec: labels.credential_bundle_codec,
        auto_link_local: labels.auto_link_local,
        test_token_transport: false,
        token_request_count: 0,
    };
    let mut o = JsonObject::new();
    o.insert("dry_run", JsonValue::Bool(false));
    o.insert("local_only", JsonValue::Bool(true));
    o.insert("live_provider_writes", JsonValue::Bool(false));
    o.insert("test_write_transport", JsonValue::Bool(true));
    o.insert("local_auto_link", JsonValue::Bool(labels.auto_link_local));
    o.insert("local_write_journal", JsonValue::Bool(true));
    o.insert("credential_source", json_str(labels.credential_source));
    o.insert("summary", counts.into_value());
    o.insert("write_requests", writes.into_value());
    insert_label_members(&mut o, &plain);
    assert(o@ =~= apply_json(summary, *plan, requests@, *labels)->Object_0);
    o.into_value()
}

/// The text report of an apply run refused for conflicts, with the plan
/// preview.
pub open spec fn apply_blocked_text(plan: SyncPlan, conflict_count: u64, l: RunLabels) -> Seq<
    char,
> {
    "sync-v2 apply: blocked_conflicts local-only test_write_transport=true live_provider_writes=false local_write_journal=false"@
        + labels_text(without_tokens(l)) + " actions="@ + nat_text(plan.actions@.len())
        + " conflicts="@ + nat_text(conflict_count as nat)
        + " apply_blocked=true apply_blocked_reason=conflicts_present\n"@ + plan_preview_text(
        "apply"@,
        plan,
    )
}

/// The text report of an apply run refused for conflicts.
pub fn write_text_apply_blocked_conflicts(
    plan: &SyncPlan,
    conflict_count: u64,
    labels: &RunLabels,
) -> (r: String)
    ensures
        r@ == apply_blocked_text(*plan, conflict_count, *labels),
{
    let plain = RunLabels {
        credential_source: labels.credential_source,
        credential_bundle_codec: labels.credential_bundle_codec,
        auto_link_local: labels.auto_link_local,
        test_token_transport: false,
        token_request_count: 0,
    };
    let mut out = owned(
        "sync-v2 apply: blocked_conflicts local-only test_write_transport=true live_provider_writes=false local_write_journal=false",
    );
    push_labels(&mut out, &plain);
    push_str(&mut out, " actions=");
    push_u64(&mut out, plan.actions.len() as u64);
    push_str(&mut out, " conflicts=");
    push_u64(&mut out, conflict_count);
    push_str(&mut out, " apply_blocked=true apply_blocked_reason=conflicts_present\n");
    let preview = write_text_plan_preview_for_command("apply", plan);
    push_str(&mut out, preview.as_str());
    assert(out@ =~= apply_blocked_text(*plan, conflict_count, *labels));
    out
}

/// The JSON report of an apply run refused for conflicts.
pub open spec fn apply_blocked_json(plan: SyncPlan, conflict_count: u64, l: RunLabels) -> Json {
    Json::Object(
        seq![
            ("outcome"@, Json::Str("blocked_conflicts"@)),
            ("dry_run"@, Json::Bool(false)),
            ("local_only"@, Json::Bool(true)),
            ("test_write_transport"@, Json::Bool(true)),
            ("live_provider_writes"@, Json::Bool(false)),
            ("local_auto_link"@, Json::Bool(l.auto_link_local)),
            ("local_write_journal"@, Json::Bool(false)),
            ("credential_source"@, Json::Str(l.credential_source@)),
            ("blocked_conflicts"@, Json::Int(conflict_count as int)),
            ("plan"@, Json::Null),
            ("plan_preview"@, plan_json(plan)),
            ("apply"@, Json::Null),
            ("write_requests"@, Json::Null),
        ] + labels_members(without_tokens(l)),
    )
}

/// The JSON report of an apply run refused for conflicts.
pub fn write_json_apply_blocked_conflicts(
    plan: &SyncPlan,
    conflict_count: u64,
    labels: &RunLabels,
) -> (r: JsonValue)
    ensures
        r@ == apply_blocked_json(*plan, conflict_count, *labels),
{
    let plain = RunLabels {
        credential_source: labels.credential_source,
        credential_bundle_codec: labels.credential_bundle_codec,
        auto_link_local: labels.auto_link_local,
        test_token_transport: false,
        token_request_count: 0,
    };
    let mut o = JsonObject::new();
    o.insert("outcome", json_str("blocked_conflicts"));
    o.insert("dry_run", JsonValue::Bool(false));
    o.insert("local_only", JsonValue::Bool(true));
    o.insert("test_write_transport", JsonValue::Bool(true));
    o.insert("live_provider_writes", JsonValue::Bool(false));
    o.insert("local_auto_link", JsonValue::Bool(labels.auto_link_local));
    o.insert("local_write_journal", JsonValue::Bool(false));
    o.insert("credential_source", json_str(labels.credential_source));
    o.insert("blocked_conflicts", JsonValue::UInt(conflict_count));
    o.insert("plan", JsonValue::Null);
    o.insert("plan_preview", plan_to_json_value(plan));
    o.insert("apply", JsonValue::Null);
    o.insert("write_requests", JsonValue::Null);
    insert_label_members(&mut o, &plain);
    assert(o@ =~= apply_blocked_json(*plan, conflict_count, *labels)->Object_0);
    o.into_value()
}

// ---------------------------------------------------------------------------
// plan --refresh-snapshots
// ---------------------------------------------------------------------------

pub open spec fn read_transport_text(live_read: bool) -> Seq<char> {
    if live_read {
        "fixture_transport=false live_read=true"@
    } else {
        "fixture_transport=true live_read=false"@
    }
}

/// The text report of a snapshot refresh followed by a dry-run plan.
pub open spec fn refresh_plan_text(o: SyncCycleOutcome, l: RunLabels, live_read: bool) -> Seq<
    char,
> {
    match o {
        SyncCycleOutcome::Planned { imports,
            plan } => "sync-v2 plan: dry-run refresh-snapshots local_only="@
            + bool_text(!live_read) + " "@ + read_transport_text(live_read)
            + " provider_writes=false"@ + labels_text(l) + " imports="@ + nat_text(imports@.len())
            + " actions="@ + nat_text(plan.actions@.len()) + " conflicts="@ + nat_text(
            plan.conflicts@.len(),
        ) + " unmatched="@ + nat_text(plan.skipped_unmatched as nat) + "\n"@ + import_lines(
            imports@,
        ) + plan_text(plan),
        SyncCycleOutcome::CredentialsRequired {
            imports,
        } => "sync-v2 plan: dry-run refresh-snapshots credentials_required local_only="@
            + bool_text(!live_read) + " "@ + read_transport_text(live_read)
            + " provider_writes=false"@ + labels_text(l) + " imports="@ + nat_text(imports@.len())
            + "\n"@ + import_lines(imports@),
    }
}

/// The text report of a snapshot refresh followed by a dry-run plan: the
/// counts, the imports and, when there is one, the plan.
pub fn write_text_refresh_plan(outcome: &SyncCycleOutcome, labels: &RunLabels,
    live_read: bool) -> (r:
    String)
    ensures
        r@ == refresh_plan_text(*outcome, *labels, live_read),
{
    let mut out = String::new();
    match outcome {
        SyncCycleOutcome::Planned { imports, plan } => {
            push_str(&mut out, "sync-v2 plan: dry-run refresh-snapshots local_only=");
            push_bool(&mut out, !live_read);
            push_str(&mut out, " ");
            if live_read {
                push_str(&mut out, "fixture_transport=false live_read=true");
            } else {
                push_str(&mut out, "fixture_transport=true live_read=false");
            }
            push_str(&mut out, " provider_writes=false");
            push_labels(&mut out, labels);
            push_str(&mut out, " imports=");
            push_u64(&mut out, imports.len() as u64);
            push_str(&mut out, " actions=");
            push_u64(&mut out, plan.actions.len() as u64);
            push_str(&mut out, " conflicts=");
            push_u64(&mut out, plan.conflicts.len() as u64);
            push_str(&mut out, " unmatched=");
            push_u64(&mut out, plan.skipped_unmatched);
            push_str(&mut out, "\n");
            push_import_lines(&mut out, imports);
            let plan_lines = write_text_plan(plan);
            push_str(&mut out, plan_lines.as_str());
        },
        SyncCycleOutcome::CredentialsRequired { imports } => {
            push_str(
                &mut out,
                "sync-v2 plan: dry-run refresh-snapshots credentials_required local_only=",
            );
            push_bool(&mut out, !live_read);
            push_str(&mut out, " ");
            if live_read {
                push_str(&mut out, "fixture_transport=false live_read=true");
            } else {
                push_str(&mut out, "fixture_transport=true live_read=false");
            }
            push_str(&mut out, " provider_writes=false");
            push_labels(&mut out, labels);
            push_str(&mut out, " imports=");
            push_u64(&mut out, imports.len() as u64);
            push_str(&mut out, "\n");
            push_import_lines(&mut out, imports);
        },
    }
    assert(out@ =~= refresh_plan_text(*outcome, *labels, live_read));
    out
}

/// The JSON report of a snapshot refresh followed by a dry-run plan.
pub open spec fn refresh_plan_json(o: SyncCycleOutcome, l: RunLabels, live_read: bool) -> Json {
    let (status, imports, plan) = match o {
        SyncCycleOutcome::Planned { imports, plan } => (
            "planned"@,
            imports@,
            plan_json(plan),
        ),
        SyncCycleOutcome::CredentialsRequired { imports } => (
            "credentials_required"@,
            imports@,
            Json::Null,
        ),
    };
    Json::Object(
        seq![
            ("dry_run"@, Json::Bool(true)),
            ("local_only"@, Json::Bool(!live_read)),
            ("provider_writes"@, Json::Bool(false)),
            ("fixture_transport"@, Json::Bool(!live_read)),
            ("live_read"@, Json::Bool(live_read)),
            ("credential_source"@, Json::Str(l.credential_source@)),
            ("local_snapshot_import"@, Json::Bool(true)),
            ("local_auto_link"@, Json::Bool(l.auto_link_local)),
            ("outcome"@, Json::Str(status)),
            ("imports"@, Json::Array(imports_json(imports))),
            ("plan"@, plan),
        ] + labels_members(l),
    )
}

/// The JSON report of a snapshot refresh followed by a dry-run plan.
pub fn write_json_refresh_plan(outcome: &SyncCycleOutcome, labels: &RunLabels,
    live_read: bool) -> (r:
    JsonValue)
    ensures
        r@ == refresh_plan_json(*outcome, *labels, live_read),
{
    let (status, imports, plan) = match outcome {
        SyncCycleOutcome::Planned { imports, plan } => (
            "planned",
            imports,
            plan_to_json_value(plan),
        ),
        SyncCycleOutcome::CredentialsRequired { imports } => (
            "credentials_required",
            imports,
            JsonValue::Null,
        ),
    };
    let mut o = JsonObject::new();
    o.insert("dry_run", JsonValue::Bool(true));
    o.insert("local_only", JsonValue::Bool(!live_read));
    o.insert("provider_writes", JsonValue::Bool(false));
    o.insert("fixture_transport", JsonValue::Bool(!live_read));
    o.insert("live_read", JsonValue::Bool(live_read));
    o.insert("credential_source", json_str(labels.credential_source));
    o.insert("local_snapshot_import", JsonValue::Bool(true));
    o.insert("local_auto_link", JsonValue::Bool(labels.auto_link_local));
    o.insert("outcome", json_str(status));
    o.insert("imports", imports_to_json(imports));
    o.insert("plan", plan);
    insert_label_members(&mut o, labels);
    assert(o@ =~= refresh_plan_json(*outcome, *labels, live_read)->Object_0);
    o.into_value()
}

// ---------------------------------------------------------------------------
// sync
// ---------------------------------------------------------------------------

/// The text report of a sync cycle that stopped because credentials must be
/// renewed: the imports only, nothing written.
pub open spec fn sync_credentials_required_text(imports: Seq<ImportSummary>, l: RunLabels) -> Seq<
    char,
> {
    "sync-v2 sync: credentials_required local-only fixture_read_transport=true test_write_transport=true live_provider_writes=false local_write_journal=false"@
        + labels_text(l) + " imports="@ + nat_text(imports.len()) + "\n"@ + import_lines(imports)
}

pub fn write_text_sync_credentials_required(imports: &Vec<ImportSummary>, labels: &RunLabels) -> (r:
    String)
    ensures
        r@ == sync_credentials_required_text(imports@, *labels),
{
    let mut out = owned(
        "sync-v2 sync: credentials_required local-only fixture_read_transport=true test_write_transport=true live_provider_writes=false local_write_journal=false",
    );
    push_labels(&mut out, labels);
    push_str(&mut out, " imports=");
    push_u64(&mut out, imports.len() as u64);
    push_str(&mut out, "\n");
    push_import_lines(&mut out, imports);
    assert(out@ =~= sync_credentials_required_text(imports@, *labels));
    out
}

pub open spec fn sync_credentials_required_json(imports: Seq<ImportSummary>, l: RunLabels) -> Json {
    Json::Object(
        seq![
            ("outcome"@, Json::Str("credentials_required"@)),
            ("dry_run"@, Json::Bool(false)),
            ("local_only"@, Json::Bool(true)),
            ("fixture_read_transport"@, Json::Bool(true)),
            ("test_write_transport"@, Json::Bool(true)),
            ("live_provider_writes"@, Json::Bool(false)),
            ("local_snapshot_import"@, Json::Bool(true)),
            ("local_auto_link"@, Json::Bool(l.auto_link_local)),
            ("local_write_journal"@, Json::Bool(false)),
            ("credential_source"@, Json::Str(l.credential_source@)),
            ("imports"@, Json::Array(imports_json(imports))),
            ("plan"@, Json::Null),
            ("plan_preview"@, Json::Null),
            ("apply"@, Json::Null),
        ] + labels_members(l),
    )
}

pub fn write_json_sync_credentials_required(imports: &Vec<ImportSummary>, labels: &RunLabels) -> (r:
    JsonValue)
    ensures
        r@ == sync_credentials_required_json(imports@, *labels),
{
    let mut o = JsonObject::new();
    o.insert("outcome", json_str("credentials_required"));
    o.insert("dry_run", JsonValue::Bool(false));
    o.insert("local_only", JsonValue::Bool(true));
    o.insert("fixture_read_transport", JsonValue::Bool(true));
    o.insert("test_write_transport", JsonValue::Bool(true));
    o.insert("live_provider_writes", JsonValue::Bool(false));
    o.insert("local_snapshot_import", JsonValue::Bool(true));
    o.insert("local_auto_link", JsonValue::Bool(labels.auto_link_local));
    o.insert("local_write_journal", JsonValue::Bool(false));
    o.insert("credential_source", json_str(labels.credential_source));
    o.insert("imports", imports_to_json(imports));
    o.insert("plan", JsonValue::Null);
    o.insert("plan_preview", JsonValue::Null);
    o.insert("apply", JsonValue::Null);
    insert_label_members(&mut o, labels);
    assert(o@ =~= sync_credentials_required_json(imports@, *labels)->Object_0);
    o.into_value()
}

/// The text report of a sync cycle whose plan holds conflicts: the imports
/// and the plan preview, nothing written.
pub open spec fn sync_blocked_text(
    imports: Seq<ImportSummary>,
    plan: SyncPlan,
    conflict_count: u64,
    l: RunLabels,
) -> Seq<char> {
    "sync-v2 sync: blocked_conflicts local-only fixture_read_transport=true test_write_transport=true live_provider_writes=false local_write_journal=false"@
        + labels_text(l) + " imports="@ + nat_text(imports.len()) + " actions="@ + nat_text(
        plan.actions@.len(),
    ) + " conflicts="@ + nat_text(conflict_count as nat)
        + " apply_blocked=true apply_blocked_reason=conflicts_present\n"@ + import_lines(imports)
        + plan_preview_text("sync"@, plan)
}

pub fn write_text_sync_blocked_conflicts(
    imports: &Vec<ImportSummary>,
    plan: &SyncPlan,
    conflict_count: u64,
    labels: &RunLabels,
) -> (r: String)
    ensures
        r@ == sync_blocked_text(imports@, *plan, conflict_count, *labels),
{
    let mut out = owned(
        "sync-v2 sync: blocked_conflicts local-only fixture_read_transport=true test_write_transport=true live_provider_writes=false local_write_journal=false",
    );
    push_labels(&mut out, labels);
    push_str(&mut out, " imports=");
    push_u64(&mut out, imports.len() as u64);
    push_str(&mut out, " actions=");
    push_u64(&mut out, plan.actions.len() as u64);
    push_str(&mut out, " conflicts=");
    push_u64(&mut out, conflict_count);
    push_str(&mut out, " apply_blocked=true apply_blocked_reason=conflicts_present\n");
    push_import_lines(&mut out, imports);
    let preview = write_text_plan_preview_for_command("sync", plan);
    push_str(&mut out, preview.as_str());
    assert(out@ =~= sync_blocked_text(imports@, *plan, conflict_count, *labels));
    out
}

pub open spec fn sync_blocked_json(
    imports: Seq<ImportSummary>,
    plan: SyncPlan,
    conflict_count: u64,
    l: RunLabels,
    post_write_verification: bool,
) -> Json {
    Json::Object(
        seq![
            ("outcome"@, Json::Str("blocked_conflicts"@)),
            ("dry_run"@, Json::Bool(false)),
            ("local_only"@, Json::Bool(true)),
            ("fixture_read_transport"@, Json::Bool(true)),
            ("test_write_transport"@, Json::Bool(true)),
            ("live_provider_writes"@, Json::Bool(false)),
            ("post_write_verification"@, Json::Bool(post_write_verification)),
            ("local_snapshot_import"@, Json::Bool(true)),
            ("local_auto_link"@, Json::Bool(l.auto_link_local)),
            ("local_write_journal"@, Json::Bool(false)),
            ("credential_source"@, Json::Str(l.credential_source@)),
            ("blocked_conflicts"@, Json::Int(conflict_count as int)),
            ("imports"@, Json::Array(imports_json(imports))),
            ("plan"@, Json::Null),
            ("plan_preview"@, plan_json(plan)),
            ("apply"@, Json::Null),
            ("write_requests"@, Json::Null),
        ] + labels_members(l),
    )
}

pub fn write_json_sync_blocked_conflicts(
    imports: &Vec<ImportSummary>,
    plan: &SyncPlan,
    conflict_count: u64,
    labels: &RunLabels,
    post_write_verification: bool,
) -> (r: JsonValue)
    ensures
        r@ == sync_blocked_json(
            imports@,
            *plan,
            conflict_count,
            *labels,
            post_write_verification,
        ),
{
    let mut o = JsonObject::new();
    o.insert("outcome", json_str("blocked_conflicts"));
    o.insert("dry_run", JsonValue::Bool(false));
    o.insert("local_only", JsonValue::Bool(true));
    o.insert("fixture_read_transport", JsonValue::Bool(true));
    o.insert("test_write_transport", JsonValue::Bool(true));
    o.insert("live_provider_writes", JsonValue::Bool(false));
    o.insert("post_write_verification", JsonValue::Bool(post_write_verification));
    o.insert("local_snapshot_import", JsonValue::Bool(true));
    o.insert("local_auto_link", JsonValue::Bool(labels.auto_link_local));
    o.insert("local_write_journal", JsonValue::Bool(false));
    o.insert("credential_source", json_str(labels.credential_source));
    o.insert("blocked_conflicts", JsonValue::UInt(conflict_count));
    o.insert("imports", imports_to_json(imports));
    o.insert("plan", JsonValue::Null);
    o.insert("plan_preview", plan_to_json_value(plan));
    o.insert("apply", JsonValue::Null);
    o.insert("write_requests", JsonValue::Null);
    insert_label_members(&mut o, labels);
    assert(o@ =~= sync_blocked_json(
        imports@,
        *plan,
        conflict_count,
        *labels,
        post_write_verification,
    )->Object_0);
    o.into_value()
}

/// The text report of a completed sync cycle: its counts, the imports, the
/// plan preview and the apply report.
pub open spec fn sync_applied_text(
    imports: Seq<ImportSummary>,
    s: ApplySummary,
    plan: SyncPlan,
    requests: Seq<WriteRequest>,
    l: RunLabels,
    post_write_verification: bool,
) -> Seq<char> {
    "sync-v2 sync: applied local-only fixture_read_transport=true test_write_transport=true live_provider_writes=false post_write_verification="@
        + bool_text(post_write_verification) + labels_text(l) + " imports="@ + nat_text(
        imports.len(),
    ) + " actions="@ + nat_text(plan.actions@.len()) + summary_counts(s) + " write_requests="@
        + nat_text(requests.len()) + "\n"@ + import_lines(imports) + plan_preview_text(
        "sync"@,
        plan,
    ) + apply_text(s, plan, requests, l)
}

pub fn write_text_sync_applied(
    imports: &Vec<ImportSummary>,
    summary: ApplySummary,
    plan: &SyncPlan,
    requests: &Vec<WriteRequest>,
    labels: &RunLabels,
    post_write_verification: bool,
) -> (r: String)
    ensures
        r@ == sync_applied_text(
            imports@,
            summary,
            *plan,
            requests@,
            *labels,
            post_write_verification,
        ),
{
    let mut out = owned(
        "sync-v2 sync: applied local-only fixture_read_transport=true test_write_transport=true live_provider_writes=false post_write_verification=",
    );
    push_bool(&mut out, post_write_verification);
    push_labels(&mut out, labels);
    push_str(&mut out, " imports=");
    push_u64(&mut out, imports.len() as u64);
    push_str(&mut out, " actions=");
    push_u64(&mut out, plan.actions.len() as u64);
    push_summary_counts(&mut out, summary);
    push_str(&mut out, " write_requests=");
    push_u64(&mut out, requests.len() as u64);
    push_str(&mut out, "\n");
    push_import_lines(&mut out, imports);
    let preview = write_text_plan_preview_for_command("sync", plan);
    push_str(&mut out, preview.as_str());
    let applied = write_text_apply(summary, plan, requests, labels);
    push_str(&mut out, applied.as_str());
    assert(out@ =~= sync_applied_text(
        imports@,
        summary,
        *plan,
        requests@,
        *labels,
        post_write_verification,
    ));
    out
}

pub open spec fn sync_applied_json(
    imports: Seq<ImportSummary>,
    s: ApplySummary,
    plan: SyncPlan,
    requests: Seq<WriteRequest>,
    l: RunLabels,
    post_write_verification: bool,
) -> Json {
    Json::Object(
        seq![
            ("outcome"@, Json::Str("applied"@)),
            ("dry_run"@, Json::Bool(false)),
            ("local_only"@, Json::Bool(true)),
            ("fixture_read_transport"@, Json::Bool(true)),
            ("test_write_transport"@, Json::Bool(true)),
            ("live_provider_writes"@, Json::Bool(false)),
            ("post_write_verification"@, Json::Bool(post_write_verification)),
            ("local_snapshot_import"@, Json::Bool(true)),
            ("local_auto_link"@, Json::Bool(l.auto_link_local)),
            ("local_write_journal"@, Json::Bool(true)),
            ("credential_source"@, Json::Str(l.credential_source@)),
            ("imports"@, Json::Array(imports_json(imports))),
            ("plan"@, Json::Null),
            ("plan_preview"@, plan_json(plan)),
            ("apply"@, apply_json(s, plan, requests, l)),
        ] + labels_members(l),
    )
}

pub fn write_json_sync_applied(
    imports: &Vec<ImportSummary>,
    summary: ApplySummary,
    plan: &SyncPlan,
    requests: &Vec<WriteRequest>,
    labels: &RunLabels,
    post_write_verification: bool,
) -> (r: JsonValue)
    ensures
        r@ == sync_applied_json(
            imports@,
            summary,
            *plan,
            requests@,
            *labels,
            post_write_verification,
        ),
{
    let mut o = JsonObject::new();
    o.insert("outcome", json_str("applied"));
    o.insert("dry_run", JsonValue::Bool(false));
    o.insert("local_only", JsonValue::Bool(true));
    o.insert("fixture_read_transport", JsonValue::Bool(true));
    o.insert("test_write_transport", JsonValue::Bool(true));
    o.insert("live_provider_writes", JsonValue::Bool(false));
    o.insert("post_write_verification", JsonValue::Bool(post_write_verification));
    o.insert("local_snapshot_import", JsonValue::Bool(true));
    o.insert("local_auto_link", JsonValue::Bool(labels.auto_link_local));
    o.insert("local_write_journal", JsonValue::Bool(true));
    o.insert("credential_source", json_str(labels.credential_source));
    o.insert("imports", imports_to_json(imports));
    o.insert("plan", JsonValue::Null);
    o.insert("plan_preview", plan_to_json_value(plan));
    o.insert("apply", apply_to_json_value(summary, plan, requests, labels));
    insert_label_members(&mut o, labels);
    assert(o@ =~= sync_applied_json(
        imports@,
        summary,
        *plan,
        requests@,
        *labels,
        post_write_verification,
    )->Object_0);
    o.into_value()
}

} // verus!

verus! {

/// The labels a report carries never use the names of its own members.
proof fn lemma_labels_do_not_hide(l: RunLabels, key: Seq<char>)
    requires
        key.len() < 18,
    ensures
        member_value(labels_members(l), key) is None,
{
    reveal_strlit("credential_bundle_codec");
    reveal_strlit("test_token_transport");
    reveal_strlit("token_request_count");
    let ms = labels_members(l);
    assert forall|i: int| 0 <= i < ms.len() implies #[trigger] ms[i].0 != key by {
        assert(ms[i].0.len() >= 19);
    }
    lemma_member_value_absent(ms, key);
}

/// The JSON apply report counts what the run did: its `summary` member
/// gives, under each name, the count of that name in the apply summary.
pub proof fn lemma_apply_report_counts(
    s: ApplySummary,
    plan: SyncPlan,
    requests: Seq<WriteRequest>,
    l: RunLabels,
)
    ensures
        json_get(apply_json(s, plan, requests, l), "summary"@) matches Some(summary) && {
            &&& json_get(summary, "attempted"@) == Some(Json::Int(s.attempted as int))
            &&& json_get(summary, "succeeded"@) == Some(Json::Int(s.succeeded as int))
            &&& json_get(summary, "failed"@) == Some(Json::Int(s.failed as int))
            &&& json_get(summary, "post_write_verified"@) == Some(
                Json::Int(s.post_write_verified as int),
            )
            &&& json_get(summary, "post_write_skipped"@) == Some(
                Json::Int(s.post_write_skipped as int),
            )
        },
{
    reveal_strlit("summary");
    reveal_strlit("write_requests");
    reveal_strlit("attempted");
    reveal_strlit("succeeded");
    reveal_strlit("failed");
    reveal_strlit("post_write_verified");
    reveal_strlit("post_write_skipped");
    let j = apply_json(s, plan, requests, l);
    let ms = j->Object_0;
    let head = ms.subrange(0, 9);
    let tail = labels_members(without_tokens(l));
    assert(ms =~= head + tail);
    lemma_labels_do_not_hide(without_tokens(l), "summary"@);
    lemma_member_value_concat(head, tail, "summary"@);
    assert(head[8].0 == "write_requests"@);
    lemma_member_value_at(head, "summary"@, 7);
    let c = summary_json(s)->Object_0;
    assert("attempted"@ != "succeeded"@) by {
        assert("attempted"@[0] != "succeeded"@[0]);
    }
    assert forall|k: int| 0 < k < 5 implies #[trigger] c[k].0 != "attempted"@ by {
        if k == 1 {
        } else if k == 2 {
        } else if k == 3 {
        } else {
        }
    }
    assert forall|k: int| 1 < k < 5 implies #[trigger] c[k].0 != "succeeded"@ by {
        if k == 2 {
        } else if k == 3 {
        } else {
        }
    }
    lemma_member_value_at(c, "attempted"@, 0);
    lemma_member_value_at(c, "succeeded"@, 1);
    assert("failed"@.len() == 6);
    assert("post_write_verified"@.len() == 19);
    assert(c[3].0 == "post_write_verified"@);
    assert forall|k: int| 2 < k < 5 implies #[trigger] c[k].0 != "failed"@ by {
        if k == 3 {
        } else {
        }
    }
    assert(c[4].0 != "post_write_verified"@);
    lemma_member_value_at(c, "failed"@, 2);
    lemma_member_value_at(c, "post_write_verified"@, 3);
    lemma_member_value_at(c, "post_write_skipped"@, 4);
}

/// The JSON sync report counts the writes it applied in the same way: its
/// `apply` member's `summary` gives, under each name, the count of that
/// name in the apply summary.
pub proof fn lemma_sync_report_counts(
    imports: Seq<ImportSummary>,
    s: ApplySummary,
    plan: SyncPlan,
    requests: Seq<WriteRequest>,
    l: RunLabels,
    post_write_verification: bool,
)
    ensures
        json_get(
            sync_applied_json(imports, s, plan, requests, l, post_write_verification),
            "apply"@,
        ) matches Some(apply) && json_get(apply, "summary"@) matches Some(summary) && {
            &&& json_get(summary, "attempted"@) == Some(Json::Int(s.attempted as int))
            &&& json_get(summary, "succeeded"@) == Some(Json::Int(s.succeeded as int))
            &&& json_get(summary, "failed"@) == Some(Json::Int(s.failed as int))
            &&& json_get(summary, "post_write_verified"@) == Some(
                Json::Int(s.post_write_verified as int),
            )
            &&& json_get(summary, "post_write_skipped"@) == Some(
                Json::Int(s.post_write_skipped as int),
            )
        },
{
    reveal_strlit("apply");
    let ms = sync_applied_json(imports, s, plan, requests, l, post_write_verification)->Object_0;
    let head = ms.subrange(0, 15);
    let tail = labels_members(l);
    assert(ms =~= head + tail);
    lemma_labels_do_not_hide(l, "apply"@);
    lemma_member_value_concat(head, tail, "apply"@);
    lemma_member_value_at(head, "apply"@, 14);
    lemma_apply_report_counts(s, plan, requests, l);
}

} // verus!
