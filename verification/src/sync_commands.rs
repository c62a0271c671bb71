//! `plan`, `apply` and `sync` from their parsed options to their output.
//! The caller opens the database, reads the fixture files and runs the
//! planner and the writers; each function here takes what came of that and
//! decides what the command prints and how it exits.

use vstd::prelude::*;
use crate::auth_commands::{failure_with, resolve_now};
use crate::cli::{
    failure, failure_spec, json_report, report_output, text_report, usage_error,
    usage_error_spec, with_exit, CommandOutput, CommandOutputView,
};
use crate::credentials::{
    auth_optional_credential_store_config, fixture_plan_credential_store, optional_store_spec,
    plan_store_codec_label, plan_store_source_label, PlanCredentialStore,
};
use crate::fixtures::{missing_fixture_response_message, FixtureResponseMap};
use crate::flags::arg_views;
use crate::model::{
    media_kind_name, plan_media_kinds, plan_media_kinds_spec, provider_name, MediaKind,
    PlanMediaScope, PlanOutputFormat, Provider,
};
use crate::plan_report::{plan_json, plan_text, plan_to_json_value, write_text_plan, SyncPlan};
use crate::sync_options::{parse_plan_options, plan_spec, ApplyOptions, PlanOptions, SyncOptions};
use crate::sync_reports::{
    apply_blocked_json, apply_blocked_text, apply_json, apply_text, apply_to_json_value,
    opt_str_view, refresh_plan_json, refresh_plan_text, sync_applied_json, sync_applied_text,
    sync_blocked_json, sync_blocked_text, sync_credentials_required_json,
    sync_credentials_required_text, write_json_apply_blocked_conflicts, write_json_refresh_plan,
    write_json_sync_applied, write_json_sync_blocked_conflicts,
    write_json_sync_credentials_required, write_text_apply, write_text_apply_blocked_conflicts,
    write_text_refresh_plan, write_text_sync_applied, write_text_sync_blocked_conflicts,
    write_text_sync_credentials_required, ApplySummary, ImportSummary, RunLabels,
    SyncCycleOutcome, WriteRequest,
};
use crate::text::{concat, opt_chars, owned, push_str};

verus! {

// ---------------------------------------------------------------------------
// plan
// ---------------------------------------------------------------------------

/// What `plan` does with its arguments: print the notice of the bare
/// command, refuse them, or go on with a dry run, with or without a
/// snapshot refresh first.
pub enum PlanStart {
    Output(CommandOutput),
    DryRun(PlanOptions),
    RefreshSnapshots(PlanOptions),
}

/// The notice that `plan` without arguments prints.
pub open spec fn plan_notice() -> Seq<char> {
    "sync-v2 plan: read-only skeleton command; dry-run behavior only\n"@
}

/// The checks that a parsed `plan` command passed.
pub open spec fn plan_ready(o: PlanOptions) -> bool {
    &&& o.db_path is Some
    &&& o.account_id is Some
    &&& o.media_scope is Some
    &&& o.providers is Some
}

/// Reads the arguments of `plan`.
pub fn plan_start(args: &[String]) -> (r: PlanStart)
    ensures
        args@.len() == 0 ==> (r matches PlanStart::Output(o) && o@ == crate::cli::text_output(
            plan_notice(),
        )),
        args@.len() > 0 ==> match plan_spec(arg_views(args@)) {
            Err(e) => r matches PlanStart::Output(o) && o@ == usage_error_spec(e),
            Ok(v) => if v.refresh_snapshots {
                r matches PlanStart::RefreshSnapshots(o) && o@ == v && plan_ready(o)
            } else {
                r matches PlanStart::DryRun(o) && o@ == v && plan_ready(o)
            },
        },
{
    if args.len() == 0 {
        return PlanStart::Output(
            text_report(owned("sync-v2 plan: read-only skeleton command; dry-run behavior only\n")),
        );
    }
    match parse_plan_options(args) {
        Err(message) => PlanStart::Output(usage_error(message.as_str())),
        Ok(o) => if o.refresh_snapshots {
            PlanStart::RefreshSnapshots(o)
        } else {
            PlanStart::DryRun(o)
        },
    }
}

/// What came of opening the database and planning.
pub enum PlanEvent {
    OpenFailed(String),
    PlanFailed(String),
    Planned(SyncPlan),
}

/// What a dry-run `plan` prints.
pub open spec fn plan_output_spec(db_path: Seq<char>, format: PlanOutputFormat,
    e: PlanEvent) -> CommandOutputView {
    match e {
        PlanEvent::OpenFailed(err) => crate::auth_commands::db_open_failure(db_path, err@),
        PlanEvent::PlanFailed(err) => failure_spec(1, "failed to build dry-run plan: "@ + err@),
        PlanEvent::Planned(p) => report_output(format, plan_text(p), plan_json(p)),
    }
}

/// The output of a dry-run `plan`.
pub fn plan_output(options: &PlanOptions, event: PlanEvent) -> (r: CommandOutput)
    requires
        options.db_path is Some,
    ensures
        r@ == plan_output_spec(options.db_path.unwrap()@, options.output_format, event),
{
    let db_path = match &options.db_path {
        Some(p) => p.as_str(),
        None => "",
    };
    match event {
        PlanEvent::OpenFailed(err) => crate::auth_commands::db_open_failed(db_path, err.as_str()),
        PlanEvent::PlanFailed(err) => failure_with(
            1,
            "failed to build dry-run plan: ",
            err.as_str(),
        ),
        PlanEvent::Planned(p) => match options.output_format {
            PlanOutputFormat::Text => text_report(write_text_plan(&p)),
            PlanOutputFormat::Json => json_report(plan_to_json_value(&p)),
        },
    }
}

// ---------------------------------------------------------------------------
// What plan --refresh-snapshots, apply and sync share
// ---------------------------------------------------------------------------

/// What a snapshot refresh or an apply works with once its bundle options
/// are checked.
pub struct CycleRun {
    pub credential_store: PlanCredentialStore,
    pub media_kinds: Vec<MediaKind>,
    pub now_unix_seconds: i64,
}

/// Checks the bundle options of `plan --refresh-snapshots`, `apply` or
/// `sync`; a refused choice fails with status 2. Without a bundle the
/// fixture access tokens are used.
pub fn cycle_run(
    test_credential_bundle_path: Option<String>,
    credential_bundle_path: Option<String>,
    credential_bundle_passphrase_env: Option<String>,
    passphrase_env_value: Option<String>,
    media_scope: PlanMediaScope,
    now_unix_seconds: Option<i64>,
    clock_now_unix_seconds: i64,
) -> (r: Result<CycleRun, CommandOutput>)
    ensures
        match optional_store_spec(
            opt_chars(test_credential_bundle_path),
            opt_chars(credential_bundle_path),
            opt_chars(credential_bundle_passphrase_env),
            opt_chars(passphrase_env_value),
        ) {
            Err(e) => r matches Err(o) && o@ == failure_spec(2, e),
            Ok(c) => r matches Ok(run) && (match c {
                Some(v) => (run.credential_store matches PlanCredentialStore::Bundle(b) && b@ == v),
                None => run.credential_store is FixtureAccessToken,
            }) && run.media_kinds@ == plan_media_kinds_spec(media_scope) && run.now_unix_seconds
                == resolve_now(now_unix_seconds, clock_now_unix_seconds),
        },
{
    let config = match auth_optional_credential_store_config(
        test_credential_bundle_path,
        credential_bundle_path,
        credential_bundle_passphrase_env,
        passphrase_env_value,
    ) {
        Ok(c) => c,
        Err(message) => {
            return Err(failure(2, message.as_str()));
        },
    };
    let now = match now_unix_seconds {
        Some(n) => n,
        None => clock_now_unix_seconds,
    };
    Ok(
        CycleRun {
            credential_store: fixture_plan_credential_store(config),
            media_kinds: plan_media_kinds(media_scope),
            now_unix_seconds: now,
        },
    )
}

/// The labels of a run's reports: its credential source and codec, and
/// the token requests made when the test token transport was used.
pub fn run_labels<'a>(
    run: &CycleRun,
    passphrase_codec_label: &'a str,
    auto_link_local: bool,
    test_token_transport: bool,
    token_request_count: u64,
) -> (r: RunLabels<'a>)
    ensures
        r.credential_source@ == plan_store_source_label(run.credential_store),
        opt_str_view(r.credential_bundle_codec) == plan_store_codec_label(
            run.credential_store,
            passphrase_codec_label@,
        ),
        r.auto_link_local == auto_link_local,
        r.test_token_transport == test_token_transport,
        r.token_request_count == if test_token_transport {
            token_request_count
        } else {
            0
        },
{
    RunLabels {
        credential_source: run.credential_store.source_label(),
        credential_bundle_codec: run.credential_store.codec_label(passphrase_codec_label),
        auto_link_local,
        test_token_transport,
        token_request_count: if test_token_transport {
            token_request_count
        } else {
            0
        },
    }
}

/// The failure for a fixture file that cannot be read.
pub fn fixture_read_failed(path: &str, error: &str) -> (r: CommandOutput)
    ensures
        r@ == failure_spec(1, "failed to read "@ + path@ + ": "@ + error@),
{
    let mut m = concat("failed to read ", path);
    push_str(&mut m, ": ");
    push_str(&mut m, error);
    failure(1, m.as_str())
}

/// The failure for a fixture file that is not a response of its provider.
pub fn fixture_invalid(provider: Provider, media_kind: MediaKind, error: &str) -> (r: CommandOutput)
    ensures
        r@ == failure_spec(
            1,
            "invalid fixture response for provider="@ + provider_name(provider) + " kind="@
                + media_kind_name(media_kind) + ": "@ + error@,
        ),
{
    let mut m = concat("invalid fixture response for provider=", provider.as_str());
    push_str(&mut m, " kind=");
    push_str(&mut m, media_kind.as_str());
    push_str(&mut m, ": ");
    push_str(&mut m, error);
    failure(1, m.as_str())
}

/// Every provider and media kind of the run must have a response; the
/// first that has none (media kinds outermost, each in the order given)
/// fails with status 2.
pub fn check_fixture_responses(
    responses: &FixtureResponseMap,
    media_kinds: &Vec<MediaKind>,
    providers: &Vec<Provider>,
) -> (r: Option<CommandOutput>)
    requires
        responses.wf(),
    ensures
        r is None <==> forall|i: int, j: int|
            0 <= i < media_kinds@.len() && 0 <= j < providers@.len()
                ==> #[trigger] responses.collection_queue(providers@[j], media_kinds@[i]) is Some,
        r matches Some(o) ==> exists|i: int, j: int|
            0 <= i < media_kinds@.len() && 0 <= j < providers@.len()
                && responses.collection_queue(providers@[j], media_kinds@[i]) is None && (forall|
                i2: int,
                j2: int,
            |
                (0 <= i2 < i && 0 <= j2 < providers@.len()) || (i2 == i && 0 <= j2 < j)
                    ==> #[trigger] responses.collection_queue(providers@[j2], media_kinds@[i2])
                    is Some) && o@ == failure_spec(
                2,
                "missing --fixture-response for provider="@ + provider_name(providers@[j])
                    + " kind="@ + media_kind_name(media_kinds@[i]),
            ),
{
    match responses.first_missing_collection(media_kinds, providers) {
        None => None,
        Some((p, k)) => {
            let m = missing_fixture_response_message(p, k);
            let o = failure(2, m.as_str());
            Some(o)
        },
    }
}

/// The failure for a database file that does not exist, or cannot be
/// opened, or for a step before planning.
pub fn step_failed(prefix: &str, error: &str) -> (r: CommandOutput)
    ensures
        r@ == failure_spec(1, prefix@ + error@),
{
    failure_with(1, prefix, error)
}

// ---------------------------------------------------------------------------
// plan --refresh-snapshots
// ---------------------------------------------------------------------------

/// What `plan --refresh-snapshots` prints once the refresh ran.
pub open spec fn refresh_plan_output_spec(
    live_read: bool,
    format: PlanOutputFormat,
    labels: RunLabels,
    result: Result<SyncCycleOutcome, String>,
) -> CommandOutputView {
    match result {
        Err(e) => failure_spec(1, "failed to refresh snapshots and build dry-run plan: "@ + e@),
        Ok(o) => report_output(
            format,
            refresh_plan_text(o, labels, live_read),
            refresh_plan_json(o, labels, live_read),
        ),
    }
}

/// The output of `plan --refresh-snapshots`.
pub fn refresh_plan_output(
    options: &PlanOptions,
    labels: &RunLabels,
    result: Result<SyncCycleOutcome, String>,
) -> (r: CommandOutput)
    ensures
        r@ == refresh_plan_output_spec(
            options.live_read,
            options.output_format,
            *labels,
            result,
        ),
{
    match result {
        Err(e) => failure_with(
            1,
            "failed to refresh snapshots and build dry-run plan: ",
            e.as_str(),
        ),
        Ok(o) => match options.output_format {
            PlanOutputFormat::Text => text_report(
                write_text_refresh_plan(&o, labels, options.live_read),
            ),
            PlanOutputFormat::Json => json_report(
                write_json_refresh_plan(&o, labels, options.live_read),
            ),
        },
    }
}

// ---------------------------------------------------------------------------
// apply and sync
// ---------------------------------------------------------------------------

/// What came of applying a plan.
pub enum ApplyResult {
    Applied(ApplySummary),
    ConflictsPresent(u64),
    Failed(String),
}

/// What `apply` prints once the plan was applied: the apply report; the
/// blocked report with status 1 when the plan holds conflicts; or the
/// failure.
pub open spec fn apply_output_spec(
    format: PlanOutputFormat,
    labels: RunLabels,
    plan: SyncPlan,
    result: ApplyResult,
    requests: Seq<WriteRequest>,
) -> CommandOutputView {
    match result {
        ApplyResult::Applied(s) => report_output(
            format,
            apply_text(s, plan, requests, labels),
            apply_json(s, plan, requests, labels),
        ),
        ApplyResult::ConflictsPresent(n) => with_exit(
            report_output(format, apply_blocked_text(plan, n, labels), apply_blocked_json(plan, n,
                labels)),
            1,
        ),
        ApplyResult::Failed(e) => failure_spec(1, "failed to apply test provider writes: "@ + e@),
    }
}

/// The output of `apply`.
pub fn apply_output(
    options: &ApplyOptions,
    labels: &RunLabels,
    plan: &SyncPlan,
    result: ApplyResult,
    requests: &Vec<WriteRequest>,
) -> (r: CommandOutput)
    ensures
        r@ == apply_output_spec(options.output_format, *labels, *plan, result, requests@),
{
    match result {
        ApplyResult::Applied(s) => match options.output_format {
            PlanOutputFormat::Text => text_report(write_text_apply(s, plan, requests, labels)),
            PlanOutputFormat::Json => json_report(apply_to_json_value(s, plan, requests, labels)),
        },
        ApplyResult::ConflictsPresent(n) => {
            let mut out = match options.output_format {
                PlanOutputFormat::Text => text_report(
                    write_text_apply_blocked_conflicts(plan, n, labels),
                ),
                PlanOutputFormat::Json => json_report(
                    write_json_apply_blocked_conflicts(plan, n, labels),
                ),
            };
            out.exit_code = 1;
            out
        },
        ApplyResult::Failed(e) => failure_with(
            1,
            "failed to apply test provider writes: ",
            e.as_str(),
        ),
    }
}

/// What `sync` does once snapshots were refreshed and planned: go on to
/// apply the plan; report that credentials must be renewed, with status 1;
/// or fail.
pub open spec fn sync_after_plan_spec(
    format: PlanOutputFormat,
    labels: RunLabels,
    result: Result<SyncCycleOutcome, String>,
) -> Option<CommandOutputView> {
    match result {
        Err(e) => Some(
            failure_spec(1, "failed to refresh snapshots and build sync plan: "@ + e@),
        ),
        Ok(SyncCycleOutcome::CredentialsRequired { imports }) => Some(
            with_exit(
                report_output(
                    format,
                    sync_credentials_required_text(imports@, labels),
                    sync_credentials_required_json(imports@, labels),
                ),
                1,
            ),
        ),
        Ok(SyncCycleOutcome::Planned { .. }) => None,
    }
}

/// Decides whether `sync` goes on to apply its plan.
pub fn sync_after_plan(
    options: &SyncOptions,
    labels: &RunLabels,
    result: Result<SyncCycleOutcome, String>,
) -> (r: Result<(Vec<ImportSummary>, SyncPlan), CommandOutput>)
    ensures
        match sync_after_plan_spec(options.output_format, *labels, result) {
            Some(o) => r matches Err(out) && out@ == o,
            None => r matches Ok((imports, plan)) && result == Ok::<SyncCycleOutcome, String>(
                SyncCycleOutcome::Planned { imports, plan },
            ),
        },
{
    match result {
        Err(e) => Err(
            failure_with(1, "failed to refresh snapshots and build sync plan: ", e.as_str()),
        ),
        Ok(SyncCycleOutcome::CredentialsRequired { imports }) => {
            let mut out = match options.output_format {
                PlanOutputFormat::Text => text_report(
                    write_text_sync_credentials_required(&imports, labels),
                ),
                PlanOutputFormat::Json => json_report(
                    write_json_sync_credentials_required(&imports, labels),
                ),
            };
            out.exit_code = 1;
            Err(out)
        },
        Ok(SyncCycleOutcome::Planned { imports, plan }) => Ok((imports, plan)),
    }
}

/// What `sync` prints once its plan was applied.
pub open spec fn sync_output_spec(
    format: PlanOutputFormat,
    post_write_verification: bool,
    labels: RunLabels,
    imports: Seq<ImportSummary>,
    plan: SyncPlan,
    result: ApplyResult,
    requests: Seq<WriteRequest>,
) -> CommandOutputView {
    match result {
        ApplyResult::Applied(s) => report_output(
            format,
            sync_applied_text(imports, s, plan, requests, labels, post_write_verification),
            sync_applied_json(imports, s, plan, requests, labels, post_write_verification),
        ),
        ApplyResult::ConflictsPresent(n) => with_exit(
            report_output(
                format,
                sync_blocked_text(imports, plan, n, labels),
                sync_blocked_json(imports, plan, n, labels, post_write_verification),
            ),
            1,
        ),
        ApplyResult::Failed(e) => failure_spec(1, "failed to apply test provider writes: "@ + e@),
    }
}

/// The output of `sync`.
pub fn sync_output(
    options: &SyncOptions,
    labels: &RunLabels,
    imports: &Vec<ImportSummary>,
    plan: &SyncPlan,
    result: ApplyResult,
    requests: &Vec<WriteRequest>,
) -> (r: CommandOutput)
    ensures
        r@ == sync_output_spec(
            options.output_format,
            options.verify_post_write,
            *labels,
            imports@,
            *plan,
            result,
            requests@,
        ),
{
    let post_write = options.verify_post_write;
    match result {
        ApplyResult::Applied(s) => match options.output_format {
            PlanOutputFormat::Text => text_report(
                write_text_sync_applied(imports, s, plan, requests, labels, post_write),
            ),
            PlanOutputFormat::Json => json_report(
                write_json_sync_applied(imports, s, plan, requests, labels, post_write),
            ),
        },
        ApplyResult::ConflictsPresent(n) => {
            let mut out = match options.output_format {
                PlanOutputFormat::Text => text_report(
                    write_text_sync_blocked_conflicts(imports, plan, n, labels),
                ),
                PlanOutputFormat::Json => json_report(
                    write_json_sync_blocked_conflicts(imports, plan, n, labels, post_write),
                ),
            };
            out.exit_code = 1;
            out
        },
        ApplyResult::Failed(e) => failure_with(
            1,
            "failed to apply test provider writes: ",
            e.as_str(),
        ),
    }
}

} // verus!

verus! {

/// `apply` and `sync` succeed exactly when the writes were applied: a plan
/// refused for its conflicts, or writes that failed, end with status 1.
pub proof fn lemma_apply_and_sync_exit_status(
    format: PlanOutputFormat,
    post_write_verification: bool,
    labels: RunLabels,
    imports: Seq<ImportSummary>,
    plan: SyncPlan,
    result: ApplyResult,
    requests: Seq<WriteRequest>,
)
    ensures
        sync_output_spec(
            format,
            post_write_verification,
            labels,
            imports,
            plan,
            result,
            requests,
        ).exit_code == (if result is Applied {
            0i32
        } else {
            1i32
        }),
        apply_output_spec(format, labels, plan, result, requests).exit_code == (
        if result is Applied {
            0i32
        } else {
            1i32
        }),
{
}

} // verus!
