use serde_json::Value;
use sync_cli::auth_reports::{
    credential_action_mode_suffix, credential_action_name, write_json_auth_begin,
    write_json_auth_refresh, write_json_auth_status, write_text_auth_authorize_url,
    write_text_auth_begin, write_text_auth_complete, write_text_auth_exchange_code,
    write_text_auth_refresh, write_text_auth_status, AuthFlow, CredentialAction,
    CredentialExchange, RefreshOutcome, RefreshTokenState, SecretPreflightOutcome,
};
use sync_cli::json::JsonValue;
use sync_cli::model::{MediaKind, Provider};
use sync_cli::plan_report::{
    plan_apply_blocked, plan_apply_blocked_reason, plan_to_json_value, text_conflict_value,
    write_text_plan, write_text_plan_preview, write_text_plan_preview_for_command,
    ConflictValue, FieldChange, PlanConflict, PlanDiagnostic, PlannedAction, PlannedActionKind,
    SyncField, SyncPlan,
};
use sync_cli::session::{AuthBootstrapMode, OAuthEndpointSource};
use sync_cli::sync_reports::{
    apply_to_json_value, import_outcome_text, write_json_refresh_plan, write_text_apply,
    write_text_apply_blocked_conflicts, write_text_import_summaries, write_text_refresh_plan,
    write_text_sync_applied, write_text_sync_credentials_required, ApplySummary, ImportOutcome,
    ImportSummary, RunLabels, SyncCycleOutcome, WriteRequest, WriteRequestMethod,
};

fn to_serde(v: &JsonValue) -> Value {
    match v {
        JsonValue::Null => Value::Null,
        JsonValue::Bool(b) => Value::Bool(*b),
        JsonValue::Int(i) => Value::from(*i),
        JsonValue::UInt(u) => Value::from(*u),
        JsonValue::Str(s) => Value::String(s.clone()),
        JsonValue::Array(items) => Value::Array(items.iter().map(to_serde).collect()),
        JsonValue::Object(members) => {
            let mut map = serde_json::Map::new();
            for (k, v) in members {
                map.insert(k.clone(), to_serde(v));
            }
            Value::Object(map)
        }
    }
}

fn json(text: &str) -> Value {
    serde_json::from_str(text).unwrap()
}

fn status_field() -> SyncField {
    SyncField { name: "status".to_owned(), label: "Status".to_owned(), is_status: true }
}

fn progress_field() -> SyncField {
    SyncField { name: "progress".to_owned(), label: "Progress".to_owned(), is_status: false }
}

fn sample_plan() -> SyncPlan {
    SyncPlan {
        dry_run: true,
        actions: vec![PlannedAction {
            kind: PlannedActionKind::UpdateEntry,
            work_id: 7,
            source_provider: Provider::AniList,
            target_provider: Provider::MyAnimeList,
            target_provider_entry_id: "123".to_owned(),
            media_kind: MediaKind::Anime,
            field_updates: vec![status_field(), progress_field()],
            field_changes: vec![
                FieldChange {
                    field: status_field(),
                    old_value: Some("planned".to_owned()),
                    new_value: "in_progress".to_owned(),
                },
                FieldChange { field: progress_field(), old_value: None, new_value: "3".to_owned() },
            ],
            reason: "newer".to_owned(),
        }],
        conflicts: vec![PlanConflict {
            work_id: 9,
            field: status_field(),
            values: vec![
                ConflictValue { provider: Provider::AniList, value: "in_progress".to_owned() },
                ConflictValue { provider: Provider::Bangumi, value: "dropped".to_owned() },
            ],
            reason: "disagree".to_owned(),
        }],
        diagnostics: vec![PlanDiagnostic {
            work_id: 11,
            source_provider: Provider::Bangumi,
            target_provider: Provider::AniList,
            target_provider_entry_id: "55".to_owned(),
            media_kind: MediaKind::Manga,
            field: progress_field(),
            reason: "unsupported".to_owned(),
        }],
        skipped_unmatched: 2,
    }
}

fn empty_plan() -> SyncPlan {
    SyncPlan { dry_run: true, actions: vec![], conflicts: vec![], diagnostics: vec![], skipped_unmatched: 0 }
}

fn labels() -> RunLabels<'static> {
    RunLabels {
        credential_source: "test_credential_bundle",
        credential_bundle_codec: Some("test-reversing"),
        auto_link_local: true,
        test_token_transport: true,
        token_request_count: 2,
    }
}

fn requests() -> Vec<WriteRequest> {
    vec![
        WriteRequest {
            provider: Provider::MyAnimeList,
            method: WriteRequestMethod::Patch,
            url: "https://x/1".to_owned(),
            content_type: "application/json".to_owned(),
        },
        WriteRequest {
            provider: Provider::AniList,
            method: WriteRequestMethod::Post,
            url: "https://y".to_owned(),
            content_type: "application/json".to_owned(),
        },
    ]
}

const PLAN_TEXT: &str = "sync-v2 plan: dry-run plan actions=1 conflicts=1 unmatched=2 apply_blocked=true apply_blocked_reason=conflicts_present
- update anilist -> myanimelist target=123 fields=Status,Progress reason=newer
  change status planned -> in_progress
  change progress <unset> -> 3
- conflict work=9 field=Status values=anilist=InProgress,bangumi=Dropped reason=disagree
";

#[test]
fn text_plan() {
    assert_eq!(write_text_plan(&sample_plan()), PLAN_TEXT);
    assert_eq!(
        write_text_plan(&empty_plan()),
        "sync-v2 plan: dry-run plan actions=0 conflicts=0 unmatched=0 apply_blocked=false apply_blocked_reason=none\n"
    );
}

#[test]
fn plan_previews() {
    let expected = "sync-v2 apply: plan_preview actions=1 conflicts=1 unmatched=2 apply_blocked=true apply_blocked_reason=conflicts_present
- preview update anilist -> myanimelist target=123 fields=status,progress reason=newer
- preview conflict work=9 field=Status values=anilist=InProgress,bangumi=Dropped reason=disagree
";
    assert_eq!(write_text_plan_preview_for_command("apply", &sample_plan()), expected);
    assert!(write_text_plan_preview(&sample_plan()).starts_with("sync-v2 sync: plan_preview actions=1"));
}

#[test]
fn blocked_exactly_when_conflicts_exist() {
    assert!(plan_apply_blocked(&sample_plan()));
    assert_eq!(plan_apply_blocked_reason(&sample_plan()), Some("conflicts_present"));
    assert!(!plan_apply_blocked(&empty_plan()));
    assert_eq!(plan_apply_blocked_reason(&empty_plan()), None);
}

#[test]
fn conflict_values_spell_status_in_full() {
    assert_eq!(text_conflict_value(&status_field(), "paused"), "Paused");
    assert_eq!(text_conflict_value(&status_field(), "completed"), "Completed");
    assert_eq!(text_conflict_value(&status_field(), "rewatching"), "rewatching");
    assert_eq!(text_conflict_value(&progress_field(), "paused"), "paused");
}

#[test]
fn plan_json() {
    let expected = json(
        r#"{
        "dry_run": true,
        "actions": [{
            "kind": "update", "work_id": 7, "source_provider": "anilist",
            "target_provider": "myanimelist", "target_provider_entry_id": "123",
            "media_kind": "anime", "field_updates": ["status", "progress"],
            "field_changes": [
                {"field": "status", "old": "planned", "new": "in_progress"},
                {"field": "progress", "old": "<unset>", "new": "3"}
            ],
            "reason": "newer"
        }],
        "conflicts": [{
            "work_id": 9, "field": "status",
            "values": [{"provider": "anilist", "value": "in_progress"}, {"provider": "bangumi", "value": "dropped"}],
            "reason": "disagree"
        }],
        "diagnostics": [{
            "work_id": 11, "source_provider": "bangumi", "target_provider": "anilist",
            "target_provider_entry_id": "55", "media_kind": "manga", "field": "progress",
            "reason": "unsupported"
        }],
        "apply_blocked": true,
        "apply_blocked_reason": "conflicts_present",
        "apply_blocking_conflicts": 1,
        "unmatched": 2
    }"#,
    );
    assert_eq!(to_serde(&plan_to_json_value(&sample_plan())), expected);
    let empty = to_serde(&plan_to_json_value(&empty_plan()));
    assert_eq!(empty["apply_blocked_reason"], Value::Null);
    assert_eq!(empty["apply_blocked"], Value::Bool(false));
}

#[test]
fn imports() {
    assert_eq!(import_outcome_text(ImportOutcome::Imported { imported: 12 }), "imported=12");
    assert_eq!(import_outcome_text(ImportOutcome::RefreshRequired), "refresh_required");
    assert_eq!(
        import_outcome_text(ImportOutcome::Reauthorize { preferred_mode: AuthBootstrapMode::ManualPin }),
        "reauthorize mode=manual_pin"
    );
    let imports = vec![
        ImportSummary { provider: Provider::AniList, media_kind: MediaKind::Anime, outcome: ImportOutcome::Imported { imported: 3 } },
        ImportSummary { provider: Provider::Bangumi, media_kind: MediaKind::Manga, outcome: ImportOutcome::RefreshRequired },
    ];
    assert_eq!(
        write_text_import_summaries(&imports),
        "- import anilist anime imported=3\n- import bangumi manga refresh_required\n"
    );
}

#[test]
fn apply_report_pairs_writes_with_actions() {
    let summary = ApplySummary { attempted: 1, succeeded: 1, failed: 0, post_write_verified: 0, post_write_skipped: 1 };
    let expected = "sync-v2 apply: test-write-transport local-only live_provider_writes=false credential_source=test_credential_bundle credential_bundle_codec=test-reversing local_auto_link=true attempted=1 succeeded=1 failed=0 post_write_verified=0 post_write_skipped=1 write_requests=2
- write myanimelist PATCH https://x/1 content_type=application/json kind=update media_kind=anime target=123 fields=status,progress
- write anilist POST https://y content_type=application/json
";
    assert_eq!(write_text_apply(summary, &sample_plan(), &requests(), &labels()), expected);
    let value = to_serde(&apply_to_json_value(summary, &sample_plan(), &requests(), &labels()));
    assert_eq!(value["write_requests"][0]["kind"], json("\"update\""));
    assert_eq!(value["write_requests"][0]["authorization"], json("\"redacted\""));
    assert_eq!(value["write_requests"][1].get("kind"), None);
    assert_eq!(value["summary"]["post_write_skipped"], json("1"));
    assert_eq!(value["credential_bundle_codec"], json("\"test-reversing\""));
    assert_eq!(value.get("token_request_count"), None);
}

#[test]
fn apply_blocked_report() {
    let out = write_text_apply_blocked_conflicts(&sample_plan(), 1, &labels());
    assert!(out.starts_with("sync-v2 apply: blocked_conflicts local-only test_write_transport=true live_provider_writes=false local_write_journal=false credential_source=test_credential_bundle credential_bundle_codec=test-reversing local_auto_link=true actions=1 conflicts=1 apply_blocked=true apply_blocked_reason=conflicts_present\nsync-v2 apply: plan_preview"));
}

#[test]
fn sync_reports() {
    let imports = vec![ImportSummary { provider: Provider::AniList, media_kind: MediaKind::Anime, outcome: ImportOutcome::Imported { imported: 3 } }];
    assert_eq!(
        write_text_sync_credentials_required(&imports, &labels()),
        "sync-v2 sync: credentials_required local-only fixture_read_transport=true test_write_transport=true live_provider_writes=false local_write_journal=false credential_source=test_credential_bundle credential_bundle_codec=test-reversing local_auto_link=true test_token_transport=true token_request_count=2 imports=1\n- import anilist anime imported=3\n"
    );
    let summary = ApplySummary { attempted: 1, succeeded: 1, failed: 0, post_write_verified: 1, post_write_skipped: 0 };
    let applied = write_text_sync_applied(&imports, summary, &sample_plan(), &requests(), &labels(), true);
    assert!(applied.starts_with("sync-v2 sync: applied local-only fixture_read_transport=true test_write_transport=true live_provider_writes=false post_write_verification=true credential_source=test_credential_bundle credential_bundle_codec=test-reversing local_auto_link=true test_token_transport=true token_request_count=2 imports=1 actions=1 attempted=1 succeeded=1 failed=0 post_write_verified=1 post_write_skipped=0 write_requests=2\n- import anilist anime imported=3\nsync-v2 sync: plan_preview"));
    assert!(applied.contains("\nsync-v2 apply: test-write-transport local-only live_provider_writes=false credential_source=test_credential_bundle credential_bundle_codec=test-reversing local_auto_link=true attempted=1"));
}

#[test]
fn refresh_plan_reports() {
    let plain = RunLabels {
        credential_source: "fixture_token_store",
        credential_bundle_codec: None,
        auto_link_local: false,
        test_token_transport: false,
        token_request_count: 0,
    };
    let outcome = SyncCycleOutcome::CredentialsRequired { imports: vec![] };
    assert_eq!(
        write_text_refresh_plan(&outcome, &plain, false),
        "sync-v2 plan: dry-run refresh-snapshots credentials_required local_only=true fixture_transport=true live_read=false provider_writes=false credential_source=fixture_token_store imports=0\n"
    );
    let planned = SyncCycleOutcome::Planned { imports: vec![], plan: sample_plan() };
    let text = write_text_refresh_plan(&planned, &plain, true);
    assert_eq!(
        text,
        format!("sync-v2 plan: dry-run refresh-snapshots local_only=false fixture_transport=false live_read=true provider_writes=false credential_source=fixture_token_store imports=0 actions=1 conflicts=1 unmatched=2\n{PLAN_TEXT}")
    );
    let value = to_serde(&write_json_refresh_plan(&outcome, &plain, false));
    assert_eq!(
        value,
        json(r#"{"dry_run": true, "local_only": true, "provider_writes": false, "fixture_transport": true,
                 "live_read": false, "credential_source": "fixture_token_store", "local_snapshot_import": true,
                 "local_auto_link": false, "outcome": "credentials_required", "imports": [], "plan": null}"#)
    );
}

fn exchange() -> CredentialExchange {
    CredentialExchange {
        auth_flow: AuthFlow::AuthorizationCodePkcePlain,
        bootstrap_mode: AuthBootstrapMode::AuthBroker,
        access_token_expires_at_epoch_secs: 5000,
        refresh_token: RefreshTokenState::PresentExpiresAt { expires_at_epoch_secs: 9000 },
    }
}

#[test]
fn auth_status_reports() {
    let action = CredentialAction::Reauthorize { preferred_mode: AuthBootstrapMode::LocalCallback };
    assert_eq!(credential_action_name(action), "reauthorize");
    assert_eq!(credential_action_mode_suffix(action), " mode=local_callback");
    assert_eq!(credential_action_mode_suffix(CredentialAction::UseStoredAccessToken), "");
    assert_eq!(
        write_text_auth_status(
            Provider::AniList,
            "acc",
            action,
            "present",
            Some("test_credential_bundle"),
            Some("test-reversing"),
            Some(SecretPreflightOutcome::Reauthorize { preferred_mode: AuthBootstrapMode::LocalCallback }),
        ),
        "sync-v2 auth status: provider=anilist account=acc action=reauthorize mode=local_callback credential=present read-only local-only opens_browser=false network=false metadata_updated=false token_request_count=0 credential_source=test_credential_bundle credential_bundle_codec=test-reversing secret_preflight=not_checked_reauthorize\n"
    );
    assert_eq!(
        write_text_auth_status(Provider::Bangumi, "a", CredentialAction::RefreshWithProvider, "missing", None, None, None),
        "sync-v2 auth status: provider=bangumi account=a action=refresh credential=missing read-only local-only opens_browser=false network=false metadata_updated=false token_request_count=0\n"
    );
    let value = to_serde(&write_json_auth_status(Provider::AniList, "acc", action, "present", None, None, Some(SecretPreflightOutcome::AccessTokenReadable)));
    assert_eq!(
        value,
        json(r#"{"provider": "anilist", "account": "acc", "action": "reauthorize", "credential": "present",
                 "read_only": true, "local_only": true, "opens_browser": false, "network": false,
                 "metadata_updated": false, "token_request_count": 0, "mode": "local_callback",
                 "secret_preflight": "access_secret_readable"}"#)
    );
}

#[test]
fn auth_begin_and_authorize_url_reports() {
    assert_eq!(
        write_text_auth_begin(Provider::MyAnimeList, None, OAuthEndpointSource::OfficialDocs, 100, 700),
        "sync-v2 auth begin: provider=myanimelist local-only opens_browser=false network=false exchanges_token=false writes_database=false session_file_written=true endpoint_source=official_docs bootstrap_mode=auth_broker sensitive_url=true authorization_url_suppressed=true created_at=100 expires_at=700\n"
    );
    assert!(write_text_auth_begin(Provider::AniList, Some("https://a/x"), OAuthEndpointSource::LegacyRepoCode, -5, 595)
        .ends_with("authorization_url_suppressed=false created_at=-5 expires_at=595 authorization_url=https://a/x\n"));
    let value = to_serde(&write_json_auth_begin(Provider::AniList, Some("u"), OAuthEndpointSource::OfficialDocs, 1, 2));
    assert_eq!(value["authorization_url"], json("\"u\""));
    assert_eq!(value["authorization_url_suppressed"], json("false"));
    assert_eq!(
        write_text_auth_authorize_url(Provider::Bangumi, OAuthEndpointSource::OfficialDocs, true, "https://u", false),
        "sync-v2 auth authorize-url: provider=bangumi endpoint_source=official_docs local-only opens_browser=false exchanges_token=false sensitive_url=true authorization_url_suppressed=true\n"
    );
}

#[test]
fn credential_install_reports() {
    let requests = vec![OAuthEndpointSource::LegacyRepoCode];
    assert_eq!(
        write_text_auth_exchange_code(Provider::MyAnimeList, "acc", exchange(), &requests),
        "sync-v2 auth exchange-code: provider=myanimelist account=acc outcome=installed local-only test_token_transport=true opens_browser=false exchanges_authorization_code=true credential_source=test_credential_bundle credential_bundle_codec=test-reversing metadata_updated=true token_request_count=1 endpoint_source=legacy_repo_code auth_flow=authorization_code_pkce_plain bootstrap_mode=auth_broker expires_at=5000 refresh_state=present_with_expiry\n"
    );
    assert_eq!(
        write_text_auth_complete(Provider::AniList, "acc", exchange(), &vec![], "file_credential_bundle", "pp"),
        "sync-v2 auth complete: provider=anilist account=acc outcome=installed local-only test_token_transport=true opens_browser=false uses_auth_session=true callback_valid=true exchanges_authorization_code=true credential_source=file_credential_bundle credential_bundle_codec=pp metadata_updated=true token_request_count=0 endpoint_source=none auth_flow=authorization_code_pkce_plain bootstrap_mode=auth_broker expires_at=5000 refresh_state=present_with_expiry\n"
    );
}

#[test]
fn refresh_reports() {
    assert_eq!(
        write_text_auth_refresh(Provider::AniList, "acc", RefreshOutcome::UseStoredAccessToken, &vec![], "test_credential_bundle", "test-reversing"),
        "sync-v2 auth refresh: provider=anilist account=acc outcome=use_stored local-only test_token_transport=true opens_browser=false exchanges_authorization_code=false credential_source=test_credential_bundle credential_bundle_codec=test-reversing metadata_updated=false token_request_count=0 endpoint_source=none\n"
    );
    assert_eq!(
        write_text_auth_refresh(Provider::AniList, "acc", RefreshOutcome::Refreshed(exchange()), &vec![OAuthEndpointSource::OfficialDocs], "s", "c"),
        "sync-v2 auth refresh: provider=anilist account=acc outcome=refreshed expires_at=5000 refresh_state=present_with_expiry local-only test_token_transport=true opens_browser=false exchanges_authorization_code=false credential_source=s credential_bundle_codec=c metadata_updated=true token_request_count=1 endpoint_source=official_docs\n"
    );
    let value = to_serde(&write_json_auth_refresh(
        Provider::AniList,
        "acc",
        RefreshOutcome::Reauthorize { preferred_mode: AuthBootstrapMode::AuthBroker },
        &vec![],
        "s",
        "c",
    ));
    assert_eq!(
        value,
        json(r#"{"provider": "anilist", "account": "acc", "local_only": true, "test_token_transport": true,
                 "opens_browser": false, "exchanges_authorization_code": false, "credential_source": "s",
                 "credential_bundle_codec": "c", "token_request_count": 0, "endpoint_source": "none",
                 "outcome": "reauthorize", "metadata_updated": false, "mode": "auth_broker"}"#)
    );
}
