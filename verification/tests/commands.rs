use sync_cli::auth_commands::{
    auth_authorize_url_output, auth_begin_needs_pkce, auth_begin_output, auth_begin_run, auth_complete_exchange_request,
    auth_complete_output, auth_complete_run, auth_refresh_output, auth_refresh_run,
    auth_status_output, auth_status_run, run_auth_callback_plan, AuthBeginEvent,
    AuthRefreshEvent, AuthStatusEvent, AuthorizationRequest, CredentialInstall,
};
use sync_cli::auth_options::{
    parse_auth_authorize_url_options, parse_auth_begin_options, parse_auth_callback_plan_options, parse_auth_complete_options,
    parse_auth_refresh_options, parse_auth_status_options,
};
use sync_cli::auth_reports::{
    AuthCredentialInstallError, AuthFlow, CredentialAction, CredentialExchange,
    CredentialRefreshError, RefreshOutcome, RefreshTokenState,
};
use sync_cli::cli::{run, run_auth, CliCommand, RunStep, USAGE};
use sync_cli::credentials::{AuthCredentialStoreConfig, PlanCredentialStore};
use sync_cli::fixtures::FixtureResponseMap;
use sync_cli::import_reports::{
    auto_match_decision_name, import_dataset_output, import_fixtures_output,
    import_legacy_config_output, inspect_match_notice, AutoMatchDecisionKind,
};
use sync_cli::model::{DatasetKind, MediaKind, PlanMediaScope, Provider};
use sync_cli::plan_report::SyncPlan;
use sync_cli::session::{AuthBootstrapMode, AuthSessionDocument, JsonField, OAuthEndpointSource};
use sync_cli::sync_commands::{
    apply_output, check_fixture_responses, cycle_run, plan_output, plan_start, run_labels,
    sync_after_plan, ApplyResult, PlanEvent, PlanStart,
};
use sync_cli::sync_options::{parse_apply_options, parse_sync_options};
use sync_cli::sync_reports::{ApplySummary, SyncCycleOutcome};

fn args(v: &[&str]) -> Vec<String> {
    v.iter().map(|a| a.to_string()).collect()
}

fn s(v: &str) -> String {
    v.to_owned()
}

fn document(expires: i64) -> AuthSessionDocument {
    AuthSessionDocument {
        format_version: JsonField::Int(1),
        provider: JsonField::Str(s("anilist")),
        client_id: JsonField::Str(s("client")),
        redirect_uri: JsonField::Str(s("http://localhost/cb")),
        state: JsonField::Str(s("st4te")),
        pkce_code_verifier: JsonField::Absent,
        endpoint_source: JsonField::Str(s("official_docs")),
        bootstrap_mode: JsonField::Str(s("auth_broker")),
        created_at_epoch_secs: JsonField::Int(100),
        expires_at_epoch_secs: JsonField::Int(expires),
    }
}

fn exchange() -> CredentialExchange {
    CredentialExchange {
        auth_flow: AuthFlow::AuthorizationCode,
        bootstrap_mode: AuthBootstrapMode::AuthBroker,
        access_token_expires_at_epoch_secs: 3600,
        refresh_token: RefreshTokenState::Absent,
    }
}

#[test]
fn top_level_dispatch() {
    match run(&args(&["sync-v2"])) {
        RunStep::Output(o) => {
            assert_eq!(o.exit_code, 0);
            assert_eq!(o.stdout, USAGE);
            assert_eq!(o.stderr, "");
        }
        _ => panic!("help expected"),
    }
    match run(&args(&["sync-v2", "-h"])) {
        RunStep::Output(o) => assert_eq!(o.stdout, USAGE),
        _ => panic!("help expected"),
    }
    match run(&args(&["sync-v2", "plan", "--dry-run"])) {
        RunStep::Command { command, args_from } => {
            assert_eq!(command, CliCommand::Plan);
            assert_eq!(args_from, 2);
        }
        _ => panic!("plan expected"),
    }
    match run(&args(&["sync-v2", "auth", "refresh", "--db", "x"])) {
        RunStep::Command { command, args_from } => {
            assert_eq!(command, CliCommand::AuthRefresh);
            assert_eq!(args_from, 3);
        }
        _ => panic!("auth refresh expected"),
    }
    match run(&args(&["sync-v2", "frobnicate"])) {
        RunStep::Output(o) => {
            assert_eq!(o.exit_code, 2);
            assert_eq!(o.stderr, format!("unknown command: frobnicate\n{USAGE}"));
        }
        _ => panic!("refusal expected"),
    }
    match run_auth(&args(&[])) {
        RunStep::Output(o) => {
            assert_eq!(o.exit_code, 2);
            assert_eq!(o.stderr, format!("missing auth subcommand\n{USAGE}"));
        }
        _ => panic!("refusal expected"),
    }
    match run_auth(&args(&["login"])) {
        RunStep::Output(o) => assert_eq!(o.stderr, format!("unknown auth subcommand: login\n{USAGE}")),
        _ => panic!("refusal expected"),
    }
}

#[test]
fn auth_status_flow() {
    let options = parse_auth_status_options(&args(&[
        "--db", "/tmp/db.sqlite", "--provider", "anilist", "--account", "acc", "--now", "50",
    ]))
    .unwrap();
    let run = auth_status_run(options, None, 999).ok().unwrap();
    assert_eq!(run.now_unix_seconds, 50);
    let open_failed = auth_status_output(&run, AuthStatusEvent::OpenFailed(s("Busy")), "pp");
    assert_eq!(open_failed.exit_code, 1);
    assert_eq!(open_failed.stderr, "failed to open db /tmp/db.sqlite: Busy\n");
    let preflight = auth_status_output(&run, AuthStatusEvent::PreflightFailed(CredentialRefreshError::Store), "pp");
    assert_eq!(preflight.stderr, "failed to preflight credential secret: store_error\n");
    let done = auth_status_output(
        &run,
        AuthStatusEvent::Inspected {
            credential_present: false,
            action: CredentialAction::UseStoredAccessToken,
            secret_preflight: None,
        },
        "pp",
    );
    assert_eq!(done.exit_code, 0);
    assert_eq!(
        done.stdout,
        "sync-v2 auth status: provider=anilist account=acc action=use credential=missing read-only local-only opens_browser=false network=false metadata_updated=false token_request_count=0\n"
    );

    let with_env = parse_auth_status_options(&args(&[
        "--db", "d", "--provider", "mal", "--account", "a", "--credential-bundle", "/b",
        "--credential-bundle-passphrase-env", "PASS",
    ]))
    .unwrap();
    let refused = auth_status_run(with_env, None, 1).err().unwrap();
    assert_eq!(refused.exit_code, 2);
    assert_eq!(refused.stderr, format!("missing credential bundle passphrase\n{USAGE}"));
}

#[test]
fn auth_begin_flow() {
    let options = parse_auth_begin_options(&args(&[
        "--provider", "mal", "--client-id", "cid", "--redirect-uri", "http://l/cb",
        "--session-file", "/tmp/s.json", "--now", "1000",
    ]))
    .unwrap();
    let run = auth_begin_run(options, 5);
    assert_eq!(run.created_at_epoch_secs, 1000);
    assert_eq!(run.expires_at_epoch_secs, 1600);
    assert!(auth_begin_needs_pkce(run.provider));
    assert!(!auth_begin_needs_pkce(Provider::AniList));
    let failed = auth_begin_output(&run, AuthBeginEvent::RequestFailed(s("InvalidOAuthParameter")));
    assert_eq!(failed.exit_code, 2);
    assert_eq!(failed.stderr, "failed to build auth session: InvalidOAuthParameter\n");
    assert_eq!(auth_begin_output(&run, AuthBeginEvent::SessionWriteFailed).stderr, "failed to write auth session\n");
    assert_eq!(auth_begin_output(&run, AuthBeginEvent::RandomSourceFailed).exit_code, 1);
    let written = auth_begin_output(
        &run,
        AuthBeginEvent::Written { endpoint_source: OAuthEndpointSource::OfficialDocs, authorization_url: s("https://secret") },
    );
    assert_eq!(written.exit_code, 0);
    assert!(written.stdout.contains("authorization_url_suppressed=true created_at=1000 expires_at=1600\n"));
    assert!(!written.stdout.contains("https://secret"));
}

#[test]
fn auth_callback_plan_flow() {
    let options = parse_auth_callback_plan_options(&args(&[
        "--session-file", "/tmp/s.json", "--callback-url", "http://localhost/cb?code=abc&state=st4te", "--now", "10",
    ]))
    .unwrap();
    let ok = run_auth_callback_plan(&options, Ok(document(700)), 0);
    assert_eq!(ok.exit_code, 0);
    assert_eq!(
        ok.stdout,
        "sync-v2 auth callback-plan: provider=anilist local-only opens_browser=false network=false exchanges_token=false writes_database=false state_valid=true authorization_code_present=true pkce_required=false pkce_available=false ready_for_exchange=true endpoint_source=official_docs bootstrap_mode=auth_broker\n"
    );
    let unreadable = run_auth_callback_plan(&options, Err("session_unreadable"), 0);
    assert_eq!(unreadable.exit_code, 1);
    assert_eq!(unreadable.stderr, "failed to validate auth callback: session_unreadable\n");
    let expired = run_auth_callback_plan(&options, Ok(document(10)), 0);
    assert_eq!(expired.stderr, "failed to validate auth callback: session_expired\n");
}

#[test]
fn auth_complete_flow() {
    let options = parse_auth_complete_options(&args(&[
        "--test-token-transport", "--session-file", "/tmp/s.json",
        "--callback-url", "?state=st4te&code=the%20code", "--db", "/tmp/db", "--account", "acc",
        "--test-credential-bundle", "/tmp/b", "--token-response", "/tmp/t.json", "--now", "10",
    ]))
    .unwrap();
    let run = auth_complete_run(options, None, 0).ok().unwrap();
    let request = auth_complete_exchange_request(&run, Ok(document(700))).ok().unwrap();
    assert_eq!(request.provider, Provider::AniList);
    assert_eq!(request.client_id, "client");
    assert_eq!(request.redirect_uri, "http://localhost/cb");
    assert_eq!(request.authorization_code, "the code");
    assert_eq!(request.pkce_code_verifier, None);
    let mismatch = auth_complete_exchange_request(&run, Ok(AuthSessionDocument { state: JsonField::Str(s("x")), ..document(700) }));
    assert_eq!(mismatch.err().unwrap().stderr, "failed to validate auth callback: state_mismatch\n");
    let failed = auth_complete_output(&run, Provider::AniList, Err(AuthCredentialInstallError::BuildRequest), "pp");
    assert_eq!(failed.exit_code, 2);
    assert_eq!(failed.stderr, "failed to build token exchange request: auth_error\n");
    let persisted = auth_complete_output(&run, Provider::AniList, Err(AuthCredentialInstallError::PersistMetadata), "pp");
    assert_eq!(persisted.exit_code, 1);
    assert_eq!(persisted.stderr, "failed to persist credential metadata: store_error\n");
    let done = auth_complete_output(
        &run,
        Provider::AniList,
        Ok(CredentialInstall { exchange: exchange(), requests: vec![OAuthEndpointSource::OfficialDocs] }),
        "pp",
    );
    assert_eq!(done.exit_code, 0);
    assert!(done.stdout.contains(" credential_source=test_credential_bundle credential_bundle_codec=test-reversing metadata_updated=true token_request_count=1 endpoint_source=official_docs auth_flow=authorization_code "));
}

#[test]
fn auth_refresh_flow() {
    let options = parse_auth_refresh_options(&args(&[
        "--test-token-transport", "--db", "/tmp/db", "--provider", "anilist", "--account", "acc",
        "--client-id", "cid", "--test-credential-bundle", "/tmp/b",
    ]))
    .unwrap();
    let run = auth_refresh_run(options, None, 77).ok().unwrap();
    assert_eq!(run.now_unix_seconds, 77);
    assert_eq!(
        auth_refresh_output(&run, AuthRefreshEvent::DatabaseMissing, "pp").stderr,
        "failed to open db /tmp/db: missing database\n"
    );
    assert_eq!(
        auth_refresh_output(&run, AuthRefreshEvent::RefreshFailed(CredentialRefreshError::RefreshCommitConflict), "pp").stderr,
        "failed to refresh credential: metadata_commit_conflict\n"
    );
    let reauth = auth_refresh_output(
        &run,
        AuthRefreshEvent::Done { outcome: RefreshOutcome::Reauthorize { preferred_mode: AuthBootstrapMode::LocalCallback }, requests: vec![] },
        "pp",
    );
    assert_eq!(reauth.exit_code, 1);
    assert!(reauth.stdout.starts_with("sync-v2 auth refresh: provider=anilist account=acc outcome=reauthorize mode=local_callback "));
    let used = auth_refresh_output(&run, AuthRefreshEvent::Done { outcome: RefreshOutcome::UseStoredAccessToken, requests: vec![] }, "pp");
    assert_eq!(used.exit_code, 0);

    let no_bundle = parse_auth_refresh_options(&args(&[
        "--test-token-transport", "--db", "/tmp/db", "--provider", "anilist", "--account", "acc", "--client-id", "cid",
    ]));
    assert_eq!(no_bundle.err(), Some(s("missing --test-credential-bundle or --credential-bundle")));
    let no_passphrase = parse_auth_refresh_options(&args(&[
        "--test-token-transport", "--db", "/tmp/db", "--provider", "anilist", "--account", "acc", "--client-id", "cid",
        "--credential-bundle", "/tmp/e", "--credential-bundle-passphrase-env", "SYNC_PASS",
    ]))
    .unwrap();
    let refused = auth_refresh_run(no_passphrase, None, 0).err().unwrap();
    assert_eq!(refused.exit_code, 2);
    assert_eq!(refused.stderr, "missing credential bundle passphrase\n");
}

#[test]
fn plan_flow() {
    match plan_start(&args(&[])) {
        PlanStart::Output(o) => {
            assert_eq!(o.exit_code, 0);
            assert_eq!(o.stdout, "sync-v2 plan: read-only skeleton command; dry-run behavior only\n");
        }
        _ => panic!("notice expected"),
    }
    match plan_start(&args(&["--dry-run", "--db"])) {
        PlanStart::Output(o) => {
            assert_eq!(o.exit_code, 2);
            assert!(o.stderr.ends_with(USAGE));
        }
        _ => panic!("refusal expected"),
    }
    let options = match plan_start(&args(&[
        "--dry-run", "--db", "/tmp/db", "--account", "acc", "--kind", "anime", "--providers", "anilist,mal",
    ])) {
        PlanStart::DryRun(o) => o,
        _ => panic!("dry run expected"),
    };
    let failed = plan_output(&options, PlanEvent::PlanFailed(s("Store(Locked)")));
    assert_eq!(failed.stderr, "failed to build dry-run plan: Store(Locked)\n");
    let empty = SyncPlan { dry_run: true, actions: vec![], conflicts: vec![], diagnostics: vec![], skipped_unmatched: 4 };
    let planned = plan_output(&options, PlanEvent::Planned(empty));
    assert_eq!(
        planned.stdout,
        "sync-v2 plan: dry-run plan actions=0 conflicts=0 unmatched=4 apply_blocked=false apply_blocked_reason=none\n"
    );
}

#[test]
fn cycle_runs_and_fixture_checks() {
    let run = cycle_run(None, None, None, None, PlanMediaScope::All, None, 123).ok().unwrap();
    assert_eq!(run.media_kinds, vec![MediaKind::Anime, MediaKind::Manga]);
    assert_eq!(run.now_unix_seconds, 123);
    let labels = run_labels(&run, "pp", false, false, 9);
    assert_eq!(labels.credential_source, "fixture_token_store");
    assert_eq!(labels.credential_bundle_codec, None);
    assert_eq!(labels.token_request_count, 0);
    let refused = cycle_run(Some(s("/a")), Some(s("/b")), None, None, PlanMediaScope::All, None, 0).err().unwrap();
    assert_eq!(refused.exit_code, 2);
    assert_eq!(refused.stderr, "choose only one credential bundle source for auth command\n");

    let mut map = FixtureResponseMap::new();
    map.add_collection(Provider::AniList, MediaKind::Anime, s("{}"));
    let missing = check_fixture_responses(&map, &run.media_kinds, &vec![Provider::AniList]).unwrap();
    assert_eq!(missing.exit_code, 2);
    assert_eq!(missing.stderr, "missing --fixture-response for provider=anilist kind=manga\n");
    assert!(check_fixture_responses(&map, &vec![MediaKind::Anime], &vec![Provider::AniList]).is_none());
}

#[test]
fn apply_and_sync_flows() {
    let apply = parse_apply_options(&args(&[
        "--test-write-transport", "--db", "/tmp/db", "--account", "acc", "--kind", "anime", "--providers", "anilist",
    ]))
    .unwrap();
    let run = cycle_run(None, None, None, None, PlanMediaScope::One(MediaKind::Anime), None, 0).ok().unwrap();
    let labels = run_labels(&run, "pp", false, false, 0);
    let plan = SyncPlan { dry_run: false, actions: vec![], conflicts: vec![], diagnostics: vec![], skipped_unmatched: 0 };
    let blocked = apply_output(&apply, &labels, &plan, ApplyResult::ConflictsPresent(3), &vec![]);
    assert_eq!(blocked.exit_code, 1);
    assert!(blocked.stdout.contains(" conflicts=3 apply_blocked=true apply_blocked_reason=conflicts_present\n"));
    let failed = apply_output(&apply, &labels, &plan, ApplyResult::Failed(s("Journal")), &vec![]);
    assert_eq!(failed.stderr, "failed to apply test provider writes: Journal\n");
    let applied = apply_output(
        &apply,
        &labels,
        &plan,
        ApplyResult::Applied(ApplySummary { attempted: 0, succeeded: 0, failed: 0, post_write_verified: 0, post_write_skipped: 0 }),
        &vec![],
    );
    assert_eq!(applied.exit_code, 0);
    assert_eq!(
        applied.stdout,
        "sync-v2 apply: test-write-transport local-only live_provider_writes=false credential_source=fixture_token_store attempted=0 succeeded=0 failed=0 post_write_verified=0 post_write_skipped=0 write_requests=0\n"
    );

    let sync = parse_sync_options(&args(&[
        "--test-write-transport", "--db", "/tmp/db", "--account", "acc", "--kind", "anime", "--providers", "anilist",
        "--fixture-response", "anilist:anime:/tmp/a.json",
    ]))
    .unwrap();
    let stopped = sync_after_plan(&sync, &labels, Ok(SyncCycleOutcome::CredentialsRequired { imports: vec![] })).err().unwrap();
    assert_eq!(stopped.exit_code, 1);
    assert!(stopped.stdout.starts_with("sync-v2 sync: credentials_required "));
    let error = sync_after_plan(&sync, &labels, Err(s("Read"))).err().unwrap();
    assert_eq!(error.stderr, "failed to refresh snapshots and build sync plan: Read\n");
    let planned = SyncPlan { dry_run: true, actions: vec![], conflicts: vec![], diagnostics: vec![], skipped_unmatched: 1 };
    let (imports, plan) = sync_after_plan(&sync, &labels, Ok(SyncCycleOutcome::Planned { imports: vec![], plan: planned })).ok().unwrap();
    assert!(imports.is_empty());
    assert_eq!(plan.skipped_unmatched, 1);
}

#[test]
fn import_reports() {
    assert_eq!(
        import_fixtures_output(4, "/tmp/db").stdout,
        "sync-v2 import-fixtures: imported 4 collection entries into /tmp/db (read-only provider fixture import)\n"
    );
    assert_eq!(
        import_legacy_config_output(2, 0, "db").stdout,
        "sync-v2 import-legacy-config: manual_relations=2 ignore_entries=0 into db (local-only identity import)\n"
    );
    assert_eq!(
        import_dataset_output(DatasetKind::BangumiData, Some(MediaKind::Manga), 7, "db").stdout,
        "sync-v2 import-dataset: dataset=bangumi-data media_kind=manga imported=7 into db (local-only match cache import)\n"
    );
    assert_eq!(
        import_dataset_output(DatasetKind::AnimeOffline, Some(MediaKind::Manga), 7, "db").stdout,
        "sync-v2 import-dataset: dataset=anime-offline imported=7 into db (local-only match cache import)\n"
    );
    assert_eq!(
        inspect_match_notice().stdout,
        "sync-v2 inspect-match: read-only skeleton command; dry-run behavior only\n"
    );
    assert_eq!(auto_match_decision_name(AutoMatchDecisionKind::NeedsReview), "needs_review");
}

#[test]
fn authorize_url_is_shown_only_when_asked() {
    let hidden = parse_auth_authorize_url_options(&args(&[
        "--provider", "anilist", "--client-id", "c", "--redirect-uri", "http://l", "--state", "s",
    ]))
    .unwrap();
    let request = |url: &str| {
        Ok(AuthorizationRequest { url: url.to_owned(), endpoint_source: OAuthEndpointSource::OfficialDocs, sensitive_url: true })
    };
    let a = auth_authorize_url_output(&hidden, request("https://one"));
    let b = auth_authorize_url_output(&hidden, request("https://two"));
    assert_eq!(a.stdout, b.stdout);
    assert!(!a.stdout.contains("https://one"));
    let shown = parse_auth_authorize_url_options(&args(&[
        "--provider", "anilist", "--client-id", "c", "--redirect-uri", "http://l", "--state", "s",
        "--show-sensitive-authorization-url",
    ]))
    .unwrap();
    assert!(auth_authorize_url_output(&shown, request("https://one")).stdout.ends_with(" authorization_url=https://one\n"));
    let failed = auth_authorize_url_output(&hidden, Err(s("MissingClientId")));
    assert_eq!(failed.exit_code, 2);
    assert_eq!(failed.stderr, "failed to build authorization url: MissingClientId\n");
}

#[test]
fn labels_follow_the_bundle_and_token_transport() {
    let run = cycle_run(Some(s("/b")), None, None, None, PlanMediaScope::One(MediaKind::Manga), Some(5), 0)
        .ok()
        .unwrap();
    assert_eq!(run.now_unix_seconds, 5);
    match &run.credential_store {
        PlanCredentialStore::Bundle(AuthCredentialStoreConfig::TestCredentialBundle(p)) => {
            assert_eq!(p, "/b")
        }
        _ => panic!("a test bundle was given"),
    }
    let labels = run_labels(&run, "pp", true, true, 3);
    assert_eq!(labels.credential_source, "test_credential_bundle");
    assert_eq!(labels.credential_bundle_codec, Some("test-reversing"));
    assert!(labels.auto_link_local);
    assert_eq!(labels.token_request_count, 3);
}
