use sync_cli::auth_options::{parse_auth_begin_options, parse_auth_status_options};
use sync_cli::import_options::parse_import_fixture_options;
use sync_cli::model::{MediaKind, PlanMediaScope, PlanOutputFormat, Provider};
use sync_cli::sync_options::{parse_apply_options, parse_plan_options, parse_sync_options};

fn args(v: &[&str]) -> Vec<String> {
    v.iter().map(|a| a.to_string()).collect()
}

fn s(v: &str) -> String {
    v.to_owned()
}

#[test]
fn auth_status_options() {
    let o = parse_auth_status_options(&args(&[
        "--db", "/d", "--provider", "mal", "--account-id", "acc", "--now", "-3", "--format", "json",
    ]))
    .unwrap();
    assert_eq!(o.db_path.as_deref(), Some("/d"));
    assert_eq!(o.provider, Some(Provider::MyAnimeList));
    assert_eq!(o.account_id.as_deref(), Some("acc"));
    assert_eq!(o.now_unix_seconds, Some(-3));
    assert_eq!(o.output_format, PlanOutputFormat::Json);
    let err = |a: &[&str]| parse_auth_status_options(&args(a)).err().unwrap();
    assert_eq!(err(&["--refresh-token", "x"]), "writes and network auth are disabled for auth status: --refresh-token");
    assert_eq!(err(&["--db"]), "missing value for --db");
    assert_eq!(err(&["--bogus", "1"]), "unexpected argument for auth status: --bogus");
    assert_eq!(err(&["--now", "soon"]), "invalid --now unix seconds: soon");
    assert_eq!(err(&["--provider", "x"]), "unsupported provider: x");
    assert_eq!(err(&[]), "missing --db");
    assert_eq!(err(&["--db", "d"]), "missing --provider");
    assert_eq!(err(&["--db", "d", "--provider", "anilist", "--account", "  "]), "missing --account");
}

#[test]
fn auth_begin_options() {
    let o = parse_auth_begin_options(&args(&[
        "--show-sensitive-authorization-url", "--provider", "anilist", "--client-id", "c",
        "--redirect-uri", "http://l", "--session-file", "/s",
    ]))
    .unwrap();
    assert!(o.show_sensitive_authorization_url);
    assert_eq!(o.session_file_path.as_deref(), Some("/s"));
    let err = |a: &[&str]| parse_auth_begin_options(&args(a)).err().unwrap();
    assert_eq!(
        err(&["--db", "x"]),
        "browser, network auth, database, provider writes, and credential bundles are disabled for auth begin: --db"
    );
    assert_eq!(err(&["--provider", "anilist"]), "missing --client-id");
    assert_eq!(err(&["--provider", "anilist", "--client-id", "c", "--redirect-uri", " "]), "missing --redirect-uri");
}

#[test]
fn plan_options() {
    let o = parse_plan_options(&args(&[
        "--dry-run", "--db", "/d", "--account", "a", "--kind", "all", "--providers", "anilist,bangumi",
    ]))
    .unwrap();
    assert!(o.dry_run);
    assert!(!o.refresh_snapshots);
    assert_eq!(o.media_scope, Some(PlanMediaScope::All));
    assert_eq!(o.providers, Some(vec![Provider::AniList, Provider::Bangumi]));
    let refresh = parse_plan_options(&args(&[
        "--dry-run", "--refresh-snapshots", "--db", "/d", "--account", "a", "--kind", "manga",
        "--providers", "anilist", "--fixture-response", "anilist:manga:/f", "--limit", "5",
    ]))
    .unwrap();
    assert!(refresh.refresh_snapshots);
    assert_eq!(refresh.limit, 5);
    assert_eq!(refresh.fixture_responses.len(), 1);
    assert_eq!(refresh.media_scope, Some(PlanMediaScope::One(MediaKind::Manga)));
    let err = |a: &[&str]| parse_plan_options(&args(a)).err().unwrap();
    assert_eq!(err(&["--apply"]), "writes are disabled for plan: --apply");
    assert_eq!(err(&["--cookie"]), "provider writes and network auth are disabled for plan: --cookie");
    assert_eq!(
        err(&["--refresh-snapshots", "--cookie"]),
        "provider writes are disabled for plan refresh-snapshots: --cookie"
    );
    assert_eq!(err(&["--db", "/d"]), "missing --dry-run");
    assert_eq!(err(&["--dry-run", "--db", "/d", "--account", "a", "--kind", "anime"]), "missing --providers");
    assert_eq!(
        err(&["--dry-run", "--db", "/d", "--account", "a", "--kind", "anime", "--providers", "anilist", "--limit", "0"]),
        "invalid --limit: must be greater than 0"
    );
    assert_eq!(
        err(&["--dry-run", "--db", "/d", "--account", "a", "--kind", "anime", "--providers", "anilist", "--now", "5"]),
        "--now requires --refresh-snapshots"
    );
    assert_eq!(
        err(&["--dry-run", "--refresh-snapshots", "--db", "/d", "--account", "a", "--kind", "anime", "--providers", "anilist"]),
        "missing --fixture-response"
    );
}

#[test]
fn import_fixture_options() {
    let o = parse_import_fixture_options(&args(&[
        "--provider", "bangumi", "--kind", "anime", "--file", "/f", "--db", "/d", "--account", "a",
    ]))
    .unwrap();
    assert_eq!(o.fixture_path.as_deref(), Some("/f"));
    let err = |a: &[&str]| parse_import_fixture_options(&args(a)).err().unwrap();
    assert_eq!(err(&["--apply"]), "missing value for --apply");
    assert_eq!(err(&["--apply", "x"]), "writes are disabled for import-fixtures: --apply");
    assert_eq!(err(&["--provider", "bangumi"]), "missing --kind");
    assert_eq!(
        err(&["--provider", "bangumi", "--kind", "anime", "--fixture", "/f", "--db", "/d"]),
        s("missing --account")
    );
}

#[test]
fn write_and_network_flags_are_refused() {
    assert_eq!(
        parse_plan_options(&args(&["--write", "--dry-run"])).err(),
        Some(s("writes are disabled for plan: --write"))
    );
    assert_eq!(
        parse_apply_options(&args(&["--test-write-transport", "--cookie", "c"])).err(),
        Some(s("live provider writes and network auth are disabled for apply: --cookie"))
    );
    assert_eq!(
        parse_sync_options(&args(&["--delete"])).err(),
        Some(s("live provider writes and network auth are disabled for sync: --delete"))
    );
    // As the value of another flag it is only a value.
    assert!(parse_plan_options(&args(&[
        "--dry-run", "--db", "/d", "--account", "--write", "--kind", "anime", "--providers", "anilist",
    ]))
    .is_ok());
}
