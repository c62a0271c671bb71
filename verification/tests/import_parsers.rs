use sync_cli::import_options::{
    parse_auto_link_options, parse_import_dataset_options, parse_import_legacy_config_options,
    parse_inspect_match_options,
};
use sync_cli::model::{DatasetKind, MediaKind, PlanOutputFormat, Provider};

fn argv(v: &[&str]) -> Vec<String> {
    v.iter().map(|a| a.to_string()).collect()
}

#[test]
fn import_dataset_options_accept_both_datasets() {
    let o = parse_import_dataset_options(&argv(&[
        "--db", "/d", "--dataset", "anime-offline-database", "--dataset-file", "/f.json",
    ]))
    .unwrap();
    assert_eq!(o.db_path.as_deref(), Some("/d"));
    assert_eq!(o.dataset, Some(DatasetKind::AnimeOffline));
    assert_eq!(o.file_path.as_deref(), Some("/f.json"));
    assert_eq!(o.media_kind, None);
    let b = parse_import_dataset_options(&argv(&[
        "--db", "/d", "--dataset", "bangumi-data", "--file", "/b", "--kind", "manga",
    ]))
    .unwrap();
    assert_eq!(b.dataset, Some(DatasetKind::BangumiData));
    assert_eq!(b.media_kind, Some(MediaKind::Manga));
}

#[test]
fn import_dataset_options_errors() {
    let err = |a: &[&str]| parse_import_dataset_options(&argv(a)).err().unwrap();
    assert_eq!(err(&["--apply"]), "provider writes and network auth are disabled for import-dataset: --apply");
    assert_eq!(err(&["--db"]), "missing value for --db");
    assert_eq!(err(&["--kinds", "anime"]), "unexpected argument for import-dataset: --kinds");
    assert_eq!(err(&["--dataset", "imdb"]), "unsupported dataset: imdb");
    assert_eq!(err(&[]), "missing --db");
    assert_eq!(err(&["--db", "/d"]), "missing --dataset");
    assert_eq!(err(&["--db", "/d", "--dataset", "bangumi-data"]), "missing --file");
    assert_eq!(
        err(&["--db", "/d", "--dataset", "anime-offline", "--file", "/f", "--kind", "anime"]),
        "anime-offline does not accept --kind"
    );
    assert_eq!(
        err(&["--db", "/d", "--dataset", "bangumi-data", "--file", "/f"]),
        "missing --kind for bangumi-data"
    );
}

#[test]
fn import_legacy_config_options() {
    let o = parse_import_legacy_config_options(&argv(&[
        "--db", "/d", "--kind", "anime", "--ignore-entries-file", "/i",
    ]))
    .unwrap();
    assert_eq!(o.media_kind, Some(MediaKind::Anime));
    assert_eq!(o.ignore_entries_path.as_deref(), Some("/i"));
    assert_eq!(o.manual_relations_path, None);
    let err = |a: &[&str]| parse_import_legacy_config_options(&argv(a)).err().unwrap();
    assert_eq!(
        err(&["--refresh"]),
        "provider writes and network auth are disabled for import-legacy-config: --refresh"
    );
    assert_eq!(err(&["--x", "1"]), "unexpected argument for import-legacy-config: --x");
    assert_eq!(err(&["--db", "/d"]), "missing --kind");
    assert_eq!(
        err(&["--db", "/d", "--kind", "manga"]),
        "missing --manual-relations or --ignore-entries"
    );
}

#[test]
fn inspect_match_options() {
    let o = parse_inspect_match_options(&argv(&[
        "--dry-run", "--db", "/d", "--kind", "anime", "--title", "Mushishi", "--year", "2005",
        "--format", "json",
    ]))
    .unwrap();
    assert!(o.dry_run);
    assert_eq!(o.query.as_deref(), Some("Mushishi"));
    assert_eq!(o.release_year, Some(2005));
    assert_eq!(o.limit, 10);
    assert_eq!(o.output_format, PlanOutputFormat::Json);
    let err = |a: &[&str]| parse_inspect_match_options(&argv(a)).err().unwrap();
    assert_eq!(err(&["--write"]), "writes and network calls are disabled for inspect-match: --write");
    assert_eq!(err(&["--limit", "0"]), "invalid --limit: must be greater than 0");
    assert_eq!(err(&["--limit", "many"]), "invalid --limit: many");
    assert_eq!(err(&["--year", "05"]), "invalid --release-year: 05");
    assert_eq!(err(&["--db", "/d"]), "missing --dry-run");
    assert_eq!(err(&["--dry-run", "--db", "/d", "--kind", "anime"]), "missing --query");
    assert_eq!(
        err(&["--dry-run", "--db", "/d", "--kind", "anime", "--query", "  "]),
        "missing --query"
    );
}

#[test]
fn auto_link_options() {
    let o = parse_auto_link_options(&argv(&[
        "--apply-local", "--db", "/d", "--provider", "bangumi", "--kind", "anime", "--provider-id",
        "42",
    ]))
    .unwrap();
    assert!(o.apply_local);
    assert!(!o.dry_run);
    assert_eq!(o.provider, Some(Provider::Bangumi));
    assert_eq!(o.external_id.as_deref(), Some("42"));
    let err = |a: &[&str]| parse_auto_link_options(&argv(a)).err().unwrap();
    assert_eq!(err(&["--delete"]), "provider writes and network calls are disabled for auto-link: --delete");
    assert_eq!(err(&["--dry-run", "--apply-local"]), "choose only one of --dry-run or --apply-local");
    assert_eq!(err(&["--db", "/d"]), "missing --dry-run or --apply-local");
    assert_eq!(err(&["--dry-run", "--db", "/d"]), "missing --provider");
    assert_eq!(
        err(&["--dry-run", "--db", "/d", "--provider", "anilist", "--kind", "anime"]),
        "missing --id"
    );
}
