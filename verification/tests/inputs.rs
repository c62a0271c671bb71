use sync_cli::model::{
    parse_dataset_kind, parse_media_kind, parse_plan_media_scope, parse_plan_output_format,
    parse_provider, parse_provider_list, parse_release_year, plan_media_kinds, DatasetKind,
    MediaKind, PlanMediaScope, PlanOutputFormat, Provider,
};
use sync_cli::sync_inputs::{
    build_refresh_configs, parse_fixture_response_input, parse_provider_scoped_value,
    parse_provider_token_response_input, provider_scoped_value, token_response_path_for,
    token_response_path_map, validate_test_token_transport_options, FixtureResponseEndpoint,
    ProviderScopedValue, ProviderTokenResponseInput,
};
use sync_cli::text::{parse_i64, parse_u16, parse_u32, str_contains};

fn s(v: &str) -> String {
    v.to_owned()
}

#[test]
fn providers_are_read_by_name_and_alias() {
    assert_eq!(parse_provider("bangumi"), Ok(Provider::Bangumi));
    assert_eq!(parse_provider("anilist"), Ok(Provider::AniList));
    assert_eq!(parse_provider("myanimelist"), Ok(Provider::MyAnimeList));
    assert_eq!(parse_provider("mal"), Ok(Provider::MyAnimeList));
    assert_eq!(parse_provider("kitsu"), Err(s("unsupported provider: kitsu")));
    assert_eq!(parse_provider("MAL"), Err(s("unsupported provider: MAL")));
}

#[test]
fn provider_names_read_back() {
    for p in [Provider::Bangumi, Provider::AniList, Provider::MyAnimeList] {
        assert_eq!(parse_provider(p.as_str()), Ok(p));
    }
    for k in [MediaKind::Anime, MediaKind::Manga] {
        assert_eq!(parse_media_kind(k.as_str()), Ok(k));
    }
}

#[test]
fn media_kinds_datasets_formats_and_scopes() {
    assert_eq!(parse_media_kind("manga"), Ok(MediaKind::Manga));
    assert_eq!(parse_media_kind("novel"), Err(s("unsupported media kind: novel")));
    assert_eq!(parse_dataset_kind("anime-offline"), Ok(DatasetKind::AnimeOffline));
    assert_eq!(parse_dataset_kind("anime-offline-database"), Ok(DatasetKind::AnimeOffline));
    assert_eq!(parse_dataset_kind("bangumi-data"), Ok(DatasetKind::BangumiData));
    assert_eq!(parse_dataset_kind("x"), Err(s("unsupported dataset: x")));
    assert_eq!(DatasetKind::AnimeOffline.as_str(), "anime-offline");
    assert_eq!(parse_plan_output_format("json"), Ok(PlanOutputFormat::Json));
    assert_eq!(parse_plan_output_format("yaml"), Err(s("unsupported output format: yaml")));
    assert_eq!(parse_plan_media_scope("all"), Ok(PlanMediaScope::All));
    assert_eq!(parse_plan_media_scope("anime"), Ok(PlanMediaScope::One(MediaKind::Anime)));
    assert_eq!(parse_plan_media_scope("both"), Err(s("unsupported media kind: both")));
    assert_eq!(plan_media_kinds(PlanMediaScope::All), vec![MediaKind::Anime, MediaKind::Manga]);
    assert_eq!(plan_media_kinds(PlanMediaScope::One(MediaKind::Manga)), vec![MediaKind::Manga]);
}

#[test]
fn release_years_are_four_ascii_digits() {
    assert_eq!(parse_release_year("1999"), Ok(1999));
    assert_eq!(parse_release_year("0042"), Ok(42));
    assert_eq!(parse_release_year("199"), Err(s("invalid --release-year: 199")));
    assert_eq!(parse_release_year("19999"), Err(s("invalid --release-year: 19999")));
    assert_eq!(parse_release_year("19a9"), Err(s("invalid --release-year: 19a9")));
    assert_eq!(parse_release_year("+999"), Err(s("invalid --release-year: +999")));
}

#[test]
fn provider_lists_skip_blank_parts() {
    assert_eq!(
        parse_provider_list("anilist, mal ,,bangumi"),
        Ok(vec![Provider::AniList, Provider::MyAnimeList, Provider::Bangumi])
    );
    assert_eq!(parse_provider_list(" , "), Ok(vec![]));
    assert_eq!(parse_provider_list("anilist,foo"), Err(s("unsupported provider: foo")));
}

#[test]
fn decimal_numbers() {
    assert_eq!(parse_u16("65535"), Some(65535));
    assert_eq!(parse_u16("65536"), None);
    assert_eq!(parse_u16("+7"), Some(7));
    assert_eq!(parse_u16(""), None);
    assert_eq!(parse_u32("4294967295"), Some(4294967295));
    assert_eq!(parse_i64("-9223372036854775808"), Some(i64::MIN));
    assert_eq!(parse_i64("9223372036854775808"), None);
    assert_eq!(parse_i64("-"), None);
    assert_eq!(parse_i64("12x"), None);
}

#[test]
fn substring_search() {
    assert!(str_contains("/v0/users/-/collections/12/episodes?x", "/episodes?"));
    assert!(!str_contains("abc", "abcd"));
    assert!(str_contains("abc", ""));
    assert!(str_contains("aab", "ab"));
}

#[test]
fn fixture_response_inputs() {
    let f = parse_fixture_response_input("anilist:manga:/tmp/a.json").unwrap();
    assert_eq!(f.provider, Provider::AniList);
    assert_eq!(f.media_kind, MediaKind::Manga);
    assert!(matches!(f.endpoint, FixtureResponseEndpoint::Collection));
    assert_eq!(f.path, "/tmp/a.json");

    let e = parse_fixture_response_input("bangumi:anime:episodes:42:/tmp/e.json").unwrap();
    match e.endpoint {
        FixtureResponseEndpoint::BangumiEpisodeCollection { subject_id } => {
            assert_eq!(subject_id, "42")
        }
        _ => panic!("expected an episode listing"),
    }
    assert_eq!(e.path, "/tmp/e.json");

    // Only Bangumi anime has episode listings; elsewhere the rest is a path.
    let m = parse_fixture_response_input("bangumi:manga:episodes:42:/tmp/e.json").unwrap();
    assert!(matches!(m.endpoint, FixtureResponseEndpoint::Collection));
    assert_eq!(m.path, "episodes:42:/tmp/e.json");

    let err = |v: &str| parse_fixture_response_input(v).err().unwrap();
    assert_eq!(err("anilist"), "invalid --fixture-response");
    assert_eq!(err("foo:anime:/x"), "unsupported provider: foo");
    assert_eq!(err("anilist:anime"), "invalid --fixture-response");
    assert_eq!(err("anilist:anime: "), "invalid --fixture-response: missing path");
    assert_eq!(err("bangumi:anime:episodes: :/x"), "invalid --fixture-response: missing subject id");
    assert_eq!(err("bangumi:anime:episodes:42"), "invalid --fixture-response: missing path");
}

#[test]
fn token_responses_and_scoped_values() {
    let t = parse_provider_token_response_input("mal:/tmp/t.json").unwrap();
    assert_eq!(t.provider, Provider::MyAnimeList);
    assert_eq!(t.path, "/tmp/t.json");
    assert_eq!(
        parse_provider_token_response_input("mal").err().unwrap(),
        "invalid --token-response; expected <provider>:<path>"
    );
    assert_eq!(
        parse_provider_token_response_input("mal: ").err().unwrap(),
        "invalid --token-response; path must not be empty"
    );
    let v = parse_provider_scoped_value("anilist:abc:def", "--refresh-client-id").unwrap();
    assert_eq!(v.provider, Provider::AniList);
    assert_eq!(v.value, "abc:def");
    assert_eq!(
        parse_provider_scoped_value("anilist", "--refresh-client-id").err().unwrap(),
        "invalid --refresh-client-id; expected <provider>:<value>"
    );
    assert_eq!(
        parse_provider_scoped_value("anilist:  ", "--refresh-client-secret").err().unwrap(),
        "invalid --refresh-client-secret; value must not be empty"
    );
}

#[test]
fn scoped_values_take_the_first_for_a_provider() {
    let values = vec![
        ProviderScopedValue { provider: Provider::AniList, value: s("one") },
        ProviderScopedValue { provider: Provider::AniList, value: s("two") },
        ProviderScopedValue { provider: Provider::Bangumi, value: s("three") },
    ];
    assert_eq!(provider_scoped_value(&values, Provider::AniList).map(|v| v.as_str()), Some("one"));
    assert_eq!(provider_scoped_value(&values, Provider::Bangumi).map(|v| v.as_str()), Some("three"));
    assert_eq!(provider_scoped_value(&values, Provider::MyAnimeList), None);
}

#[test]
fn refresh_configs_need_a_client_id() {
    let ids = vec![
        ProviderScopedValue { provider: Provider::AniList, value: s("id-a") },
        ProviderScopedValue { provider: Provider::Bangumi, value: s("id-b") },
    ];
    let secrets = vec![ProviderScopedValue { provider: Provider::Bangumi, value: s("sec-b") }];
    let configs = build_refresh_configs(
        &vec![Provider::Bangumi, Provider::MyAnimeList, Provider::AniList],
        &ids,
        &secrets,
    );
    assert_eq!(configs.len(), 2);
    assert_eq!(configs[0].provider, Provider::Bangumi);
    assert_eq!(configs[0].client_id, "id-b");
    assert_eq!(configs[0].client_secret.as_deref(), Some("sec-b"));
    assert_eq!(configs[1].provider, Provider::AniList);
    assert_eq!(configs[1].client_id, "id-a");
    assert_eq!(configs[1].client_secret, None);
}

#[test]
fn token_response_paths_prefer_the_last_for_a_provider() {
    let inputs = vec![
        ProviderTokenResponseInput { provider: Provider::AniList, path: s("a1") },
        ProviderTokenResponseInput { provider: Provider::AniList, path: s("a2") },
    ];
    let paths = token_response_path_map(&inputs);
    assert_eq!(paths.get(Provider::AniList).map(|p| p.as_str()), Some("a2"));
    assert_eq!(paths.get(Provider::Bangumi), None);
    assert_eq!(token_response_path_for(&paths, &Some(s("d")), Provider::AniList), Some(s("a2")));
    assert_eq!(token_response_path_for(&paths, &Some(s("d")), Provider::Bangumi), Some(s("d")));
    assert_eq!(token_response_path_for(&paths, &None, Provider::Bangumi), None);
}

#[test]
fn token_transport_flags_need_the_transport() {
    let with_token = vec![ProviderTokenResponseInput { provider: Provider::AniList, path: s("t") }];
    let ids = vec![ProviderScopedValue { provider: Provider::AniList, value: s("id") }];
    let secrets = vec![ProviderScopedValue { provider: Provider::Bangumi, value: s("x") }];
    let no_values: Vec<ProviderScopedValue> = vec![];
    assert_eq!(
        validate_test_token_transport_options(false, true, &with_token, &no_values, &no_values),
        Err(s("--token-response requires --test-token-transport"))
    );
    assert_eq!(
        validate_test_token_transport_options(true, false, &with_token, &ids, &no_values),
        Err(s("--test-token-transport requires a credential bundle source"))
    );
    assert_eq!(
        validate_test_token_transport_options(true, true, &with_token, &no_values, &no_values),
        Err(s("--token-response requires matching --refresh-client-id"))
    );
    assert_eq!(
        validate_test_token_transport_options(true, true, &with_token, &ids, &secrets),
        Err(s("--refresh-client-secret requires matching --refresh-client-id"))
    );
    assert_eq!(
        validate_test_token_transport_options(true, true, &with_token, &ids, &no_values),
        Ok(())
    );
}
