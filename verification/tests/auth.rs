use sync_cli::callback::{callback_query, hex_value, parse_callback_parameters, percent_decode_form_component};
use sync_cli::credentials::{
    auth_optional_credential_store_config, auth_required_credential_store_config,
    fixture_access_token, fixture_plan_credential_store, has_credential_bundle_source,
    open_plaintext_bundle, seal_plaintext_bundle, AuthCredentialStoreConfig, BundleEnvelope,
    BundleOpenError,
};
use sync_cli::model::Provider;
use sync_cli::session::{
    auth_begin_session_document, is_nonempty_without_control, is_valid_pkce_plain_value,
    validate_auth_callback, validate_auth_session_bootstrap_mode,
    validate_auth_session_document, validate_auth_session_endpoint_source, AuthSessionDocument,
    JsonField, OAuthEndpointSource,
};
use sync_cli::token::base64_url_no_pad;

fn s(v: &str) -> String {
    v.to_owned()
}

fn chars(v: &str) -> Vec<char> {
    v.chars().collect()
}

fn anilist_document(expires: i64) -> AuthSessionDocument {
    AuthSessionDocument {
        format_version: JsonField::Int(1),
        provider: JsonField::Str(s("anilist")),
        client_id: JsonField::Str(s("client")),
        redirect_uri: JsonField::Str(s("http://localhost/cb")),
        state: JsonField::Str(s("st4te")),
        pkce_code_verifier: JsonField::Absent,
        endpoint_source: JsonField::Str(s("official_docs")),
        bootstrap_mode: JsonField::Str(s("auth_broker")),
        created_at_epoch_secs: JsonField::Int(100),
        expires_at_epoch_secs: JsonField::Int(expires),
    }
}

#[test]
fn percent_decoding_of_form_components() {
    assert_eq!(percent_decode_form_component("a+b%20c"), Ok(s("a b c")));
    assert_eq!(percent_decode_form_component("%E2%9C%93"), Ok(s("\u{2713}")));
    assert_eq!(percent_decode_form_component("%41"), Ok(s("A")));
    assert_eq!(percent_decode_form_component("%4"), Err("callback_query_invalid"));
    assert_eq!(percent_decode_form_component("%zz"), Err("callback_query_invalid"));
    assert_eq!(percent_decode_form_component("%FF"), Err("callback_query_invalid"));
    assert_eq!(percent_decode_form_component("plain"), Ok(s("plain")));
    assert_eq!(hex_value(0x61), Some(10));
    assert_eq!(hex_value(0x46), Some(15));
    assert_eq!(hex_value(0x37), Some(7));
    assert_eq!(hex_value(0x67), None);
}

#[test]
fn callback_queries() {
    assert_eq!(callback_query("http://x/cb?code=1&state=2#frag"), chars("code=1&state=2"));
    assert_eq!(callback_query("??a=1"), chars("a=1"));
    assert_eq!(callback_query("code=abc&state=xyz"), chars("code=abc&state=xyz"));
    assert_eq!(callback_query("#only"), chars(""));
}

#[test]
fn callback_parameters() {
    let ps = parse_callback_parameters("http://x/cb?code=a%2Bb&state=s+t&&flag").unwrap();
    assert_eq!(ps.get("code").map(|v| v.as_str()), Some("a+b"));
    assert_eq!(ps.get("state").map(|v| v.as_str()), Some("s t"));
    assert_eq!(ps.get("flag").map(|v| v.as_str()), Some(""));
    assert!(!ps.contains_key("error"));
    assert!(parse_callback_parameters("?a=1&a=2").is_err());
    assert!(parse_callback_parameters("?a=%zz").is_err());
    assert_eq!(parse_callback_parameters("?a=1&a=2").err(), Some("callback_query_invalid"));
}

#[test]
fn session_values() {
    assert!(is_nonempty_without_control("x"));
    assert!(!is_nonempty_without_control("  "));
    assert!(!is_nonempty_without_control("a\u{7}b"));
    assert!(is_valid_pkce_plain_value(&"a".repeat(43)));
    assert!(is_valid_pkce_plain_value(&"-._~Z9".repeat(21)));
    assert!(!is_valid_pkce_plain_value(&"a".repeat(42)));
    assert!(!is_valid_pkce_plain_value(&"a".repeat(129)));
    assert!(!is_valid_pkce_plain_value(&format!("{}!", "a".repeat(43))));
    assert_eq!(validate_auth_session_endpoint_source("legacy_repo_code"), Ok(s("legacy_repo_code")));
    assert_eq!(validate_auth_session_endpoint_source("other"), Err("session_invalid"));
    assert_eq!(validate_auth_session_bootstrap_mode("local_callback"), Ok(s("local_callback")));
    assert_eq!(validate_auth_session_bootstrap_mode("manual_pin"), Err("session_invalid"));
}

#[test]
fn session_documents_are_checked() {
    let session = validate_auth_session_document(&anilist_document(700)).unwrap();
    assert_eq!(session.provider, Provider::AniList);
    assert_eq!(session.client_id, "client");
    assert_eq!(session.state, "st4te");
    assert_eq!(session.pkce_code_verifier, None);
    assert_eq!(session.expires_at_epoch_secs, 700);

    let mut wrong_version = anilist_document(700);
    wrong_version.format_version = JsonField::Int(2);
    assert_eq!(validate_auth_session_document(&wrong_version).err(), Some("session_invalid"));

    let mut verifier_for_anilist = anilist_document(700);
    verifier_for_anilist.pkce_code_verifier = JsonField::Str("a".repeat(43));
    assert_eq!(validate_auth_session_document(&verifier_for_anilist).err(), Some("session_invalid"));

    let mut mal_without_verifier = anilist_document(700);
    mal_without_verifier.provider = JsonField::Str(s("myanimelist"));
    assert_eq!(validate_auth_session_document(&mal_without_verifier).err(), Some("session_invalid"));

    let mut null_verifier = anilist_document(700);
    null_verifier.pkce_code_verifier = JsonField::Other;
    assert_eq!(validate_auth_session_document(&null_verifier).err(), Some("session_invalid"));

    let mut blank_client = anilist_document(700);
    blank_client.client_id = JsonField::Str(s(" "));
    assert_eq!(validate_auth_session_document(&blank_client).err(), Some("session_invalid"));
}

#[test]
fn begun_sessions_read_back() {
    let verifier = "v".repeat(64);
    let d = auth_begin_session_document(
        Provider::MyAnimeList,
        "cid",
        "http://127.0.0.1/cb",
        "state-token",
        Some(verifier.as_str()),
        OAuthEndpointSource::LegacyRepoCode,
        1000,
        1600,
    );
    let session = validate_auth_session_document(&d).unwrap();
    assert_eq!(session.provider, Provider::MyAnimeList);
    assert_eq!(session.client_id, "cid");
    assert_eq!(session.redirect_uri, "http://127.0.0.1/cb");
    assert_eq!(session.state, "state-token");
    assert_eq!(session.pkce_code_verifier.as_deref(), Some(verifier.as_str()));
    assert_eq!(session.endpoint_source, "legacy_repo_code");
    assert_eq!(session.bootstrap_mode, "auth_broker");
    assert_eq!(session.expires_at_epoch_secs, 1600);
}

#[test]
fn callbacks_are_checked_in_order() {
    let session = validate_auth_session_document(&anilist_document(700)).unwrap();
    let check = |url: &str, now: i64| {
        let ps = parse_callback_parameters(url).unwrap();
        validate_auth_callback(&session, &ps, now)
    };
    assert_eq!(check("?code=c&state=st4te", 700), Err("session_expired"));
    assert_eq!(check("?code=c", 10), Err("state_missing"));
    assert_eq!(check("?code=c&state=other", 10), Err("state_mismatch"));
    assert_eq!(check("?code=c&state=st4te&error=denied", 10), Err("provider_error"));
    assert_eq!(check("?state=st4te", 10), Err("authorization_code_missing"));
    assert_eq!(check("?state=st4te&code=+", 10), Err("authorization_code_invalid"));
    assert_eq!(check("?state=st4te&code=abc", 699), Ok(true));
}

#[test]
fn base64_url_without_padding() {
    assert_eq!(base64_url_no_pad(b""), "");
    assert_eq!(base64_url_no_pad(b"f"), "Zg");
    assert_eq!(base64_url_no_pad(b"fo"), "Zm8");
    assert_eq!(base64_url_no_pad(b"foo"), "Zm9v");
    assert_eq!(base64_url_no_pad(b"hello"), "aGVsbG8");
    assert_eq!(base64_url_no_pad(&[0xfb, 0xff]), "-_8");
    assert_eq!(base64_url_no_pad(&[0u8; 24]).len(), 32);
    assert_eq!(base64_url_no_pad(&[0xffu8; 48]).len(), 64);
    assert!(is_valid_pkce_plain_value(&base64_url_no_pad(&[0xabu8; 48])));
}

#[test]
fn credential_bundle_choices() {
    let none = auth_optional_credential_store_config(None, None, None, None).unwrap();
    assert!(none.is_none());
    let test_bundle =
        auth_optional_credential_store_config(Some(s("/b")), None, None, None).unwrap().unwrap();
    assert_eq!(test_bundle.source_label(), "test_credential_bundle");
    assert_eq!(test_bundle.codec_label("passphrase-v1"), "test-reversing");
    let encrypted = auth_optional_credential_store_config(
        None,
        Some(s("/e")),
        Some(s("PASS")),
        Some(s("secret")),
    )
    .unwrap()
    .unwrap();
    match &encrypted {
        AuthCredentialStoreConfig::EncryptedCredentialBundle { path, passphrase } => {
            assert_eq!(path, "/e");
            assert_eq!(passphrase, "secret");
        }
        _ => panic!("expected an encrypted bundle"),
    }
    assert_eq!(encrypted.source_label(), "file_credential_bundle");
    assert_eq!(encrypted.codec_label("passphrase-v1"), "passphrase-v1");
    assert_eq!(
        auth_optional_credential_store_config(Some(s("/b")), Some(s("/e")), None, None).err(),
        Some(s("choose only one credential bundle source for auth command"))
    );
    assert_eq!(
        auth_optional_credential_store_config(Some(s("/b")), None, Some(s("P")), None).err(),
        Some(s("--credential-bundle-passphrase-env requires --credential-bundle"))
    );
    assert_eq!(
        auth_optional_credential_store_config(None, Some(s("/e")), Some(s("P")), Some(s(" "))).err(),
        Some(s("missing credential bundle passphrase"))
    );
    assert_eq!(
        auth_optional_credential_store_config(None, Some(s("/e")), None, Some(s("x"))).err(),
        Some(s("missing credential bundle passphrase"))
    );
    assert_eq!(
        auth_required_credential_store_config(None, None, None, None).err(),
        Some(s("missing --test-credential-bundle or --credential-bundle"))
    );
    assert!(has_credential_bundle_source(&None, &Some(s("x"))));
    assert!(!has_credential_bundle_source(&None, &None));
}

#[test]
fn plan_credential_store_labels() {
    let fixture = fixture_plan_credential_store(None);
    assert_eq!(fixture.source_label(), "fixture_token_store");
    assert_eq!(fixture.codec_label("p"), None);
    let bundle = fixture_plan_credential_store(Some(AuthCredentialStoreConfig::TestCredentialBundle(s("/b"))));
    assert_eq!(bundle.source_label(), "test_credential_bundle");
    assert_eq!(bundle.codec_label("p"), Some("test-reversing"));
    assert_eq!(fixture_access_token(), "fixture-access-token");
}

#[test]
fn test_codec_seals_by_reversing_and_opens_what_it_sealed() {
    let sealed = seal_plaintext_bundle("{\"a\":1}");
    assert_eq!(sealed.format_version, 1);
    assert_eq!(sealed.codec, "cli-fixture-reversing-v1");
    assert_eq!(sealed.sealed_payload, "}1:\"a\"{");
    assert_eq!(open_plaintext_bundle(&sealed), Ok(s("{\"a\":1}")));
    let foreign = BundleEnvelope { format_version: 1, codec: s("other"), sealed_payload: s("x") };
    assert_eq!(open_plaintext_bundle(&foreign), Err(BundleOpenError::OpenFailed));
    let unicode = seal_plaintext_bundle("h\u{e9}llo\u{2713}");
    assert_eq!(open_plaintext_bundle(&unicode), Ok(s("h\u{e9}llo\u{2713}")));
}
