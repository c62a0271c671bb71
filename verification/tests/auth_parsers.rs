use sync_cli::auth_options::{
    parse_auth_authorize_url_options, parse_auth_callback_plan_options, parse_auth_complete_options,
    parse_auth_exchange_code_options, parse_auth_refresh_options,
};
use sync_cli::model::{PlanOutputFormat, Provider};

fn argv(v: &[&str]) -> Vec<String> {
    v.iter().map(|a| a.to_string()).collect()
}

#[test]
fn callback_plan_options() {
    let o = parse_auth_callback_plan_options(&argv(&[
        "--session-file", "/s", "--callback", "http://l/cb?code=a&state=b", "--now", "7", "--format",
        "json",
    ]))
    .unwrap();
    assert_eq!(o.session_file_path.as_deref(), Some("/s"));
    assert_eq!(o.callback_url.as_deref(), Some("http://l/cb?code=a&state=b"));
    assert_eq!(o.now_unix_seconds, Some(7));
    assert_eq!(o.output_format, PlanOutputFormat::Json);
    let err = |a: &[&str]| parse_auth_callback_plan_options(&argv(a)).err().unwrap();
    assert_eq!(
        err(&["--token-response", "/t"]),
        "browser, network auth, database, provider writes, direct tokens, and credential bundles are disabled for auth callback-plan: --token-response"
    );
    assert_eq!(err(&["--session-file"]), "missing value for auth callback-plan option");
    assert_eq!(err(&["--other", "x"]), "unexpected argument for auth callback-plan");
    assert_eq!(err(&["--now", "later"]), "invalid --now unix seconds");
    assert_eq!(err(&["--format", "yaml"]), "unsupported output format for auth callback-plan");
    assert_eq!(err(&["--callback-url", "u"]), "missing --session-file");
    assert_eq!(err(&["--session-file", "/s", "--callback-url", " "]), "missing --callback-url");
}

#[test]
fn complete_options() {
    let o = parse_auth_complete_options(&argv(&[
        "--test-token-transport", "--session-file", "/s", "--callback-url", "u", "--db", "/d",
        "--account-id", "a", "--credential-bundle", "/b", "--token-response", "/t",
    ]))
    .unwrap();
    assert!(o.test_token_transport);
    assert_eq!(o.credential_bundle_path.as_deref(), Some("/b"));
    assert_eq!(o.test_credential_bundle_path, None);
    let err = |a: &[&str]| parse_auth_complete_options(&argv(a)).err().unwrap();
    assert_eq!(
        err(&["--provider", "anilist"]),
        "live provider writes, browser sessions, direct token input, and session overrides are disabled for auth complete: --provider"
    );
    assert_eq!(err(&["--db"]), "missing value for auth complete option");
    assert_eq!(err(&["--now", "x"]), "invalid --now unix seconds for auth complete");
    assert_eq!(err(&["--format", "csv"]), "unsupported output format for auth complete");
    assert_eq!(err(&["--session-file", "/s"]), "missing --test-token-transport");
    let base = [
        "--test-token-transport", "--session-file", "/s", "--callback-url", "u", "--db", "/d",
        "--account", "a",
    ];
    let mut both = base.to_vec();
    both.extend_from_slice(&["--test-credential-bundle", "/x", "--credential-bundle", "/y"]);
    assert_eq!(err(&both), "choose only one credential bundle source for auth complete");
    assert_eq!(err(&base), "missing --test-credential-bundle or --credential-bundle");
    let mut no_token = base.to_vec();
    no_token.extend_from_slice(&["--test-credential-bundle", "/x"]);
    assert_eq!(err(&no_token), "missing --token-response");
}

#[test]
fn authorize_url_options() {
    let o = parse_auth_authorize_url_options(&argv(&[
        "--provider", "mal", "--client-id", "c", "--redirect-uri", "http://l", "--state", "s",
        "--pkce", "challenge",
    ]))
    .unwrap();
    assert_eq!(o.provider, Some(Provider::MyAnimeList));
    assert_eq!(o.pkce_code_challenge.as_deref(), Some("challenge"));
    assert!(!o.show_sensitive_authorization_url);
    let err = |a: &[&str]| parse_auth_authorize_url_options(&argv(a)).err().unwrap();
    assert_eq!(
        err(&["--db", "/d"]),
        "browser, network auth, database, and provider writes are disabled for auth authorize-url: --db"
    );
    assert_eq!(err(&["--client-id", "c"]), "missing --provider");
    assert_eq!(
        err(&["--provider", "anilist", "--client-id", "c", "--redirect-uri", "r"]),
        "missing --state"
    );
    assert_eq!(
        err(&["--provider", "anilist", "--client-id", "c", "--redirect-uri", "r", "--state", "s", "--pkce", "p"]),
        "--pkce-code-challenge is only supported for myanimelist"
    );
}

#[test]
fn exchange_code_options() {
    let o = parse_auth_exchange_code_options(&argv(&[
        "--test-token-transport", "--db", "/d", "--provider", "anilist", "--account", "a",
        "--client-id", "c", "--redirect-uri", "r", "--code", "k", "--code-verifier", "v",
        "--test-credential-bundle", "/b", "--token-response", "/t",
    ]))
    .unwrap();
    assert_eq!(o.authorization_code.as_deref(), Some("k"));
    assert_eq!(o.pkce_code_verifier.as_deref(), Some("v"));
    let err = |a: &[&str]| parse_auth_exchange_code_options(&argv(a)).err().unwrap();
    assert_eq!(
        err(&["--credential-bundle", "/b"]),
        "live provider writes, browser sessions, and direct token input are disabled for auth exchange-code: --credential-bundle"
    );
    assert_eq!(err(&["--unknown", "1"]), "unexpected argument for auth exchange-code: --unknown");
    assert_eq!(err(&["--db", "/d"]), "missing --test-token-transport");
    assert_eq!(
        err(&[
            "--test-token-transport", "--db", "/d", "--provider", "anilist", "--account", "a",
            "--client-id", "c", "--redirect-uri", "r",
        ]),
        "missing --authorization-code"
    );
    assert_eq!(
        err(&[
            "--test-token-transport", "--db", "/d", "--provider", "anilist", "--account", "a",
            "--client-id", "c", "--redirect-uri", "r", "--code", "k", "--test-credential-bundle", "/b",
        ]),
        "missing --token-response"
    );
}

#[test]
fn refresh_options() {
    let o = parse_auth_refresh_options(&argv(&[
        "--test-token-transport", "--db", "/d", "--provider", "bangumi", "--account-id", "a",
        "--client-id", "c", "--test-credential-bundle", "/b",
    ]))
    .unwrap();
    assert_eq!(o.provider, Some(Provider::Bangumi));
    assert_eq!(o.token_response_path, None);
    let err = |a: &[&str]| parse_auth_refresh_options(&argv(a)).err().unwrap();
    assert_eq!(
        err(&["--refresh-token", "t"]),
        "live provider writes and network auth are disabled for auth refresh: --refresh-token"
    );
    assert_eq!(err(&["--db"]), "missing value for --db");
    assert_eq!(err(&["--test-token-transport", "--db", "/d", "--provider", "anilist", "--account", "a"]), "missing --client-id");
    assert_eq!(
        err(&[
            "--test-token-transport", "--db", "/d", "--provider", "anilist", "--account", "a",
            "--client-id", "c", "--test-credential-bundle", "/x", "--credential-bundle", "/y",
        ]),
        "choose only one credential bundle source for auth refresh"
    );
}
