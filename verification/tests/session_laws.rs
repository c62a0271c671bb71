use sync_cli::auth_commands::{auth_begin_document, auth_begin_run, run_auth_callback_plan};
use sync_cli::auth_options::{parse_auth_begin_options, parse_auth_callback_plan_options};
use sync_cli::callback::{parse_callback_parameters, percent_decode_form_component};
use sync_cli::model::Provider;
use sync_cli::session::{validate_auth_session_document, OAuthEndpointSource};
use sync_cli::token::base64_url_no_pad;

fn argv(v: &[&str]) -> Vec<String> {
    v.iter().map(|a| a.to_string()).collect()
}

fn escape(s: &str, upper: bool) -> String {
    s.bytes()
        .map(|b| if upper { format!("%{:02X}", b) } else { format!("%{:02x}", b) })
        .collect()
}

#[test]
fn escaped_text_decodes_back() {
    for text in ["", "plain", "a b&c=d", "日本語 ✓", "%+#?"] {
        assert_eq!(percent_decode_form_component(&escape(text, true)), Ok(text.to_string()));
        assert_eq!(percent_decode_form_component(&escape(text, false)), Ok(text.to_string()));
    }
    assert_eq!(percent_decode_form_component("ok%2"), Err("callback_query_invalid"));
    assert_eq!(percent_decode_form_component("%g1"), Err("callback_query_invalid"));
    assert_eq!(percent_decode_form_component("%C3%28"), Err("callback_query_invalid"));
}

fn begin(provider: &str, now: &str) -> sync_cli::auth_commands::AuthBeginRun {
    let options = parse_auth_begin_options(&argv(&[
        "--provider", provider, "--client-id", "cid", "--redirect-uri", "https://app/cb",
        "--session-file", "/tmp/session.json", "--now", now,
    ]))
    .unwrap();
    auth_begin_run(options, 0)
}

#[test]
fn begun_session_reads_back() {
    let run = begin("mal", "1000");
    let state = base64_url_no_pad(&[7u8; 24]);
    let verifier = base64_url_no_pad(&[9u8; 48]);
    let d = auth_begin_document(&run, &state, Some(&verifier), OAuthEndpointSource::OfficialDocs);
    let session = validate_auth_session_document(&d).unwrap();
    assert_eq!(session.provider, Provider::MyAnimeList);
    assert_eq!(session.client_id, "cid");
    assert_eq!(session.redirect_uri, "https://app/cb");
    assert_eq!(session.state, state);
    assert_eq!(session.pkce_code_verifier, Some(verifier));
    assert_eq!(session.bootstrap_mode, "auth_broker");
    assert_eq!(session.expires_at_epoch_secs, 1600);
}

#[test]
fn begun_session_plans_its_callback() {
    for (provider, pkce) in [("anilist", None), ("mal", Some(base64_url_no_pad(&[1u8; 48])))] {
        let run = begin(provider, "1000");
        let state = base64_url_no_pad(&[200u8, 3, 250, 17, 0, 99, 42, 128, 1, 2, 3, 4, 5, 6, 7, 8, 9, 10, 11, 12, 13, 14, 15, 16]);
        let d = auth_begin_document(&run, &state, pkce.as_deref(), OAuthEndpointSource::OfficialDocs);
        let url = format!("https://app/cb?code=abc&state={state}");
        let params = parse_callback_parameters(&url).ok().unwrap();
        assert_eq!(params.get("state"), Some(&state));
        let options = parse_auth_callback_plan_options(&argv(&[
            "--session-file", "/tmp/session.json", "--callback-url", &url, "--now", "1599",
        ]))
        .unwrap();
        let out = run_auth_callback_plan(&options, Ok(d), 0);
        assert_eq!(out.exit_code, 0);
        assert!(out.stdout.contains("state_valid=true authorization_code_present=true"));
        let required = if pkce.is_some() { "true" } else { "false" };
        assert!(out.stdout.contains(&format!("pkce_required={required} pkce_available={required}")));
        assert!(out.stdout.contains("ready_for_exchange=true"));
    }
}
