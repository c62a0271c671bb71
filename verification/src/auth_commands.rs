//! The `auth` subcommands from their parsed options to their output. The
//! work in between (reading the session file, the credential database, the
//! token transport, the random source, the clock) is done by the caller,
//! which hands each function what came of it.

use vstd::prelude::*;
use crate::auth_options::{
    AuthAuthorizeUrlOptions, AuthBeginOptions, AuthCallbackPlanOptions, AuthCompleteOptions,
    AuthExchangeCodeOptions, AuthRefreshOptions, AuthStatusOptions,
};
use crate::auth_reports::{
    auth_install_error_output, authorize_url_json, authorize_url_text, begin_json, begin_text,
    callback_plan_json, callback_plan_text, complete_json, complete_text, exchange_code_json,
    exchange_code_text, install_error_output, opt_ref_view, refresh_error_kind, refresh_json,
    refresh_text, status_json, status_text, credential_refresh_error_kind,
    write_json_auth_authorize_url, write_json_auth_begin, write_json_auth_callback_plan,
    write_json_auth_complete, write_json_auth_exchange_code, write_json_auth_refresh,
    write_json_auth_status, write_text_auth_authorize_url, write_text_auth_begin,
    write_text_auth_callback_plan, write_text_auth_complete, write_text_auth_exchange_code,
    write_text_auth_refresh, write_text_auth_status, AuthCredentialInstallError, CredentialAction,
    CredentialExchange, CredentialRefreshError, RefreshOutcome, SecretPreflightOutcome,
};
use crate::callback::{
    lemma_callback_url_parameters, param_lookup, parse_callback_parameters, parse_callback_spec,
    plain_query_char, plain_query_value,
};
use crate::cli::{
    failure, failure_spec, json_report, report_output, text_report, usage_error,
    usage_error_spec, with_exit, CommandOutput, CommandOutputView,
};
use crate::credentials::{
    auth_optional_credential_store_config, auth_required_credential_store_config,
    opt_store_view, optional_store_spec, required_store_spec, store_codec_label,
    store_source_label, AuthCredentialStoreConfig, CredentialStoreView,
};
use crate::model::{PlanOutputFormat, Provider};
use crate::session::{
    auth_begin_session_document, begin_document_matches, callback_check_spec,
    endpoint_source_name, lemma_begin_session_reads_back, session_spec, validate_auth_callback,
    validate_auth_session_document, AuthSessionDocument, AuthSessionView, OAuthEndpointSource,
};
use crate::text::{blank, has_ctrl};
use crate::token::{
    base64url_spec, lemma_base64url_url_safe, lemma_token_is_pkce_plain,
    lemma_token_is_state_value,
};
use crate::text::{concat, opt_chars, owned, push_str};

verus! {

/// How long a session begun by `auth begin` stays valid, in seconds.
pub const AUTH_SESSION_TTL_SECONDS: i64 = 600;

/// How many random bytes make the state of a new session.
pub const AUTH_STATE_BYTES: usize = 24;

/// How many random bytes make the PKCE verifier of a new session.
pub const PKCE_VERIFIER_BYTES: usize = 48;

/// The time a command runs at: `--now` when given, the clock otherwise.
pub open spec fn resolve_now(given: Option<i64>, clock: i64) -> i64 {
    match given {
        Some(n) => n,
        None => clock,
    }
}

fn pick_now(given: Option<i64>, clock: i64) -> (r: i64)
    ensures
        r == resolve_now(given, clock),
{
    match given {
        Some(n) => n,
        None => clock,
    }
}

/// The failure for a database that cannot be opened.
pub open spec fn db_open_failure(path: Seq<char>, error: Seq<char>) -> CommandOutputView {
    failure_spec(1, "failed to open db "@ + path + ": "@ + error)
}

/// The failure for a database that cannot be opened; `error` is what the
/// store said.
pub fn db_open_failed(path: &str, error: &str) -> (r: CommandOutput)
    ensures
        r@ == db_open_failure(path@, error@),
{
    let mut m = concat("failed to open db ", path);
    push_str(&mut m, ": ");
    push_str(&mut m, error);
    failure(1, m.as_str())
}

/// The failure for a database file that does not exist.
pub fn db_missing(path: &str) -> (r: CommandOutput)
    ensures
        r@ == db_open_failure(path@, "missing database"@),
{
    db_open_failed(path, "missing database")
}

/// `prefix` and `detail` on standard error, exit status `exit_code`.
pub fn failure_with(exit_code: i32, prefix: &str, detail: &str) -> (r: CommandOutput)
    ensures
        r@ == failure_spec(exit_code, prefix@ + detail@),
{
    let m = concat(prefix, detail);
    failure(exit_code, m.as_str())
}

pub open spec fn opt_label(o: Option<CredentialStoreView>, codec: Seq<char>,
    source: bool) -> Option<
    Seq<char>,
> {
    match o {
        Some(c) => Some(
            if source {
                store_source_label(c)
            } else {
                store_codec_label(c, codec)
            },
        ),
        None => None,
    }
}

// ---------------------------------------------------------------------------
// auth status
// ---------------------------------------------------------------------------

/// What `auth status` works with once its options are checked.
pub struct AuthStatusRun {
    pub db_path: String,
    pub provider: Provider,
    pub account_id: String,
    pub now_unix_seconds: i64,
    pub credential_store: Option<AuthCredentialStoreConfig>,
    pub output_format: PlanOutputFormat,
}

/// Checks the credential bundle options of `auth status`. A refused bundle
/// choice is an argument error. `passphrase_env_value` is the value of the
/// environment variable that `--credential-bundle-passphrase-env` names.
pub fn auth_status_run(
    options: AuthStatusOptions,
    passphrase_env_value: Option<String>,
    clock_now_unix_seconds: i64,
) -> (r: Result<AuthStatusRun, CommandOutput>)
    requires
        options.db_path is Some,
        options.provider is Some,
        options.account_id is Some,
    ensures
        match optional_store_spec(
            opt_chars(options.test_credential_bundle_path),
            opt_chars(options.credential_bundle_path),
            opt_chars(options.credential_bundle_passphrase_env),
            opt_chars(passphrase_env_value),
        ) {
            Err(e) => r matches Err(o) && o@ == usage_error_spec(e),
            Ok(c) => r matches Ok(run) && opt_store_view(run.credential_store) == c && run.db_path@
                == options.db_path.unwrap()@ && run.provider == options.provider.unwrap()
                && run.account_id@ == options.account_id.unwrap()@ && run.now_unix_seconds
                == resolve_now(options.now_unix_seconds, clock_now_unix_seconds)
                && run.output_format == options.output_format,
        },
{
    let store = match auth_optional_credential_store_config(
        options.test_credential_bundle_path,
        options.credential_bundle_path,
        options.credential_bundle_passphrase_env,
        passphrase_env_value,
    ) {
        Ok(c) => c,
        Err(message) => {
            return Err(usage_error(message.as_str()));
        },
    };
    let now = pick_now(options.now_unix_seconds, clock_now_unix_seconds);
    Ok(
        AuthStatusRun {
            db_path: options.db_path.unwrap(),
            provider: options.provider.unwrap(),
            account_id: options.account_id.unwrap(),
            now_unix_seconds: now,
            credential_store: store,
            output_format: options.output_format,
        },
    )
}

/// What came of looking at the stored credential.
pub enum AuthStatusEvent {
    OpenFailed(String),
    InspectFailed(String),
    PreflightFailed(CredentialRefreshError),
    Inspected {
        credential_present: bool,
        action: CredentialAction,
        secret_preflight: Option<SecretPreflightOutcome>,
    },
}

/// What `auth status` prints: a failure for each step that failed, or the
/// status report.
pub open spec fn auth_status_spec(run: AuthStatusRun, e: AuthStatusEvent,
    codec: Seq<char>) -> CommandOutputView {
    match e {
        AuthStatusEvent::OpenFailed(err) => db_open_failure(run.db_path@, err@),
        AuthStatusEvent::InspectFailed(err) => failure_spec(
            1,
            "failed to inspect credential metadata: "@ + err@,
        ),
        AuthStatusEvent::PreflightFailed(k) => failure_spec(
            1,
            "failed to preflight credential secret: "@ + refresh_error_kind(k),
        ),
        AuthStatusEvent::Inspected { credential_present, action, secret_preflight } => {
            let store = opt_store_view(run.credential_store);
            let presence = if credential_present {
                "present"@
            } else {
                "missing"@
            };
            report_output(
                run.output_format,
                status_text(
                    run.provider,
                    run.account_id@,
                    action,
                    presence,
                    opt_label(store, codec, true),
                    opt_label(store, codec, false),
                    secret_preflight,
                ),
                status_json(
                    run.provider,
                    run.account_id@,
                    action,
                    presence,
                    opt_label(store, codec, true),
                    opt_label(store, codec, false),
                    secret_preflight,
                ),
            )
        },
    }
}

/// The output of `auth status`. `passphrase_codec_label` names the codec
/// of encrypted bundles.
pub fn auth_status_output(run: &AuthStatusRun, event: AuthStatusEvent,
    passphrase_codec_label: &str) -> (r:
    CommandOutput)
    ensures
        r@ == auth_status_spec(*run, event, passphrase_codec_label@),
{
    match event {
        AuthStatusEvent::OpenFailed(err) => db_open_failed(run.db_path.as_str(), err.as_str()),
        AuthStatusEvent::InspectFailed(err) => failure_with(
            1,
            "failed to inspect credential metadata: ",
            err.as_str(),
        ),
        AuthStatusEvent::PreflightFailed(k) => failure_with(
            1,
            "failed to preflight credential secret: ",
            credential_refresh_error_kind(k),
        ),
        AuthStatusEvent::Inspected { credential_present, action, secret_preflight } => {
            let presence = if credential_present {
                "present"
            } else {
                "missing"
            };
            let (source, codec) = match &run.credential_store {
                Some(c) => (Some(c.source_label()), Some(c.codec_label(passphrase_codec_label))),
                None => (None, None),
            };
            match run.output_format {
                PlanOutputFormat::Text => text_report(
                    write_text_auth_status(
                        run.provider,
                        run.account_id.as_str(),
                        action,
                        presence,
                        source,
                        codec,
                        secret_preflight,
                    ),
                ),
                PlanOutputFormat::Json => json_report(
                    write_json_auth_status(
                        run.provider,
                        run.account_id.as_str(),
                        action,
                        presence,
                        source,
                        codec,
                        secret_preflight,
                    ),
                ),
            }
        },
    }
}

// ---------------------------------------------------------------------------
// auth begin
// ---------------------------------------------------------------------------

/// What `auth begin` works with once its options are checked.
pub struct AuthBeginRun {
    pub provider: Provider,
    pub client_id: String,
    pub redirect_uri: String,
    pub session_file_path: String,
    pub show_sensitive_authorization_url: bool,
    pub created_at_epoch_secs: i64,
    pub expires_at_epoch_secs: i64,
    pub output_format: PlanOutputFormat,
}

/// `run` is what `auth begin` works with for `options` and the clock: the
/// options' values, a session that starts now and expires after the
/// session lifetime.
pub open spec fn begun_from(run: AuthBeginRun, options: AuthBeginOptions, clock: i64) -> bool {
    &&& run.provider == options.provider.unwrap()
    &&& run.client_id@ == options.client_id.unwrap()@
    &&& run.redirect_uri@ == options.redirect_uri.unwrap()@
    &&& run.session_file_path@ == options.session_file_path.unwrap()@
    &&& run.show_sensitive_authorization_url == options.show_sensitive_authorization_url
    &&& run.created_at_epoch_secs == resolve_now(options.now_unix_seconds, clock)
    &&& run.expires_at_epoch_secs == run.created_at_epoch_secs + AUTH_SESSION_TTL_SECONDS
    &&& run.output_format == options.output_format
}

/// The session of `auth begin` starts now and expires after the session
/// lifetime; a MyAnimeList session also needs a PKCE verifier.
pub fn auth_begin_run(options: AuthBeginOptions, clock_now_unix_seconds: i64) -> (r: AuthBeginRun)
    requires
        options.provider is Some,
        options.client_id is Some,
        options.redirect_uri is Some,
        options.session_file_path is Some,
        resolve_now(options.now_unix_seconds, clock_now_unix_seconds) <= i64::MAX
            - AUTH_SESSION_TTL_SECONDS,
    ensures
        begun_from(r, options, clock_now_unix_seconds),
{
    let now = pick_now(options.now_unix_seconds, clock_now_unix_seconds);
    AuthBeginRun {
        provider: options.provider.unwrap(),
        client_id: options.client_id.unwrap(),
        redirect_uri: options.redirect_uri.unwrap(),
        session_file_path: options.session_file_path.unwrap(),
        show_sensitive_authorization_url: options.show_sensitive_authorization_url,
        created_at_epoch_secs: now,
        expires_at_epoch_secs: now + AUTH_SESSION_TTL_SECONDS,
        output_format: options.output_format,
    }
}

/// Whether a new session for the provider carries a PKCE verifier.
pub fn auth_begin_needs_pkce(provider: Provider) -> (r: bool)
    ensures
        r == (provider == Provider::MyAnimeList),
{
    provider == Provider::MyAnimeList
}

/// The session record `auth begin` writes for its run, once it has drawn
/// the state (and, for MyAnimeList, the PKCE verifier) and learnt where the
/// provider's endpoints come from.
pub fn auth_begin_document(
    run: &AuthBeginRun,
    state: &str,
    pkce_code_verifier: Option<&str>,
    endpoint_source: OAuthEndpointSource,
) -> (d: AuthSessionDocument)
    ensures
        begin_document_matches(
            d,
            run.provider,
            run.client_id@,
            run.redirect_uri@,
            state@,
            match pkce_code_verifier {
                Some(v) => Some(v@),
                None => None,
            },
            endpoint_source,
            run.created_at_epoch_secs,
            run.expires_at_epoch_secs,
        ),
{
    auth_begin_session_document(
        run.provider,
        run.client_id.as_str(),
        run.redirect_uri.as_str(),
        state,
        pkce_code_verifier,
        endpoint_source,
        run.created_at_epoch_secs,
        run.expires_at_epoch_secs,
    )
}

/// What came of drawing the session's tokens, building its authorization
/// request and writing its file.
pub enum AuthBeginEvent {
    RandomSourceFailed,
    RequestFailed(String),
    SessionWriteFailed,
    Written { endpoint_source: OAuthEndpointSource, authorization_url: String },
}

/// What `auth begin` prints: a failure for each step that failed (a request
/// that cannot be built is an argument error), or the report, which shows
/// the authorization URL only when it was asked for.
pub open spec fn auth_begin_spec(run: AuthBeginRun, e: AuthBeginEvent) -> CommandOutputView {
    match e {
        AuthBeginEvent::RandomSourceFailed => failure_spec(
            1,
            "failed to read system random source"@,
        ),
        AuthBeginEvent::RequestFailed(err) => failure_spec(
            2,
            "failed to build auth session: "@ + err@,
        ),
        AuthBeginEvent::SessionWriteFailed => failure_spec(1, "failed to write auth session"@),
        AuthBeginEvent::Written { endpoint_source, authorization_url } => {
            let url = if run.show_sensitive_authorization_url {
                Some(authorization_url@)
            } else {
                None
            };
            report_output(
                run.output_format,
                begin_text(
                    run.provider,
                    url,
                    endpoint_source,
                    run.created_at_epoch_secs,
                    run.expires_at_epoch_secs,
                ),
                begin_json(
                    run.provider,
                    url,
                    endpoint_source,
                    run.created_at_epoch_secs,
                    run.expires_at_epoch_secs,
                ),
            )
        },
    }
}

/// The output of `auth begin`.
pub fn auth_begin_output(run: &AuthBeginRun, event: AuthBeginEvent) -> (r: CommandOutput)
    ensures
        r@ == auth_begin_spec(*run, event),
{
    match event {
        AuthBeginEvent::RandomSourceFailed => failure(1, "failed to read system random source"),
        AuthBeginEvent::RequestFailed(err) => failure_with(
            2,
            "failed to build auth session: ",
            err.as_str(),
        ),
        AuthBeginEvent::SessionWriteFailed => failure(1, "failed to write auth session"),
        AuthBeginEvent::Written { endpoint_source, authorization_url } => {
            let url = if run.show_sensitive_authorization_url {
                Some(authorization_url.as_str())
            } else {
                None
            };
            match run.output_format {
                PlanOutputFormat::Text => text_report(
                    write_text_auth_begin(
                        run.provider,
                        url,
                        endpoint_source,
                        run.created_at_epoch_secs,
                        run.expires_at_epoch_secs,
                    ),
                ),
                PlanOutputFormat::Json => json_report(
                    write_json_auth_begin(
                        run.provider,
                        url,
                        endpoint_source,
                        run.created_at_epoch_secs,
                        run.expires_at_epoch_secs,
                    ),
                ),
            }
        },
    }
}

// ---------------------------------------------------------------------------
// auth callback-plan and auth complete: checking a callback
// ---------------------------------------------------------------------------

pub open spec fn read_view(read: Result<AuthSessionDocument, &'static str>) -> Result<
    AuthSessionDocument,
    Seq<char>,
> {
    match read {
        Ok(d) => Ok(d),
        Err(e) => Err(e@),
    }
}

/// The session and callback parameters when the session record was read
/// and is sound, the callback parses, and it completes the session at
/// `now`; otherwise the reason of the first check that failed.
pub open spec fn callback_outcome(
    read: Result<AuthSessionDocument, Seq<char>>,
    callback_url: Seq<char>,
    now: i64,
) -> Result<(AuthSessionView, Seq<(Seq<char>, Seq<char>)>), Seq<char>> {
    match read {
        Err(reason) => Err(reason),
        Ok(d) => match session_spec(d) {
            None => Err("session_invalid"@),
            Some(s) => match parse_callback_spec(callback_url) {
                None => Err("callback_query_invalid"@),
                Some(ps) => match callback_check_spec(s, ps, now) {
                    Err(reason) => Err(reason),
                    Ok(_) => Ok((s, ps)),
                },
            },
        },
    }
}

/// The failure for a callback that does not complete its session.
pub open spec fn callback_failure(reason: Seq<char>) -> CommandOutputView {
    failure_spec(1, "failed to validate auth callback: "@ + reason)
}

/// What `auth callback-plan` prints: the failure of the first check that
/// failed, or the callback plan report.
pub open spec fn callback_plan_spec(
    format: PlanOutputFormat,
    read: Result<AuthSessionDocument, Seq<char>>,
    callback_url: Seq<char>,
    now: i64,
) -> CommandOutputView {
    match callback_outcome(read, callback_url, now) {
        Err(reason) => callback_failure(reason),
        Ok((s, _)) => report_output(format, callback_plan_text(s, true), callback_plan_json(s,
            true)),
    }
}

/// `auth callback-plan` once its options are read: the session record as
/// read from the session file (or why it could not be read), and the clock.
pub fn run_auth_callback_plan(
    options: &AuthCallbackPlanOptions,
    session_read: Result<AuthSessionDocument, &'static str>,
    clock_now_unix_seconds: i64,
) -> (r: CommandOutput)
    requires
        options.callback_url is Some,
    ensures
        r@ == callback_plan_spec(
            options.output_format,
            read_view(session_read),
            options.callback_url.unwrap()@,
            resolve_now(options.now_unix_seconds, clock_now_unix_seconds),
        ),
{
    let now = pick_now(options.now_unix_seconds, clock_now_unix_seconds);
    let callback_url = match &options.callback_url {
        Some(u) => u,
        None => {
            return failure(1, "failed to validate auth callback: callback_query_invalid");
        },
    };
    match check_callback(session_read, callback_url.as_str(), now) {
        Err(o) => o,
        Ok((session, _code)) => match options.output_format {
            PlanOutputFormat::Text => text_report(write_text_auth_callback_plan(&session, true)),
            PlanOutputFormat::Json => json_report(write_json_auth_callback_plan(&session, true)),
        },
    }
}

/// Checks a callback against the session record; on success the session
/// and the authorization code the callback carries.
fn check_callback(
    session_read: Result<AuthSessionDocument, &'static str>,
    callback_url: &str,
    now: i64,
) -> (r: Result<(crate::session::AuthSession, String), CommandOutput>)
    ensures
        match callback_outcome(read_view(session_read), callback_url@, now) {
            Err(reason) => r matches Err(o) && o@ == callback_failure(reason),
            Ok((s, ps)) => r matches Ok((session, code)) && session@ == s && param_lookup(
                ps,
                "code"@,
            ) == Some(code@),
        },
{
    let document = match session_read {
        Ok(d) => d,
        Err(reason) => {
            return Err(failure_with(1, "failed to validate auth callback: ", reason));
        },
    };
    let session = match validate_auth_session_document(&document) {
        Ok(s) => s,
        Err(reason) => {
            return Err(failure_with(1, "failed to validate auth callback: ", reason));
        },
    };
    let callback = match parse_callback_parameters(callback_url) {
        Ok(c) => c,
        Err(reason) => {
            return Err(failure_with(1, "failed to validate auth callback: ", reason));
        },
    };
    match validate_auth_callback(&session, &callback, now) {
        Ok(_) => {},
        Err(reason) => {
            return Err(failure_with(1, "failed to validate auth callback: ", reason));
        },
    }
    match callback.get("code") {
        Some(code) => Ok((session, code.clone())),
        None => Err(failure(1, "failed to validate auth callback: authorization_code_missing")),
    }
}

// ---------------------------------------------------------------------------
// Installing a credential: auth complete and auth exchange-code
// ---------------------------------------------------------------------------

/// What a token exchange is built from.
pub struct CredentialInstallRequest {
    pub provider: Provider,
    pub client_id: String,
    pub client_secret: Option<String>,
    pub redirect_uri: String,
    pub authorization_code: String,
    pub pkce_code_verifier: Option<String>,
}

/// An installed credential and the token requests that installed it.
pub struct CredentialInstall {
    pub exchange: CredentialExchange,
    pub requests: Vec<OAuthEndpointSource>,
}

/// What `auth complete` works with once its options are checked.
pub struct AuthCompleteRun {
    pub credential_store: AuthCredentialStoreConfig,
    pub callback_url: String,
    pub session_file_path: String,
    pub db_path: String,
    pub account_id: String,
    pub client_secret: Option<String>,
    pub token_response_path: String,
    pub now_unix_seconds: i64,
    pub output_format: PlanOutputFormat,
}

/// Checks the credential bundle options of `auth complete`; a refused
/// choice is an argument error.
pub fn auth_complete_run(
    options: AuthCompleteOptions,
    passphrase_env_value: Option<String>,
    clock_now_unix_seconds: i64,
) -> (r: Result<AuthCompleteRun, CommandOutput>)
    requires
        options.session_file_path is Some,
        options.callback_url is Some,
        options.db_path is Some,
        options.account_id is Some,
        options.token_response_path is Some,
    ensures
        match required_store_spec(
            opt_chars(options.test_credential_bundle_path),
            opt_chars(options.credential_bundle_path),
            opt_chars(options.credential_bundle_passphrase_env),
            opt_chars(passphrase_env_value),
        ) {
            Err(e) => r matches Err(o) && o@ == usage_error_spec(e),
            Ok(c) => r matches Ok(run) && run.credential_store@ == c && run.callback_url@
                == options.callback_url.unwrap()@ && run.session_file_path@
                == options.session_file_path.unwrap()@ && run.db_path@ == options.db_path.unwrap()@
                && run.account_id@ == options.account_id.unwrap()@ && opt_chars(run.client_secret)
                == opt_chars(options.client_secret) && run.token_response_path@
                == options.token_response_path.unwrap()@ && run.now_unix_seconds == resolve_now(
                options.now_unix_seconds,
                clock_now_unix_seconds,
            ) && run.output_format == options.output_format,
        },
{
    let store = match auth_required_credential_store_config(
        options.test_credential_bundle_path,
        options.credential_bundle_path,
        options.credential_bundle_passphrase_env,
        passphrase_env_value,
    ) {
        Ok(c) => c,
        Err(message) => {
            return Err(usage_error(message.as_str()));
        },
    };
    let now = pick_now(options.now_unix_seconds, clock_now_unix_seconds);
    Ok(
        AuthCompleteRun {
            credential_store: store,
            callback_url: options.callback_url.unwrap(),
            session_file_path: options.session_file_path.unwrap(),
            db_path: options.db_path.unwrap(),
            account_id: options.account_id.unwrap(),
            client_secret: options.client_secret,
            token_response_path: options.token_response_path.unwrap(),
            now_unix_seconds: now,
            output_format: options.output_format,
        },
    )
}

/// The token exchange that `auth complete` asks for: the session's client,
/// redirect URI and verifier, the callback's code and the given secret; or
/// the failure of the first callback check that failed.
pub fn auth_complete_exchange_request(
    run: &AuthCompleteRun,
    session_read: Result<AuthSessionDocument, &'static str>,
) -> (r: Result<CredentialInstallRequest, CommandOutput>)
    ensures
        match callback_outcome(read_view(session_read), run.callback_url@, run.now_unix_seconds) {
            Err(reason) => r matches Err(o) && o@ == callback_failure(reason),
            Ok((s, ps)) => r matches Ok(req) && req.provider == s.provider && req.client_id@
                == s.client_id && req.redirect_uri@ == s.redirect_uri && opt_chars(
                req.pkce_code_verifier,
            ) == s.pkce_code_verifier && param_lookup(ps, "code"@) == Some(
                req.authorization_code@,
            ) && opt_chars(req.client_secret) == opt_chars(run.client_secret),
        },
{
    match check_callback(session_read, run.callback_url.as_str(), run.now_unix_seconds) {
        Err(o) => Err(o),
        Ok((session, code)) => Ok(
            CredentialInstallRequest {
                provider: session.provider,
                client_id: session.client_id,
                client_secret: crate::text::clone_opt(&run.client_secret),
                redirect_uri: session.redirect_uri,
                authorization_code: code,
                pkce_code_verifier: session.pkce_code_verifier,
            },
        ),
    }
}

/// What `auth complete` prints once the exchange ran: the install failure,
/// or the report, labelled with the bundle it installed into.
pub open spec fn auth_complete_spec(
    run: AuthCompleteRun,
    provider: Provider,
    install: Result<CredentialInstall, AuthCredentialInstallError>,
    codec: Seq<char>,
) -> CommandOutputView {
    match install {
        Err(e) => failure_spec(install_error_output(e).0, install_error_output(e).1),
        Ok(i) => report_output(
            run.output_format,
            complete_text(
                provider,
                run.account_id@,
                i.exchange,
                i.requests@,
                store_source_label(run.credential_store@),
                store_codec_label(run.credential_store@, codec),
            ),
            complete_json(
                provider,
                run.account_id@,
                i.exchange,
                i.requests@,
                store_source_label(run.credential_store@),
                store_codec_label(run.credential_store@, codec),
            ),
        ),
    }
}

/// The output of `auth complete`.
pub fn auth_complete_output(
    run: &AuthCompleteRun,
    provider: Provider,
    install: Result<CredentialInstall, AuthCredentialInstallError>,
    passphrase_codec_label: &str,
) -> (r: CommandOutput)
    ensures
        r@ == auth_complete_spec(*run, provider, install, passphrase_codec_label@),
{
    match install {
        Err(e) => auth_install_error_output(e),
        Ok(i) => {
            let source = run.credential_store.source_label();
            let codec = run.credential_store.codec_label(passphrase_codec_label);
            match run.output_format {
                PlanOutputFormat::Text => text_report(
                    write_text_auth_complete(
                        provider,
                        run.account_id.as_str(),
                        i.exchange,
                        &i.requests,
                        source,
                        codec,
                    ),
                ),
                PlanOutputFormat::Json => json_report(
                    write_json_auth_complete(
                        provider,
                        run.account_id.as_str(),
                        i.exchange,
                        &i.requests,
                        source,
                        codec,
                    ),
                ),
            }
        },
    }
}

/// The token exchange that `auth exchange-code` asks for, from its options.
pub fn auth_exchange_code_request(options: &AuthExchangeCodeOptions) -> (r: CredentialInstallRequest)
    requires
        options.provider is Some,
        options.client_id is Some,
        options.redirect_uri is Some,
        options.authorization_code is Some,
    ensures
        r.provider == options.provider.unwrap(),
        r.client_id@ == options.client_id.unwrap()@,
        r.redirect_uri@ == options.redirect_uri.unwrap()@,
        r.authorization_code@ == options.authorization_code.unwrap()@,
        opt_chars(r.client_secret) == opt_chars(options.client_secret),
        opt_chars(r.pkce_code_verifier) == opt_chars(options.pkce_code_verifier),
{
    CredentialInstallRequest {
        provider: options.provider.unwrap(),
        client_id: match &options.client_id {
            Some(c) => c.clone(),
            None => String::new(),
        },
        client_secret: crate::text::clone_opt(&options.client_secret),
        redirect_uri: match &options.redirect_uri {
            Some(u) => u.clone(),
            None => String::new(),
        },
        authorization_code: match &options.authorization_code {
            Some(c) => c.clone(),
            None => String::new(),
        },
        pkce_code_verifier: crate::text::clone_opt(&options.pkce_code_verifier),
    }
}

/// What `auth exchange-code` prints once the exchange ran.
pub open spec fn auth_exchange_code_spec(
    provider: Provider,
    account: Seq<char>,
    format: PlanOutputFormat,
    install: Result<CredentialInstall, AuthCredentialInstallError>,
) -> CommandOutputView {
    match install {
        Err(e) => failure_spec(install_error_output(e).0, install_error_output(e).1),
        Ok(i) => report_output(
            format,
            exchange_code_text(provider, account, i.exchange, i.requests@),
            exchange_code_json(provider, account, i.exchange, i.requests@),
        ),
    }
}

/// The output of `auth exchange-code`.
pub fn auth_exchange_code_output(
    options: &AuthExchangeCodeOptions,
    install: Result<CredentialInstall, AuthCredentialInstallError>,
) -> (r: CommandOutput)
    requires
        options.provider is Some,
        options.account_id is Some,
    ensures
        r@ == auth_exchange_code_spec(
            options.provider.unwrap(),
            options.account_id.unwrap()@,
            options.output_format,
            install,
        ),
{
    let provider = options.provider.unwrap();
    let account_id = match &options.account_id {
        Some(a) => a.as_str(),
        None => "",
    };
    match install {
        Err(e) => auth_install_error_output(e),
        Ok(i) => match options.output_format {
            PlanOutputFormat::Text => text_report(
                write_text_auth_exchange_code(provider, account_id, i.exchange, &i.requests),
            ),
            PlanOutputFormat::Json => json_report(
                write_json_auth_exchange_code(provider, account_id, i.exchange, &i.requests),
            ),
        },
    }
}

// ---------------------------------------------------------------------------
// auth refresh
// ---------------------------------------------------------------------------

/// What `auth refresh` works with once its options are checked.
pub struct AuthRefreshRun {
    pub db_path: String,
    pub provider: Provider,
    pub account_id: String,
    pub client_id: String,
    pub client_secret: Option<String>,
    pub credential_store: AuthCredentialStoreConfig,
    pub token_response_path: Option<String>,
    pub now_unix_seconds: i64,
    pub output_format: PlanOutputFormat,
}

/// Checks the credential bundle options of `auth refresh`; a refused choice
/// fails with status 2.
pub fn auth_refresh_run(
    options: AuthRefreshOptions,
    passphrase_env_value: Option<String>,
    clock_now_unix_seconds: i64,
) -> (r: Result<AuthRefreshRun, CommandOutput>)
    requires
        options.db_path is Some,
        options.provider is Some,
        options.account_id is Some,
        options.client_id is Some,
    ensures
        match required_store_spec(
            opt_chars(options.test_credential_bundle_path),
            opt_chars(options.credential_bundle_path),
            opt_chars(options.credential_bundle_passphrase_env),
            opt_chars(passphrase_env_value),
        ) {
            Err(e) => r matches Err(o) && o@ == failure_spec(2, e),
            Ok(c) => r matches Ok(run) && run.credential_store@ == c && run.db_path@
                == options.db_path.unwrap()@ && run.provider == options.provider.unwrap()
                && run.account_id@ == options.account_id.unwrap()@ && run.client_id@
                == options.client_id.unwrap()@ && opt_chars(run.client_secret) == opt_chars(
                options.client_secret,
            ) && opt_chars(run.token_response_path) == opt_chars(options.token_response_path)
                && run.now_unix_seconds == resolve_now(
                options.now_unix_seconds,
                clock_now_unix_seconds,
            ) && run.output_format == options.output_format,
        },
{
    let store = match auth_required_credential_store_config(
        options.test_credential_bundle_path,
        options.credential_bundle_path,
        options.credential_bundle_passphrase_env,
        passphrase_env_value,
    ) {
        Ok(c) => c,
        Err(message) => {
            return Err(failure(2, message.as_str()));
        },
    };
    let now = pick_now(options.now_unix_seconds, clock_now_unix_seconds);
    Ok(
        AuthRefreshRun {
            db_path: options.db_path.unwrap(),
            provider: options.provider.unwrap(),
            account_id: options.account_id.unwrap(),
            client_id: options.client_id.unwrap(),
            client_secret: options.client_secret,
            credential_store: store,
            token_response_path: options.token_response_path,
            now_unix_seconds: now,
            output_format: options.output_format,
        },
    )
}

/// What came of opening the database and refreshing the credential.
pub enum AuthRefreshEvent {
    DatabaseMissing,
    OpenFailed(String),
    RefreshFailed(CredentialRefreshError),
    Done { outcome: RefreshOutcome, requests: Vec<OAuthEndpointSource> },
}

/// What `auth refresh` prints: a failure for each step that failed, or the
/// report; a credential that must be reauthorized is reported and exits
/// with status 1.
pub open spec fn auth_refresh_spec(run: AuthRefreshRun, e: AuthRefreshEvent,
    codec: Seq<char>) -> CommandOutputView {
    match e {
        AuthRefreshEvent::DatabaseMissing => db_open_failure(run.db_path@, "missing database"@),
        AuthRefreshEvent::OpenFailed(err) => db_open_failure(run.db_path@, err@),
        AuthRefreshEvent::RefreshFailed(k) => failure_spec(
            1,
            "failed to refresh credential: "@ + refresh_error_kind(k),
        ),
        AuthRefreshEvent::Done { outcome, requests } => with_exit(
            report_output(
                run.output_format,
                refresh_text(
                    run.provider,
                    run.account_id@,
                    outcome,
                    requests@,
                    store_source_label(run.credential_store@),
                    store_codec_label(run.credential_store@, codec),
                ),
                refresh_json(
                    run.provider,
                    run.account_id@,
                    outcome,
                    requests@,
                    store_source_label(run.credential_store@),
                    store_codec_label(run.credential_store@, codec),
                ),
            ),
            if outcome is Reauthorize {
                1
            } else {
                0
            },
        ),
    }
}

/// The output of `auth refresh`.
pub fn auth_refresh_output(run: &AuthRefreshRun, event: AuthRefreshEvent,
    passphrase_codec_label: &str) -> (r:
    CommandOutput)
    ensures
        r@ == auth_refresh_spec(*run, event, passphrase_codec_label@),
{
    match event {
        AuthRefreshEvent::DatabaseMissing => db_missing(run.db_path.as_str()),
        AuthRefreshEvent::OpenFailed(err) => db_open_failed(run.db_path.as_str(), err.as_str()),
        AuthRefreshEvent::RefreshFailed(k) => failure_with(
            1,
            "failed to refresh credential: ",
            credential_refresh_error_kind(k),
        ),
        AuthRefreshEvent::Done { outcome, requests } => {
            let source = run.credential_store.source_label();
            let codec = run.credential_store.codec_label(passphrase_codec_label);
            let mut out = match run.output_format {
                PlanOutputFormat::Text => text_report(
                    write_text_auth_refresh(
                        run.provider,
                        run.account_id.as_str(),
                        outcome,
                        &requests,
                        source,
                        codec,
                    ),
                ),
                PlanOutputFormat::Json => json_report(
                    write_json_auth_refresh(
                        run.provider,
                        run.account_id.as_str(),
                        outcome,
                        &requests,
                        source,
                        codec,
                    ),
                ),
            };
            out.exit_code = match outcome {
                RefreshOutcome::Reauthorize { .. } => 1,
                _ => 0,
            };
            out
        },
    }
}

// ---------------------------------------------------------------------------
// auth authorize-url
// ---------------------------------------------------------------------------

/// A built authorization request.
pub struct AuthorizationRequest {
    pub url: String,
    pub endpoint_source: OAuthEndpointSource,
    pub sensitive_url: bool,
}

/// What `auth authorize-url` prints: the argument error of a request that
/// cannot be built, or the report, which shows the URL only when asked.
pub open spec fn auth_authorize_url_spec(
    provider: Provider,
    show_url: bool,
    format: PlanOutputFormat,
    request: Result<AuthorizationRequest, String>,
) -> CommandOutputView {
    match request {
        Err(err) => failure_spec(2, "failed to build authorization url: "@ + err@),
        Ok(req) => report_output(
            format,
            authorize_url_text(provider, req.endpoint_source, req.sensitive_url, req.url@,
                show_url),
            authorize_url_json(provider, req.endpoint_source, req.sensitive_url, req.url@,
                show_url),
        ),
    }
}

/// The output of `auth authorize-url` once the request was built.
pub fn auth_authorize_url_output(
    options: &AuthAuthorizeUrlOptions,
    request: Result<AuthorizationRequest, String>,
) -> (r: CommandOutput)
    requires
        options.provider is Some,
    ensures
        r@ == auth_authorize_url_spec(
            options.provider.unwrap(),
            options.show_sensitive_authorization_url,
            options.output_format,
            request,
        ),
{
    let provider = options.provider.unwrap();
    let show = options.show_sensitive_authorization_url;
    match request {
        Err(err) => failure_with(2, "failed to build authorization url: ", err.as_str()),
        Ok(req) => match options.output_format {
            PlanOutputFormat::Text => text_report(
                write_text_auth_authorize_url(
                    provider,
                    req.endpoint_source,
                    req.sensitive_url,
                    req.url.as_str(),
                    show,
                ),
            ),
            PlanOutputFormat::Json => json_report(
                write_json_auth_authorize_url(
                    provider,
                    req.endpoint_source,
                    req.sensitive_url,
                    req.url.as_str(),
                    show,
                ),
            ),
        },
    }
}

} // verus!

verus! {

/// `auth begin` keeps the sensitive authorization URL out of its report
/// unless it was asked to show it: without
/// `--show-sensitive-authorization-url`, the output is the same whatever
/// the URL is.
pub proof fn lemma_begin_report_hides_url(
    run: AuthBeginRun,
    endpoint_source: OAuthEndpointSource,
    url1: String,
    url2: String,
)
    requires
        !run.show_sensitive_authorization_url,
    ensures
        auth_begin_spec(run, AuthBeginEvent::Written { endpoint_source, authorization_url: url1 })
            == auth_begin_spec(
            run,
            AuthBeginEvent::Written { endpoint_source, authorization_url: url2 },
        ),
{
}

/// `auth authorize-url` keeps the URL out of its report unless it was asked
/// to show it.
pub proof fn lemma_authorize_url_report_hides_url(
    provider: Provider,
    format: PlanOutputFormat,
    req1: AuthorizationRequest,
    req2: AuthorizationRequest,
)
    requires
        req1.endpoint_source == req2.endpoint_source,
        req1.sensitive_url == req2.sensitive_url,
    ensures
        auth_authorize_url_spec(provider, false, format, Ok(req1)) == auth_authorize_url_spec(
            provider,
            false,
            format,
            Ok(req2),
        ),
{
}

} // verus!

verus! {

/// The PKCE verifier `auth begin` draws for a provider from the random
/// bytes it read: MyAnimeList sessions carry one, others none.
pub open spec fn begun_verifier(provider: Provider, verifier_bytes: Seq<u8>) -> Option<Seq<char>> {
    if provider == Provider::MyAnimeList {
        Some(base64url_spec(verifier_bytes))
    } else {
        None
    }
}

/// The session `auth begin` began for `options` at the clock time, with the
/// state and verifier drawn from the given random bytes.
pub open spec fn begun_session(
    options: AuthBeginOptions,
    clock: i64,
    state_bytes: Seq<u8>,
    verifier_bytes: Seq<u8>,
    endpoint_source: OAuthEndpointSource,
) -> AuthSessionView {
    AuthSessionView {
        provider: options.provider.unwrap(),
        client_id: options.client_id.unwrap()@,
        redirect_uri: options.redirect_uri.unwrap()@,
        state: base64url_spec(state_bytes),
        pkce_code_verifier: begun_verifier(options.provider.unwrap(), verifier_bytes),
        endpoint_source: endpoint_source_name(endpoint_source),
        bootstrap_mode: "auth_broker"@,
        expires_at_epoch_secs: (resolve_now(options.now_unix_seconds, clock)
            + AUTH_SESSION_TTL_SECONDS) as i64,
    }
}

/// The session record `auth begin` writes for its run reads back as the
/// session it began: the provider, client id and redirect URI it was given,
/// the state and verifier it drew, and an expiry one session lifetime after
/// the time it ran at. A verifier is there exactly for MyAnimeList. The
/// client id and redirect URI must hold no control character (the record
/// would be refused when read back).
pub proof fn lemma_begun_session_reads_back(
    options: AuthBeginOptions,
    clock: i64,
    run: AuthBeginRun,
    state_bytes: Seq<u8>,
    verifier_bytes: Seq<u8>,
    endpoint_source: OAuthEndpointSource,
    d: AuthSessionDocument,
)
    requires
        begun_from(run, options, clock),
        !blank(options.client_id.unwrap()@),
        !has_ctrl(options.client_id.unwrap()@),
        !blank(options.redirect_uri.unwrap()@),
        !has_ctrl(options.redirect_uri.unwrap()@),
        state_bytes.len() == AUTH_STATE_BYTES,
        verifier_bytes.len() == PKCE_VERIFIER_BYTES,
        begin_document_matches(
            d,
            run.provider,
            run.client_id@,
            run.redirect_uri@,
            base64url_spec(state_bytes),
            begun_verifier(run.provider, verifier_bytes),
            endpoint_source,
            run.created_at_epoch_secs,
            run.expires_at_epoch_secs,
        ),
    ensures
        session_spec(d) == Some(
            begun_session(options, clock, state_bytes, verifier_bytes, endpoint_source),
        ),
        (session_spec(d).unwrap().pkce_code_verifier is Some) == (options.provider.unwrap()
            == Provider::MyAnimeList),
{
    lemma_token_is_state_value(state_bytes);
    lemma_token_is_pkce_plain(verifier_bytes);
    lemma_begin_session_reads_back(
        d,
        run.provider,
        run.client_id@,
        run.redirect_uri@,
        base64url_spec(state_bytes),
        begun_verifier(run.provider, verifier_bytes),
        endpoint_source,
        run.created_at_epoch_secs,
        run.expires_at_epoch_secs,
    );
}

/// A callback plan on the session `auth begin` wrote succeeds: a callback
/// that carries the drawn state and a usable code, and no provider error,
/// completes the session at any time before it expires, and the plan
/// reports that session (with a PKCE verifier exactly for MyAnimeList).
pub proof fn lemma_begun_session_accepts_its_callback(
    options: AuthBeginOptions,
    clock: i64,
    run: AuthBeginRun,
    state_bytes: Seq<u8>,
    verifier_bytes: Seq<u8>,
    endpoint_source: OAuthEndpointSource,
    d: AuthSessionDocument,
    callback_url: Seq<char>,
    ps: Seq<(Seq<char>, Seq<char>)>,
    code: Seq<char>,
    now: i64,
)
    requires
        begun_from(run, options, clock),
        !blank(options.client_id.unwrap()@),
        !has_ctrl(options.client_id.unwrap()@),
        !blank(options.redirect_uri.unwrap()@),
        !has_ctrl(options.redirect_uri.unwrap()@),
        state_bytes.len() == AUTH_STATE_BYTES,
        verifier_bytes.len() == PKCE_VERIFIER_BYTES,
        begin_document_matches(
            d,
            run.provider,
            run.client_id@,
            run.redirect_uri@,
            base64url_spec(state_bytes),
            begun_verifier(run.provider, verifier_bytes),
            endpoint_source,
            run.created_at_epoch_secs,
            run.expires_at_epoch_secs,
        ),
        parse_callback_spec(callback_url) == Some(ps),
        param_lookup(ps, "state"@) == Some(base64url_spec(state_bytes)),
        param_lookup(ps, "error"@) is None,
        param_lookup(ps, "code"@) == Some(code),
        !blank(code),
        !has_ctrl(code),
        now < run.expires_at_epoch_secs,
    ensures
        callback_check_spec(
            begun_session(options, clock, state_bytes, verifier_bytes, endpoint_source),
            ps,
            now,
        ) == Ok::<bool, Seq<char>>(true),
        callback_outcome(Ok(d), callback_url, now) == Ok::<
            (AuthSessionView, Seq<(Seq<char>, Seq<char>)>),
            Seq<char>,
        >((begun_session(options, clock, state_bytes, verifier_bytes, endpoint_source), ps)),
{
    lemma_begun_session_reads_back(
        options,
        clock,
        run,
        state_bytes,
        verifier_bytes,
        endpoint_source,
        d,
    );
}

/// `auth callback-plan` on the session file `auth begin` wrote, with the
/// callback URL the provider sends back (any base without `?` or `#`, then
/// `?code=` and a plain, usable code, then `&state=` and the drawn state),
/// at any time before the session expires: it reports the session as ready
/// for the code exchange, and exits with status 0.
pub proof fn lemma_begun_session_plans_its_callback_url(
    options: AuthBeginOptions,
    clock: i64,
    run: AuthBeginRun,
    state_bytes: Seq<u8>,
    verifier_bytes: Seq<u8>,
    endpoint_source: OAuthEndpointSource,
    d: AuthSessionDocument,
    base: Seq<char>,
    code: Seq<char>,
    now: i64,
    format: PlanOutputFormat,
)
    requires
        begun_from(run, options, clock),
        !blank(options.client_id.unwrap()@),
        !has_ctrl(options.client_id.unwrap()@),
        !blank(options.redirect_uri.unwrap()@),
        !has_ctrl(options.redirect_uri.unwrap()@),
        state_bytes.len() == AUTH_STATE_BYTES,
        verifier_bytes.len() == PKCE_VERIFIER_BYTES,
        begin_document_matches(
            d,
            run.provider,
            run.client_id@,
            run.redirect_uri@,
            base64url_spec(state_bytes),
            begun_verifier(run.provider, verifier_bytes),
            endpoint_source,
            run.created_at_epoch_secs,
            run.expires_at_epoch_secs,
        ),
        forall|i: int| 0 <= i < base.len() ==> #[trigger] base[i] != '?' && base[i] != '#',
        plain_query_value(code),
        !blank(code),
        !has_ctrl(code),
        now < run.expires_at_epoch_secs,
    ensures
        callback_plan_spec(
            format,
            Ok(d),
            base + "?code="@ + code + "&state="@ + base64url_spec(state_bytes),
            now,
        ) == report_output(
            format,
            callback_plan_text(
                begun_session(options, clock, state_bytes, verifier_bytes, endpoint_source),
                true,
            ),
            callback_plan_json(
                begun_session(options, clock, state_bytes, verifier_bytes, endpoint_source),
                true,
            ),
        ),
{
    let state = base64url_spec(state_bytes);
    lemma_base64url_url_safe(state_bytes);
    assert forall|i: int| 0 <= i < state.len() implies plain_query_char(#[trigger] state[i]) by {
        assert(crate::token::url_safe(state[i]));
    }
    lemma_callback_url_parameters(base, code, state);
    let ps = seq![("code"@, code), ("state"@, state)];
    let url = base + "?code="@ + code + "&state="@ + state;
    reveal_strlit("code");
    reveal_strlit("state");
    reveal_strlit("error");
    assert("state"@ != "code"@) by {
        assert("state"@[0] != "code"@[0]);
    }
    assert("error"@ != "code"@) by {
        assert("error"@[0] != "code"@[0]);
    }
    assert("error"@ != "state"@) by {
        assert("error"@[0] != "state"@[0]);
    }
    assert(ps.drop_last() =~= seq![("code"@, code)]);
    assert(seq![("code"@, code)].drop_last() =~= Seq::<(Seq<char>, Seq<char>)>::empty());
    assert(param_lookup(ps, "state"@) == Some(state));
    assert(param_lookup(seq![("code"@, code)], "code"@) == Some(code));
    assert(param_lookup(ps, "code"@) == Some(code));
    assert(param_lookup(Seq::<(Seq<char>, Seq<char>)>::empty(), "error"@) is None);
    assert(param_lookup(seq![("code"@, code)], "error"@) is None);
    assert(param_lookup(ps, "error"@) is None);
    lemma_begun_session_accepts_its_callback(
        options,
        clock,
        run,
        state_bytes,
        verifier_bytes,
        endpoint_source,
        d,
        url,
        ps,
        code,
        now,
    );
}

} // verus!
