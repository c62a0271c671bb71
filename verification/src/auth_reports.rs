//! What the `auth` subcommands report, as text and as JSON, and the
//! callback-plan command from its options to its output.

use vstd::prelude::*;
use crate::cli::{failure, failure_spec, CommandOutput};
use crate::json::{
    json_get, json_str, lemma_member_value_at, lemma_member_value_concat, member_value, Json,
    JsonObject, JsonValue,
};
use crate::model::{provider_name, PlanOutputFormat, Provider};
use crate::session::{
    auth_bootstrap_mode_name, bootstrap_mode_name, endpoint_source_name,
    oauth_endpoint_source_name, AuthBootstrapMode, AuthSession, AuthSessionView,
    OAuthEndpointSource,
};
use crate::text::{
    bool_text, concat, int_text, lemma_occurs_between, nat_text, occurs_at, push_bool, push_i64,
    push_str, push_u64,
};

verus! {

// ---------------------------------------------------------------------------
// Names
// ---------------------------------------------------------------------------

/// What a stored credential needs before it can be used.
#[derive(Clone, Copy, Debug, PartialEq, Eq, Structural)]
pub enum CredentialAction {
    UseStoredAccessToken,
    RefreshWithProvider,
    Reauthorize { preferred_mode: AuthBootstrapMode },
}

/// What a check of the stored credential secret found.
#[derive(Clone, Copy, Debug, PartialEq, Eq, Structural)]
pub enum SecretPreflightOutcome {
    AccessTokenReadable,
    RefreshTokenReadable,
    Reauthorize { preferred_mode: AuthBootstrapMode },
}

/// The OAuth flow a credential was installed through.
#[derive(Clone, Copy, Debug, PartialEq, Eq, Structural)]
pub enum AuthFlow {
    AuthorizationCode,
    AuthorizationCodePkcePlain,
}

/// What is known of a credential's refresh token.
#[derive(Clone, Copy, Debug, PartialEq, Eq, Structural)]
pub enum RefreshTokenState {
    Absent,
    PresentWithUnknownExpiry,
    PresentExpiresAt { expires_at_epoch_secs: i64 },
}

/// The installed or refreshed credential, as reports show it.
#[derive(Clone, Copy, Debug, PartialEq, Eq, Structural)]
pub struct CredentialExchange {
    pub auth_flow: AuthFlow,
    pub bootstrap_mode: AuthBootstrapMode,
    pub access_token_expires_at_epoch_secs: i64,
    pub refresh_token: RefreshTokenState,
}

/// What `auth refresh` did.
#[derive(Clone, Copy, Debug, PartialEq, Eq, Structural)]
pub enum RefreshOutcome {
    UseStoredAccessToken,
    Reauthorize { preferred_mode: AuthBootstrapMode },
    Refreshed(CredentialExchange),
}

/// Why refreshing a stored credential failed.
#[derive(Clone, Copy, Debug, PartialEq, Eq, Structural)]
pub enum CredentialRefreshError {
    Store,
    Auth,
    RefreshCommitConflict,
}

/// Why installing a credential failed.
#[derive(Clone, Copy, Debug, PartialEq, Eq, Structural)]
pub enum AuthCredentialInstallError {
    BuildRequest,
    OpenDatabase,
    Exchange,
    PersistMetadata,
}

pub open spec fn action_name(a: CredentialAction) -> Seq<char> {
    match a {
        CredentialAction::UseStoredAccessToken => "use"@,
        CredentialAction::RefreshWithProvider => "refresh"@,
        CredentialAction::Reauthorize { .. } => "reauthorize"@,
    }
}

pub open spec fn action_mode_suffix(a: CredentialAction) -> Seq<char> {
    match a {
        CredentialAction::Reauthorize { preferred_mode } => " mode="@ + bootstrap_mode_name(
            preferred_mode,
        ),
        _ => Seq::empty(),
    }
}

pub open spec fn preflight_name(o: SecretPreflightOutcome) -> Seq<char> {
    match o {
        SecretPreflightOutcome::AccessTokenReadable => "access_secret_readable"@,
        SecretPreflightOutcome::RefreshTokenReadable => "refresh_secret_readable"@,
        SecretPreflightOutcome::Reauthorize { .. } => "not_checked_reauthorize"@,
    }
}

pub open spec fn flow_name(f: AuthFlow) -> Seq<char> {
    match f {
        AuthFlow::AuthorizationCode => "authorization_code"@,
        AuthFlow::AuthorizationCodePkcePlain => "authorization_code_pkce_plain"@,
    }
}

pub open spec fn refresh_state_name(s: RefreshTokenState) -> Seq<char> {
    match s {
        RefreshTokenState::Absent => "absent"@,
        RefreshTokenState::PresentWithUnknownExpiry => "present_with_unknown_expiry"@,
        RefreshTokenState::PresentExpiresAt { .. } => "present_with_expiry"@,
    }
}

pub open spec fn refresh_error_kind(e: CredentialRefreshError) -> Seq<char> {
    match e {
        CredentialRefreshError::Store => "store_error"@,
        CredentialRefreshError::Auth => "auth_error"@,
        CredentialRefreshError::RefreshCommitConflict => "metadata_commit_conflict"@,
    }
}

/// The name of a credential action in reports.
pub fn credential_action_name(action: CredentialAction) -> (r: &'static str)
    ensures
        r@ == action_name(action),
{
    match action {
        CredentialAction::UseStoredAccessToken => "use",
        CredentialAction::RefreshWithProvider => "refresh",
        CredentialAction::Reauthorize { .. } => "reauthorize",
    }
}

/// ` mode=<mode>` for a reauthorization, nothing otherwise.
pub fn credential_action_mode_suffix(action: CredentialAction) -> (r: String)
    ensures
        r@ == action_mode_suffix(action),
{
    match action {
        CredentialAction::Reauthorize { preferred_mode } => concat(
            " mode=",
            auth_bootstrap_mode_name(preferred_mode),
        ),
        _ => String::new(),
    }
}

/// The name of a secret check outcome in reports.
pub fn secret_preflight_outcome_name(outcome: SecretPreflightOutcome) -> (r: &'static str)
    ensures
        r@ == preflight_name(outcome),
{
    match outcome {
        SecretPreflightOutcome::AccessTokenReadable => "access_secret_readable",
        SecretPreflightOutcome::RefreshTokenReadable => "refresh_secret_readable",
        SecretPreflightOutcome::Reauthorize { .. } => "not_checked_reauthorize",
    }
}

/// The name of an OAuth flow in reports.
pub fn auth_flow_name(flow: AuthFlow) -> (r: &'static str)
    ensures
        r@ == flow_name(flow),
{
    match flow {
        AuthFlow::AuthorizationCode => "authorization_code",
        AuthFlow::AuthorizationCodePkcePlain => "authorization_code_pkce_plain",
    }
}

/// The name of a refresh token state in reports.
pub fn refresh_token_state_name(state: RefreshTokenState) -> (r: &'static str)
    ensures
        r@ == refresh_state_name(state),
{
    match state {
        RefreshTokenState::Absent => "absent",
        RefreshTokenState::PresentWithUnknownExpiry => "present_with_unknown_expiry",
        RefreshTokenState::PresentExpiresAt { .. } => "present_with_expiry",
    }
}

/// The kind of a refresh failure in messages.
pub fn credential_refresh_error_kind(error: CredentialRefreshError) -> (r: &'static str)
    ensures
        r@ == refresh_error_kind(error),
{
    match error {
        CredentialRefreshError::Store => "store_error",
        CredentialRefreshError::Auth => "auth_error",
        CredentialRefreshError::RefreshCommitConflict => "metadata_commit_conflict",
    }
}

/// The message and exit status for a failed credential install: a request
/// that cannot be built is an argument error (2), the rest are failures (1).
pub open spec fn install_error_output(e: AuthCredentialInstallError) -> (i32, Seq<char>) {
    match e {
        AuthCredentialInstallError::BuildRequest => (
            2,
            "failed to build token exchange request: auth_error"@,
        ),
        AuthCredentialInstallError::OpenDatabase => (1, "failed to open db: store_error"@),
        AuthCredentialInstallError::Exchange => (
            1,
            "failed to exchange authorization code: auth_error"@,
        ),
        AuthCredentialInstallError::PersistMetadata => (
            1,
            "failed to persist credential metadata: store_error"@,
        ),
    }
}

/// The output for a failed credential install.
pub fn auth_install_error_output(e: AuthCredentialInstallError) -> (r: CommandOutput)
    ensures
        r@ == failure_spec(install_error_output(e).0, install_error_output(e).1),
{
    match e {
        AuthCredentialInstallError::BuildRequest => failure(
            2,
            "failed to build token exchange request: auth_error",
        ),
        AuthCredentialInstallError::OpenDatabase => failure(1, "failed to open db: store_error"),
        AuthCredentialInstallError::Exchange => failure(
            1,
            "failed to exchange authorization code: auth_error",
        ),
        AuthCredentialInstallError::PersistMetadata => failure(
            1,
            "failed to persist credential metadata: store_error",
        ),
    }
}

/// The endpoint source of the first token request, or `none`.
pub open spec fn first_endpoint_name(requests: Seq<OAuthEndpointSource>) -> Seq<char> {
    if requests.len() > 0 {
        endpoint_source_name(requests[0])
    } else {
        "none"@
    }
}

fn first_endpoint(requests: &Vec<OAuthEndpointSource>) -> (r: &'static str)
    ensures
        r@ == first_endpoint_name(requests@),
{
    if requests.len() > 0 {
        oauth_endpoint_source_name(requests[0])
    } else {
        "none"
    }
}

// ---------------------------------------------------------------------------
// auth callback-plan
// ---------------------------------------------------------------------------

pub open spec fn callback_plan_text(s: AuthSessionView, code_present: bool) -> Seq<char> {
    "sync-v2 auth callback-plan: provider="@ + provider_name(s.provider)
        + " local-only opens_browser=false network=false exchanges_token=false writes_database=false state_valid=true authorization_code_present="@
        + bool_text(code_present) + " pkce_required="@ + bool_text(
        s.provider == Provider::MyAnimeList,
    ) + " pkce_available="@ + bool_text(s.pkce_code_verifier is Some)
        + " ready_for_exchange=true endpoint_source="@ + s.endpoint_source + " bootstrap_mode="@
        + s.bootstrap_mode + "\n"@
}

/// The text report of `auth callback-plan`.
pub fn write_text_auth_callback_plan(session: &AuthSession, authorization_code_present: bool) -> (r:
    String)
    ensures
        r@ == callback_plan_text(session@, authorization_code_present),
{
    let mut out = concat("sync-v2 auth callback-plan: provider=", session.provider.as_str());
    push_str(
        &mut out,
        " local-only opens_browser=false network=false exchanges_token=false writes_database=false state_valid=true authorization_code_present=",
    );
    push_bool(&mut out, authorization_code_present);
    push_str(&mut out, " pkce_required=");
    push_bool(&mut out, session.provider == Provider::MyAnimeList);
    push_str(&mut out, " pkce_available=");
    push_bool(&mut out, session.pkce_code_verifier.is_some());
    push_str(&mut out, " ready_for_exchange=true endpoint_source=");
    push_str(&mut out, session.endpoint_source.as_str());
    push_str(&mut out, " bootstrap_mode=");
    push_str(&mut out, session.bootstrap_mode.as_str());
    push_str(&mut out, "\n");
    assert(out@ =~= callback_plan_text(session@, authorization_code_present));
    out
}

pub open spec fn callback_plan_json(s: AuthSessionView, code_present: bool) -> Json {
    Json::Object(
        seq![
            ("provider"@, Json::Str(provider_name(s.provider))),
            ("local_only"@, Json::Bool(true)),
            ("opens_browser"@, Json::Bool(false)),
            ("network"@, Json::Bool(false)),
            ("exchanges_token"@, Json::Bool(false)),
            ("writes_database"@, Json::Bool(false)),
            ("state_valid"@, Json::Bool(true)),
            ("authorization_code_present"@, Json::Bool(code_present)),
            ("pkce_required"@, Json::Bool(s.provider == Provider::MyAnimeList)),
            ("pkce_available"@, Json::Bool(s.pkce_code_verifier is Some)),
            ("ready_for_exchange"@, Json::Bool(true)),
            ("endpoint_source"@, Json::Str(s.endpoint_source)),
            ("bootstrap_mode"@, Json::Str(s.bootstrap_mode)),
            ("expires_at_epoch_secs"@, Json::Int(s.expires_at_epoch_secs as int)),
        ],
    )
}

/// The JSON report of `auth callback-plan`.
pub fn write_json_auth_callback_plan(session: &AuthSession, authorization_code_present: bool) -> (r:
    JsonValue)
    ensures
        r@ == callback_plan_json(session@, authorization_code_present),
{
    let mut o = JsonObject::new();
    o.insert("provider", json_str(session.provider.as_str()));
    o.insert("local_only", JsonValue::Bool(true));
    o.insert("opens_browser", JsonValue::Bool(false));
    o.insert("network", JsonValue::Bool(false));
    o.insert("exchanges_token", JsonValue::Bool(false));
    o.insert("writes_database", JsonValue::Bool(false));
    o.insert("state_valid", JsonValue::Bool(true));
    o.insert("authorization_code_present", JsonValue::Bool(authorization_code_present));
    o.insert("pkce_required", JsonValue::Bool(session.provider == Provider::MyAnimeList));
    o.insert("pkce_available", JsonValue::Bool(session.pkce_code_verifier.is_some()));
    o.insert("ready_for_exchange", JsonValue::Bool(true));
    o.insert("endpoint_source", json_str(session.endpoint_source.as_str()));
    o.insert("bootstrap_mode", json_str(session.bootstrap_mode.as_str()));
    o.insert("expires_at_epoch_secs", JsonValue::Int(session.expires_at_epoch_secs));
    let ghost members = o@;
    assert(members =~= callback_plan_json(session@, authorization_code_present)->Object_0);
    o.into_value()
}

// ---------------------------------------------------------------------------
// auth begin and auth authorize-url
// ---------------------------------------------------------------------------

/// The text report of `auth begin`; the authorization URL appears only when
/// it was asked for.
pub open spec fn begin_text(
    provider: Provider,
    url: Option<Seq<char>>,
    source: OAuthEndpointSource,
    created: i64,
    expires: i64,
) -> Seq<char> {
    "sync-v2 auth begin: provider="@ + provider_name(provider)
        + " local-only opens_browser=false network=false exchanges_token=false writes_database=false session_file_written=true endpoint_source="@
        + endpoint_source_name(source)
        + " bootstrap_mode=auth_broker sensitive_url=true authorization_url_suppressed="@
        + bool_text(url is None) + " created_at="@ + int_text(created as int) + " expires_at="@
        + int_text(expires as int) + match url {
        Some(u) => " authorization_url="@ + u,
        None => Seq::empty(),
    } + "\n"@
}

pub open spec fn opt_ref_view(o: Option<&str>) -> Option<Seq<char>> {
    match o {
        Some(s) => Some(s@),
        None => None,
    }
}

/// The text report of `auth begin`.
pub fn write_text_auth_begin(
    provider: Provider,
    authorization_url: Option<&str>,
    endpoint_source: OAuthEndpointSource,
    created_at_epoch_secs: i64,
    expires_at_epoch_secs: i64,
) -> (r: String)
    ensures
        r@ == begin_text(
            provider,
            opt_ref_view(authorization_url),
            endpoint_source,
            created_at_epoch_secs,
            expires_at_epoch_secs,
        ),
{
    let mut out = concat("sync-v2 auth begin: provider=", provider.as_str());
    push_str(
        &mut out,
        " local-only opens_browser=false network=false exchanges_token=false writes_database=false session_file_written=true endpoint_source=",
    );
    push_str(&mut out, oauth_endpoint_source_name(endpoint_source));
    push_str(&mut out,
        " bootstrap_mode=auth_broker sensitive_url=true authorization_url_suppressed=");
    push_bool(&mut out, authorization_url.is_none());
    push_str(&mut out, " created_at=");
    push_i64(&mut out, created_at_epoch_secs);
    push_str(&mut out, " expires_at=");
    push_i64(&mut out, expires_at_epoch_secs);
    match authorization_url {
        Some(u) => {
            push_str(&mut out, " authorization_url=");
            push_str(&mut out, u);
        },
        None => {},
    }
    push_str(&mut out, "\n");
    assert(out@ =~= begin_text(
        provider,
        opt_ref_view(authorization_url),
        endpoint_source,
        created_at_epoch_secs,
        expires_at_epoch_secs,
    ));
    out
}

/// The JSON report of `auth begin`.
pub open spec fn begin_json(
    provider: Provider,
    url: Option<Seq<char>>,
    source: OAuthEndpointSource,
    created: i64,
    expires: i64,
) -> Json {
    Json::Object(
        seq![
            ("provider"@, Json::Str(provider_name(provider))),
            ("local_only"@, Json::Bool(true)),
            ("opens_browser"@, Json::Bool(false)),
            ("network"@, Json::Bool(false)),
            ("exchanges_token"@, Json::Bool(false)),
            ("writes_database"@, Json::Bool(false)),
            ("session_file_written"@, Json::Bool(true)),
            ("endpoint_source"@, Json::Str(endpoint_source_name(source))),
            ("bootstrap_mode"@, Json::Str("auth_broker"@)),
            ("sensitive_url"@, Json::Bool(true)),
            ("authorization_url_suppressed"@, Json::Bool(url is None)),
            ("created_at_epoch_secs"@, Json::Int(created as int)),
            ("expires_at_epoch_secs"@, Json::Int(expires as int)),
        ] + match url {
            Some(u) => seq![("authorization_url"@, Json::Str(u))],
            None => Seq::empty(),
        },
    )
}

/// The JSON report of `auth begin`.
pub fn write_json_auth_begin(
    provider: Provider,
    authorization_url: Option<&str>,
    endpoint_source: OAuthEndpointSource,
    created_at_epoch_secs: i64,
    expires_at_epoch_secs: i64,
) -> (r: JsonValue)
    ensures
        r@ == begin_json(
            provider,
            opt_ref_view(authorization_url),
            endpoint_source,
            created_at_epoch_secs,
            expires_at_epoch_secs,
        ),
{
    let mut o = JsonObject::new();
    o.insert("provider", json_str(provider.as_str()));
    o.insert("local_only", JsonValue::Bool(true));
    o.insert("opens_browser", JsonValue::Bool(false));
    o.insert("network", JsonValue::Bool(false));
    o.insert("exchanges_token", JsonValue::Bool(false));
    o.insert("writes_database", JsonValue::Bool(false));
    o.insert("session_file_written", JsonValue::Bool(true));
    o.insert("endpoint_source", json_str(oauth_endpoint_source_name(endpoint_source)));
    o.insert("bootstrap_mode", json_str("auth_broker"));
    o.insert("sensitive_url", JsonValue::Bool(true));
    o.insert("authorization_url_suppressed", JsonValue::Bool(authorization_url.is_none()));
    o.insert("created_at_epoch_secs", JsonValue::Int(created_at_epoch_secs));
    o.insert("expires_at_epoch_secs", JsonValue::Int(expires_at_epoch_secs));
    match authorization_url {
        Some(u) => o.insert("authorization_url", json_str(u)),
        None => {},
    }
    assert(o@ =~= begin_json(
        provider,
        opt_ref_view(authorization_url),
        endpoint_source,
        created_at_epoch_secs,
        expires_at_epoch_secs,
    )->Object_0);
    o.into_value()
}

/// The text report of `auth authorize-url`; the URL appears only when
/// `show_url` is set.
pub open spec fn authorize_url_text(
    provider: Provider,
    source: OAuthEndpointSource,
    sensitive_url: bool,
    url: Seq<char>,
    show_url: bool,
) -> Seq<char> {
    "sync-v2 auth authorize-url: provider="@ + provider_name(provider) + " endpoint_source="@
        + endpoint_source_name(source)
        + " local-only opens_browser=false exchanges_token=false sensitive_url="@ + bool_text(
        sensitive_url,
    ) + " authorization_url_suppressed="@ + bool_text(!show_url) + (if show_url {
        " authorization_url="@ + url
    } else {
        Seq::empty()
    }) + "\n"@
}

/// The text report of `auth authorize-url`.
pub fn write_text_auth_authorize_url(
    provider: Provider,
    endpoint_source: OAuthEndpointSource,
    sensitive_url: bool,
    url: &str,
    show_url: bool,
) -> (r: String)
    ensures
        r@ == authorize_url_text(provider, endpoint_source, sensitive_url, url@, show_url),
{
    let mut out = concat("sync-v2 auth authorize-url: provider=", provider.as_str());
    push_str(&mut out, " endpoint_source=");
    push_str(&mut out, oauth_endpoint_source_name(endpoint_source));
    push_str(&mut out, " local-only opens_browser=false exchanges_token=false sensitive_url=");
    push_bool(&mut out, sensitive_url);
    push_str(&mut out, " authorization_url_suppressed=");
    push_bool(&mut out, !show_url);
    if show_url {
        push_str(&mut out, " authorization_url=");
        push_str(&mut out, url);
    }
    push_str(&mut out, "\n");
    assert(out@ =~= authorize_url_text(provider, endpoint_source, sensitive_url, url@, show_url));
    out
}

/// The JSON report of `auth authorize-url`.
pub open spec fn authorize_url_json(
    provider: Provider,
    source: OAuthEndpointSource,
    sensitive_url: bool,
    url: Seq<char>,
    show_url: bool,
) -> Json {
    Json::Object(
        seq![
            ("provider"@, Json::Str(provider_name(provider))),
            ("local_only"@, Json::Bool(true)),
            ("opens_browser"@, Json::Bool(false)),
            ("exchanges_token"@, Json::Bool(false)),
            ("endpoint_source"@, Json::Str(endpoint_source_name(source))),
            ("sensitive_url"@, Json::Bool(sensitive_url)),
            ("authorization_url_suppressed"@, Json::Bool(!show_url)),
        ] + if show_url {
            seq![("authorization_url"@, Json::Str(url))]
        } else {
            Seq::empty()
        },
    )
}

/// The JSON report of `auth authorize-url`.
pub fn write_json_auth_authorize_url(
    provider: Provider,
    endpoint_source: OAuthEndpointSource,
    sensitive_url: bool,
    url: &str,
    show_url: bool,
) -> (r: JsonValue)
    ensures
        r@ == authorize_url_json(provider, endpoint_source, sensitive_url, url@, show_url),
{
    let mut o = JsonObject::new();
    o.insert("provider", json_str(provider.as_str()));
    o.insert("local_only", JsonValue::Bool(true));
    o.insert("opens_browser", JsonValue::Bool(false));
    o.insert("exchanges_token", JsonValue::Bool(false));
    o.insert("endpoint_source", json_str(oauth_endpoint_source_name(endpoint_source)));
    o.insert("sensitive_url", JsonValue::Bool(sensitive_url));
    o.insert("authorization_url_suppressed", JsonValue::Bool(!show_url));
    if show_url {
        o.insert("authorization_url", json_str(url));
    }
    assert(o@ =~= authorize_url_json(provider, endpoint_source, sensitive_url, url@,
        show_url)->Object_0);
    o.into_value()
}

// ---------------------------------------------------------------------------
// auth status
// ---------------------------------------------------------------------------

/// `prefix` and the value, when there is one.
pub open spec fn opt_field(prefix: Seq<char>, v: Option<Seq<char>>) -> Seq<char> {
    match v {
        Some(x) => prefix + x,
        None => Seq::empty(),
    }
}

pub open spec fn opt_preflight_name(o: Option<SecretPreflightOutcome>) -> Option<Seq<char>> {
    match o {
        Some(x) => Some(preflight_name(x)),
        None => None,
    }
}

/// The text report of `auth status`.
pub open spec fn status_text(
    provider: Provider,
    account: Seq<char>,
    action: CredentialAction,
    presence: Seq<char>,
    source: Option<Seq<char>>,
    codec: Option<Seq<char>>,
    preflight: Option<SecretPreflightOutcome>,
) -> Seq<char> {
    "sync-v2 auth status: provider="@ + provider_name(provider) + " account="@ + account
        + " action="@ + action_name(action) + action_mode_suffix(action) + " credential="@
        + presence
        + " read-only local-only opens_browser=false network=false metadata_updated=false token_request_count=0"@
        + opt_field(" credential_source="@, source) + opt_field(" credential_bundle_codec="@, codec)
        + opt_field(" secret_preflight="@, opt_preflight_name(preflight)) + "\n"@
}

/// The text report of `auth status`.
pub fn write_text_auth_status(
    provider: Provider,
    account_id: &str,
    action: CredentialAction,
    credential_presence: &str,
    credential_source_label: Option<&str>,
    credential_bundle_codec_label: Option<&str>,
    secret_preflight: Option<SecretPreflightOutcome>,
) -> (r: String)
    ensures
        r@ == status_text(
            provider,
            account_id@,
            action,
            credential_presence@,
            opt_ref_view(credential_source_label),
            opt_ref_view(credential_bundle_codec_label),
            secret_preflight,
        ),
{
    let mut out = concat("sync-v2 auth status: provider=", provider.as_str());
    push_str(&mut out, " account=");
    push_str(&mut out, account_id);
    push_str(&mut out, " action=");
    push_str(&mut out, credential_action_name(action));
    let suffix = credential_action_mode_suffix(action);
    push_str(&mut out, suffix.as_str());
    push_str(&mut out, " credential=");
    push_str(&mut out, credential_presence);
    push_str(
        &mut out,
        " read-only local-only opens_browser=false network=false metadata_updated=false token_request_count=0",
    );
    match credential_source_label {
        Some(l) => {
            push_str(&mut out, " credential_source=");
            push_str(&mut out, l);
        },
        None => {},
    }
    match credential_bundle_codec_label {
        Some(l) => {
            push_str(&mut out, " credential_bundle_codec=");
            push_str(&mut out, l);
        },
        None => {},
    }
    match secret_preflight {
        Some(o) => {
            push_str(&mut out, " secret_preflight=");
            push_str(&mut out, secret_preflight_outcome_name(o));
        },
        None => {},
    }
    push_str(&mut out, "\n");
    assert(out@ =~= status_text(
        provider,
        account_id@,
        action,
        credential_presence@,
        opt_ref_view(credential_source_label),
        opt_ref_view(credential_bundle_codec_label),
        secret_preflight,
    ));
    out
}

/// The JSON report of `auth status`.
pub open spec fn status_json(
    provider: Provider,
    account: Seq<char>,
    action: CredentialAction,
    presence: Seq<char>,
    source: Option<Seq<char>>,
    codec: Option<Seq<char>>,
    preflight: Option<SecretPreflightOutcome>,
) -> Json {
    Json::Object(
        seq![
            ("provider"@, Json::Str(provider_name(provider))),
            ("account"@, Json::Str(account)),
            ("action"@, Json::Str(action_name(action))),
            ("credential"@, Json::Str(presence)),
            ("read_only"@, Json::Bool(true)),
            ("local_only"@, Json::Bool(true)),
            ("opens_browser"@, Json::Bool(false)),
            ("network"@, Json::Bool(false)),
            ("metadata_updated"@, Json::Bool(false)),
            ("token_request_count"@, Json::Int(0)),
        ] + (match action {
            CredentialAction::Reauthorize { preferred_mode } => seq![
                ("mode"@, Json::Str(bootstrap_mode_name(preferred_mode))),
            ],
            _ => Seq::empty(),
        }) + (match source {
            Some(l) => seq![("credential_source"@, Json::Str(l))],
            None => Seq::empty(),
        }) + (match codec {
            Some(l) => seq![("credential_bundle_codec"@, Json::Str(l))],
            None => Seq::empty(),
        }) + match preflight {
            Some(o) => seq![("secret_preflight"@, Json::Str(preflight_name(o)))],
            None => Seq::empty(),
        },
    )
}

/// The JSON report of `auth status`.
pub fn write_json_auth_status(
    provider: Provider,
    account_id: &str,
    action: CredentialAction,
    credential_presence: &str,
    credential_source_label: Option<&str>,
    credential_bundle_codec_label: Option<&str>,
    secret_preflight: Option<SecretPreflightOutcome>,
) -> (r: JsonValue)
    ensures
        r@ == status_json(
            provider,
            account_id@,
            action,
            credential_presence@,
            opt_ref_view(credential_source_label),
            opt_ref_view(credential_bundle_codec_label),
            secret_preflight,
        ),
{
    let mut o = JsonObject::new();
    o.insert("provider", json_str(provider.as_str()));
    o.insert("account", json_str(account_id));
    o.insert("action", json_str(credential_action_name(action)));
    o.insert("credential", json_str(credential_presence));
    o.insert("read_only", JsonValue::Bool(true));
    o.insert("local_only", JsonValue::Bool(true));
    o.insert("opens_browser", JsonValue::Bool(false));
    o.insert("network", JsonValue::Bool(false));
    o.insert("metadata_updated", JsonValue::Bool(false));
    o.insert("token_request_count", JsonValue::UInt(0));
    match action {
        CredentialAction::Reauthorize { preferred_mode } => {
            o.insert("mode", json_str(auth_bootstrap_mode_name(preferred_mode)));
        },
        _ => {},
    }
    match credential_source_label {
        Some(l) => o.insert("credential_source", json_str(l)),
        None => {},
    }
    match credential_bundle_codec_label {
        Some(l) => o.insert("credential_bundle_codec", json_str(l)),
        None => {},
    }
    match secret_preflight {
        Some(p) => o.insert("secret_preflight", json_str(secret_preflight_outcome_name(p))),
        None => {},
    }
    assert(o@ =~= status_json(
        provider,
        account_id@,
        action,
        credential_presence@,
        opt_ref_view(credential_source_label),
        opt_ref_view(credential_bundle_codec_label),
        secret_preflight,
    )->Object_0);
    o.into_value()
}

// ---------------------------------------------------------------------------
// auth exchange-code, auth complete, auth refresh
// ---------------------------------------------------------------------------

/// What every installed-credential report ends with.
pub open spec fn exchange_tail(requests: Seq<OAuthEndpointSource>, ex: CredentialExchange) -> Seq<
    char,
> {
    " token_request_count="@ + nat_text(requests.len()) + " endpoint_source="@
        + first_endpoint_name(requests) + " auth_flow="@ + flow_name(ex.auth_flow)
        + " bootstrap_mode="@ + bootstrap_mode_name(ex.bootstrap_mode) + " expires_at="@ + int_text(
        ex.access_token_expires_at_epoch_secs as int,
    ) + " refresh_state="@ + refresh_state_name(ex.refresh_token) + "\n"@
}

fn push_exchange_tail(out: &mut String, requests: &Vec<OAuthEndpointSource>, ex: CredentialExchange)
    ensures
        final(out)@ == old(out)@ + exchange_tail(requests@, ex),
{
    let ghost start = out@;
    push_str(out, " token_request_count=");
    push_u64(out, requests.len() as u64);
    push_str(out, " endpoint_source=");
    push_str(out, first_endpoint(requests));
    push_str(out, " auth_flow=");
    push_str(out, auth_flow_name(ex.auth_flow));
    push_str(out, " bootstrap_mode=");
    push_str(out, auth_bootstrap_mode_name(ex.bootstrap_mode));
    push_str(out, " expires_at=");
    push_i64(out, ex.access_token_expires_at_epoch_secs);
    push_str(out, " refresh_state=");
    push_str(out, refresh_token_state_name(ex.refresh_token));
    push_str(out, "\n");
    assert(out@ =~= start + exchange_tail(requests@, ex));
}

/// The text report of `auth exchange-code`.
pub open spec fn exchange_code_text(
    provider: Provider,
    account: Seq<char>,
    ex: CredentialExchange,
    requests: Seq<OAuthEndpointSource>,
) -> Seq<char> {
    "sync-v2 auth exchange-code: provider="@ + provider_name(provider) + " account="@ + account
        + " outcome=installed local-only test_token_transport=true opens_browser=false exchanges_authorization_code=true credential_source=test_credential_bundle credential_bundle_codec=test-reversing metadata_updated=true"@
        + exchange_tail(requests, ex)
}

/// The text report of `auth exchange-code`.
pub fn write_text_auth_exchange_code(
    provider: Provider,
    account_id: &str,
    exchange: CredentialExchange,
    requests: &Vec<OAuthEndpointSource>,
) -> (r: String)
    ensures
        r@ == exchange_code_text(provider, account_id@, exchange, requests@),
{
    let mut out = concat("sync-v2 auth exchange-code: provider=", provider.as_str());
    push_str(&mut out, " account=");
    push_str(&mut out, account_id);
    push_str(
        &mut out,
        " outcome=installed local-only test_token_transport=true opens_browser=false exchanges_authorization_code=true credential_source=test_credential_bundle credential_bundle_codec=test-reversing metadata_updated=true",
    );
    push_exchange_tail(&mut out, requests, exchange);
    assert(out@ =~= exchange_code_text(provider, account_id@, exchange, requests@));
    out
}

/// The members every installed-credential JSON report ends with.
pub open spec fn exchange_members(requests: Seq<OAuthEndpointSource>,
    ex: CredentialExchange) -> Seq<
    (Seq<char>, Json),
> {
    seq![
        ("metadata_updated"@, Json::Bool(true)),
        ("token_request_count"@, Json::Int(requests.len() as int)),
        ("endpoint_source"@, Json::Str(first_endpoint_name(requests))),
        ("auth_flow"@, Json::Str(flow_name(ex.auth_flow))),
        ("bootstrap_mode"@, Json::Str(bootstrap_mode_name(ex.bootstrap_mode))),
        ("expires_at_epoch_secs"@, Json::Int(ex.access_token_expires_at_epoch_secs as int)),
        ("refresh_state"@, Json::Str(refresh_state_name(ex.refresh_token))),
    ]
}

fn insert_exchange_members(
    o: &mut JsonObject,
    requests: &Vec<OAuthEndpointSource>,
    ex: CredentialExchange,
)
    ensures
        final(o)@ == old(o)@ + exchange_members(requests@, ex),
{
    let ghost start = o@;
    o.insert("metadata_updated", JsonValue::Bool(true));
    o.insert("token_request_count", JsonValue::UInt(requests.len() as u64));
    o.insert("endpoint_source", json_str(first_endpoint(requests)));
    o.insert("auth_flow", json_str(auth_flow_name(ex.auth_flow)));
    o.insert("bootstrap_mode", json_str(auth_bootstrap_mode_name(ex.bootstrap_mode)));
    o.insert("expires_at_epoch_secs", JsonValue::Int(ex.access_token_expires_at_epoch_secs));
    o.insert("refresh_state", json_str(refresh_token_state_name(ex.refresh_token)));
    assert(o@ =~= start + exchange_members(requests@, ex));
}

/// The JSON report of `auth exchange-code`.
pub open spec fn exchange_code_json(
    provider: Provider,
    account: Seq<char>,
    ex: CredentialExchange,
    requests: Seq<OAuthEndpointSource>,
) -> Json {
    Json::Object(
        seq![
            ("provider"@, Json::Str(provider_name(provider))),
            ("account"@, Json::Str(account)),
            ("outcome"@, Json::Str("installed"@)),
            ("local_only"@, Json::Bool(true)),
            ("test_token_transport"@, Json::Bool(true)),
            ("opens_browser"@, Json::Bool(false)),
            ("exchanges_authorization_code"@, Json::Bool(true)),
            ("credential_source"@, Json::Str("test_credential_bundle"@)),
            ("credential_bundle_codec"@, Json::Str("test-reversing"@)),
        ] + exchange_members(requests, ex),
    )
}

/// The JSON report of `auth exchange-code`.
pub fn write_json_auth_exchange_code(
    provider: Provider,
    account_id: &str,
    exchange: CredentialExchange,
    requests: &Vec<OAuthEndpointSource>,
) -> (r: JsonValue)
    ensures
        r@ == exchange_code_json(provider, account_id@, exchange, requests@),
{
    let mut o = JsonObject::new();
    o.insert("provider", json_str(provider.as_str()));
    o.insert("account", json_str(account_id));
    o.insert("outcome", json_str("installed"));
    o.insert("local_only", JsonValue::Bool(true));
    o.insert("test_token_transport", JsonValue::Bool(true));
    o.insert("opens_browser", JsonValue::Bool(false));
    o.insert("exchanges_authorization_code", JsonValue::Bool(true));
    o.insert("credential_source", json_str("test_credential_bundle"));
    o.insert("credential_bundle_codec", json_str("test-reversing"));
    insert_exchange_members(&mut o, requests, exchange);
    assert(o@ =~= exchange_code_json(provider, account_id@, exchange, requests@)->Object_0);
    o.into_value()
}

/// The text report of `auth complete`.
pub open spec fn complete_text(
    provider: Provider,
    account: Seq<char>,
    ex: CredentialExchange,
    requests: Seq<OAuthEndpointSource>,
    source: Seq<char>,
    codec: Seq<char>,
) -> Seq<char> {
    "sync-v2 auth complete: provider="@ + provider_name(provider) + " account="@ + account
        + " outcome=installed local-only test_token_transport=true opens_browser=false uses_auth_session=true callback_valid=true exchanges_authorization_code=true credential_source="@
        + source + " credential_bundle_codec="@ + codec + " metadata_updated=true"@
        + exchange_tail(requests, ex)
}

/// The text report of `auth complete`.
pub fn write_text_auth_complete(
    provider: Provider,
    account_id: &str,
    exchange: CredentialExchange,
    requests: &Vec<OAuthEndpointSource>,
    credential_source_label: &str,
    credential_bundle_codec_label: &str,
) -> (r: String)
    ensures
        r@ == complete_text(
            provider,
            account_id@,
            exchange,
            requests@,
            credential_source_label@,
            credential_bundle_codec_label@,
        ),
{
    let mut out = concat("sync-v2 auth complete: provider=", provider.as_str());
    push_str(&mut out, " account=");
    push_str(&mut out, account_id);
    push_str(
        &mut out,
        " outcome=installed local-only test_token_transport=true opens_browser=false uses_auth_session=true callback_valid=true exchanges_authorization_code=true credential_source=",
    );
    push_str(&mut out, credential_source_label);
    push_str(&mut out, " credential_bundle_codec=");
    push_str(&mut out, credential_bundle_codec_label);
    push_str(&mut out, " metadata_updated=true");
    push_exchange_tail(&mut out, requests, exchange);
    assert(out@ =~= complete_text(
        provider,
        account_id@,
        exchange,
        requests@,
        credential_source_label@,
        credential_bundle_codec_label@,
    ));
    out
}

/// The JSON report of `auth complete`.
pub open spec fn complete_json(
    provider: Provider,
    account: Seq<char>,
    ex: CredentialExchange,
    requests: Seq<OAuthEndpointSource>,
    source: Seq<char>,
    codec: Seq<char>,
) -> Json {
    Json::Object(
        seq![
            ("provider"@, Json::Str(provider_name(provider))),
            ("account"@, Json::Str(account)),
            ("outcome"@, Json::Str("installed"@)),
            ("local_only"@, Json::Bool(true)),
            ("test_token_transport"@, Json::Bool(true)),
            ("opens_browser"@, Json::Bool(false)),
            ("uses_auth_session"@, Json::Bool(true)),
            ("callback_valid"@, Json::Bool(true)),
            ("exchanges_authorization_code"@, Json::Bool(true)),
            ("credential_source"@, Json::Str(source)),
            ("credential_bundle_codec"@, Json::Str(codec)),
        ] + exchange_members(requests, ex),
    )
}

/// The JSON report of `auth complete`.
pub fn write_json_auth_complete(
    provider: Provider,
    account_id: &str,
    exchange: CredentialExchange,
    requests: &Vec<OAuthEndpointSource>,
    credential_source_label: &str,
    credential_bundle_codec_label: &str,
) -> (r: JsonValue)
    ensures
        r@ == complete_json(
            provider,
            account_id@,
            exchange,
            requests@,
            credential_source_label@,
            credential_bundle_codec_label@,
        ),
{
    let mut o = JsonObject::new();
    o.insert("provider", json_str(provider.as_str()));
    o.insert("account", json_str(account_id));
    o.insert("outcome", json_str("installed"));
    o.insert("local_only", JsonValue::Bool(true));
    o.insert("test_token_transport", JsonValue::Bool(true));
    o.insert("opens_browser", JsonValue::Bool(false));
    o.insert("uses_auth_session", JsonValue::Bool(true));
    o.insert("callback_valid", JsonValue::Bool(true));
    o.insert("exchanges_authorization_code", JsonValue::Bool(true));
    o.insert("credential_source", json_str(credential_source_label));
    o.insert("credential_bundle_codec", json_str(credential_bundle_codec_label));
    insert_exchange_members(&mut o, requests, exchange);
    assert(o@ =~= complete_json(
        provider,
        account_id@,
        exchange,
        requests@,
        credential_source_label@,
        credential_bundle_codec_label@,
    )->Object_0);
    o.into_value()
}

pub open spec fn refresh_outcome_name(o: RefreshOutcome) -> Seq<char> {
    match o {
        RefreshOutcome::UseStoredAccessToken => "use_stored"@,
        RefreshOutcome::Reauthorize { .. } => "reauthorize"@,
        RefreshOutcome::Refreshed(_) => "refreshed"@,
    }
}

pub open spec fn refresh_outcome_suffix(o: RefreshOutcome) -> Seq<char> {
    match o {
        RefreshOutcome::UseStoredAccessToken => Seq::empty(),
        RefreshOutcome::Reauthorize { preferred_mode } => " mode="@ + bootstrap_mode_name(
            preferred_mode,
        ),
        RefreshOutcome::Refreshed(r) => " expires_at="@ + int_text(
            r.access_token_expires_at_epoch_secs as int,
        ) + " refresh_state="@ + refresh_state_name(r.refresh_token),
    }
}

/// The text report of `auth refresh`; the credential metadata changed only
/// when it was refreshed.
pub open spec fn refresh_text(
    provider: Provider,
    account: Seq<char>,
    o: RefreshOutcome,
    requests: Seq<OAuthEndpointSource>,
    source: Seq<char>,
    codec: Seq<char>,
) -> Seq<char> {
    "sync-v2 auth refresh: provider="@ + provider_name(provider) + " account="@ + account
        + " outcome="@ + refresh_outcome_name(o) + refresh_outcome_suffix(o)
        + " local-only test_token_transport=true opens_browser=false exchanges_authorization_code=false credential_source="@
        + source + " credential_bundle_codec="@ + codec + " metadata_updated="@ + bool_text(
        o is Refreshed,
    ) + " token_request_count="@ + nat_text(requests.len()) + " endpoint_source="@
        + first_endpoint_name(requests) + "\n"@
}

/// The text report of `auth refresh`.
pub fn write_text_auth_refresh(
    provider: Provider,
    account_id: &str,
    outcome: RefreshOutcome,
    requests: &Vec<OAuthEndpointSource>,
    credential_source_label: &str,
    credential_bundle_codec_label: &str,
) -> (r: String)
    ensures
        r@ == refresh_text(
            provider,
            account_id@,
            outcome,
            requests@,
            credential_source_label@,
            credential_bundle_codec_label@,
        ),
{
    let mut out = concat("sync-v2 auth refresh: provider=", provider.as_str());
    push_str(&mut out, " account=");
    push_str(&mut out, account_id);
    push_str(&mut out, " outcome=");
    let updated = match outcome {
        RefreshOutcome::UseStoredAccessToken => {
            push_str(&mut out, "use_stored");
            false
        },
        RefreshOutcome::Reauthorize { preferred_mode } => {
            push_str(&mut out, "reauthorize");
            push_str(&mut out, " mode=");
            push_str(&mut out, auth_bootstrap_mode_name(preferred_mode));
            false
        },
        RefreshOutcome::Refreshed(r) => {
            push_str(&mut out, "refreshed");
            push_str(&mut out, " expires_at=");
            push_i64(&mut out, r.access_token_expires_at_epoch_secs);
            push_str(&mut out, " refresh_state=");
            push_str(&mut out, refresh_token_state_name(r.refresh_token));
            true
        },
    };
    push_str(
        &mut out,
        " local-only test_token_transport=true opens_browser=false exchanges_authorization_code=false credential_source=",
    );
    push_str(&mut out, credential_source_label);
    push_str(&mut out, " credential_bundle_codec=");
    push_str(&mut out, credential_bundle_codec_label);
    push_str(&mut out, " metadata_updated=");
    push_bool(&mut out, updated);
    push_str(&mut out, " token_request_count=");
    push_u64(&mut out, requests.len() as u64);
    push_str(&mut out, " endpoint_source=");
    push_str(&mut out, first_endpoint(requests));
    push_str(&mut out, "\n");
    assert(out@ =~= refresh_text(
        provider,
        account_id@,
        outcome,
        requests@,
        credential_source_label@,
        credential_bundle_codec_label@,
    ));
    out
}

pub open spec fn refresh_outcome_members(o: RefreshOutcome) -> Seq<(Seq<char>, Json)> {
    match o {
        RefreshOutcome::UseStoredAccessToken => seq![
            ("outcome"@, Json::Str("use_stored"@)),
            ("metadata_updated"@, Json::Bool(false)),
        ],
        RefreshOutcome::Reauthorize { preferred_mode } => seq![
            ("outcome"@, Json::Str("reauthorize"@)),
            ("metadata_updated"@, Json::Bool(false)),
            ("mode"@, Json::Str(bootstrap_mode_name(preferred_mode))),
        ],
        RefreshOutcome::Refreshed(r) => seq![
            ("outcome"@, Json::Str("refreshed"@)),
            ("metadata_updated"@, Json::Bool(true)),
            ("expires_at_epoch_secs"@, Json::Int(r.access_token_expires_at_epoch_secs as int)),
            ("refresh_state"@, Json::Str(refresh_state_name(r.refresh_token))),
        ],
    }
}

/// The JSON report of `auth refresh`.
pub open spec fn refresh_json(
    provider: Provider,
    account: Seq<char>,
    o: RefreshOutcome,
    requests: Seq<OAuthEndpointSource>,
    source: Seq<char>,
    codec: Seq<char>,
) -> Json {
    Json::Object(
        seq![
            ("provider"@, Json::Str(provider_name(provider))),
            ("account"@, Json::Str(account)),
            ("local_only"@, Json::Bool(true)),
            ("test_token_transport"@, Json::Bool(true)),
            ("opens_browser"@, Json::Bool(false)),
            ("exchanges_authorization_code"@, Json::Bool(false)),
            ("credential_source"@, Json::Str(source)),
            ("credential_bundle_codec"@, Json::Str(codec)),
            ("token_request_count"@, Json::Int(requests.len() as int)),
            ("endpoint_source"@, Json::Str(first_endpoint_name(requests))),
        ] + refresh_outcome_members(o),
    )
}

/// The JSON report of `auth refresh`.
pub fn write_json_auth_refresh(
    provider: Provider,
    account_id: &str,
    outcome: RefreshOutcome,
    requests: &Vec<OAuthEndpointSource>,
    credential_source_label: &str,
    credential_bundle_codec_label: &str,
) -> (r: JsonValue)
    ensures
        r@ == refresh_json(
            provider,
            account_id@,
            outcome,
            requests@,
            credential_source_label@,
            credential_bundle_codec_label@,
        ),
{
    let mut o = JsonObject::new();
    o.insert("provider", json_str(provider.as_str()));
    o.insert("account", json_str(account_id));
    o.insert("local_only", JsonValue::Bool(true));
    o.insert("test_token_transport", JsonValue::Bool(true));
    o.insert("opens_browser", JsonValue::Bool(false));
    o.insert("exchanges_authorization_code", JsonValue::Bool(false));
    o.insert("credential_source", json_str(credential_source_label));
    o.insert("credential_bundle_codec", json_str(credential_bundle_codec_label));
    o.insert("token_request_count", JsonValue::UInt(requests.len() as u64));
    o.insert("endpoint_source", json_str(first_endpoint(requests)));
    match outcome {
        RefreshOutcome::UseStoredAccessToken => {
            o.insert("outcome", json_str("use_stored"));
            o.insert("metadata_updated", JsonValue::Bool(false));
        },
        RefreshOutcome::Reauthorize { preferred_mode } => {
            o.insert("outcome", json_str("reauthorize"));
            o.insert("metadata_updated", JsonValue::Bool(false));
            o.insert("mode", json_str(auth_bootstrap_mode_name(preferred_mode)));
        },
        RefreshOutcome::Refreshed(r) => {
            o.insert("outcome", json_str("refreshed"));
            o.insert("metadata_updated", JsonValue::Bool(true));
            o.insert("expires_at_epoch_secs", JsonValue::Int(r.access_token_expires_at_epoch_secs));
            o.insert("refresh_state", json_str(refresh_token_state_name(r.refresh_token)));
        },
    }
    assert(o@ =~= refresh_json(
        provider,
        account_id@,
        outcome,
        requests@,
        credential_source_label@,
        credential_bundle_codec_label@,
    )->Object_0);
    o.into_value()
}

} // verus!

verus! {

/// The callback plan says a PKCE verifier is required exactly for a
/// MyAnimeList session, in its text (`pkce_required=true` or `=false`) and
/// in its JSON `pkce_required` member alike.
pub proof fn lemma_callback_plan_pkce_required(s: AuthSessionView, code_present: bool)
    ensures
        json_get(callback_plan_json(s, code_present), "pkce_required"@) == Some(
            Json::Bool(s.provider == Provider::MyAnimeList),
        ),
        s.provider == Provider::MyAnimeList ==> exists|i: int|
            #[trigger] occurs_at(callback_plan_text(s, code_present), " pkce_required=true"@, i),
        s.provider != Provider::MyAnimeList ==> exists|i: int|
            #[trigger] occurs_at(callback_plan_text(s, code_present), " pkce_required=false"@, i),
{
    reveal_strlit("pkce_required");
    reveal_strlit("pkce_available");
    reveal_strlit("ready_for_exchange");
    reveal_strlit("endpoint_source");
    reveal_strlit("bootstrap_mode");
    reveal_strlit("expires_at_epoch_secs");
    let ms = callback_plan_json(s, code_present)->Object_0;
    assert(ms[8].0 == "pkce_required"@);
    assert forall|k: int| 8 < k < 14 implies #[trigger] ms[k].0 != "pkce_required"@ by {
        if k == 9 {
            assert(ms[9].0 == "pkce_available"@);
        } else if k == 10 {
            assert(ms[10].0 == "ready_for_exchange"@);
        } else if k == 11 {
            assert(ms[11].0 == "endpoint_source"@);
        } else if k == 12 {
            assert(ms[12].0 == "bootstrap_mode"@);
        } else {
            assert(ms[13].0 == "expires_at_epoch_secs"@);
        }
    }
    lemma_member_value_at(ms, "pkce_required"@, 8);
    let mal = s.provider == Provider::MyAnimeList;
    let a = "sync-v2 auth callback-plan: provider="@ + provider_name(s.provider)
        + " local-only opens_browser=false network=false exchanges_token=false writes_database=false state_valid=true authorization_code_present="@
        + bool_text(code_present);
    let p = " pkce_required="@ + bool_text(mal);
    let b = " pkce_available="@ + bool_text(s.pkce_code_verifier is Some)
        + " ready_for_exchange=true endpoint_source="@ + s.endpoint_source + " bootstrap_mode="@
        + s.bootstrap_mode + "\n"@;
    reveal_strlit(" pkce_required=");
    reveal_strlit(" pkce_required=true");
    reveal_strlit(" pkce_required=false");
    reveal_strlit("true");
    reveal_strlit("false");
    assert(p =~= if mal {
        " pkce_required=true"@
    } else {
        " pkce_required=false"@
    });
    assert(callback_plan_text(s, code_present) =~= a + p + b);
    lemma_occurs_between(a, p, b);
    assert(occurs_at(callback_plan_text(s, code_present), p, a.len() as int));
}

/// The literal name of a refresh outcome.
proof fn lemma_outcome_names(o: RefreshOutcome)
    ensures
        refresh_outcome_name(o) == match o {
            RefreshOutcome::UseStoredAccessToken => "use_stored"@,
            RefreshOutcome::Reauthorize { .. } => "reauthorize"@,
            RefreshOutcome::Refreshed(_) => "refreshed"@,
        },
{
}

/// The refresh report names what the refresh did, in its text (`outcome=`)
/// and in its JSON `outcome` member alike: `refreshed` exactly when the
/// credential was refreshed, `use_stored` exactly when the stored access
/// token is still good, `reauthorize` otherwise. The credential metadata is
/// reported updated exactly when it was refreshed, and a refreshed
/// credential reports its new expiry.
pub proof fn lemma_refresh_report_outcome(
    provider: Provider,
    account: Seq<char>,
    o: RefreshOutcome,
    requests: Seq<OAuthEndpointSource>,
    source: Seq<char>,
    codec: Seq<char>,
)
    ensures
        json_get(refresh_json(provider, account, o, requests, source, codec), "outcome"@) == Some(
            Json::Str(
                match o {
                    RefreshOutcome::UseStoredAccessToken => "use_stored"@,
                    RefreshOutcome::Reauthorize { .. } => "reauthorize"@,
                    RefreshOutcome::Refreshed(_) => "refreshed"@,
                },
            ),
        ),
        json_get(refresh_json(provider, account, o, requests, source, codec), "metadata_updated"@)
            == Some(Json::Bool(o is Refreshed)),
        o matches RefreshOutcome::Refreshed(r) ==> json_get(
            refresh_json(provider, account, o, requests, source, codec),
            "expires_at_epoch_secs"@,
        ) == Some(Json::Int(r.access_token_expires_at_epoch_secs as int)),
        o is UseStoredAccessToken ==> exists|i: int|
            #[trigger] occurs_at(
                refresh_text(provider, account, o, requests, source, codec),
                " outcome=use_stored"@,
                i,
            ),
        o is Reauthorize ==> exists|i: int|
            #[trigger] occurs_at(
                refresh_text(provider, account, o, requests, source, codec),
                " outcome=reauthorize"@,
                i,
            ),
        o is Refreshed ==> exists|i: int|
            #[trigger] occurs_at(
                refresh_text(provider, account, o, requests, source, codec),
                " outcome=refreshed"@,
                i,
            ),
{
    reveal_strlit("outcome");
    reveal_strlit("metadata_updated");
    reveal_strlit("mode");
    reveal_strlit("expires_at_epoch_secs");
    reveal_strlit("refresh_state");
    let j = refresh_json(provider, account, o, requests, source, codec);
    let ms = j->Object_0;
    let head = ms.subrange(0, 10);
    let tail = refresh_outcome_members(o);
    assert(ms =~= head + tail);
    assert(tail[0].0 == "outcome"@);
    assert(tail[1].0 == "metadata_updated"@);
    assert forall|k: int| 0 < k < tail.len() implies #[trigger] tail[k].0 != "outcome"@ by {
        if k == 2 {
            if o is Reauthorize {
                assert(tail[2].0 == "mode"@);
            } else {
                assert(tail[2].0 == "expires_at_epoch_secs"@);
            }
        } else if k == 3 {
            assert(tail[3].0 == "refresh_state"@);
        }
    }
    assert forall|k: int| 1 < k < tail.len() implies #[trigger] tail[k].0 != "metadata_updated"@ by {
        if k == 2 {
            if o is Reauthorize {
                assert(tail[2].0 == "mode"@);
            } else {
                assert(tail[2].0 == "expires_at_epoch_secs"@);
            }
        } else if k == 3 {
            assert(tail[3].0 == "refresh_state"@);
        }
    }
    lemma_member_value_at(tail, "outcome"@, 0);
    lemma_member_value_at(tail, "metadata_updated"@, 1);
    lemma_member_value_concat(head, tail, "outcome"@);
    lemma_member_value_concat(head, tail, "metadata_updated"@);
    if o is Refreshed {
        assert(tail[2].0 == "expires_at_epoch_secs"@);
        assert(tail[3].0 == "refresh_state"@);
        assert forall|k: int| 2 < k < tail.len() implies #[trigger] tail[k].0
            != "expires_at_epoch_secs"@ by {}
        lemma_member_value_at(tail, "expires_at_epoch_secs"@, 2);
        lemma_member_value_concat(head, tail, "expires_at_epoch_secs"@);
    }
    lemma_outcome_names(o);
    let a = "sync-v2 auth refresh: provider="@ + provider_name(provider) + " account="@ + account;
    let p = " outcome="@ + refresh_outcome_name(o);
    let b = refresh_outcome_suffix(o)
        + " local-only test_token_transport=true opens_browser=false exchanges_authorization_code=false credential_source="@
        + source + " credential_bundle_codec="@ + codec + " metadata_updated="@ + bool_text(
        o is Refreshed,
    ) + " token_request_count="@ + nat_text(requests.len()) + " endpoint_source="@
        + first_endpoint_name(requests) + "\n"@;
    reveal_strlit(" outcome=");
    reveal_strlit(" outcome=use_stored");
    reveal_strlit(" outcome=reauthorize");
    reveal_strlit(" outcome=refreshed");
    reveal_strlit("use_stored");
    reveal_strlit("reauthorize");
    reveal_strlit("refreshed");
    assert(o is UseStoredAccessToken ==> p =~= " outcome=use_stored"@);
    assert(o is Reauthorize ==> p =~= " outcome=reauthorize"@);
    assert(o is Refreshed ==> p =~= " outcome=refreshed"@);
    assert(refresh_text(provider, account, o, requests, source, codec) =~= a + p + b);
    lemma_occurs_between(a, p, b);
    assert(occurs_at(refresh_text(provider, account, o, requests, source, codec), p, a.len() as int));
}

} // verus!
