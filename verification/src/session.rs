//! The local OAuth authorization session: the record `auth begin` writes,
//! the checks a stored record must pass before it is used, and the checks a
//! pasted callback must pass against it.

use vstd::prelude::*;
use vstd::string::StringSliceAdditionalSpecFns;
use vstd::utf8::encode_utf8;
use crate::callback::{param_lookup, CallbackParameters};
use crate::model::{provider_from, provider_name, Provider};
use crate::text::{
    blank, has_control, has_ctrl, is_blank, nonempty_without_control, owned, str_eq,
};

verus! {

/// Where the OAuth endpoints of a provider were taken from.
#[derive(Clone, Copy, Debug, PartialEq, Eq, Structural)]
pub enum OAuthEndpointSource {
    OfficialDocs,
    LegacyRepoCode,
}

/// How a credential is bootstrapped.
#[derive(Clone, Copy, Debug, PartialEq, Eq, Structural)]
pub enum AuthBootstrapMode {
    AuthBroker,
    LocalCallback,
    ManualPin,
}

pub open spec fn endpoint_source_name(s: OAuthEndpointSource) -> Seq<char> {
    match s {
        OAuthEndpointSource::OfficialDocs => "official_docs"@,
        OAuthEndpointSource::LegacyRepoCode => "legacy_repo_code"@,
    }
}

pub open spec fn bootstrap_mode_name(m: AuthBootstrapMode) -> Seq<char> {
    match m {
        AuthBootstrapMode::AuthBroker => "auth_broker"@,
        AuthBootstrapMode::LocalCallback => "local_callback"@,
        AuthBootstrapMode::ManualPin => "manual_pin"@,
    }
}

/// The name of an endpoint source in reports and session records.
pub fn oauth_endpoint_source_name(source: OAuthEndpointSource) -> (r: &'static str)
    ensures
        r@ == endpoint_source_name(source),
{
    match source {
        OAuthEndpointSource::OfficialDocs => "official_docs",
        OAuthEndpointSource::LegacyRepoCode => "legacy_repo_code",
    }
}

/// The name of a bootstrap mode in reports.
pub fn auth_bootstrap_mode_name(mode: AuthBootstrapMode) -> (r: &'static str)
    ensures
        r@ == bootstrap_mode_name(mode),
{
    match mode {
        AuthBootstrapMode::AuthBroker => "auth_broker",
        AuthBootstrapMode::LocalCallback => "local_callback",
        AuthBootstrapMode::ManualPin => "manual_pin",
    }
}

// ---------------------------------------------------------------------------
// Single values
// ---------------------------------------------------------------------------

/// A character a PKCE `plain` verifier may hold: ASCII letters and digits
/// and `-`, `.`, `_`, `~`.
pub open spec fn pkce_byte(b: u8) -> bool {
    ||| (0x30 <= b && b <= 0x39)
    ||| (0x41 <= b && b <= 0x5a)
    ||| (0x61 <= b && b <= 0x7a)
    ||| b == 0x2d
    ||| b == 0x2e
    ||| b == 0x5f
    ||| b == 0x7e
}

/// A PKCE `plain` verifier: 43 to 128 bytes of the characters above.
pub open spec fn pkce_plain(s: Seq<char>) -> bool {
    &&& nonempty_without_control(s)
    &&& 43 <= encode_utf8(s).len() <= 128
    &&& forall|i: int| 0 <= i < encode_utf8(s).len() ==> #[trigger] pkce_byte(encode_utf8(s)[i])
}

/// A value that is neither blank nor holds a control character.
pub fn is_nonempty_without_control(value: &str) -> (r: bool)
    ensures
        r == nonempty_without_control(value@),
{
    !is_blank(value) && !has_control(value)
}

/// Whether `value` is a usable PKCE `plain` code verifier.
pub fn is_valid_pkce_plain_value(value: &str) -> (r: bool)
    ensures
        r == pkce_plain(value@),
{
    if !is_nonempty_without_control(value) {
        return false;
    }
    let bytes = value.as_bytes();
    if bytes.len() < 43 || bytes.len() > 128 {
        return false;
    }
    let mut i: usize = 0;
    while i < bytes.len()
        invariant
            bytes@ == value.spec_bytes(),
            0 <= i <= bytes.len(),
            forall|j: int| 0 <= j < i ==> #[trigger] pkce_byte(bytes@[j]),
        decreases bytes.len() - i,
    {
        let b = bytes[i];
        if !((0x30u8 <= b && b <= 0x39u8) || (0x41u8 <= b && b <= 0x5au8) || (0x61u8 <= b && b
            <= 0x7au8) || b == 0x2du8 || b == 0x2eu8 || b == 0x5fu8 || b == 0x7eu8) {
            assert(!pkce_byte(value.spec_bytes()[i as int]));
            return false;
        }
        i = i + 1;
    }
    true
}

pub open spec fn endpoint_source_ok(s: Seq<char>) -> bool {
    s == "official_docs"@ || s == "legacy_repo_code"@
}

pub open spec fn bootstrap_mode_ok(s: Seq<char>) -> bool {
    s == "auth_broker"@ || s == "local_callback"@
}

/// An endpoint source named in a session record.
pub fn validate_auth_session_endpoint_source(value: &str) -> (r: Result<String, &'static str>)
    ensures
        match r {
            Ok(s) => endpoint_source_ok(value@) && s@ == value@,
            Err(e) => !endpoint_source_ok(value@) && e@ == "session_invalid"@,
        },
{
    if str_eq(value, "official_docs") || str_eq(value, "legacy_repo_code") {
        Ok(owned(value))
    } else {
        Err("session_invalid")
    }
}

/// A bootstrap mode named in a session record.
pub fn validate_auth_session_bootstrap_mode(value: &str) -> (r: Result<String, &'static str>)
    ensures
        match r {
            Ok(s) => bootstrap_mode_ok(value@) && s@ == value@,
            Err(e) => !bootstrap_mode_ok(value@) && e@ == "session_invalid"@,
        },
{
    if str_eq(value, "auth_broker") || str_eq(value, "local_callback") {
        Ok(owned(value))
    } else {
        Err("session_invalid")
    }
}

// ---------------------------------------------------------------------------
// Session records
// ---------------------------------------------------------------------------

/// One member of a JSON object as the session checks read it: absent, a
/// string, an integer that fits `i64`, or any other JSON value.
#[derive(Debug)]
pub enum JsonField {
    Absent,
    Str(String),
    Int(i64),
    Other,
}

impl JsonField {
    pub open spec fn str_of(self) -> Option<Seq<char>> {
        match self {
            JsonField::Str(s) => Some(s@),
            _ => None,
        }
    }
}

/// The members of a session file that matter: those `auth begin` writes.
#[derive(Debug)]
pub struct AuthSessionDocument {
    pub format_version: JsonField,
    pub provider: JsonField,
    pub client_id: JsonField,
    pub redirect_uri: JsonField,
    pub state: JsonField,
    pub pkce_code_verifier: JsonField,
    pub endpoint_source: JsonField,
    pub bootstrap_mode: JsonField,
    pub created_at_epoch_secs: JsonField,
    pub expires_at_epoch_secs: JsonField,
}

/// A session that passed its checks.
#[derive(Debug)]
pub struct AuthSession {
    pub provider: Provider,
    pub client_id: String,
    pub redirect_uri: String,
    pub state: String,
    pub pkce_code_verifier: Option<String>,
    pub endpoint_source: String,
    pub bootstrap_mode: String,
    pub expires_at_epoch_secs: i64,
}

/// The values of an [`AuthSession`].
pub struct AuthSessionView {
    pub provider: Provider,
    pub client_id: Seq<char>,
    pub redirect_uri: Seq<char>,
    pub state: Seq<char>,
    pub pkce_code_verifier: Option<Seq<char>>,
    pub endpoint_source: Seq<char>,
    pub bootstrap_mode: Seq<char>,
    pub expires_at_epoch_secs: i64,
}

impl View for AuthSession {
    type V = AuthSessionView;

    open spec fn view(&self) -> AuthSessionView {
        AuthSessionView {
            provider: self.provider,
            client_id: self.client_id@,
            redirect_uri: self.redirect_uri@,
            state: self.state@,
            pkce_code_verifier: match self.pkce_code_verifier {
                Some(s) => Some(s@),
                None => None,
            },
            endpoint_source: self.endpoint_source@,
            bootstrap_mode: self.bootstrap_mode@,
            expires_at_epoch_secs: self.expires_at_epoch_secs,
        }
    }
}

/// The PKCE member is usable for the provider: MyAnimeList sessions carry a
/// valid `plain` verifier, others carry none.
pub open spec fn pkce_member_ok(provider: Provider, f: JsonField) -> bool {
    match f {
        JsonField::Absent => provider != Provider::MyAnimeList,
        JsonField::Str(s) => provider == Provider::MyAnimeList && pkce_plain(s@),
        _ => false,
    }
}

/// The session a record describes, or `None` when the record is refused.
pub open spec fn session_spec(d: AuthSessionDocument) -> Option<AuthSessionView> {
    if {
        &&& d.format_version matches JsonField::Int(v) && v == 1
        &&& d.provider.str_of() matches Some(p) && provider_from(p) is Some
        &&& d.client_id.str_of() matches Some(c) && nonempty_without_control(c)
        &&& d.redirect_uri.str_of() matches Some(u) && nonempty_without_control(u)
        &&& d.state.str_of() matches Some(s) && nonempty_without_control(s)
        &&& pkce_member_ok(provider_from(d.provider.str_of().unwrap()).unwrap(),
            d.pkce_code_verifier)
        &&& d.endpoint_source.str_of() matches Some(e) && endpoint_source_ok(e)
        &&& d.bootstrap_mode.str_of() matches Some(b) && bootstrap_mode_ok(b)
        &&& d.expires_at_epoch_secs is Int
    } {
        Some(
            AuthSessionView {
                provider: provider_from(d.provider.str_of().unwrap()).unwrap(),
                client_id: d.client_id.str_of().unwrap(),
                redirect_uri: d.redirect_uri.str_of().unwrap(),
                state: d.state.str_of().unwrap(),
                pkce_code_verifier: d.pkce_code_verifier.str_of(),
                endpoint_source: d.endpoint_source.str_of().unwrap(),
                bootstrap_mode: d.bootstrap_mode.str_of().unwrap(),
                expires_at_epoch_secs: d.expires_at_epoch_secs->Int_0,
            },
        )
    } else {
        None
    }
}

fn field_str(f: &JsonField) -> (r: Result<&String, &'static str>)
    ensures
        match r {
            Ok(s) => f.str_of() == Some(s@),
            Err(e) => f.str_of() is None && e@ == "session_invalid"@,
        },
{
    match f {
        JsonField::Str(s) => Ok(s),
        _ => Err("session_invalid"),
    }
}

fn field_i64(f: &JsonField) -> (r: Result<i64, &'static str>)
    ensures
        match r {
            Ok(v) => *f == JsonField::Int(v),
            Err(e) => !(f is Int) && e@ == "session_invalid"@,
        },
{
    match f {
        JsonField::Int(v) => Ok(*v),
        _ => Err("session_invalid"),
    }
}

/// Checks a stored session record and returns the session it describes.
/// Every refusal is `session_invalid`.
pub fn validate_auth_session_document(d: &AuthSessionDocument) -> (r: Result<
    AuthSession,
    &'static str,
>)
    ensures
        match r {
            Ok(s) => session_spec(*d) == Some(s@),
            Err(e) => session_spec(*d) is None && e@ == "session_invalid"@,
        },
{
    let format_version = field_i64(&d.format_version)?;
    if format_version != 1 {
        return Err("session_invalid");
    }
    let provider_name = field_str(&d.provider)?;
    let provider = match crate::model::parse_provider(provider_name.as_str()) {
        Ok(p) => p,
        Err(_) => {
            return Err("session_invalid");
        },
    };
    let client_id = field_str(&d.client_id)?;
    if !is_nonempty_without_control(client_id.as_str()) {
        return Err("session_invalid");
    }
    let redirect_uri = field_str(&d.redirect_uri)?;
    if !is_nonempty_without_control(redirect_uri.as_str()) {
        return Err("session_invalid");
    }
    let state = field_str(&d.state)?;
    if !is_nonempty_without_control(state.as_str()) {
        return Err("session_invalid");
    }
    let pkce_code_verifier: Option<String> = match &d.pkce_code_verifier {
        JsonField::Absent => None,
        JsonField::Str(s) => Some(s.clone()),
        _ => {
            return Err("session_invalid");
        },
    };
    if provider == Provider::MyAnimeList {
        match &pkce_code_verifier {
            None => {
                return Err("session_invalid");
            },
            Some(v) => {
                if !is_valid_pkce_plain_value(v.as_str()) {
                    return Err("session_invalid");
                }
            },
        }
    } else if pkce_code_verifier.is_some() {
        return Err("session_invalid");
    }
    let endpoint_source = validate_auth_session_endpoint_source(
        field_str(&d.endpoint_source)?.as_str(),
    )?;
    let bootstrap_mode = validate_auth_session_bootstrap_mode(
        field_str(&d.bootstrap_mode)?.as_str(),
    )?;
    let expires_at_epoch_secs = field_i64(&d.expires_at_epoch_secs)?;
    let session = AuthSession {
        provider,
        client_id: client_id.clone(),
        redirect_uri: redirect_uri.clone(),
        state: state.clone(),
        pkce_code_verifier,
        endpoint_source,
        bootstrap_mode,
        expires_at_epoch_secs,
    };
    Ok(session)
}

/// The record `auth begin` writes for a new session.
pub open spec fn begin_document_matches(
    d: AuthSessionDocument,
    provider: Provider,
    client_id: Seq<char>,
    redirect_uri: Seq<char>,
    state: Seq<char>,
    pkce_code_verifier: Option<Seq<char>>,
    endpoint_source: OAuthEndpointSource,
    created_at_epoch_secs: i64,
    expires_at_epoch_secs: i64,
) -> bool {
    &&& d.format_version == JsonField::Int(1)
    &&& d.provider.str_of() == Some(provider_name(provider))
    &&& d.client_id.str_of() == Some(client_id)
    &&& d.redirect_uri.str_of() == Some(redirect_uri)
    &&& d.state.str_of() == Some(state)
    &&& match pkce_code_verifier {
        Some(v) => d.pkce_code_verifier.str_of() == Some(v),
        None => d.pkce_code_verifier == JsonField::Absent,
    }
    &&& d.endpoint_source.str_of() == Some(endpoint_source_name(endpoint_source))
    &&& d.bootstrap_mode.str_of() == Some("auth_broker"@)
    &&& d.created_at_epoch_secs == JsonField::Int(created_at_epoch_secs)
    &&& d.expires_at_epoch_secs == JsonField::Int(expires_at_epoch_secs)
}

/// Builds the session record that `auth begin` writes.
pub fn auth_begin_session_document(
    provider: Provider,
    client_id: &str,
    redirect_uri: &str,
    state: &str,
    pkce_code_verifier: Option<&str>,
    endpoint_source: OAuthEndpointSource,
    created_at_epoch_secs: i64,
    expires_at_epoch_secs: i64,
) -> (d: AuthSessionDocument)
    ensures
        begin_document_matches(
            d,
            provider,
            client_id@,
            redirect_uri@,
            state@,
            match pkce_code_verifier {
                Some(v) => Some(v@),
                None => None,
            },
            endpoint_source,
            created_at_epoch_secs,
            expires_at_epoch_secs,
        ),
{
    AuthSessionDocument {
        format_version: JsonField::Int(1),
        provider: JsonField::Str(owned(provider.as_str())),
        client_id: JsonField::Str(owned(client_id)),
        redirect_uri: JsonField::Str(owned(redirect_uri)),
        state: JsonField::Str(owned(state)),
        pkce_code_verifier: match pkce_code_verifier {
            Some(v) => JsonField::Str(owned(v)),
            None => JsonField::Absent,
        },
        endpoint_source: JsonField::Str(owned(oauth_endpoint_source_name(endpoint_source))),
        bootstrap_mode: JsonField::Str(owned("auth_broker")),
        created_at_epoch_secs: JsonField::Int(created_at_epoch_secs),
        expires_at_epoch_secs: JsonField::Int(expires_at_epoch_secs),
    }
}

// ---------------------------------------------------------------------------
// Callbacks
// ---------------------------------------------------------------------------

/// Whether a pasted callback completes a session at time `now`; the error
/// names the first check that failed.
pub open spec fn callback_check_spec(
    s: AuthSessionView,
    ps: Seq<(Seq<char>, Seq<char>)>,
    now: i64,
) -> Result<bool, Seq<char>> {
    if now >= s.expires_at_epoch_secs {
        Err("session_expired"@)
    } else {
        match param_lookup(ps, "state"@) {
            None => Err("state_missing"@),
            Some(st) => if st != s.state {
                Err("state_mismatch"@)
            } else if param_lookup(ps, "error"@) is Some {
                Err("provider_error"@)
            } else {
                match param_lookup(ps, "code"@) {
                    None => Err("authorization_code_missing"@),
                    Some(code) => if blank(code) || has_ctrl(code) {
                        Err("authorization_code_invalid"@)
                    } else if s.provider == Provider::MyAnimeList && s.pkce_code_verifier is None {
                        Err("pkce_missing"@)
                    } else {
                        Ok(true)
                    },
                }
            },
        }
    }
}

/// Checks a pasted callback against a session at time `now`.
pub fn validate_auth_callback(
    session: &AuthSession,
    callback: &CallbackParameters,
    now_unix_seconds: i64,
) -> (r: Result<bool, &'static str>)
    ensures
        match r {
            Ok(b) => callback_check_spec(session@, callback@, now_unix_seconds) == Ok::<
                bool,
                Seq<char>,
            >(b),
            Err(e) => callback_check_spec(session@, callback@, now_unix_seconds) == Err::<
                bool,
                Seq<char>,
            >(e@),
        },
{
    if now_unix_seconds >= session.expires_at_epoch_secs {
        return Err("session_expired");
    }
    let callback_state = match callback.get("state") {
        Some(s) => s,
        None => {
            return Err("state_missing");
        },
    };
    if !str_eq(callback_state.as_str(), session.state.as_str()) {
        return Err("state_mismatch");
    }
    if callback.contains_key("error") {
        return Err("provider_error");
    }
    let code = match callback.get("code") {
        Some(c) => c,
        None => {
            return Err("authorization_code_missing");
        },
    };
    if is_blank(code.as_str()) || has_control(code.as_str()) {
        return Err("authorization_code_invalid");
    }
    if session.provider == Provider::MyAnimeList && session.pkce_code_verifier.is_none() {
        return Err("pkce_missing");
    }
    Ok(true)
}

} // verus!

verus! {

/// What `auth begin` writes is accepted when it is read back, and reads
/// back as the session it began: same provider, client, redirect URI,
/// state, verifier, endpoint source and expiry, bootstrapped through the
/// auth broker. The values handed to `auth begin` must be usable (not blank,
/// no control characters, a valid verifier exactly for MyAnimeList); the
/// tokens it draws itself always are (see `token`).
pub proof fn lemma_begin_session_reads_back(
    d: AuthSessionDocument,
    provider: Provider,
    client_id: Seq<char>,
    redirect_uri: Seq<char>,
    state: Seq<char>,
    pkce_code_verifier: Option<Seq<char>>,
    endpoint_source: OAuthEndpointSource,
    created_at_epoch_secs: i64,
    expires_at_epoch_secs: i64,
)
    requires
        begin_document_matches(
            d,
            provider,
            client_id,
            redirect_uri,
            state,
            pkce_code_verifier,
            endpoint_source,
            created_at_epoch_secs,
            expires_at_epoch_secs,
        ),
        nonempty_without_control(client_id),
        nonempty_without_control(redirect_uri),
        nonempty_without_control(state),
        match pkce_code_verifier {
            Some(v) => provider == Provider::MyAnimeList && pkce_plain(v),
            None => provider != Provider::MyAnimeList,
        },
    ensures
        session_spec(d) == Some(
            AuthSessionView {
                provider,
                client_id,
                redirect_uri,
                state,
                pkce_code_verifier,
                endpoint_source: endpoint_source_name(endpoint_source),
                bootstrap_mode: "auth_broker"@,
                expires_at_epoch_secs,
            },
        ),
{
    crate::model::lemma_provider_name_roundtrip(provider);
    match pkce_code_verifier {
        Some(v) => {
            assert(d.pkce_code_verifier.str_of() == Some(v));
            assert(d.pkce_code_verifier is Str);
        },
        None => {},
    }
}

} // verus!

verus! {

/// A callback that carries the session's state and a usable code, and no
/// provider error, completes the session when it comes before the session
/// expires (for MyAnimeList, whose sessions carry a verifier).
pub proof fn lemma_matching_callback_completes(
    s: AuthSessionView,
    ps: Seq<(Seq<char>, Seq<char>)>,
    now: i64,
    code: Seq<char>,
)
    requires
        now < s.expires_at_epoch_secs,
        param_lookup(ps, "state"@) == Some(s.state),
        param_lookup(ps, "error"@) is None,
        param_lookup(ps, "code"@) == Some(code),
        !blank(code),
        !has_ctrl(code),
        s.provider == Provider::MyAnimeList ==> s.pkce_code_verifier is Some,
    ensures
        callback_check_spec(s, ps, now) == Ok::<bool, Seq<char>>(true),
{
}

/// A callback received at or after the expiry of its session never
/// completes it.
pub proof fn lemma_expired_session_refuses_callbacks(
    s: AuthSessionView,
    ps: Seq<(Seq<char>, Seq<char>)>,
    now: i64,
)
    requires
        now >= s.expires_at_epoch_secs,
    ensures
        callback_check_spec(s, ps, now) == Err::<bool, Seq<char>>("session_expired"@),
{
}

} // verus!
