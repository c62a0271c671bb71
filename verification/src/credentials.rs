//! Where an auth or sync command keeps credentials: a local test bundle or
//! an encrypted bundle whose passphrase comes from the environment.

use vstd::prelude::*;
use crate::text::{blank, chars_of, has_control, has_ctrl, is_blank, opt_chars, owned, str_eq,
    string_push};

verus! {

/// Where the credentials of an auth command are kept.
#[derive(Debug, Clone)]
pub enum AuthCredentialStoreConfig {
    /// A local test bundle with the test codec.
    TestCredentialBundle(String),
    /// An encrypted bundle with the passphrase read from the environment.
    EncryptedCredentialBundle { path: String, passphrase: String },
}

pub enum CredentialStoreView {
    TestCredentialBundle(Seq<char>),
    EncryptedCredentialBundle { path: Seq<char>, passphrase: Seq<char> },
}

impl View for AuthCredentialStoreConfig {
    type V = CredentialStoreView;

    open spec fn view(&self) -> CredentialStoreView {
        match self {
            AuthCredentialStoreConfig::TestCredentialBundle(p) => {
                CredentialStoreView::TestCredentialBundle(p@)
            },
            AuthCredentialStoreConfig::EncryptedCredentialBundle { path, passphrase } => {
                CredentialStoreView::EncryptedCredentialBundle {
                    path: path@,
                    passphrase: passphrase@,
                }
            },
        }
    }
}

pub open spec fn opt_store_view(o: Option<AuthCredentialStoreConfig>) -> Option<
    CredentialStoreView,
> {
    match o {
        Some(c) => Some(c@),
        None => None,
    }
}

/// A usable name or passphrase: not blank, no control characters.
pub open spec fn usable(o: Option<Seq<char>>) -> bool {
    o matches Some(s) && !blank(s) && !has_ctrl(s)
}

/// The credential bundle a command was pointed at, if any. `env_value` is
/// the value of the environment variable named by `passphrase_env` (`None`
/// when it is unset or not Unicode).
pub open spec fn optional_store_spec(
    test_bundle: Option<Seq<char>>,
    bundle: Option<Seq<char>>,
    passphrase_env: Option<Seq<char>>,
    env_value: Option<Seq<char>>,
) -> Result<Option<CredentialStoreView>, Seq<char>> {
    match (test_bundle, bundle) {
        (Some(_), Some(_)) => Err("choose only one credential bundle source for auth command"@),
        (Some(path), None) => if passphrase_env is Some {
            Err("--credential-bundle-passphrase-env requires --credential-bundle"@)
        } else {
            Ok(Some(CredentialStoreView::TestCredentialBundle(path)))
        },
        (None, Some(path)) => if usable(passphrase_env) && usable(env_value) {
            Ok(
                Some(
                    CredentialStoreView::EncryptedCredentialBundle {
                        path,
                        passphrase: env_value.unwrap(),
                    },
                ),
            )
        } else {
            Err("missing credential bundle passphrase"@)
        },
        (None, None) => if passphrase_env is Some {
            Err("--credential-bundle-passphrase-env requires --credential-bundle"@)
        } else {
            Ok(None)
        },
    }
}

fn is_usable(o: &Option<String>) -> (r: bool)
    ensures
        r == usable(opt_chars(*o)),
{
    match o {
        Some(s) => !is_blank(s.as_str()) && !has_control(s.as_str()),
        None => false,
    }
}

/// The credential bundle a command was pointed at, if any.
pub fn auth_optional_credential_store_config(
    test_credential_bundle_path: Option<String>,
    credential_bundle_path: Option<String>,
    credential_bundle_passphrase_env: Option<String>,
    passphrase_env_value: Option<String>,
) -> (r: Result<Option<AuthCredentialStoreConfig>, String>)
    ensures
        match r {
            Ok(c) => optional_store_spec(
                opt_chars(test_credential_bundle_path),
                opt_chars(credential_bundle_path),
                opt_chars(credential_bundle_passphrase_env),
                opt_chars(passphrase_env_value),
            ) == Ok::<Option<CredentialStoreView>, Seq<char>>(opt_store_view(c)),
            Err(e) => optional_store_spec(
                opt_chars(test_credential_bundle_path),
                opt_chars(credential_bundle_path),
                opt_chars(credential_bundle_passphrase_env),
                opt_chars(passphrase_env_value),
            ) == Err::<Option<CredentialStoreView>, Seq<char>>(e@),
        },
{
    match (test_credential_bundle_path, credential_bundle_path) {
        (Some(_), Some(_)) => Err(owned("choose only one credential bundle source for auth command")),
        (Some(path), None) => {
            if credential_bundle_passphrase_env.is_some() {
                return Err(owned("--credential-bundle-passphrase-env requires --credential-bundle"));
            }
            Ok(Some(AuthCredentialStoreConfig::TestCredentialBundle(path)))
        },
        (None, Some(path)) => {
            if !is_usable(&credential_bundle_passphrase_env) || !is_usable(&passphrase_env_value) {
                return Err(owned("missing credential bundle passphrase"));
            }
            match passphrase_env_value {
                Some(passphrase) => Ok(
                    Some(AuthCredentialStoreConfig::EncryptedCredentialBundle { path, passphrase }),
                ),
                None => Err(owned("missing credential bundle passphrase")),
            }
        },
        (None, None) => {
            if credential_bundle_passphrase_env.is_some() {
                return Err(owned("--credential-bundle-passphrase-env requires --credential-bundle"));
            }
            Ok(None)
        },
    }
}

/// The credential bundle a command needs.
pub open spec fn required_store_spec(
    test_bundle: Option<Seq<char>>,
    bundle: Option<Seq<char>>,
    passphrase_env: Option<Seq<char>>,
    env_value: Option<Seq<char>>,
) -> Result<CredentialStoreView, Seq<char>> {
    match optional_store_spec(test_bundle, bundle, passphrase_env, env_value) {
        Ok(Some(c)) => Ok(c),
        Ok(None) => Err("missing --test-credential-bundle or --credential-bundle"@),
        Err(e) => Err(e),
    }
}

/// The credential bundle a command needs.
pub fn auth_required_credential_store_config(
    test_credential_bundle_path: Option<String>,
    credential_bundle_path: Option<String>,
    credential_bundle_passphrase_env: Option<String>,
    passphrase_env_value: Option<String>,
) -> (r: Result<AuthCredentialStoreConfig, String>)
    ensures
        match r {
            Ok(c) => required_store_spec(
                opt_chars(test_credential_bundle_path),
                opt_chars(credential_bundle_path),
                opt_chars(credential_bundle_passphrase_env),
                opt_chars(passphrase_env_value),
            ) == Ok::<CredentialStoreView, Seq<char>>(c@),
            Err(e) => required_store_spec(
                opt_chars(test_credential_bundle_path),
                opt_chars(credential_bundle_path),
                opt_chars(credential_bundle_passphrase_env),
                opt_chars(passphrase_env_value),
            ) == Err::<CredentialStoreView, Seq<char>>(e@),
        },
{
    match auth_optional_credential_store_config(
        test_credential_bundle_path,
        credential_bundle_path,
        credential_bundle_passphrase_env,
        passphrase_env_value,
    )? {
        Some(c) => Ok(c),
        None => Err(owned("missing --test-credential-bundle or --credential-bundle")),
    }
}

pub open spec fn store_source_label(c: CredentialStoreView) -> Seq<char> {
    match c {
        CredentialStoreView::TestCredentialBundle(_) => "test_credential_bundle"@,
        CredentialStoreView::EncryptedCredentialBundle { .. } => "file_credential_bundle"@,
    }
}

impl AuthCredentialStoreConfig {
    /// The name of the credential source in reports.
    pub fn source_label(&self) -> (r: &'static str)
        ensures
            r@ == store_source_label(self@),
    {
        match self {
            AuthCredentialStoreConfig::TestCredentialBundle(_) => "test_credential_bundle",
            AuthCredentialStoreConfig::EncryptedCredentialBundle { .. } => "file_credential_bundle",
        }
    }
}

/// Either credential bundle flag was given.
pub fn has_credential_bundle_source(
    test_credential_bundle_path: &Option<String>,
    credential_bundle_path: &Option<String>,
) -> (r: bool)
    ensures
        r == (test_credential_bundle_path is Some || credential_bundle_path is Some),
{
    test_credential_bundle_path.is_some() || credential_bundle_path.is_some()
}

/// The codec of a credential bundle as reports name it; the passphrase
/// codec is known by the label it was given.
pub open spec fn store_codec_label(c: CredentialStoreView,
    passphrase_codec: Seq<char>) -> Seq<char> {
    match c {
        CredentialStoreView::TestCredentialBundle(_) => "test-reversing"@,
        CredentialStoreView::EncryptedCredentialBundle { .. } => passphrase_codec,
    }
}

impl AuthCredentialStoreConfig {
    /// The name of the bundle's codec in reports.
    pub fn codec_label<'a>(&self, passphrase_codec_label: &'a str) -> (r: &'a str)
        ensures
            r@ == store_codec_label(self@, passphrase_codec_label@),
    {
        match self {
            AuthCredentialStoreConfig::TestCredentialBundle(_) => "test-reversing",
            AuthCredentialStoreConfig::EncryptedCredentialBundle { .. } => passphrase_codec_label,
        }
    }
}

// ---------------------------------------------------------------------------
// The credential store of plan, apply and sync
// ---------------------------------------------------------------------------

/// Where `plan`, `apply` and `sync` take provider credentials from: a
/// bundle when one was given, fixed fixture access tokens otherwise.
#[derive(Debug)]
pub enum PlanCredentialStore {
    FixtureAccessToken,
    Bundle(AuthCredentialStoreConfig),
}

/// The store used for a run, from the bundle it was pointed at.
pub fn fixture_plan_credential_store(config: Option<AuthCredentialStoreConfig>) -> (r:
    PlanCredentialStore)
    ensures
        match config {
            Some(c) => (r matches PlanCredentialStore::Bundle(d) && d@ == c@),
            None => r is FixtureAccessToken,
        },
{
    match config {
        Some(c) => PlanCredentialStore::Bundle(c),
        None => PlanCredentialStore::FixtureAccessToken,
    }
}

pub open spec fn plan_store_source_label(s: PlanCredentialStore) -> Seq<char> {
    match s {
        PlanCredentialStore::FixtureAccessToken => "fixture_token_store"@,
        PlanCredentialStore::Bundle(c) => store_source_label(c@),
    }
}

pub open spec fn plan_store_codec_label(s: PlanCredentialStore,
    passphrase_codec: Seq<char>) -> Option<
    Seq<char>,
> {
    match s {
        PlanCredentialStore::FixtureAccessToken => None,
        PlanCredentialStore::Bundle(c) => Some(store_codec_label(c@, passphrase_codec)),
    }
}

impl PlanCredentialStore {
    /// The name of the credential source in reports.
    pub fn source_label(&self) -> (r: &'static str)
        ensures
            r@ == plan_store_source_label(*self),
    {
        match self {
            PlanCredentialStore::FixtureAccessToken => "fixture_token_store",
            PlanCredentialStore::Bundle(c) => c.source_label(),
        }
    }

    /// The name of the bundle's codec in reports; none without a bundle.
    pub fn codec_label<'a>(&self, passphrase_codec_label: &'a str) -> (r: Option<&'a str>)
        ensures
            match r {
                Some(l) => plan_store_codec_label(*self, passphrase_codec_label@) == Some(l@),
                None => plan_store_codec_label(*self, passphrase_codec_label@) is None,
            },
    {
        match self {
            PlanCredentialStore::FixtureAccessToken => None,
            PlanCredentialStore::Bundle(c) => Some(c.codec_label(passphrase_codec_label)),
        }
    }
}

/// The access token the fixture store hands out for every provider.
pub fn fixture_access_token() -> (r: &'static str)
    ensures
        r@ == "fixture-access-token"@,
{
    "fixture-access-token"
}

// ---------------------------------------------------------------------------
// The test bundle codec
// ---------------------------------------------------------------------------

/// A sealed credential bundle: the codec that sealed it and its payload.
#[derive(Debug)]
pub struct BundleEnvelope {
    pub format_version: u32,
    pub codec: String,
    pub sealed_payload: String,
}

/// Why a bundle could not be opened.
#[derive(Clone, Copy, Debug, PartialEq, Eq, Structural)]
pub enum BundleOpenError {
    OpenFailed,
}

/// The name the test codec writes into the bundles it seals.
pub open spec fn fixture_codec_name() -> Seq<char> {
    "cli-fixture-reversing-v1"@
}

/// The characters of `s` in reverse order.
pub open spec fn reversed(s: Seq<char>) -> Seq<char> {
    Seq::new(s.len(), |i: int| s[s.len() - 1 - i])
}

fn reverse_str(s: &str) -> (r: String)
    ensures
        r@ == reversed(s@),
{
    let chars = chars_of(s);
    let mut out = String::new();
    let mut i = chars.len();
    while i > 0
        invariant
            i <= chars.len(),
            chars@ == s@,
            out@ == reversed(s@).subrange(0, (chars.len() - i) as int),
        decreases i,
    {
        string_push(&mut out, chars[i - 1]);
        i = i - 1;
        assert(out@ =~= reversed(s@).subrange(0, (chars.len() - i) as int));
    }
    assert(reversed(s@).subrange(0, chars.len() as int) =~= reversed(s@));
    out
}

/// Seals a plaintext bundle with the test codec: the payload is the
/// plaintext reversed. Not encryption; for local tests only.
pub fn seal_plaintext_bundle(plaintext_json: &str) -> (r: BundleEnvelope)
    ensures
        r.format_version == 1,
        r.codec@ == fixture_codec_name(),
        r.sealed_payload@ == reversed(plaintext_json@),
{
    BundleEnvelope {
        format_version: 1,
        codec: owned("cli-fixture-reversing-v1"),
        sealed_payload: reverse_str(plaintext_json),
    }
}

/// Opens a bundle sealed by the test codec; one sealed by another codec is
/// refused.
pub fn open_plaintext_bundle(envelope: &BundleEnvelope) -> (r: Result<String, BundleOpenError>)
    ensures
        envelope.codec@ == fixture_codec_name() ==> (r matches Ok(p) && p@ == reversed(
            envelope.sealed_payload@,
        )),
        envelope.codec@ != fixture_codec_name() ==> r == Err::<String, BundleOpenError>(
            BundleOpenError::OpenFailed,
        ),
{
    if !str_eq(envelope.codec.as_str(), "cli-fixture-reversing-v1") {
        return Err(BundleOpenError::OpenFailed);
    }
    Ok(reverse_str(envelope.sealed_payload.as_str()))
}

/// Reversing twice gives the text back.
pub proof fn lemma_reversed_twice(s: Seq<char>)
    ensures
        reversed(reversed(s)) == s,
{
    assert(reversed(reversed(s)) =~= s);
}

/// Opening what the test codec sealed gives the plaintext back.
pub proof fn lemma_seal_then_open(plaintext: Seq<char>, sealed: BundleEnvelope)
    requires
        sealed.codec@ == fixture_codec_name(),
        sealed.sealed_payload@ == reversed(plaintext),
    ensures
        reversed(sealed.sealed_payload@) == plaintext,
{
    lemma_reversed_twice(plaintext);
}

} // verus!
