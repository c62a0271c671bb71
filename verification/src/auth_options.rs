//! Options of the `auth` subcommands: `status`, `begin`, `callback-plan`,
//! `complete`, `authorize-url`, `exchange-code` and `refresh`.

use vstd::prelude::*;
use crate::flags::{
    arg_views, fold_flags, is_network_auth, is_secret_input, is_write_or_network,
    missing_value_for, network_auth, now_value_spec, parse_now_value, secret_input,
    writes_or_network, FlagAction, FlagGrammar,
};
use crate::model::{
    parse_plan_output_format, parse_plan_output_format_spec, parse_provider, parse_provider_spec,
    PlanOutputFormat, Provider,
};
use crate::text::{concat, opt_blank, opt_chars, option_is_blank, owned, str_eq};

verus! {

// ---------------------------------------------------------------------------
// auth status
// ---------------------------------------------------------------------------

/// Options of `auth status`.
pub struct AuthStatusOptions {
    pub db_path: Option<String>,
    pub provider: Option<Provider>,
    pub account_id: Option<String>,
    pub test_credential_bundle_path: Option<String>,
    pub credential_bundle_path: Option<String>,
    pub credential_bundle_passphrase_env: Option<String>,
    pub now_unix_seconds: Option<i64>,
    pub output_format: PlanOutputFormat,
}

pub struct AuthStatusView {
    pub db_path: Option<Seq<char>>,
    pub provider: Option<Provider>,
    pub account_id: Option<Seq<char>>,
    pub test_credential_bundle_path: Option<Seq<char>>,
    pub credential_bundle_path: Option<Seq<char>>,
    pub credential_bundle_passphrase_env: Option<Seq<char>>,
    pub now_unix_seconds: Option<i64>,
    pub output_format: PlanOutputFormat,
}

impl View for AuthStatusOptions {
    type V = AuthStatusView;

    open spec fn view(&self) -> AuthStatusView {
        AuthStatusView {
            db_path: opt_chars(self.db_path),
            provider: self.provider,
            account_id: opt_chars(self.account_id),
            test_credential_bundle_path: opt_chars(self.test_credential_bundle_path),
            credential_bundle_path: opt_chars(self.credential_bundle_path),
            credential_bundle_passphrase_env: opt_chars(self.credential_bundle_passphrase_env),
            now_unix_seconds: self.now_unix_seconds,
            output_format: self.output_format,
        }
    }
}

impl FlagGrammar for AuthStatusView {
    open spec fn on_flag(self, flag: Seq<char>) -> FlagAction<Self> {
        if network_auth(flag) {
            FlagAction::Refuse("writes and network auth are disabled for auth status: "@ + flag)
        } else {
            FlagAction::Value
        }
    }

    open spec fn missing_value(flag: Seq<char>) -> Seq<char> {
        missing_value_for(flag)
    }

    open spec fn on_value(self, flag: Seq<char>, value: Seq<char>) -> Result<Self, Seq<char>> {
        if flag == "--db"@ {
            Ok(AuthStatusView { db_path: Some(value), ..self })
        } else if flag == "--provider"@ {
            match parse_provider_spec(value) {
                Ok(x) => Ok(AuthStatusView { provider: Some(x), ..self }),
                Err(e) => Err(e),
            }
        } else if flag == "--account"@ || flag == "--account-id"@ {
            Ok(AuthStatusView { account_id: Some(value), ..self })
        } else if flag == "--test-credential-bundle"@ {
            Ok(AuthStatusView { test_credential_bundle_path: Some(value), ..self })
        } else if flag == "--credential-bundle"@ {
            Ok(AuthStatusView { credential_bundle_path: Some(value), ..self })
        } else if flag == "--credential-bundle-passphrase-env"@ {
            Ok(AuthStatusView { credential_bundle_passphrase_env: Some(value), ..self })
        } else if flag == "--now"@ {
            match now_value_spec(value, "invalid --now unix seconds: "@ + value) {
                Ok(x) => Ok(AuthStatusView { now_unix_seconds: Some(x), ..self }),
                Err(e) => Err(e),
            }
        } else if flag == "--format"@ {
            match parse_plan_output_format_spec(value) {
                Ok(x) => Ok(AuthStatusView { output_format: x, ..self }),
                Err(e) => Err(e),
            }
        } else {
            Err("unexpected argument for auth status: "@ + flag)
        }
    }
}

pub open spec fn auth_status_default() -> AuthStatusView {
    AuthStatusView {
        db_path: None,
        provider: None,
        account_id: None,
        test_credential_bundle_path: None,
        credential_bundle_path: None,
        credential_bundle_passphrase_env: None,
        now_unix_seconds: None,
        output_format: PlanOutputFormat::Text,
    }
}

pub open spec fn auth_status_finish(o: AuthStatusView) -> Result<AuthStatusView, Seq<char>> {
    if o.db_path is None {
        Err("missing --db"@)
    } else if o.provider is None {
        Err("missing --provider"@)
    } else if opt_blank(o.account_id) {
        Err("missing --account"@)
    } else {
        Ok(o)
    }
}

/// What `auth status` makes of its arguments.
pub open spec fn auth_status_spec(args: Seq<Seq<char>>) -> Result<AuthStatusView, Seq<char>> {
    match fold_flags(args, 0, auth_status_default()) {
        Ok(o) => auth_status_finish(o),
        Err(e) => Err(e),
    }
}

impl Default for AuthStatusOptions {
    fn default() -> (r: Self)
        ensures
            r@ == auth_status_default(),
    {
        let r = AuthStatusOptions {
            db_path: None,
            provider: None,
            account_id: None,
            test_credential_bundle_path: None,
            credential_bundle_path: None,
            credential_bundle_passphrase_env: None,
            now_unix_seconds: None,
            output_format: PlanOutputFormat::Text,
        };
        r
    }
}

/// Parses the arguments of `auth status`.
pub fn parse_auth_status_options(args: &[String]) -> (r: Result<AuthStatusOptions, String>)
    ensures
        match r {
            Ok(o) => auth_status_spec(arg_views(args@)) == Ok::<AuthStatusView, Seq<char>>(o@),
            Err(e) => auth_status_spec(arg_views(args@)) == Err::<AuthStatusView, Seq<char>>(e@),
        },
        r matches Ok(o) ==> o.db_path is Some && o.provider is Some && o.account_id is Some,
{
    let ghost a = arg_views(args@);
    let mut options = AuthStatusOptions::default();
    let mut index: usize = 0;
    while index < args.len()
        invariant
            a == arg_views(args@),
            index <= args.len(),
            fold_flags(a, 0, auth_status_default()) == fold_flags(a, index as int, options@),
        decreases args.len() - index,
    {
        let flag = args[index].as_str();
        if is_network_auth(flag) {
            return Err(concat("writes and network auth are disabled for auth status: ", flag));
        }
        if index + 1 >= args.len() {
            return Err(concat("missing value for ", flag));
        }
        let value = args[index + 1].as_str();
        if str_eq(flag, "--db") {
            options.db_path = Some(owned(value));
        } else if str_eq(flag, "--provider") {
            options.provider = Some(parse_provider(value)?);
        } else if str_eq(flag, "--account") || str_eq(flag, "--account-id") {
            options.account_id = Some(owned(value));
        } else if str_eq(flag, "--test-credential-bundle") {
            options.test_credential_bundle_path = Some(owned(value));
        } else if str_eq(flag, "--credential-bundle") {
            options.credential_bundle_path = Some(owned(value));
        } else if str_eq(flag, "--credential-bundle-passphrase-env") {
            options.credential_bundle_passphrase_env = Some(owned(value));
        } else if str_eq(flag, "--now") {
            options.now_unix_seconds = Some(parse_now_value(value,
                concat("invalid --now unix seconds: ", value))?);
        } else if str_eq(flag, "--format") {
            options.output_format = parse_plan_output_format(value)?;
        } else {
            return Err(concat("unexpected argument for auth status: ", flag));
        }
        index = index + 2;
    }
    if options.db_path.is_none() {
        return Err(owned("missing --db"));
    }
    if options.provider.is_none() {
        return Err(owned("missing --provider"));
    }
    if option_is_blank(&options.account_id) {
        return Err(owned("missing --account"));
    }
    Ok(options)
}

// ---------------------------------------------------------------------------
// auth begin
// ---------------------------------------------------------------------------

/// Options of `auth begin`.
pub struct AuthBeginOptions {
    pub provider: Option<Provider>,
    pub client_id: Option<String>,
    pub redirect_uri: Option<String>,
    pub session_file_path: Option<String>,
    pub show_sensitive_authorization_url: bool,
    pub now_unix_seconds: Option<i64>,
    pub output_format: PlanOutputFormat,
}

pub struct AuthBeginView {
    pub provider: Option<Provider>,
    pub client_id: Option<Seq<char>>,
    pub redirect_uri: Option<Seq<char>>,
    pub session_file_path: Option<Seq<char>>,
    pub show_sensitive_authorization_url: bool,
    pub now_unix_seconds: Option<i64>,
    pub output_format: PlanOutputFormat,
}

impl View for AuthBeginOptions {
    type V = AuthBeginView;

    open spec fn view(&self) -> AuthBeginView {
        AuthBeginView {
            provider: self.provider,
            client_id: opt_chars(self.client_id),
            redirect_uri: opt_chars(self.redirect_uri),
            session_file_path: opt_chars(self.session_file_path),
            show_sensitive_authorization_url: self.show_sensitive_authorization_url,
            now_unix_seconds: self.now_unix_seconds,
            output_format: self.output_format,
        }
    }
}

impl FlagGrammar for AuthBeginView {
    open spec fn on_flag(self, flag: Seq<char>) -> FlagAction<Self> {
        if flag == "--show-sensitive-authorization-url"@ {
            FlagAction::Switch(AuthBeginView { show_sensitive_authorization_url: true, ..self })
        } else if network_auth(flag) || flag == "--client-secret"@ || flag == "--db"@
            || flag == "--test-credential-bundle"@ || flag == "--token-response"@ {
            FlagAction::Refuse("browser, network auth, database, provider writes, and credential bundles are disabled for auth begin: "@ + flag)
        } else {
            FlagAction::Value
        }
    }

    open spec fn missing_value(flag: Seq<char>) -> Seq<char> {
        missing_value_for(flag)
    }

    open spec fn on_value(self, flag: Seq<char>, value: Seq<char>) -> Result<Self, Seq<char>> {
        if flag == "--provider"@ {
            match parse_provider_spec(value) {
                Ok(x) => Ok(AuthBeginView { provider: Some(x), ..self }),
                Err(e) => Err(e),
            }
        } else if flag == "--client-id"@ {
            Ok(AuthBeginView { client_id: Some(value), ..self })
        } else if flag == "--redirect-uri"@ {
            Ok(AuthBeginView { redirect_uri: Some(value), ..self })
        } else if flag == "--session-file"@ {
            Ok(AuthBeginView { session_file_path: Some(value), ..self })
        } else if flag == "--now"@ {
            match now_value_spec(value, "invalid --now unix seconds: "@ + value) {
                Ok(x) => Ok(AuthBeginView { now_unix_seconds: Some(x), ..self }),
                Err(e) => Err(e),
            }
        } else if flag == "--format"@ {
            match parse_plan_output_format_spec(value) {
                Ok(x) => Ok(AuthBeginView { output_format: x, ..self }),
                Err(e) => Err(e),
            }
        } else {
            Err("unexpected argument for auth begin: "@ + flag)
        }
    }
}

pub open spec fn auth_begin_default() -> AuthBeginView {
    AuthBeginView {
        provider: None,
        client_id: None,
        redirect_uri: None,
        session_file_path: None,
        show_sensitive_authorization_url: false,
        now_unix_seconds: None,
        output_format: PlanOutputFormat::Text,
    }
}

pub open spec fn auth_begin_finish(o: AuthBeginView) -> Result<AuthBeginView, Seq<char>> {
    if o.provider is None {
        Err("missing --provider"@)
    } else if opt_blank(o.client_id) {
        Err("missing --client-id"@)
    } else if opt_blank(o.redirect_uri) {
        Err("missing --redirect-uri"@)
    } else if o.session_file_path is None {
        Err("missing --session-file"@)
    } else {
        Ok(o)
    }
}

/// What `auth begin` makes of its arguments.
pub open spec fn auth_begin_spec(args: Seq<Seq<char>>) -> Result<AuthBeginView, Seq<char>> {
    match fold_flags(args, 0, auth_begin_default()) {
        Ok(o) => auth_begin_finish(o),
        Err(e) => Err(e),
    }
}

impl Default for AuthBeginOptions {
    fn default() -> (r: Self)
        ensures
            r@ == auth_begin_default(),
    {
        let r = AuthBeginOptions {
            provider: None,
            client_id: None,
            redirect_uri: None,
            session_file_path: None,
            show_sensitive_authorization_url: false,
            now_unix_seconds: None,
            output_format: PlanOutputFormat::Text,
        };
        r
    }
}

/// Parses the arguments of `auth begin`.
pub fn parse_auth_begin_options(args: &[String]) -> (r: Result<AuthBeginOptions, String>)
    ensures
        match r {
            Ok(o) => auth_begin_spec(arg_views(args@)) == Ok::<AuthBeginView, Seq<char>>(o@),
            Err(e) => auth_begin_spec(arg_views(args@)) == Err::<AuthBeginView, Seq<char>>(e@),
        },
        r matches Ok(o) ==> o.provider is Some && o.client_id is Some && o.redirect_uri is Some
            && o.session_file_path is Some,
{
    let ghost a = arg_views(args@);
    let mut options = AuthBeginOptions::default();
    let mut index: usize = 0;
    while index < args.len()
        invariant
            a == arg_views(args@),
            index <= args.len(),
            fold_flags(a, 0, auth_begin_default()) == fold_flags(a, index as int, options@),
        decreases args.len() - index,
    {
        let flag = args[index].as_str();
        if str_eq(flag, "--show-sensitive-authorization-url") {
            options.show_sensitive_authorization_url = true;
            index = index + 1;
            continue;
        }
        if is_network_auth(flag) || str_eq(flag, "--client-secret") || str_eq(flag, "--db")
            || str_eq(flag, "--test-credential-bundle") || str_eq(flag, "--token-response") {
            return Err(concat("browser, network auth, database, provider writes, and credential bundles are disabled for auth begin: ",
                flag));
        }
        if index + 1 >= args.len() {
            return Err(concat("missing value for ", flag));
        }
        let value = args[index + 1].as_str();
        if str_eq(flag, "--provider") {
            options.provider = Some(parse_provider(value)?);
        } else if str_eq(flag, "--client-id") {
            options.client_id = Some(owned(value));
        } else if str_eq(flag, "--redirect-uri") {
            options.redirect_uri = Some(owned(value));
        } else if str_eq(flag, "--session-file") {
            options.session_file_path = Some(owned(value));
        } else if str_eq(flag, "--now") {
            options.now_unix_seconds = Some(parse_now_value(value,
                concat("invalid --now unix seconds: ", value))?);
        } else if str_eq(flag, "--format") {
            options.output_format = parse_plan_output_format(value)?;
        } else {
            return Err(concat("unexpected argument for auth begin: ", flag));
        }
        index = index + 2;
    }
    if options.provider.is_none() {
        return Err(owned("missing --provider"));
    }
    if option_is_blank(&options.client_id) {
        return Err(owned("missing --client-id"));
    }
    if option_is_blank(&options.redirect_uri) {
        return Err(owned("missing --redirect-uri"));
    }
    if options.session_file_path.is_none() {
        return Err(owned("missing --session-file"));
    }
    Ok(options)
}

// ---------------------------------------------------------------------------
// auth callback-plan
// ---------------------------------------------------------------------------

/// Options of `auth callback-plan`.
pub struct AuthCallbackPlanOptions {
    pub session_file_path: Option<String>,
    pub callback_url: Option<String>,
    pub now_unix_seconds: Option<i64>,
    pub output_format: PlanOutputFormat,
}

pub struct AuthCallbackPlanView {
    pub session_file_path: Option<Seq<char>>,
    pub callback_url: Option<Seq<char>>,
    pub now_unix_seconds: Option<i64>,
    pub output_format: PlanOutputFormat,
}

impl View for AuthCallbackPlanOptions {
    type V = AuthCallbackPlanView;

    open spec fn view(&self) -> AuthCallbackPlanView {
        AuthCallbackPlanView {
            session_file_path: opt_chars(self.session_file_path),
            callback_url: opt_chars(self.callback_url),
            now_unix_seconds: self.now_unix_seconds,
            output_format: self.output_format,
        }
    }
}

impl FlagGrammar for AuthCallbackPlanView {
    open spec fn on_flag(self, flag: Seq<char>) -> FlagAction<Self> {
        if network_auth(flag) || flag == "--client-secret"@ || flag == "--db"@
            || flag == "--test-credential-bundle"@ || flag == "--token-response"@ {
            FlagAction::Refuse("browser, network auth, database, provider writes, direct tokens, and credential bundles are disabled for auth callback-plan: "@ + flag)
        } else {
            FlagAction::Value
        }
    }

    open spec fn missing_value(flag: Seq<char>) -> Seq<char> {
        "missing value for auth callback-plan option"@
    }

    open spec fn on_value(self, flag: Seq<char>, value: Seq<char>) -> Result<Self, Seq<char>> {
        if flag == "--session-file"@ {
            Ok(AuthCallbackPlanView { session_file_path: Some(value), ..self })
        } else if flag == "--callback-url"@ || flag == "--callback"@ {
            Ok(AuthCallbackPlanView { callback_url: Some(value), ..self })
        } else if flag == "--now"@ {
            match now_value_spec(value, "invalid --now unix seconds"@) {
                Ok(x) => Ok(AuthCallbackPlanView { now_unix_seconds: Some(x), ..self }),
                Err(e) => Err(e),
            }
        } else if flag == "--format"@ {
            if value == "text"@ {
                Ok(AuthCallbackPlanView { output_format: PlanOutputFormat::Text, ..self })
            } else if value == "json"@ {
                Ok(AuthCallbackPlanView { output_format: PlanOutputFormat::Json, ..self })
            } else {
                Err("unsupported output format for auth callback-plan"@)
            }
        } else {
            Err("unexpected argument for auth callback-plan"@)
        }
    }
}

pub open spec fn auth_callback_plan_default() -> AuthCallbackPlanView {
    AuthCallbackPlanView {
        session_file_path: None,
        callback_url: None,
        now_unix_seconds: None,
        output_format: PlanOutputFormat::Text,
    }
}

pub open spec fn auth_callback_plan_finish(o: AuthCallbackPlanView) -> Result<AuthCallbackPlanView,
    Seq<char>> {
    if o.session_file_path is None {
        Err("missing --session-file"@)
    } else if opt_blank(o.callback_url) {
        Err("missing --callback-url"@)
    } else {
        Ok(o)
    }
}

/// What `auth callback-plan` makes of its arguments.
pub open spec fn auth_callback_plan_spec(args: Seq<Seq<char>>) -> Result<AuthCallbackPlanView,
    Seq<char>> {
    match fold_flags(args, 0, auth_callback_plan_default()) {
        Ok(o) => auth_callback_plan_finish(o),
        Err(e) => Err(e),
    }
}

impl Default for AuthCallbackPlanOptions {
    fn default() -> (r: Self)
        ensures
            r@ == auth_callback_plan_default(),
    {
        let r = AuthCallbackPlanOptions {
            session_file_path: None,
            callback_url: None,
            now_unix_seconds: None,
            output_format: PlanOutputFormat::Text,
        };
        r
    }
}

/// Parses the arguments of `auth callback-plan`.
pub fn parse_auth_callback_plan_options(args: &[String]) -> (r: Result<AuthCallbackPlanOptions,
    String>)
    ensures
        match r {
            Ok(o) => auth_callback_plan_spec(arg_views(args@)) == Ok::<AuthCallbackPlanView,
                Seq<char>>(o@),
            Err(e) => auth_callback_plan_spec(arg_views(args@)) == Err::<AuthCallbackPlanView,
                Seq<char>>(e@),
        },
        r matches Ok(o) ==> o.session_file_path is Some && o.callback_url is Some,
{
    let ghost a = arg_views(args@);
    let mut options = AuthCallbackPlanOptions::default();
    let mut index: usize = 0;
    while index < args.len()
        invariant
            a == arg_views(args@),
            index <= args.len(),
            fold_flags(a, 0, auth_callback_plan_default()) == fold_flags(a, index as int, options@),
        decreases args.len() - index,
    {
        let flag = args[index].as_str();
        if is_network_auth(flag) || str_eq(flag, "--client-secret") || str_eq(flag, "--db")
            || str_eq(flag, "--test-credential-bundle") || str_eq(flag, "--token-response") {
            return Err(concat("browser, network auth, database, provider writes, direct tokens, and credential bundles are disabled for auth callback-plan: ",
                flag));
        }
        if index + 1 >= args.len() {
            return Err(owned("missing value for auth callback-plan option"));
        }
        let value = args[index + 1].as_str();
        if str_eq(flag, "--session-file") {
            options.session_file_path = Some(owned(value));
        } else if str_eq(flag, "--callback-url") || str_eq(flag, "--callback") {
            options.callback_url = Some(owned(value));
        } else if str_eq(flag, "--now") {
            options.now_unix_seconds = Some(parse_now_value(value,
                owned("invalid --now unix seconds"))?);
        } else if str_eq(flag, "--format") {
            if str_eq(value, "text") {
                options.output_format = PlanOutputFormat::Text;
            } else if str_eq(value, "json") {
                options.output_format = PlanOutputFormat::Json;
            } else {
                return Err(owned("unsupported output format for auth callback-plan"));
            }
        } else {
            return Err(owned("unexpected argument for auth callback-plan"));
        }
        index = index + 2;
    }
    if options.session_file_path.is_none() {
        return Err(owned("missing --session-file"));
    }
    if option_is_blank(&options.callback_url) {
        return Err(owned("missing --callback-url"));
    }
    Ok(options)
}

// ---------------------------------------------------------------------------
// auth complete
// ---------------------------------------------------------------------------

/// Options of `auth complete`.
pub struct AuthCompleteOptions {
    pub test_token_transport: bool,
    pub db_path: Option<String>,
    pub account_id: Option<String>,
    pub session_file_path: Option<String>,
    pub callback_url: Option<String>,
    pub client_secret: Option<String>,
    pub test_credential_bundle_path: Option<String>,
    pub credential_bundle_path: Option<String>,
    pub credential_bundle_passphrase_env: Option<String>,
    pub token_response_path: Option<String>,
    pub now_unix_seconds: Option<i64>,
    pub output_format: PlanOutputFormat,
}

pub struct AuthCompleteView {
    pub test_token_transport: bool,
    pub db_path: Option<Seq<char>>,
    pub account_id: Option<Seq<char>>,
    pub session_file_path: Option<Seq<char>>,
    pub callback_url: Option<Seq<char>>,
    pub client_secret: Option<Seq<char>>,
    pub test_credential_bundle_path: Option<Seq<char>>,
    pub credential_bundle_path: Option<Seq<char>>,
    pub credential_bundle_passphrase_env: Option<Seq<char>>,
    pub token_response_path: Option<Seq<char>>,
    pub now_unix_seconds: Option<i64>,
    pub output_format: PlanOutputFormat,
}

impl View for AuthCompleteOptions {
    type V = AuthCompleteView;

    open spec fn view(&self) -> AuthCompleteView {
        AuthCompleteView {
            test_token_transport: self.test_token_transport,
            db_path: opt_chars(self.db_path),
            account_id: opt_chars(self.account_id),
            session_file_path: opt_chars(self.session_file_path),
            callback_url: opt_chars(self.callback_url),
            client_secret: opt_chars(self.client_secret),
            test_credential_bundle_path: opt_chars(self.test_credential_bundle_path),
            credential_bundle_path: opt_chars(self.credential_bundle_path),
            credential_bundle_passphrase_env: opt_chars(self.credential_bundle_passphrase_env),
            token_response_path: opt_chars(self.token_response_path),
            now_unix_seconds: self.now_unix_seconds,
            output_format: self.output_format,
        }
    }
}

impl FlagGrammar for AuthCompleteView {
    open spec fn on_flag(self, flag: Seq<char>) -> FlagAction<Self> {
        if flag == "--test-token-transport"@ {
            FlagAction::Switch(AuthCompleteView { test_token_transport: true, ..self })
        } else if writes_or_network(flag) || flag == "--exchange-token"@ || flag == "--provider"@
            || flag == "--client-id"@ || flag == "--redirect-uri"@
            || flag == "--authorization-code"@ || flag == "--code"@
            || flag == "--pkce-code-verifier"@ || flag == "--code-verifier"@ || secret_input(flag) {
            FlagAction::Refuse("live provider writes, browser sessions, direct token input, and session overrides are disabled for auth complete: "@ + flag)
        } else {
            FlagAction::Value
        }
    }

    open spec fn missing_value(flag: Seq<char>) -> Seq<char> {
        "missing value for auth complete option"@
    }

    open spec fn on_value(self, flag: Seq<char>, value: Seq<char>) -> Result<Self, Seq<char>> {
        if flag == "--db"@ {
            Ok(AuthCompleteView { db_path: Some(value), ..self })
        } else if flag == "--account"@ || flag == "--account-id"@ {
            Ok(AuthCompleteView { account_id: Some(value), ..self })
        } else if flag == "--session-file"@ {
            Ok(AuthCompleteView { session_file_path: Some(value), ..self })
        } else if flag == "--callback-url"@ || flag == "--callback"@ {
            Ok(AuthCompleteView { callback_url: Some(value), ..self })
        } else if flag == "--client-secret"@ {
            Ok(AuthCompleteView { client_secret: Some(value), ..self })
        } else if flag == "--test-credential-bundle"@ {
            Ok(AuthCompleteView { test_credential_bundle_path: Some(value), ..self })
        } else if flag == "--credential-bundle"@ {
            Ok(AuthCompleteView { credential_bundle_path: Some(value), ..self })
        } else if flag == "--credential-bundle-passphrase-env"@ {
            Ok(AuthCompleteView { credential_bundle_passphrase_env: Some(value), ..self })
        } else if flag == "--token-response"@ {
            Ok(AuthCompleteView { token_response_path: Some(value), ..self })
        } else if flag == "--now"@ {
            match now_value_spec(value, "invalid --now unix seconds for auth complete"@) {
                Ok(x) => Ok(AuthCompleteView { now_unix_seconds: Some(x), ..self }),
                Err(e) => Err(e),
            }
        } else if flag == "--format"@ {
            if value == "text"@ {
                Ok(AuthCompleteView { output_format: PlanOutputFormat::Text, ..self })
            } else if value == "json"@ {
                Ok(AuthCompleteView { output_format: PlanOutputFormat::Json, ..self })
            } else {
                Err("unsupported output format for auth complete"@)
            }
        } else {
            Err("unexpected argument for auth complete"@)
        }
    }
}

pub open spec fn auth_complete_default() -> AuthCompleteView {
    AuthCompleteView {
        test_token_transport: false,
        db_path: None,
        account_id: None,
        session_file_path: None,
        callback_url: None,
        client_secret: None,
        test_credential_bundle_path: None,
        credential_bundle_path: None,
        credential_bundle_passphrase_env: None,
        token_response_path: None,
        now_unix_seconds: None,
        output_format: PlanOutputFormat::Text,
    }
}

pub open spec fn auth_complete_finish(o: AuthCompleteView) -> Result<AuthCompleteView, Seq<char>> {
    if !o.test_token_transport {
        Err("missing --test-token-transport"@)
    } else if o.session_file_path is None {
        Err("missing --session-file"@)
    } else if opt_blank(o.callback_url) {
        Err("missing --callback-url"@)
    } else if o.db_path is None {
        Err("missing --db"@)
    } else if opt_blank(o.account_id) {
        Err("missing --account"@)
    } else if o.test_credential_bundle_path is Some && o.credential_bundle_path is Some {
        Err("choose only one credential bundle source for auth complete"@)
    } else if o.test_credential_bundle_path is None && o.credential_bundle_path is None {
        Err("missing --test-credential-bundle or --credential-bundle"@)
    } else if o.token_response_path is None {
        Err("missing --token-response"@)
    } else {
        Ok(o)
    }
}

/// What `auth complete` makes of its arguments.
pub open spec fn auth_complete_spec(args: Seq<Seq<char>>) -> Result<AuthCompleteView, Seq<char>> {
    match fold_flags(args, 0, auth_complete_default()) {
        Ok(o) => auth_complete_finish(o),
        Err(e) => Err(e),
    }
}

impl Default for AuthCompleteOptions {
    fn default() -> (r: Self)
        ensures
            r@ == auth_complete_default(),
    {
        let r = AuthCompleteOptions {
            test_token_transport: false,
            db_path: None,
            account_id: None,
            session_file_path: None,
            callback_url: None,
            client_secret: None,
            test_credential_bundle_path: None,
            credential_bundle_path: None,
            credential_bundle_passphrase_env: None,
            token_response_path: None,
            now_unix_seconds: None,
            output_format: PlanOutputFormat::Text,
        };
        r
    }
}

/// Parses the arguments of `auth complete`.
pub fn parse_auth_complete_options(args: &[String]) -> (r: Result<AuthCompleteOptions, String>)
    ensures
        match r {
            Ok(o) => auth_complete_spec(arg_views(args@)) == Ok::<AuthCompleteView, Seq<char>>(o@),
            Err(e) => auth_complete_spec(arg_views(args@)) == Err::<AuthCompleteView,
                Seq<char>>(e@),
        },
        r matches Ok(o) ==> o.test_token_transport && o.session_file_path is Some
            && o.callback_url is Some && o.db_path is Some && o.account_id is Some
            && (o.test_credential_bundle_path is Some != o.credential_bundle_path is Some)
            && o.token_response_path is Some,
{
    let ghost a = arg_views(args@);
    let mut options = AuthCompleteOptions::default();
    let mut index: usize = 0;
    while index < args.len()
        invariant
            a == arg_views(args@),
            index <= args.len(),
            fold_flags(a, 0, auth_complete_default()) == fold_flags(a, index as int, options@),
        decreases args.len() - index,
    {
        let flag = args[index].as_str();
        if str_eq(flag, "--test-token-transport") {
            options.test_token_transport = true;
            index = index + 1;
            continue;
        }
        if is_write_or_network(flag) || str_eq(flag, "--exchange-token") || str_eq(flag,
            "--provider") || str_eq(flag, "--client-id") || str_eq(flag, "--redirect-uri")
            || str_eq(flag, "--authorization-code") || str_eq(flag, "--code") || str_eq(flag,
            "--pkce-code-verifier") || str_eq(flag, "--code-verifier") || is_secret_input(flag) {
            return Err(concat("live provider writes, browser sessions, direct token input, and session overrides are disabled for auth complete: ",
                flag));
        }
        if index + 1 >= args.len() {
            return Err(owned("missing value for auth complete option"));
        }
        let value = args[index + 1].as_str();
        if str_eq(flag, "--db") {
            options.db_path = Some(owned(value));
        } else if str_eq(flag, "--account") || str_eq(flag, "--account-id") {
            options.account_id = Some(owned(value));
        } else if str_eq(flag, "--session-file") {
            options.session_file_path = Some(owned(value));
        } else if str_eq(flag, "--callback-url") || str_eq(flag, "--callback") {
            options.callback_url = Some(owned(value));
        } else if str_eq(flag, "--client-secret") {
            options.client_secret = Some(owned(value));
        } else if str_eq(flag, "--test-credential-bundle") {
            options.test_credential_bundle_path = Some(owned(value));
        } else if str_eq(flag, "--credential-bundle") {
            options.credential_bundle_path = Some(owned(value));
        } else if str_eq(flag, "--credential-bundle-passphrase-env") {
            options.credential_bundle_passphrase_env = Some(owned(value));
        } else if str_eq(flag, "--token-response") {
            options.token_response_path = Some(owned(value));
        } else if str_eq(flag, "--now") {
            options.now_unix_seconds = Some(parse_now_value(value,
                owned("invalid --now unix seconds for auth complete"))?);
        } else if str_eq(flag, "--format") {
            if str_eq(value, "text") {
                options.output_format = PlanOutputFormat::Text;
            } else if str_eq(value, "json") {
                options.output_format = PlanOutputFormat::Json;
            } else {
                return Err(owned("unsupported output format for auth complete"));
            }
        } else {
            return Err(owned("unexpected argument for auth complete"));
        }
        index = index + 2;
    }
    if !options.test_token_transport {
        return Err(owned("missing --test-token-transport"));
    }
    if options.session_file_path.is_none() {
        return Err(owned("missing --session-file"));
    }
    if option_is_blank(&options.callback_url) {
        return Err(owned("missing --callback-url"));
    }
    if options.db_path.is_none() {
        return Err(owned("missing --db"));
    }
    if option_is_blank(&options.account_id) {
        return Err(owned("missing --account"));
    }
    if options.test_credential_bundle_path.is_some() && options.credential_bundle_path.is_some() {
        return Err(owned("choose only one credential bundle source for auth complete"));
    }
    if options.test_credential_bundle_path.is_none() && options.credential_bundle_path.is_none() {
        return Err(owned("missing --test-credential-bundle or --credential-bundle"));
    }
    if options.token_response_path.is_none() {
        return Err(owned("missing --token-response"));
    }
    Ok(options)
}

// ---------------------------------------------------------------------------
// auth authorize-url
// ---------------------------------------------------------------------------

/// Options of `auth authorize-url`.
pub struct AuthAuthorizeUrlOptions {
    pub provider: Option<Provider>,
    pub client_id: Option<String>,
    pub redirect_uri: Option<String>,
    pub state: Option<String>,
    pub pkce_code_challenge: Option<String>,
    pub show_sensitive_authorization_url: bool,
    pub output_format: PlanOutputFormat,
}

pub struct AuthAuthorizeUrlView {
    pub provider: Option<Provider>,
    pub client_id: Option<Seq<char>>,
    pub redirect_uri: Option<Seq<char>>,
    pub state: Option<Seq<char>>,
    pub pkce_code_challenge: Option<Seq<char>>,
    pub show_sensitive_authorization_url: bool,
    pub output_format: PlanOutputFormat,
}

impl View for AuthAuthorizeUrlOptions {
    type V = AuthAuthorizeUrlView;

    open spec fn view(&self) -> AuthAuthorizeUrlView {
        AuthAuthorizeUrlView {
            provider: self.provider,
            client_id: opt_chars(self.client_id),
            redirect_uri: opt_chars(self.redirect_uri),
            state: opt_chars(self.state),
            pkce_code_challenge: opt_chars(self.pkce_code_challenge),
            show_sensitive_authorization_url: self.show_sensitive_authorization_url,
            output_format: self.output_format,
        }
    }
}

impl FlagGrammar for AuthAuthorizeUrlView {
    open spec fn on_flag(self, flag: Seq<char>) -> FlagAction<Self> {
        if flag == "--show-sensitive-authorization-url"@ {
            FlagAction::Switch(AuthAuthorizeUrlView { show_sensitive_authorization_url: true,
                ..self })
        } else if network_auth(flag) || flag == "--client-secret"@ || flag == "--db"@ {
            FlagAction::Refuse("browser, network auth, database, and provider writes are disabled for auth authorize-url: "@ + flag)
        } else {
            FlagAction::Value
        }
    }

    open spec fn missing_value(flag: Seq<char>) -> Seq<char> {
        missing_value_for(flag)
    }

    open spec fn on_value(self, flag: Seq<char>, value: Seq<char>) -> Result<Self, Seq<char>> {
        if flag == "--provider"@ {
            match parse_provider_spec(value) {
                Ok(x) => Ok(AuthAuthorizeUrlView { provider: Some(x), ..self }),
                Err(e) => Err(e),
            }
        } else if flag == "--client-id"@ {
            Ok(AuthAuthorizeUrlView { client_id: Some(value), ..self })
        } else if flag == "--redirect-uri"@ {
            Ok(AuthAuthorizeUrlView { redirect_uri: Some(value), ..self })
        } else if flag == "--state"@ {
            Ok(AuthAuthorizeUrlView { state: Some(value), ..self })
        } else if flag == "--pkce-code-challenge"@ || flag == "--pkce"@ {
            Ok(AuthAuthorizeUrlView { pkce_code_challenge: Some(value), ..self })
        } else if flag == "--format"@ {
            match parse_plan_output_format_spec(value) {
                Ok(x) => Ok(AuthAuthorizeUrlView { output_format: x, ..self }),
                Err(e) => Err(e),
            }
        } else {
            Err("unexpected argument for auth authorize-url: "@ + flag)
        }
    }
}

pub open spec fn auth_authorize_url_default() -> AuthAuthorizeUrlView {
    AuthAuthorizeUrlView {
        provider: None,
        client_id: None,
        redirect_uri: None,
        state: None,
        pkce_code_challenge: None,
        show_sensitive_authorization_url: false,
        output_format: PlanOutputFormat::Text,
    }
}

pub open spec fn auth_authorize_url_finish(o: AuthAuthorizeUrlView) -> Result<AuthAuthorizeUrlView,
    Seq<char>> {
    if o.provider is None {
        Err("missing --provider"@)
    } else if opt_blank(o.client_id) {
        Err("missing --client-id"@)
    } else if opt_blank(o.redirect_uri) {
        Err("missing --redirect-uri"@)
    } else if opt_blank(o.state) {
        Err("missing --state"@)
    } else if o.provider != Some(Provider::MyAnimeList) && o.pkce_code_challenge is Some {
        Err("--pkce-code-challenge is only supported for myanimelist"@)
    } else {
        Ok(o)
    }
}

/// What `auth authorize-url` makes of its arguments.
pub open spec fn auth_authorize_url_spec(args: Seq<Seq<char>>) -> Result<AuthAuthorizeUrlView,
    Seq<char>> {
    match fold_flags(args, 0, auth_authorize_url_default()) {
        Ok(o) => auth_authorize_url_finish(o),
        Err(e) => Err(e),
    }
}

impl Default for AuthAuthorizeUrlOptions {
    fn default() -> (r: Self)
        ensures
            r@ == auth_authorize_url_default(),
    {
        let r = AuthAuthorizeUrlOptions {
            provider: None,
            client_id: None,
            redirect_uri: None,
            state: None,
            pkce_code_challenge: None,
            show_sensitive_authorization_url: false,
            output_format: PlanOutputFormat::Text,
        };
        r
    }
}

/// Parses the arguments of `auth authorize-url`.
pub fn parse_auth_authorize_url_options(args: &[String]) -> (r: Result<AuthAuthorizeUrlOptions,
    String>)
    ensures
        match r {
            Ok(o) => auth_authorize_url_spec(arg_views(args@)) == Ok::<AuthAuthorizeUrlView,
                Seq<char>>(o@),
            Err(e) => auth_authorize_url_spec(arg_views(args@)) == Err::<AuthAuthorizeUrlView,
                Seq<char>>(e@),
        },
        r matches Ok(o) ==> o.provider is Some && o.client_id is Some && o.redirect_uri is Some
            && o.state is Some
            && (o.pkce_code_challenge is Some ==> o.provider == Some(Provider::MyAnimeList)),
{
    let ghost a = arg_views(args@);
    let mut options = AuthAuthorizeUrlOptions::default();
    let mut index: usize = 0;
    while index < args.len()
        invariant
            a == arg_views(args@),
            index <= args.len(),
            fold_flags(a, 0, auth_authorize_url_default()) == fold_flags(a, index as int, options@),
        decreases args.len() - index,
    {
        let flag = args[index].as_str();
        if str_eq(flag, "--show-sensitive-authorization-url") {
            options.show_sensitive_authorization_url = true;
            index = index + 1;
            continue;
        }
        if is_network_auth(flag) || str_eq(flag, "--client-secret") || str_eq(flag, "--db") {
            return Err(concat("browser, network auth, database, and provider writes are disabled for auth authorize-url: ",
                flag));
        }
        if index + 1 >= args.len() {
            return Err(concat("missing value for ", flag));
        }
        let value = args[index + 1].as_str();
        if str_eq(flag, "--provider") {
            options.provider = Some(parse_provider(value)?);
        } else if str_eq(flag, "--client-id") {
            options.client_id = Some(owned(value));
        } else if str_eq(flag, "--redirect-uri") {
            options.redirect_uri = Some(owned(value));
        } else if str_eq(flag, "--state") {
            options.state = Some(owned(value));
        } else if str_eq(flag, "--pkce-code-challenge") || str_eq(flag, "--pkce") {
            options.pkce_code_challenge = Some(owned(value));
        } else if str_eq(flag, "--format") {
            options.output_format = parse_plan_output_format(value)?;
        } else {
            return Err(concat("unexpected argument for auth authorize-url: ", flag));
        }
        index = index + 2;
    }
    if options.provider.is_none() {
        return Err(owned("missing --provider"));
    }
    if option_is_blank(&options.client_id) {
        return Err(owned("missing --client-id"));
    }
    if option_is_blank(&options.redirect_uri) {
        return Err(owned("missing --redirect-uri"));
    }
    if option_is_blank(&options.state) {
        return Err(owned("missing --state"));
    }
    if options.provider != Some(Provider::MyAnimeList) && options.pkce_code_challenge.is_some() {
        return Err(owned("--pkce-code-challenge is only supported for myanimelist"));
    }
    Ok(options)
}

// ---------------------------------------------------------------------------
// auth exchange-code
// ---------------------------------------------------------------------------

/// Options of `auth exchange-code`.
pub struct AuthExchangeCodeOptions {
    pub test_token_transport: bool,
    pub db_path: Option<String>,
    pub provider: Option<Provider>,
    pub account_id: Option<String>,
    pub client_id: Option<String>,
    pub client_secret: Option<String>,
    pub redirect_uri: Option<String>,
    pub authorization_code: Option<String>,
    pub pkce_code_verifier: Option<String>,
    pub test_credential_bundle_path: Option<String>,
    pub token_response_path: Option<String>,
    pub now_unix_seconds: Option<i64>,
    pub output_format: PlanOutputFormat,
}

pub struct AuthExchangeCodeView {
    pub test_token_transport: bool,
    pub db_path: Option<Seq<char>>,
    pub provider: Option<Provider>,
    pub account_id: Option<Seq<char>>,
    pub client_id: Option<Seq<char>>,
    pub client_secret: Option<Seq<char>>,
    pub redirect_uri: Option<Seq<char>>,
    pub authorization_code: Option<Seq<char>>,
    pub pkce_code_verifier: Option<Seq<char>>,
    pub test_credential_bundle_path: Option<Seq<char>>,
    pub token_response_path: Option<Seq<char>>,
    pub now_unix_seconds: Option<i64>,
    pub output_format: PlanOutputFormat,
}

impl View for AuthExchangeCodeOptions {
    type V = AuthExchangeCodeView;

    open spec fn view(&self) -> AuthExchangeCodeView {
        AuthExchangeCodeView {
            test_token_transport: self.test_token_transport,
            db_path: opt_chars(self.db_path),
            provider: self.provider,
            account_id: opt_chars(self.account_id),
            client_id: opt_chars(self.client_id),
            client_secret: opt_chars(self.client_secret),
            redirect_uri: opt_chars(self.redirect_uri),
            authorization_code: opt_chars(self.authorization_code),
            pkce_code_verifier: opt_chars(self.pkce_code_verifier),
            test_credential_bundle_path: opt_chars(self.test_credential_bundle_path),
            token_response_path: opt_chars(self.token_response_path),
            now_unix_seconds: self.now_unix_seconds,
            output_format: self.output_format,
        }
    }
}

impl FlagGrammar for AuthExchangeCodeView {
    open spec fn on_flag(self, flag: Seq<char>) -> FlagAction<Self> {
        if flag == "--test-token-transport"@ {
            FlagAction::Switch(AuthExchangeCodeView { test_token_transport: true, ..self })
        } else if writes_or_network(flag) || flag == "--exchange-token"@ || secret_input(flag)
            || flag == "--credential-bundle"@ {
            FlagAction::Refuse("live provider writes, browser sessions, and direct token input are disabled for auth exchange-code: "@ + flag)
        } else {
            FlagAction::Value
        }
    }

    open spec fn missing_value(flag: Seq<char>) -> Seq<char> {
        missing_value_for(flag)
    }

    open spec fn on_value(self, flag: Seq<char>, value: Seq<char>) -> Result<Self, Seq<char>> {
        if flag == "--db"@ {
            Ok(AuthExchangeCodeView { db_path: Some(value), ..self })
        } else if flag == "--provider"@ {
            match parse_provider_spec(value) {
                Ok(x) => Ok(AuthExchangeCodeView { provider: Some(x), ..self }),
                Err(e) => Err(e),
            }
        } else if flag == "--account"@ || flag == "--account-id"@ {
            Ok(AuthExchangeCodeView { account_id: Some(value), ..self })
        } else if flag == "--client-id"@ {
            Ok(AuthExchangeCodeView { client_id: Some(value), ..self })
        } else if flag == "--client-secret"@ {
            Ok(AuthExchangeCodeView { client_secret: Some(value), ..self })
        } else if flag == "--redirect-uri"@ {
            Ok(AuthExchangeCodeView { redirect_uri: Some(value), ..self })
        } else if flag == "--authorization-code"@ || flag == "--code"@ {
            Ok(AuthExchangeCodeView { authorization_code: Some(value), ..self })
        } else if flag == "--pkce-code-verifier"@ || flag == "--code-verifier"@ {
            Ok(AuthExchangeCodeView { pkce_code_verifier: Some(value), ..self })
        } else if flag == "--test-credential-bundle"@ {
            Ok(AuthExchangeCodeView { test_credential_bundle_path: Some(value), ..self })
        } else if flag == "--token-response"@ {
            Ok(AuthExchangeCodeView { token_response_path: Some(value), ..self })
        } else if flag == "--now"@ {
            match now_value_spec(value, "invalid --now unix seconds: "@ + value) {
                Ok(x) => Ok(AuthExchangeCodeView { now_unix_seconds: Some(x), ..self }),
                Err(e) => Err(e),
            }
        } else if flag == "--format"@ {
            match parse_plan_output_format_spec(value) {
                Ok(x) => Ok(AuthExchangeCodeView { output_format: x, ..self }),
                Err(e) => Err(e),
            }
        } else {
            Err("unexpected argument for auth exchange-code: "@ + flag)
        }
    }
}

pub open spec fn auth_exchange_code_default() -> AuthExchangeCodeView {
    AuthExchangeCodeView {
        test_token_transport: false,
        db_path: None,
        provider: None,
        account_id: None,
        client_id: None,
        client_secret: None,
        redirect_uri: None,
        authorization_code: None,
        pkce_code_verifier: None,
        test_credential_bundle_path: None,
        token_response_path: None,
        now_unix_seconds: None,
        output_format: PlanOutputFormat::Text,
    }
}

pub open spec fn auth_exchange_code_finish(o: AuthExchangeCodeView) -> Result<AuthExchangeCodeView,
    Seq<char>> {
    if !o.test_token_transport {
        Err("missing --test-token-transport"@)
    } else if o.db_path is None {
        Err("missing --db"@)
    } else if o.provider is None {
        Err("missing --provider"@)
    } else if opt_blank(o.account_id) {
        Err("missing --account"@)
    } else if opt_blank(o.client_id) {
        Err("missing --client-id"@)
    } else if opt_blank(o.redirect_uri) {
        Err("missing --redirect-uri"@)
    } else if opt_blank(o.authorization_code) {
        Err("missing --authorization-code"@)
    } else if o.test_credential_bundle_path is None {
        Err("missing --test-credential-bundle"@)
    } else if o.token_response_path is None {
        Err("missing --token-response"@)
    } else {
        Ok(o)
    }
}

/// What `auth exchange-code` makes of its arguments.
pub open spec fn auth_exchange_code_spec(args: Seq<Seq<char>>) -> Result<AuthExchangeCodeView,
    Seq<char>> {
    match fold_flags(args, 0, auth_exchange_code_default()) {
        Ok(o) => auth_exchange_code_finish(o),
        Err(e) => Err(e),
    }
}

impl Default for AuthExchangeCodeOptions {
    fn default() -> (r: Self)
        ensures
            r@ == auth_exchange_code_default(),
    {
        let r = AuthExchangeCodeOptions {
            test_token_transport: false,
            db_path: None,
            provider: None,
            account_id: None,
            client_id: None,
            client_secret: None,
            redirect_uri: None,
            authorization_code: None,
            pkce_code_verifier: None,
            test_credential_bundle_path: None,
            token_response_path: None,
            now_unix_seconds: None,
            output_format: PlanOutputFormat::Text,
        };
        r
    }
}

/// Parses the arguments of `auth exchange-code`.
pub fn parse_auth_exchange_code_options(args: &[String]) -> (r: Result<AuthExchangeCodeOptions,
    String>)
    ensures
        match r {
            Ok(o) => auth_exchange_code_spec(arg_views(args@)) == Ok::<AuthExchangeCodeView,
                Seq<char>>(o@),
            Err(e) => auth_exchange_code_spec(arg_views(args@)) == Err::<AuthExchangeCodeView,
                Seq<char>>(e@),
        },
        r matches Ok(o) ==> o.test_token_transport && o.db_path is Some && o.provider is Some
            && o.account_id is Some && o.client_id is Some && o.redirect_uri is Some
            && o.authorization_code is Some && o.test_credential_bundle_path is Some
            && o.token_response_path is Some,
{
    let ghost a = arg_views(args@);
    let mut options = AuthExchangeCodeOptions::default();
    let mut index: usize = 0;
    while index < args.len()
        invariant
            a == arg_views(args@),
            index <= args.len(),
            fold_flags(a, 0, auth_exchange_code_default()) == fold_flags(a, index as int, options@),
        decreases args.len() - index,
    {
        let flag = args[index].as_str();
        if str_eq(flag, "--test-token-transport") {
            options.test_token_transport = true;
            index = index + 1;
            continue;
        }
        if is_write_or_network(flag) || str_eq(flag, "--exchange-token") || is_secret_input(flag)
            || str_eq(flag, "--credential-bundle") {
            return Err(concat("live provider writes, browser sessions, and direct token input are disabled for auth exchange-code: ",
                flag));
        }
        if index + 1 >= args.len() {
            return Err(concat("missing value for ", flag));
        }
        let value = args[index + 1].as_str();
        if str_eq(flag, "--db") {
            options.db_path = Some(owned(value));
        } else if str_eq(flag, "--provider") {
            options.provider = Some(parse_provider(value)?);
        } else if str_eq(flag, "--account") || str_eq(flag, "--account-id") {
            options.account_id = Some(owned(value));
        } else if str_eq(flag, "--client-id") {
            options.client_id = Some(owned(value));
        } else if str_eq(flag, "--client-secret") {
            options.client_secret = Some(owned(value));
        } else if str_eq(flag, "--redirect-uri") {
            options.redirect_uri = Some(owned(value));
        } else if str_eq(flag, "--authorization-code") || str_eq(flag, "--code") {
            options.authorization_code = Some(owned(value));
        } else if str_eq(flag, "--pkce-code-verifier") || str_eq(flag, "--code-verifier") {
            options.pkce_code_verifier = Some(owned(value));
        } else if str_eq(flag, "--test-credential-bundle") {
            options.test_credential_bundle_path = Some(owned(value));
        } else if str_eq(flag, "--token-response") {
            options.token_response_path = Some(owned(value));
        } else if str_eq(flag, "--now") {
            options.now_unix_seconds = Some(parse_now_value(value,
                concat("invalid --now unix seconds: ", value))?);
        } else if str_eq(flag, "--format") {
            options.output_format = parse_plan_output_format(value)?;
        } else {
            return Err(concat("unexpected argument for auth exchange-code: ", flag));
        }
        index = index + 2;
    }
    if !options.test_token_transport {
        return Err(owned("missing --test-token-transport"));
    }
    if options.db_path.is_none() {
        return Err(owned("missing --db"));
    }
    if options.provider.is_none() {
        return Err(owned("missing --provider"));
    }
    if option_is_blank(&options.account_id) {
        return Err(owned("missing --account"));
    }
    if option_is_blank(&options.client_id) {
        return Err(owned("missing --client-id"));
    }
    if option_is_blank(&options.redirect_uri) {
        return Err(owned("missing --redirect-uri"));
    }
    if option_is_blank(&options.authorization_code) {
        return Err(owned("missing --authorization-code"));
    }
    if options.test_credential_bundle_path.is_none() {
        return Err(owned("missing --test-credential-bundle"));
    }
    if options.token_response_path.is_none() {
        return Err(owned("missing --token-response"));
    }
    Ok(options)
}

// ---------------------------------------------------------------------------
// auth refresh
// ---------------------------------------------------------------------------

/// Options of `auth refresh`.
pub struct AuthRefreshOptions {
    pub test_token_transport: bool,
    pub db_path: Option<String>,
    pub provider: Option<Provider>,
    pub account_id: Option<String>,
    pub client_id: Option<String>,
    pub client_secret: Option<String>,
    pub test_credential_bundle_path: Option<String>,
    pub credential_bundle_path: Option<String>,
    pub credential_bundle_passphrase_env: Option<String>,
    pub token_response_path: Option<String>,
    pub now_unix_seconds: Option<i64>,
    pub output_format: PlanOutputFormat,
}

pub struct AuthRefreshView {
    pub test_token_transport: bool,
    pub db_path: Option<Seq<char>>,
    pub provider: Option<Provider>,
    pub account_id: Option<Seq<char>>,
    pub client_id: Option<Seq<char>>,
    pub client_secret: Option<Seq<char>>,
    pub test_credential_bundle_path: Option<Seq<char>>,
    pub credential_bundle_path: Option<Seq<char>>,
    pub credential_bundle_passphrase_env: Option<Seq<char>>,
    pub token_response_path: Option<Seq<char>>,
    pub now_unix_seconds: Option<i64>,
    pub output_format: PlanOutputFormat,
}

impl View for AuthRefreshOptions {
    type V = AuthRefreshView;

    open spec fn view(&self) -> AuthRefreshView {
        AuthRefreshView {
            test_token_transport: self.test_token_transport,
            db_path: opt_chars(self.db_path),
            provider: self.provider,
            account_id: opt_chars(self.account_id),
            client_id: opt_chars(self.client_id),
            client_secret: opt_chars(self.client_secret),
            test_credential_bundle_path: opt_chars(self.test_credential_bundle_path),
            credential_bundle_path: opt_chars(self.credential_bundle_path),
            credential_bundle_passphrase_env: opt_chars(self.credential_bundle_passphrase_env),
            token_response_path: opt_chars(self.token_response_path),
            now_unix_seconds: self.now_unix_seconds,
            output_format: self.output_format,
        }
    }
}

impl FlagGrammar for AuthRefreshView {
    open spec fn on_flag(self, flag: Seq<char>) -> FlagAction<Self> {
        if flag == "--test-token-transport"@ {
            FlagAction::Switch(AuthRefreshView { test_token_transport: true, ..self })
        } else if flag == "--apply"@ || flag == "--write"@ || flag == "--delete"@
            || flag == "--open-browser"@ || flag == "--exchange-token"@
            || flag == "--authorization-code"@ || secret_input(flag) {
            FlagAction::Refuse("live provider writes and network auth are disabled for auth refresh: "@ + flag)
        } else {
            FlagAction::Value
        }
    }

    open spec fn missing_value(flag: Seq<char>) -> Seq<char> {
        missing_value_for(flag)
    }

    open spec fn on_value(self, flag: Seq<char>, value: Seq<char>) -> Result<Self, Seq<char>> {
        if flag == "--db"@ {
            Ok(AuthRefreshView { db_path: Some(value), ..self })
        } else if flag == "--provider"@ {
            match parse_provider_spec(value) {
                Ok(x) => Ok(AuthRefreshView { provider: Some(x), ..self }),
                Err(e) => Err(e),
            }
        } else if flag == "--account"@ || flag == "--account-id"@ {
            Ok(AuthRefreshView { account_id: Some(value), ..self })
        } else if flag == "--client-id"@ {
            Ok(AuthRefreshView { client_id: Some(value), ..self })
        } else if flag == "--client-secret"@ {
            Ok(AuthRefreshView { client_secret: Some(value), ..self })
        } else if flag == "--test-credential-bundle"@ {
            Ok(AuthRefreshView { test_credential_bundle_path: Some(value), ..self })
        } else if flag == "--credential-bundle"@ {
            Ok(AuthRefreshView { credential_bundle_path: Some(value), ..self })
        } else if flag == "--credential-bundle-passphrase-env"@ {
            Ok(AuthRefreshView { credential_bundle_passphrase_env: Some(value), ..self })
        } else if flag == "--token-response"@ {
            Ok(AuthRefreshView { token_response_path: Some(value), ..self })
        } else if flag == "--now"@ {
            match now_value_spec(value, "invalid --now unix seconds: "@ + value) {
                Ok(x) => Ok(AuthRefreshView { now_unix_seconds: Some(x), ..self }),
                Err(e) => Err(e),
            }
        } else if flag == "--format"@ {
            match parse_plan_output_format_spec(value) {
                Ok(x) => Ok(AuthRefreshView { output_format: x, ..self }),
                Err(e) => Err(e),
            }
        } else {
            Err("unexpected argument for auth refresh: "@ + flag)
        }
    }
}

pub open spec fn auth_refresh_default() -> AuthRefreshView {
    AuthRefreshView {
        test_token_transport: false,
        db_path: None,
        provider: None,
        account_id: None,
        client_id: None,
        client_secret: None,
        test_credential_bundle_path: None,
        credential_bundle_path: None,
        credential_bundle_passphrase_env: None,
        token_response_path: None,
        now_unix_seconds: None,
        output_format: PlanOutputFormat::Text,
    }
}

pub open spec fn auth_refresh_finish(o: AuthRefreshView) -> Result<AuthRefreshView, Seq<char>> {
    if !o.test_token_transport {
        Err("missing --test-token-transport"@)
    } else if o.db_path is None {
        Err("missing --db"@)
    } else if o.provider is None {
        Err("missing --provider"@)
    } else if opt_blank(o.account_id) {
        Err("missing --account"@)
    } else if opt_blank(o.client_id) {
        Err("missing --client-id"@)
    } else if o.test_credential_bundle_path is Some && o.credential_bundle_path is Some {
        Err("choose only one credential bundle source for auth refresh"@)
    } else if o.test_credential_bundle_path is None && o.credential_bundle_path is None {
        Err("missing --test-credential-bundle or --credential-bundle"@)
    } else {
        Ok(o)
    }
}

/// What `auth refresh` makes of its arguments.
pub open spec fn auth_refresh_spec(args: Seq<Seq<char>>) -> Result<AuthRefreshView, Seq<char>> {
    match fold_flags(args, 0, auth_refresh_default()) {
        Ok(o) => auth_refresh_finish(o),
        Err(e) => Err(e),
    }
}

impl Default for AuthRefreshOptions {
    fn default() -> (r: Self)
        ensures
            r@ == auth_refresh_default(),
    {
        let r = AuthRefreshOptions {
            test_token_transport: false,
            db_path: None,
            provider: None,
            account_id: None,
            client_id: None,
            client_secret: None,
            test_credential_bundle_path: None,
            credential_bundle_path: None,
            credential_bundle_passphrase_env: None,
            token_response_path: None,
            now_unix_seconds: None,
            output_format: PlanOutputFormat::Text,
        };
        r
    }
}

/// Parses the arguments of `auth refresh`.
pub fn parse_auth_refresh_options(args: &[String]) -> (r: Result<AuthRefreshOptions, String>)
    ensures
        match r {
            Ok(o) => auth_refresh_spec(arg_views(args@)) == Ok::<AuthRefreshView, Seq<char>>(o@),
            Err(e) => auth_refresh_spec(arg_views(args@)) == Err::<AuthRefreshView, Seq<char>>(e@),
        },
        r matches Ok(o) ==> o.test_token_transport && o.db_path is Some && o.provider is Some
            && o.account_id is Some && o.client_id is Some,
{
    let ghost a = arg_views(args@);
    let mut options = AuthRefreshOptions::default();
    let mut index: usize = 0;
    while index < args.len()
        invariant
            a == arg_views(args@),
            index <= args.len(),
            fold_flags(a, 0, auth_refresh_default()) == fold_flags(a, index as int, options@),
        decreases args.len() - index,
    {
        let flag = args[index].as_str();
        if str_eq(flag, "--test-token-transport") {
            options.test_token_transport = true;
            index = index + 1;
            continue;
        }
        if str_eq(flag, "--apply") || str_eq(flag, "--write") || str_eq(flag, "--delete")
            || str_eq(flag, "--open-browser") || str_eq(flag, "--exchange-token") || str_eq(flag,
            "--authorization-code") || is_secret_input(flag) {
            return Err(concat("live provider writes and network auth are disabled for auth refresh: ",
                flag));
        }
        if index + 1 >= args.len() {
            return Err(concat("missing value for ", flag));
        }
        let value = args[index + 1].as_str();
        if str_eq(flag, "--db") {
            options.db_path = Some(owned(value));
        } else if str_eq(flag, "--provider") {
            options.provider = Some(parse_provider(value)?);
        } else if str_eq(flag, "--account") || str_eq(flag, "--account-id") {
            options.account_id = Some(owned(value));
        } else if str_eq(flag, "--client-id") {
            options.client_id = Some(owned(value));
        } else if str_eq(flag, "--client-secret") {
            options.client_secret = Some(owned(value));
        } else if str_eq(flag, "--test-credential-bundle") {
            options.test_credential_bundle_path = Some(owned(value));
        } else if str_eq(flag, "--credential-bundle") {
            options.credential_bundle_path = Some(owned(value));
        } else if str_eq(flag, "--credential-bundle-passphrase-env") {
            options.credential_bundle_passphrase_env = Some(owned(value));
        } else if str_eq(flag, "--token-response") {
            options.token_response_path = Some(owned(value));
        } else if str_eq(flag, "--now") {
            options.now_unix_seconds = Some(parse_now_value(value,
                concat("invalid --now unix seconds: ", value))?);
        } else if str_eq(flag, "--format") {
            options.output_format = parse_plan_output_format(value)?;
        } else {
            return Err(concat("unexpected argument for auth refresh: ", flag));
        }
        index = index + 2;
    }
    if !options.test_token_transport {
        return Err(owned("missing --test-token-transport"));
    }
    if options.db_path.is_none() {
        return Err(owned("missing --db"));
    }
    if options.provider.is_none() {
        return Err(owned("missing --provider"));
    }
    if option_is_blank(&options.account_id) {
        return Err(owned("missing --account"));
    }
    if option_is_blank(&options.client_id) {
        return Err(owned("missing --client-id"));
    }
    if options.test_credential_bundle_path.is_some() && options.credential_bundle_path.is_some() {
        return Err(owned("choose only one credential bundle source for auth refresh"));
    }
    if options.test_credential_bundle_path.is_none() && options.credential_bundle_path.is_none() {
        return Err(owned("missing --test-credential-bundle or --credential-bundle"));
    }
    Ok(options)
}

} // verus!
