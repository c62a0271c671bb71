//! Options of the planning and writing commands: `plan`, `apply`, `sync`.

use vstd::prelude::*;
use crate::credentials::has_credential_bundle_source;
use crate::flags::{
    arg_views, fold_flags, is_network_auth, lemma_fold_flags_append_value,
    lemma_fold_flags_extend, missing_value_for,
    network_auth, now_value_spec,
    parse_now_value, FlagAction, FlagGrammar,
};
use crate::model::{
    parse_plan_media_scope, parse_plan_media_scope_spec, parse_plan_output_format,
    parse_plan_output_format_spec, parse_provider_list, parse_provider_list_spec, PlanMediaScope,
    PlanOutputFormat, Provider,
};
use crate::sync_inputs::{
    fixture_response_spec, parse_fixture_response_input, parse_provider_scoped_value,
    parse_provider_token_response_input, scoped_value_spec, token_response_spec,
    token_transport_check_spec, validate_test_token_transport_options, FixtureResponseInput,
    FixtureResponseView, ProviderScopedValue, ProviderTokenResponseInput,
};
use crate::text::{
    concat, opt_blank, opt_chars, option_is_blank, owned, parse_u16, parse_u16_spec, str_eq,
};

verus! {

/// `--providers` was given and named at least one provider.
fn providers_given(providers: &Option<Vec<Provider>>) -> (r: bool)
    ensures
        r == (match providers {
            Some(v) => v@.len() > 0,
            None => false,
        }),
{
    match providers {
        Some(v) => v.len() > 0,
        None => false,
    }
}

// ---------------------------------------------------------------------------
// plan
// ---------------------------------------------------------------------------

/// Options of `plan`.
pub struct PlanOptions {
    pub dry_run: bool,
    pub refresh_snapshots: bool,
    pub live_read: bool,
    pub auto_link_local: bool,
    pub test_token_transport: bool,
    pub db_path: Option<String>,
    pub account_id: Option<String>,
    pub media_scope: Option<PlanMediaScope>,
    pub providers: Option<Vec<Provider>>,
    pub fixture_responses: Vec<FixtureResponseInput>,
    pub test_credential_bundle_path: Option<String>,
    pub credential_bundle_path: Option<String>,
    pub credential_bundle_passphrase_env: Option<String>,
    pub token_responses: Vec<ProviderTokenResponseInput>,
    pub refresh_client_ids: Vec<ProviderScopedValue>,
    pub refresh_client_secrets: Vec<ProviderScopedValue>,
    pub limit: u16,
    pub now_unix_seconds: Option<i64>,
    pub output_format: PlanOutputFormat,
}

pub struct PlanView {
    pub dry_run: bool,
    pub refresh_snapshots: bool,
    pub live_read: bool,
    pub auto_link_local: bool,
    pub test_token_transport: bool,
    pub db_path: Option<Seq<char>>,
    pub account_id: Option<Seq<char>>,
    pub media_scope: Option<PlanMediaScope>,
    pub providers: Option<Seq<Provider>>,
    pub fixture_responses: Seq<FixtureResponseView>,
    pub test_credential_bundle_path: Option<Seq<char>>,
    pub credential_bundle_path: Option<Seq<char>>,
    pub credential_bundle_passphrase_env: Option<Seq<char>>,
    pub token_responses: Seq<(Provider, Seq<char>)>,
    pub refresh_client_ids: Seq<(Provider, Seq<char>)>,
    pub refresh_client_secrets: Seq<(Provider, Seq<char>)>,
    pub limit: u16,
    pub now_unix_seconds: Option<i64>,
    pub output_format: PlanOutputFormat,
}

impl View for PlanOptions {
    type V = PlanView;

    open spec fn view(&self) -> PlanView {
        PlanView {
            dry_run: self.dry_run,
            refresh_snapshots: self.refresh_snapshots,
            live_read: self.live_read,
            auto_link_local: self.auto_link_local,
            test_token_transport: self.test_token_transport,
            db_path: opt_chars(self.db_path),
            account_id: opt_chars(self.account_id),
            media_scope: self.media_scope,
            providers: match self.providers { Some(v) => Some(v@), None => None },
            fixture_responses: self.fixture_responses.deep_view(),
            test_credential_bundle_path: opt_chars(self.test_credential_bundle_path),
            credential_bundle_path: opt_chars(self.credential_bundle_path),
            credential_bundle_passphrase_env: opt_chars(self.credential_bundle_passphrase_env),
            token_responses: self.token_responses.deep_view(),
            refresh_client_ids: self.refresh_client_ids.deep_view(),
            refresh_client_secrets: self.refresh_client_secrets.deep_view(),
            limit: self.limit,
            now_unix_seconds: self.now_unix_seconds,
            output_format: self.output_format,
        }
    }
}

impl FlagGrammar for PlanView {
    open spec fn on_flag(self, flag: Seq<char>) -> FlagAction<Self> {
        if flag == "--dry-run"@ {
            FlagAction::Switch(PlanView { dry_run: true, ..self })
        } else if flag == "--refresh-snapshots"@ {
            FlagAction::Switch(PlanView { refresh_snapshots: true, ..self })
        } else if flag == "--live-read"@ {
            FlagAction::Switch(PlanView { live_read: true, ..self })
        } else if flag == "--auto-link-local"@ {
            FlagAction::Switch(PlanView { auto_link_local: true, ..self })
        } else if flag == "--test-token-transport"@ {
            FlagAction::Switch(PlanView { test_token_transport: true, ..self })
        } else if (network_auth(flag) || flag == "--client-secret"@) && self.refresh_snapshots {
            FlagAction::Refuse("provider writes are disabled for plan refresh-snapshots: "@ + flag)
        } else if (network_auth(flag) || flag == "--client-secret"@) && (flag == "--apply"@
            || flag == "--write"@ || flag == "--delete"@) {
            FlagAction::Refuse("writes are disabled for plan: "@ + flag)
        } else if (network_auth(flag) || flag == "--client-secret"@) {
            FlagAction::Refuse("provider writes and network auth are disabled for plan: "@ + flag)
        } else {
            FlagAction::Value
        }
    }

    open spec fn missing_value(flag: Seq<char>) -> Seq<char> {
        missing_value_for(flag)
    }

    open spec fn on_value(self, flag: Seq<char>, value: Seq<char>) -> Result<Self, Seq<char>> {
        if flag == "--db"@ {
            Ok(PlanView { db_path: Some(value), ..self })
        } else if flag == "--account"@ || flag == "--account-id"@ {
            Ok(PlanView { account_id: Some(value), ..self })
        } else if flag == "--kind"@ {
            match parse_plan_media_scope_spec(value) {
                Ok(x) => Ok(PlanView { media_scope: Some(x), ..self }),
                Err(e) => Err(e),
            }
        } else if flag == "--providers"@ {
            match parse_provider_list_spec(value) {
                Ok(x) => Ok(PlanView { providers: Some(x), ..self }),
                Err(e) => Err(e),
            }
        } else if flag == "--fixture-response"@ || flag == "--fixture"@ {
            match fixture_response_spec(value) {
                Ok(x) => Ok(PlanView { fixture_responses: self.fixture_responses.push(x), ..self }),
                Err(e) => Err(e),
            }
        } else if flag == "--test-credential-bundle"@ {
            Ok(PlanView { test_credential_bundle_path: Some(value), ..self })
        } else if flag == "--credential-bundle"@ {
            Ok(PlanView { credential_bundle_path: Some(value), ..self })
        } else if flag == "--credential-bundle-passphrase-env"@ {
            Ok(PlanView { credential_bundle_passphrase_env: Some(value), ..self })
        } else if flag == "--token-response"@ {
            match token_response_spec(value) {
                Ok(x) => Ok(PlanView { token_responses: self.token_responses.push(x), ..self }),
                Err(e) => Err(e),
            }
        } else if flag == "--refresh-client-id"@ {
            match scoped_value_spec(value, "--refresh-client-id"@) {
                Ok(x) => Ok(PlanView { refresh_client_ids: self.refresh_client_ids.push(x),
                    ..self }),
                Err(e) => Err(e),
            }
        } else if flag == "--refresh-client-secret"@ {
            match scoped_value_spec(value, "--refresh-client-secret"@) {
                Ok(x) => Ok(PlanView { refresh_client_secrets: self.refresh_client_secrets.push(x),
                    ..self }),
                Err(e) => Err(e),
            }
        } else if flag == "--limit"@ || flag == "--page-limit"@ {
            match parse_u16_spec(value) {
                Some(n) => if n == 0 {
                    Err("invalid --limit: must be greater than 0"@)
                } else {
                    Ok(PlanView { limit: n, ..self })
                },
                None => Err("invalid --limit: "@ + value),
            }
        } else if flag == "--now"@ {
            match now_value_spec(value, "invalid --now unix seconds: "@ + value) {
                Ok(x) => Ok(PlanView { now_unix_seconds: Some(x), ..self }),
                Err(e) => Err(e),
            }
        } else if flag == "--format"@ {
            match parse_plan_output_format_spec(value) {
                Ok(x) => Ok(PlanView { output_format: x, ..self }),
                Err(e) => Err(e),
            }
        } else {
            Err("unexpected argument for plan: "@ + flag)
        }
    }
}

pub open spec fn plan_default() -> PlanView {
    PlanView {
        dry_run: false,
        refresh_snapshots: false,
        live_read: false,
        auto_link_local: false,
        test_token_transport: false,
        db_path: None,
        account_id: None,
        media_scope: None,
        providers: None,
        fixture_responses: Seq::empty(),
        test_credential_bundle_path: None,
        credential_bundle_path: None,
        credential_bundle_passphrase_env: None,
        token_responses: Seq::empty(),
        refresh_client_ids: Seq::empty(),
        refresh_client_secrets: Seq::empty(),
        limit: 100,
        now_unix_seconds: None,
        output_format: PlanOutputFormat::Text,
    }
}

pub open spec fn plan_finish(o: PlanView) -> Result<PlanView, Seq<char>> {
    if !o.dry_run {
        Err("missing --dry-run"@)
    } else if o.db_path is None {
        Err("missing --db"@)
    } else if opt_blank(o.account_id) {
        Err("missing --account"@)
    } else if o.media_scope is None {
        Err("missing --kind"@)
    } else if !(o.providers matches Some(ps) && ps.len() > 0) {
        Err("missing --providers"@)
    } else if o.live_read && !o.refresh_snapshots {
        Err("--live-read requires --refresh-snapshots"@)
    } else if o.refresh_snapshots && o.live_read && o.fixture_responses.len() > 0 {
        Err("--fixture-response cannot be used with --live-read"@)
    } else if o.refresh_snapshots && o.live_read && !(o.test_credential_bundle_path is Some
        || o.credential_bundle_path is Some) {
        Err("--live-read requires --test-credential-bundle or --credential-bundle"@)
    } else if o.refresh_snapshots && !o.live_read && o.fixture_responses.len() == 0 {
        Err("missing --fixture-response"@)
    } else if !o.refresh_snapshots && o.fixture_responses.len() > 0 {
        Err("--fixture-response requires --refresh-snapshots"@)
    } else if !o.refresh_snapshots && o.test_credential_bundle_path is Some {
        Err("--test-credential-bundle requires --refresh-snapshots"@)
    } else if !o.refresh_snapshots && o.credential_bundle_path is Some {
        Err("--credential-bundle requires --refresh-snapshots"@)
    } else if !o.refresh_snapshots && o.credential_bundle_passphrase_env is Some {
        Err("--credential-bundle-passphrase-env requires --refresh-snapshots"@)
    } else if !o.refresh_snapshots && o.test_token_transport {
        Err("--test-token-transport requires --refresh-snapshots"@)
    } else if !o.refresh_snapshots && o.auto_link_local {
        Err("--auto-link-local requires --refresh-snapshots"@)
    } else if !o.refresh_snapshots && o.token_responses.len() > 0 {
        Err("--token-response requires --refresh-snapshots"@)
    } else if !o.refresh_snapshots && o.refresh_client_ids.len() > 0 {
        Err("--refresh-client-id requires --refresh-snapshots"@)
    } else if !o.refresh_snapshots && o.refresh_client_secrets.len() > 0 {
        Err("--refresh-client-secret requires --refresh-snapshots"@)
    } else if !o.refresh_snapshots && o.now_unix_seconds is Some {
        Err("--now requires --refresh-snapshots"@)
    } else if !o.refresh_snapshots && o.limit != 100 {
        Err("--limit requires --refresh-snapshots"@)
    } else {
        match token_transport_check_spec(o.test_token_transport,
            (o.test_credential_bundle_path is Some || o.credential_bundle_path is Some),
            o.token_responses, o.refresh_client_ids, o.refresh_client_secrets) {
            Ok(_) => Ok(o),
            Err(e) => Err(e),
        }
    }
}

/// What `plan` makes of its arguments.
pub open spec fn plan_spec(args: Seq<Seq<char>>) -> Result<PlanView, Seq<char>> {
    match fold_flags(args, 0, plan_default()) {
        Ok(o) => plan_finish(o),
        Err(e) => Err(e),
    }
}

impl Default for PlanOptions {
    fn default() -> (r: Self)
        ensures
            r@ == plan_default(),
    {
        let r = PlanOptions {
            dry_run: false,
            refresh_snapshots: false,
            live_read: false,
            auto_link_local: false,
            test_token_transport: false,
            db_path: None,
            account_id: None,
            media_scope: None,
            providers: None,
            fixture_responses: Vec::new(),
            test_credential_bundle_path: None,
            credential_bundle_path: None,
            credential_bundle_passphrase_env: None,
            token_responses: Vec::new(),
            refresh_client_ids: Vec::new(),
            refresh_client_secrets: Vec::new(),
            limit: 100,
            now_unix_seconds: None,
            output_format: PlanOutputFormat::Text,
        };
        assert(r.fixture_responses.deep_view() =~= Seq::<FixtureResponseView>::empty());
        assert(r.token_responses.deep_view() =~= Seq::<(Provider, Seq<char>)>::empty());
        assert(r.refresh_client_ids.deep_view() =~= Seq::<(Provider, Seq<char>)>::empty());
        assert(r.refresh_client_secrets.deep_view() =~= Seq::<(Provider, Seq<char>)>::empty());
        r
    }
}

/// Parses the arguments of `plan`.
pub fn parse_plan_options(args: &[String]) -> (r: Result<PlanOptions, String>)
    ensures
        match r {
            Ok(o) => plan_spec(arg_views(args@)) == Ok::<PlanView, Seq<char>>(o@),
            Err(e) => plan_spec(arg_views(args@)) == Err::<PlanView, Seq<char>>(e@),
        },
        r matches Ok(o) ==> o.dry_run && o.db_path is Some && o.account_id is Some
            && o.media_scope is Some && (o.providers matches Some(ps) && ps.len() > 0)
            && o.limit > 0
            && (o.refresh_snapshots ==> (o.live_read ==> o.fixture_responses.len() == 0)
            && (!o.live_read ==> o.fixture_responses.len() > 0)),
{
    let ghost a = arg_views(args@);
    let mut options = PlanOptions::default();
    let mut index: usize = 0;
    while index < args.len()
        invariant
            a == arg_views(args@),
            index <= args.len(),
            fold_flags(a, 0, plan_default()) == fold_flags(a, index as int, options@),
            options.limit > 0,
        decreases args.len() - index,
    {
        let flag = args[index].as_str();
        if str_eq(flag, "--dry-run") {
            options.dry_run = true;
            index = index + 1;
            continue;
        }
        if str_eq(flag, "--refresh-snapshots") {
            options.refresh_snapshots = true;
            index = index + 1;
            continue;
        }
        if str_eq(flag, "--live-read") {
            options.live_read = true;
            index = index + 1;
            continue;
        }
        if str_eq(flag, "--auto-link-local") {
            options.auto_link_local = true;
            index = index + 1;
            continue;
        }
        if str_eq(flag, "--test-token-transport") {
            options.test_token_transport = true;
            index = index + 1;
            continue;
        }
        if (is_network_auth(flag) || str_eq(flag, "--client-secret")) && options.refresh_snapshots {
            return Err(concat("provider writes are disabled for plan refresh-snapshots: ", flag));
        }
        if (is_network_auth(flag) || str_eq(flag, "--client-secret")) && (str_eq(flag, "--apply")
            || str_eq(flag, "--write") || str_eq(flag, "--delete")) {
            return Err(concat("writes are disabled for plan: ", flag));
        }
        if (is_network_auth(flag) || str_eq(flag, "--client-secret")) {
            return Err(concat("provider writes and network auth are disabled for plan: ", flag));
        }
        if index + 1 >= args.len() {
            return Err(concat("missing value for ", flag));
        }
        let value = args[index + 1].as_str();
        if str_eq(flag, "--db") {
            options.db_path = Some(owned(value));
        } else if str_eq(flag, "--account") || str_eq(flag, "--account-id") {
            options.account_id = Some(owned(value));
        } else if str_eq(flag, "--kind") {
            options.media_scope = Some(parse_plan_media_scope(value)?);
        } else if str_eq(flag, "--providers") {
            options.providers = Some(parse_provider_list(value)?);
        } else if str_eq(flag, "--fixture-response") || str_eq(flag, "--fixture") {
            let item = parse_fixture_response_input(value)?;
            let ghost before = options.fixture_responses.deep_view();
            let ghost item_view = item.deep_view();
            options.fixture_responses.push(item);
            assert(options.fixture_responses.deep_view() =~= before.push(item_view));
        } else if str_eq(flag, "--test-credential-bundle") {
            options.test_credential_bundle_path = Some(owned(value));
        } else if str_eq(flag, "--credential-bundle") {
            options.credential_bundle_path = Some(owned(value));
        } else if str_eq(flag, "--credential-bundle-passphrase-env") {
            options.credential_bundle_passphrase_env = Some(owned(value));
        } else if str_eq(flag, "--token-response") {
            let item = parse_provider_token_response_input(value)?;
            let ghost before = options.token_responses.deep_view();
            let ghost item_view = item.deep_view();
            options.token_responses.push(item);
            assert(options.token_responses.deep_view() =~= before.push(item_view));
        } else if str_eq(flag, "--refresh-client-id") {
            let item = parse_provider_scoped_value(value, "--refresh-client-id")?;
            let ghost before = options.refresh_client_ids.deep_view();
            let ghost item_view = item.deep_view();
            options.refresh_client_ids.push(item);
            assert(options.refresh_client_ids.deep_view() =~= before.push(item_view));
        } else if str_eq(flag, "--refresh-client-secret") {
            let item = parse_provider_scoped_value(value, "--refresh-client-secret")?;
            let ghost before = options.refresh_client_secrets.deep_view();
            let ghost item_view = item.deep_view();
            options.refresh_client_secrets.push(item);
            assert(options.refresh_client_secrets.deep_view() =~= before.push(item_view));
        } else if str_eq(flag, "--limit") || str_eq(flag, "--page-limit") {
            match parse_u16(value) {
                Some(n) => {
                    if n == 0 {
                        return Err(owned("invalid --limit: must be greater than 0"));
                    }
                    options.limit = n;
                },
                None => {
                    return Err(concat("invalid --limit: ", value));
                },
            }
        } else if str_eq(flag, "--now") {
            options.now_unix_seconds = Some(parse_now_value(value,
                concat("invalid --now unix seconds: ", value))?);
        } else if str_eq(flag, "--format") {
            options.output_format = parse_plan_output_format(value)?;
        } else {
            return Err(concat("unexpected argument for plan: ", flag));
        }
        index = index + 2;
    }
    if !options.dry_run {
        return Err(owned("missing --dry-run"));
    }
    if options.db_path.is_none() {
        return Err(owned("missing --db"));
    }
    if option_is_blank(&options.account_id) {
        return Err(owned("missing --account"));
    }
    if options.media_scope.is_none() {
        return Err(owned("missing --kind"));
    }
    if !providers_given(&options.providers) {
        return Err(owned("missing --providers"));
    }
    if options.live_read && !options.refresh_snapshots {
        return Err(owned("--live-read requires --refresh-snapshots"));
    }
    if options.refresh_snapshots && options.live_read && options.fixture_responses.len() > 0 {
        return Err(owned("--fixture-response cannot be used with --live-read"));
    }
    if options.refresh_snapshots && options.live_read
        && !has_credential_bundle_source(&options.test_credential_bundle_path,
        &options.credential_bundle_path) {
        return Err(owned("--live-read requires --test-credential-bundle or --credential-bundle"));
    }
    if options.refresh_snapshots && !options.live_read && options.fixture_responses.len() == 0 {
        return Err(owned("missing --fixture-response"));
    }
    if !options.refresh_snapshots && options.fixture_responses.len() > 0 {
        return Err(owned("--fixture-response requires --refresh-snapshots"));
    }
    if !options.refresh_snapshots && options.test_credential_bundle_path.is_some() {
        return Err(owned("--test-credential-bundle requires --refresh-snapshots"));
    }
    if !options.refresh_snapshots && options.credential_bundle_path.is_some() {
        return Err(owned("--credential-bundle requires --refresh-snapshots"));
    }
    if !options.refresh_snapshots && options.credential_bundle_passphrase_env.is_some() {
        return Err(owned("--credential-bundle-passphrase-env requires --refresh-snapshots"));
    }
    if !options.refresh_snapshots && options.test_token_transport {
        return Err(owned("--test-token-transport requires --refresh-snapshots"));
    }
    if !options.refresh_snapshots && options.auto_link_local {
        return Err(owned("--auto-link-local requires --refresh-snapshots"));
    }
    if !options.refresh_snapshots && options.token_responses.len() > 0 {
        return Err(owned("--token-response requires --refresh-snapshots"));
    }
    if !options.refresh_snapshots && options.refresh_client_ids.len() > 0 {
        return Err(owned("--refresh-client-id requires --refresh-snapshots"));
    }
    if !options.refresh_snapshots && options.refresh_client_secrets.len() > 0 {
        return Err(owned("--refresh-client-secret requires --refresh-snapshots"));
    }
    if !options.refresh_snapshots && options.now_unix_seconds.is_some() {
        return Err(owned("--now requires --refresh-snapshots"));
    }
    if !options.refresh_snapshots && options.limit != 100 {
        return Err(owned("--limit requires --refresh-snapshots"));
    }
    validate_test_token_transport_options(options.test_token_transport,
        has_credential_bundle_source(&options.test_credential_bundle_path,
        &options.credential_bundle_path), &options.token_responses, &options.refresh_client_ids,
        &options.refresh_client_secrets)?;
    Ok(options)
}

// ---------------------------------------------------------------------------
// apply
// ---------------------------------------------------------------------------

/// Options of `apply`.
pub struct ApplyOptions {
    pub test_write_transport: bool,
    pub verify_post_write: bool,
    pub auto_link_local: bool,
    pub db_path: Option<String>,
    pub account_id: Option<String>,
    pub media_scope: Option<PlanMediaScope>,
    pub providers: Option<Vec<Provider>>,
    pub fixture_responses: Vec<FixtureResponseInput>,
    pub test_credential_bundle_path: Option<String>,
    pub credential_bundle_path: Option<String>,
    pub credential_bundle_passphrase_env: Option<String>,
    pub limit: u16,
    pub now_unix_seconds: Option<i64>,
    pub output_format: PlanOutputFormat,
}

pub struct ApplyView {
    pub test_write_transport: bool,
    pub verify_post_write: bool,
    pub auto_link_local: bool,
    pub db_path: Option<Seq<char>>,
    pub account_id: Option<Seq<char>>,
    pub media_scope: Option<PlanMediaScope>,
    pub providers: Option<Seq<Provider>>,
    pub fixture_responses: Seq<FixtureResponseView>,
    pub test_credential_bundle_path: Option<Seq<char>>,
    pub credential_bundle_path: Option<Seq<char>>,
    pub credential_bundle_passphrase_env: Option<Seq<char>>,
    pub limit: u16,
    pub now_unix_seconds: Option<i64>,
    pub output_format: PlanOutputFormat,
}

impl View for ApplyOptions {
    type V = ApplyView;

    open spec fn view(&self) -> ApplyView {
        ApplyView {
            test_write_transport: self.test_write_transport,
            verify_post_write: self.verify_post_write,
            auto_link_local: self.auto_link_local,
            db_path: opt_chars(self.db_path),
            account_id: opt_chars(self.account_id),
            media_scope: self.media_scope,
            providers: match self.providers { Some(v) => Some(v@), None => None },
            fixture_responses: self.fixture_responses.deep_view(),
            test_credential_bundle_path: opt_chars(self.test_credential_bundle_path),
            credential_bundle_path: opt_chars(self.credential_bundle_path),
            credential_bundle_passphrase_env: opt_chars(self.credential_bundle_passphrase_env),
            limit: self.limit,
            now_unix_seconds: self.now_unix_seconds,
            output_format: self.output_format,
        }
    }
}

impl FlagGrammar for ApplyView {
    open spec fn on_flag(self, flag: Seq<char>) -> FlagAction<Self> {
        if flag == "--test-write-transport"@ {
            FlagAction::Switch(ApplyView { test_write_transport: true, ..self })
        } else if flag == "--verify-post-write"@ {
            FlagAction::Switch(ApplyView { verify_post_write: true, ..self })
        } else if flag == "--auto-link-local"@ {
            FlagAction::Switch(ApplyView { auto_link_local: true, ..self })
        } else if flag == "--dry-run"@ {
            FlagAction::Refuse("apply does not accept --dry-run; use plan --dry-run"@)
        } else if network_auth(flag) || flag == "--client-secret"@ || flag == "--live-read"@
            || flag == "--refresh-snapshots"@ || flag == "--fixture"@ {
            FlagAction::Refuse("live provider writes and network auth are disabled for apply: "@ + flag)
        } else {
            FlagAction::Value
        }
    }

    open spec fn missing_value(flag: Seq<char>) -> Seq<char> {
        missing_value_for(flag)
    }

    open spec fn on_value(self, flag: Seq<char>, value: Seq<char>) -> Result<Self, Seq<char>> {
        if flag == "--db"@ {
            Ok(ApplyView { db_path: Some(value), ..self })
        } else if flag == "--account"@ || flag == "--account-id"@ {
            Ok(ApplyView { account_id: Some(value), ..self })
        } else if flag == "--kind"@ {
            match parse_plan_media_scope_spec(value) {
                Ok(x) => Ok(ApplyView { media_scope: Some(x), ..self }),
                Err(e) => Err(e),
            }
        } else if flag == "--providers"@ {
            match parse_provider_list_spec(value) {
                Ok(x) => Ok(ApplyView { providers: Some(x), ..self }),
                Err(e) => Err(e),
            }
        } else if flag == "--fixture-response"@ {
            match fixture_response_spec(value) {
                Ok(x) => Ok(ApplyView { fixture_responses: self.fixture_responses.push(x),
                    ..self }),
                Err(e) => Err(e),
            }
        } else if flag == "--test-credential-bundle"@ {
            Ok(ApplyView { test_credential_bundle_path: Some(value), ..self })
        } else if flag == "--credential-bundle"@ {
            Ok(ApplyView { credential_bundle_path: Some(value), ..self })
        } else if flag == "--credential-bundle-passphrase-env"@ {
            Ok(ApplyView { credential_bundle_passphrase_env: Some(value), ..self })
        } else if flag == "--limit"@ || flag == "--page-limit"@ {
            match parse_u16_spec(value) {
                Some(n) => if n == 0 {
                    Err("invalid --limit: must be greater than 0"@)
                } else {
                    Ok(ApplyView { limit: n, ..self })
                },
                None => Err("invalid --limit: "@ + value),
            }
        } else if flag == "--now"@ {
            match now_value_spec(value, "invalid --now unix seconds: "@ + value) {
                Ok(x) => Ok(ApplyView { now_unix_seconds: Some(x), ..self }),
                Err(e) => Err(e),
            }
        } else if flag == "--format"@ {
            match parse_plan_output_format_spec(value) {
                Ok(x) => Ok(ApplyView { output_format: x, ..self }),
                Err(e) => Err(e),
            }
        } else {
            Err("unexpected argument for apply: "@ + flag)
        }
    }
}

pub open spec fn apply_default() -> ApplyView {
    ApplyView {
        test_write_transport: false,
        verify_post_write: false,
        auto_link_local: false,
        db_path: None,
        account_id: None,
        media_scope: None,
        providers: None,
        fixture_responses: Seq::empty(),
        test_credential_bundle_path: None,
        credential_bundle_path: None,
        credential_bundle_passphrase_env: None,
        limit: 100,
        now_unix_seconds: None,
        output_format: PlanOutputFormat::Text,
    }
}

pub open spec fn apply_finish(o: ApplyView) -> Result<ApplyView, Seq<char>> {
    if !o.test_write_transport {
        Err("missing --test-write-transport"@)
    } else if o.db_path is None {
        Err("missing --db"@)
    } else if opt_blank(o.account_id) {
        Err("missing --account"@)
    } else if o.media_scope is None {
        Err("missing --kind"@)
    } else if !(o.providers matches Some(ps) && ps.len() > 0) {
        Err("missing --providers"@)
    } else if o.verify_post_write && o.fixture_responses.len() == 0 {
        Err("missing --fixture-response"@)
    } else if !o.verify_post_write && o.fixture_responses.len() > 0 {
        Err("--fixture-response requires --verify-post-write"@)
    } else {
        Ok(o)
    }
}

/// What `apply` makes of its arguments.
pub open spec fn apply_spec(args: Seq<Seq<char>>) -> Result<ApplyView, Seq<char>> {
    match fold_flags(args, 0, apply_default()) {
        Ok(o) => apply_finish(o),
        Err(e) => Err(e),
    }
}

impl Default for ApplyOptions {
    fn default() -> (r: Self)
        ensures
            r@ == apply_default(),
    {
        let r = ApplyOptions {
            test_write_transport: false,
            verify_post_write: false,
            auto_link_local: false,
            db_path: None,
            account_id: None,
            media_scope: None,
            providers: None,
            fixture_responses: Vec::new(),
            test_credential_bundle_path: None,
            credential_bundle_path: None,
            credential_bundle_passphrase_env: None,
            limit: 100,
            now_unix_seconds: None,
            output_format: PlanOutputFormat::Text,
        };
        assert(r.fixture_responses.deep_view() =~= Seq::<FixtureResponseView>::empty());
        r
    }
}

/// Parses the arguments of `apply`.
pub fn parse_apply_options(args: &[String]) -> (r: Result<ApplyOptions, String>)
    ensures
        match r {
            Ok(o) => apply_spec(arg_views(args@)) == Ok::<ApplyView, Seq<char>>(o@),
            Err(e) => apply_spec(arg_views(args@)) == Err::<ApplyView, Seq<char>>(e@),
        },
        r matches Ok(o) ==> o.test_write_transport && o.db_path is Some && o.account_id is Some
            && o.media_scope is Some && (o.providers matches Some(ps) && ps.len() > 0)
            && o.limit > 0 && (o.verify_post_write <==> o.fixture_responses.len() > 0),
{
    let ghost a = arg_views(args@);
    let mut options = ApplyOptions::default();
    let mut index: usize = 0;
    while index < args.len()
        invariant
            a == arg_views(args@),
            index <= args.len(),
            fold_flags(a, 0, apply_default()) == fold_flags(a, index as int, options@),
            options.limit > 0,
        decreases args.len() - index,
    {
        let flag = args[index].as_str();
        if str_eq(flag, "--test-write-transport") {
            options.test_write_transport = true;
            index = index + 1;
            continue;
        }
        if str_eq(flag, "--verify-post-write") {
            options.verify_post_write = true;
            index = index + 1;
            continue;
        }
        if str_eq(flag, "--auto-link-local") {
            options.auto_link_local = true;
            index = index + 1;
            continue;
        }
        if str_eq(flag, "--dry-run") {
            return Err(owned("apply does not accept --dry-run; use plan --dry-run"));
        }
        if is_network_auth(flag) || str_eq(flag, "--client-secret") || str_eq(flag, "--live-read")
            || str_eq(flag, "--refresh-snapshots") || str_eq(flag, "--fixture") {
            return Err(concat("live provider writes and network auth are disabled for apply: ",
                flag));
        }
        if index + 1 >= args.len() {
            return Err(concat("missing value for ", flag));
        }
        let value = args[index + 1].as_str();
        if str_eq(flag, "--db") {
            options.db_path = Some(owned(value));
        } else if str_eq(flag, "--account") || str_eq(flag, "--account-id") {
            options.account_id = Some(owned(value));
        } else if str_eq(flag, "--kind") {
            options.media_scope = Some(parse_plan_media_scope(value)?);
        } else if str_eq(flag, "--providers") {
            options.providers = Some(parse_provider_list(value)?);
        } else if str_eq(flag, "--fixture-response") {
            let item = parse_fixture_response_input(value)?;
            let ghost before = options.fixture_responses.deep_view();
            let ghost item_view = item.deep_view();
            options.fixture_responses.push(item);
            assert(options.fixture_responses.deep_view() =~= before.push(item_view));
        } else if str_eq(flag, "--test-credential-bundle") {
            options.test_credential_bundle_path = Some(owned(value));
        } else if str_eq(flag, "--credential-bundle") {
            options.credential_bundle_path = Some(owned(value));
        } else if str_eq(flag, "--credential-bundle-passphrase-env") {
            options.credential_bundle_passphrase_env = Some(owned(value));
        } else if str_eq(flag, "--limit") || str_eq(flag, "--page-limit") {
            match parse_u16(value) {
                Some(n) => {
                    if n == 0 {
                        return Err(owned("invalid --limit: must be greater than 0"));
                    }
                    options.limit = n;
                },
                None => {
                    return Err(concat("invalid --limit: ", value));
                },
            }
        } else if str_eq(flag, "--now") {
            options.now_unix_seconds = Some(parse_now_value(value,
                concat("invalid --now unix seconds: ", value))?);
        } else if str_eq(flag, "--format") {
            options.output_format = parse_plan_output_format(value)?;
        } else {
            return Err(concat("unexpected argument for apply: ", flag));
        }
        index = index + 2;
    }
    if !options.test_write_transport {
        return Err(owned("missing --test-write-transport"));
    }
    if options.db_path.is_none() {
        return Err(owned("missing --db"));
    }
    if option_is_blank(&options.account_id) {
        return Err(owned("missing --account"));
    }
    if options.media_scope.is_none() {
        return Err(owned("missing --kind"));
    }
    if !providers_given(&options.providers) {
        return Err(owned("missing --providers"));
    }
    if options.verify_post_write && options.fixture_responses.len() == 0 {
        return Err(owned("missing --fixture-response"));
    }
    if !options.verify_post_write && options.fixture_responses.len() > 0 {
        return Err(owned("--fixture-response requires --verify-post-write"));
    }
    Ok(options)
}

// ---------------------------------------------------------------------------
// sync
// ---------------------------------------------------------------------------

/// Options of `sync`.
pub struct SyncOptions {
    pub test_write_transport: bool,
    pub verify_post_write: bool,
    pub auto_link_local: bool,
    pub test_token_transport: bool,
    pub db_path: Option<String>,
    pub account_id: Option<String>,
    pub media_scope: Option<PlanMediaScope>,
    pub providers: Option<Vec<Provider>>,
    pub fixture_responses: Vec<FixtureResponseInput>,
    pub test_credential_bundle_path: Option<String>,
    pub credential_bundle_path: Option<String>,
    pub credential_bundle_passphrase_env: Option<String>,
    pub token_responses: Vec<ProviderTokenResponseInput>,
    pub refresh_client_ids: Vec<ProviderScopedValue>,
    pub refresh_client_secrets: Vec<ProviderScopedValue>,
    pub limit: u16,
    pub now_unix_seconds: Option<i64>,
    pub output_format: PlanOutputFormat,
}

pub struct SyncView {
    pub test_write_transport: bool,
    pub verify_post_write: bool,
    pub auto_link_local: bool,
    pub test_token_transport: bool,
    pub db_path: Option<Seq<char>>,
    pub account_id: Option<Seq<char>>,
    pub media_scope: Option<PlanMediaScope>,
    pub providers: Option<Seq<Provider>>,
    pub fixture_responses: Seq<FixtureResponseView>,
    pub test_credential_bundle_path: Option<Seq<char>>,
    pub credential_bundle_path: Option<Seq<char>>,
    pub credential_bundle_passphrase_env: Option<Seq<char>>,
    pub token_responses: Seq<(Provider, Seq<char>)>,
    pub refresh_client_ids: Seq<(Provider, Seq<char>)>,
    pub refresh_client_secrets: Seq<(Provider, Seq<char>)>,
    pub limit: u16,
    pub now_unix_seconds: Option<i64>,
    pub output_format: PlanOutputFormat,
}

impl View for SyncOptions {
    type V = SyncView;

    open spec fn view(&self) -> SyncView {
        SyncView {
            test_write_transport: self.test_write_transport,
            verify_post_write: self.verify_post_write,
            auto_link_local: self.auto_link_local,
            test_token_transport: self.test_token_transport,
            db_path: opt_chars(self.db_path),
            account_id: opt_chars(self.account_id),
            media_scope: self.media_scope,
            providers: match self.providers { Some(v) => Some(v@), None => None },
            fixture_responses: self.fixture_responses.deep_view(),
            test_credential_bundle_path: opt_chars(self.test_credential_bundle_path),
            credential_bundle_path: opt_chars(self.credential_bundle_path),
            credential_bundle_passphrase_env: opt_chars(self.credential_bundle_passphrase_env),
            token_responses: self.token_responses.deep_view(),
            refresh_client_ids: self.refresh_client_ids.deep_view(),
            refresh_client_secrets: self.refresh_client_secrets.deep_view(),
            limit: self.limit,
            now_unix_seconds: self.now_unix_seconds,
            output_format: self.output_format,
        }
    }
}

impl FlagGrammar for SyncView {
    open spec fn on_flag(self, flag: Seq<char>) -> FlagAction<Self> {
        if flag == "--test-write-transport"@ {
            FlagAction::Switch(SyncView { test_write_transport: true, ..self })
        } else if flag == "--verify-post-write"@ {
            FlagAction::Switch(SyncView { verify_post_write: true, ..self })
        } else if flag == "--auto-link-local"@ {
            FlagAction::Switch(SyncView { auto_link_local: true, ..self })
        } else if flag == "--test-token-transport"@ {
            FlagAction::Switch(SyncView { test_token_transport: true, ..self })
        } else if flag == "--dry-run"@ {
            FlagAction::Refuse("dry-run is disabled for sync: --dry-run; use plan --dry-run"@)
        } else if flag == "--refresh-snapshots"@ {
            FlagAction::Refuse("refresh-snapshots is disabled for sync: --refresh-snapshots; sync refreshes snapshots implicitly from --fixture-response"@)
        } else if network_auth(flag) || flag == "--client-secret"@ || flag == "--live-read"@
            || flag == "--fixture"@ {
            FlagAction::Refuse("live provider writes and network auth are disabled for sync: "@ + flag)
        } else {
            FlagAction::Value
        }
    }

    open spec fn missing_value(flag: Seq<char>) -> Seq<char> {
        missing_value_for(flag)
    }

    open spec fn on_value(self, flag: Seq<char>, value: Seq<char>) -> Result<Self, Seq<char>> {
        if flag == "--db"@ {
            Ok(SyncView { db_path: Some(value), ..self })
        } else if flag == "--account"@ || flag == "--account-id"@ {
            Ok(SyncView { account_id: Some(value), ..self })
        } else if flag == "--kind"@ {
            match parse_plan_media_scope_spec(value) {
                Ok(x) => Ok(SyncView { media_scope: Some(x), ..self }),
                Err(e) => Err(e),
            }
        } else if flag == "--providers"@ {
            match parse_provider_list_spec(value) {
                Ok(x) => Ok(SyncView { providers: Some(x), ..self }),
                Err(e) => Err(e),
            }
        } else if flag == "--fixture-response"@ {
            match fixture_response_spec(value) {
                Ok(x) => Ok(SyncView { fixture_responses: self.fixture_responses.push(x), ..self }),
                Err(e) => Err(e),
            }
        } else if flag == "--test-credential-bundle"@ {
            Ok(SyncView { test_credential_bundle_path: Some(value), ..self })
        } else if flag == "--credential-bundle"@ {
            Ok(SyncView { credential_bundle_path: Some(value), ..self })
        } else if flag == "--credential-bundle-passphrase-env"@ {
            Ok(SyncView { credential_bundle_passphrase_env: Some(value), ..self })
        } else if flag == "--token-response"@ {
            match token_response_spec(value) {
                Ok(x) => Ok(SyncView { token_responses: self.token_responses.push(x), ..self }),
                Err(e) => Err(e),
            }
        } else if flag == "--refresh-client-id"@ {
            match scoped_value_spec(value, "--refresh-client-id"@) {
                Ok(x) => Ok(SyncView { refresh_client_ids: self.refresh_client_ids.push(x),
                    ..self }),
                Err(e) => Err(e),
            }
        } else if flag == "--refresh-client-secret"@ {
            match scoped_value_spec(value, "--refresh-client-secret"@) {
                Ok(x) => Ok(SyncView { refresh_client_secrets: self.refresh_client_secrets.push(x),
                    ..self }),
                Err(e) => Err(e),
            }
        } else if flag == "--limit"@ || flag == "--page-limit"@ {
            match parse_u16_spec(value) {
                Some(n) => if n == 0 {
                    Err("invalid --limit: must be greater than 0"@)
                } else {
                    Ok(SyncView { limit: n, ..self })
                },
                None => Err("invalid --limit: "@ + value),
            }
        } else if flag == "--now"@ {
            match now_value_spec(value, "invalid --now unix seconds: "@ + value) {
                Ok(x) => Ok(SyncView { now_unix_seconds: Some(x), ..self }),
                Err(e) => Err(e),
            }
        } else if flag == "--format"@ {
            match parse_plan_output_format_spec(value) {
                Ok(x) => Ok(SyncView { output_format: x, ..self }),
                Err(e) => Err(e),
            }
        } else {
            Err("unexpected argument for sync: "@ + flag)
        }
    }
}

pub open spec fn sync_default() -> SyncView {
    SyncView {
        test_write_transport: false,
        verify_post_write: false,
        auto_link_local: false,
        test_token_transport: false,
        db_path: None,
        account_id: None,
        media_scope: None,
        providers: None,
        fixture_responses: Seq::empty(),
        test_credential_bundle_path: None,
        credential_bundle_path: None,
        credential_bundle_passphrase_env: None,
        token_responses: Seq::empty(),
        refresh_client_ids: Seq::empty(),
        refresh_client_secrets: Seq::empty(),
        limit: 100,
        now_unix_seconds: None,
        output_format: PlanOutputFormat::Text,
    }
}

pub open spec fn sync_finish(o: SyncView) -> Result<SyncView, Seq<char>> {
    if !o.test_write_transport {
        Err("missing --test-write-transport"@)
    } else if o.db_path is None {
        Err("missing --db"@)
    } else if opt_blank(o.account_id) {
        Err("missing --account"@)
    } else if o.media_scope is None {
        Err("missing --kind"@)
    } else if !(o.providers matches Some(ps) && ps.len() > 0) {
        Err("missing --providers"@)
    } else if o.fixture_responses.len() == 0 {
        Err("missing --fixture-response"@)
    } else {
        match token_transport_check_spec(o.test_token_transport,
            (o.test_credential_bundle_path is Some || o.credential_bundle_path is Some),
            o.token_responses, o.refresh_client_ids, o.refresh_client_secrets) {
            Ok(_) => Ok(o),
            Err(e) => Err(e),
        }
    }
}

/// What `sync` makes of its arguments.
pub open spec fn sync_spec(args: Seq<Seq<char>>) -> Result<SyncView, Seq<char>> {
    match fold_flags(args, 0, sync_default()) {
        Ok(o) => sync_finish(o),
        Err(e) => Err(e),
    }
}

impl Default for SyncOptions {
    fn default() -> (r: Self)
        ensures
            r@ == sync_default(),
    {
        let r = SyncOptions {
            test_write_transport: false,
            verify_post_write: false,
            auto_link_local: false,
            test_token_transport: false,
            db_path: None,
            account_id: None,
            media_scope: None,
            providers: None,
            fixture_responses: Vec::new(),
            test_credential_bundle_path: None,
            credential_bundle_path: None,
            credential_bundle_passphrase_env: None,
            token_responses: Vec::new(),
            refresh_client_ids: Vec::new(),
            refresh_client_secrets: Vec::new(),
            limit: 100,
            now_unix_seconds: None,
            output_format: PlanOutputFormat::Text,
        };
        assert(r.fixture_responses.deep_view() =~= Seq::<FixtureResponseView>::empty());
        assert(r.token_responses.deep_view() =~= Seq::<(Provider, Seq<char>)>::empty());
        assert(r.refresh_client_ids.deep_view() =~= Seq::<(Provider, Seq<char>)>::empty());
        assert(r.refresh_client_secrets.deep_view() =~= Seq::<(Provider, Seq<char>)>::empty());
        r
    }
}

/// Parses the arguments of `sync`.
pub fn parse_sync_options(args: &[String]) -> (r: Result<SyncOptions, String>)
    ensures
        match r {
            Ok(o) => sync_spec(arg_views(args@)) == Ok::<SyncView, Seq<char>>(o@),
            Err(e) => sync_spec(arg_views(args@)) == Err::<SyncView, Seq<char>>(e@),
        },
        r matches Ok(o) ==> o.test_write_transport && o.db_path is Some && o.account_id is Some
            && o.media_scope is Some && (o.providers matches Some(ps) && ps.len() > 0)
            && o.limit > 0 && o.fixture_responses.len() > 0,
{
    let ghost a = arg_views(args@);
    let mut options = SyncOptions::default();
    let mut index: usize = 0;
    while index < args.len()
        invariant
            a == arg_views(args@),
            index <= args.len(),
            fold_flags(a, 0, sync_default()) == fold_flags(a, index as int, options@),
            options.limit > 0,
        decreases args.len() - index,
    {
        let flag = args[index].as_str();
        if str_eq(flag, "--test-write-transport") {
            options.test_write_transport = true;
            index = index + 1;
            continue;
        }
        if str_eq(flag, "--verify-post-write") {
            options.verify_post_write = true;
            index = index + 1;
            continue;
        }
        if str_eq(flag, "--auto-link-local") {
            options.auto_link_local = true;
            index = index + 1;
            continue;
        }
        if str_eq(flag, "--test-token-transport") {
            options.test_token_transport = true;
            index = index + 1;
            continue;
        }
        if str_eq(flag, "--dry-run") {
            return Err(owned("dry-run is disabled for sync: --dry-run; use plan --dry-run"));
        }
        if str_eq(flag, "--refresh-snapshots") {
            return Err(owned("refresh-snapshots is disabled for sync: --refresh-snapshots; sync refreshes snapshots implicitly from --fixture-response"));
        }
        if is_network_auth(flag) || str_eq(flag, "--client-secret") || str_eq(flag, "--live-read")
            || str_eq(flag, "--fixture") {
            return Err(concat("live provider writes and network auth are disabled for sync: ",
                flag));
        }
        if index + 1 >= args.len() {
            return Err(concat("missing value for ", flag));
        }
        let value = args[index + 1].as_str();
        if str_eq(flag, "--db") {
            options.db_path = Some(owned(value));
        } else if str_eq(flag, "--account") || str_eq(flag, "--account-id") {
            options.account_id = Some(owned(value));
        } else if str_eq(flag, "--kind") {
            options.media_scope = Some(parse_plan_media_scope(value)?);
        } else if str_eq(flag, "--providers") {
            options.providers = Some(parse_provider_list(value)?);
        } else if str_eq(flag, "--fixture-response") {
            let item = parse_fixture_response_input(value)?;
            let ghost before = options.fixture_responses.deep_view();
            let ghost item_view = item.deep_view();
            options.fixture_responses.push(item);
            assert(options.fixture_responses.deep_view() =~= before.push(item_view));
        } else if str_eq(flag, "--test-credential-bundle") {
            options.test_credential_bundle_path = Some(owned(value));
        } else if str_eq(flag, "--credential-bundle") {
            options.credential_bundle_path = Some(owned(value));
        } else if str_eq(flag, "--credential-bundle-passphrase-env") {
            options.credential_bundle_passphrase_env = Some(owned(value));
        } else if str_eq(flag, "--token-response") {
            let item = parse_provider_token_response_input(value)?;
            let ghost before = options.token_responses.deep_view();
            let ghost item_view = item.deep_view();
            options.token_responses.push(item);
            assert(options.token_responses.deep_view() =~= before.push(item_view));
        } else if str_eq(flag, "--refresh-client-id") {
            let item = parse_provider_scoped_value(value, "--refresh-client-id")?;
            let ghost before = options.refresh_client_ids.deep_view();
            let ghost item_view = item.deep_view();
            options.refresh_client_ids.push(item);
            assert(options.refresh_client_ids.deep_view() =~= before.push(item_view));
        } else if str_eq(flag, "--refresh-client-secret") {
            let item = parse_provider_scoped_value(value, "--refresh-client-secret")?;
            let ghost before = options.refresh_client_secrets.deep_view();
            let ghost item_view = item.deep_view();
            options.refresh_client_secrets.push(item);
            assert(options.refresh_client_secrets.deep_view() =~= before.push(item_view));
        } else if str_eq(flag, "--limit") || str_eq(flag, "--page-limit") {
            match parse_u16(value) {
                Some(n) => {
                    if n == 0 {
                        return Err(owned("invalid --limit: must be greater than 0"));
                    }
                    options.limit = n;
                },
                None => {
                    return Err(concat("invalid --limit: ", value));
                },
            }
        } else if str_eq(flag, "--now") {
            options.now_unix_seconds = Some(parse_now_value(value,
                concat("invalid --now unix seconds: ", value))?);
        } else if str_eq(flag, "--format") {
            options.output_format = parse_plan_output_format(value)?;
        } else {
            return Err(concat("unexpected argument for sync: ", flag));
        }
        index = index + 2;
    }
    if !options.test_write_transport {
        return Err(owned("missing --test-write-transport"));
    }
    if options.db_path.is_none() {
        return Err(owned("missing --db"));
    }
    if option_is_blank(&options.account_id) {
        return Err(owned("missing --account"));
    }
    if options.media_scope.is_none() {
        return Err(owned("missing --kind"));
    }
    if !providers_given(&options.providers) {
        return Err(owned("missing --providers"));
    }
    if options.fixture_responses.len() == 0 {
        return Err(owned("missing --fixture-response"));
    }
    validate_test_token_transport_options(options.test_token_transport,
        has_credential_bundle_source(&options.test_credential_bundle_path,
        &options.credential_bundle_path), &options.token_responses, &options.refresh_client_ids,
        &options.refresh_client_secrets)?;
    Ok(options)
}

} // verus!

verus! {

/// `--fixture-response` and `--fixture` are none of the other flags the
/// planning commands know.
proof fn lemma_fixture_flags_are_distinct(flag: Seq<char>)
    requires
        flag == "--fixture-response"@ || flag == "--fixture"@,
    ensures
        !network_auth(flag),
        flag != "--dry-run"@,
        flag != "--refresh-snapshots"@,
        flag != "--live-read"@,
        flag != "--auto-link-local"@,
        flag != "--test-token-transport"@,
        flag != "--test-write-transport"@,
        flag != "--verify-post-write"@,
        flag != "--client-secret"@,
        flag != "--db"@,
        flag != "--account"@,
        flag != "--account-id"@,
        flag != "--kind"@,
        flag != "--providers"@,
        flag == "--fixture-response"@ ==> flag != "--fixture"@,
{
    reveal_strlit("--fixture-response");
    reveal_strlit("--fixture");
    reveal_strlit("--dry-run");
    reveal_strlit("--refresh-snapshots");
    reveal_strlit("--live-read");
    reveal_strlit("--auto-link-local");
    reveal_strlit("--test-token-transport");
    reveal_strlit("--test-write-transport");
    reveal_strlit("--verify-post-write");
    reveal_strlit("--client-secret");
    reveal_strlit("--apply");
    reveal_strlit("--write");
    reveal_strlit("--delete");
    reveal_strlit("--refresh");
    reveal_strlit("--reauthorize");
    reveal_strlit("--open-browser");
    reveal_strlit("--exchange-token");
    reveal_strlit("--authorization-code");
    reveal_strlit("--access-token");
    reveal_strlit("--refresh-token");
    reveal_strlit("--cookie");
    reveal_strlit("--session");
    reveal_strlit("--browser-profile");
    reveal_strlit("--remote-debugging-port");
    reveal_strlit("--csrf-token");
    reveal_strlit("--db");
    reveal_strlit("--account");
    reveal_strlit("--account-id");
    reveal_strlit("--kind");
    reveal_strlit("--providers");
    assert(flag[2] == 'f');
    assert("--fixture-response"@.len() != "--fixture"@.len());
}

/// `plan` keeps every fixture response it is given, in order: one more
/// `--fixture-response` (or `--fixture`) after arguments that `plan`
/// accepts for a snapshot refresh from fixtures adds its response after
/// the others and changes nothing else.
pub proof fn lemma_plan_keeps_every_fixture_response(
    args: Seq<Seq<char>>,
    flag: Seq<char>,
    value: Seq<char>,
)
    requires
        flag == "--fixture-response"@ || flag == "--fixture"@,
        plan_spec(args) matches Ok(o) && o.refresh_snapshots && !o.live_read,
        fixture_response_spec(value) is Ok,
    ensures
        plan_spec(args + seq![flag, value]) == Ok::<PlanView, Seq<char>>(
            PlanView {
                fixture_responses: plan_spec(args)->Ok_0.fixture_responses.push(
                    fixture_response_spec(value)->Ok_0,
                ),
                ..plan_spec(args)->Ok_0
            },
        ),
{
    let o = plan_spec(args)->Ok_0;
    let all = args + seq![flag, value];
    let n = args.len() as int;
    assert(fold_flags(args, 0, plan_default()) == Ok::<PlanView, Seq<char>>(o));
    lemma_fold_flags_extend(args, seq![flag, value], 0, plan_default());
    assert(all[n] == flag);
    assert(all[n + 1] == value);
    lemma_fixture_flags_are_distinct(flag);
    let o2 = PlanView {
        fixture_responses: o.fixture_responses.push(fixture_response_spec(value)->Ok_0),
        ..o
    };
    assert(fold_flags(all, n + 2, o2) == Ok::<PlanView, Seq<char>>(o2));
    assert(fold_flags(all, 0, plan_default()) == Ok::<PlanView, Seq<char>>(o2));
    assert(o.fixture_responses.len() > 0);
    assert(plan_finish(o2) == Ok::<PlanView, Seq<char>>(o2));
}

/// `apply` keeps every fixture response it is given for its post-write
/// checks, in order: one more `--fixture-response` after arguments that
/// `apply` accepts with `--verify-post-write` adds its response after the
/// others and changes nothing else.
pub proof fn lemma_apply_keeps_every_fixture_response(args: Seq<Seq<char>>, value: Seq<char>)
    requires
        apply_spec(args) matches Ok(o) && o.verify_post_write,
        fixture_response_spec(value) is Ok,
    ensures
        apply_spec(args + seq!["--fixture-response"@, value]) == Ok::<ApplyView, Seq<char>>(
            ApplyView {
                fixture_responses: apply_spec(args)->Ok_0.fixture_responses.push(
                    fixture_response_spec(value)->Ok_0,
                ),
                ..apply_spec(args)->Ok_0
            },
        ),
{
    let flag = "--fixture-response"@;
    let o = apply_spec(args)->Ok_0;
    let all = args + seq![flag, value];
    let n = args.len() as int;
    assert(fold_flags(args, 0, apply_default()) == Ok::<ApplyView, Seq<char>>(o));
    lemma_fold_flags_extend(args, seq![flag, value], 0, apply_default());
    assert(all[n] == flag);
    assert(all[n + 1] == value);
    lemma_fixture_flags_are_distinct(flag);
    let o2 = ApplyView {
        fixture_responses: o.fixture_responses.push(fixture_response_spec(value)->Ok_0),
        ..o
    };
    assert(fold_flags(all, n + 2, o2) == Ok::<ApplyView, Seq<char>>(o2));
    assert(fold_flags(all, 0, apply_default()) == Ok::<ApplyView, Seq<char>>(o2));
    assert(apply_finish(o2) == Ok::<ApplyView, Seq<char>>(o2));
}

/// `sync` keeps every fixture response it is given, in order: one more
/// `--fixture-response` after arguments that `sync` accepts adds its
/// response after the others and changes nothing else.
pub proof fn lemma_sync_keeps_every_fixture_response(args: Seq<Seq<char>>, value: Seq<char>)
    requires
        sync_spec(args) is Ok,
        fixture_response_spec(value) is Ok,
    ensures
        sync_spec(args + seq!["--fixture-response"@, value]) == Ok::<SyncView, Seq<char>>(
            SyncView {
                fixture_responses: sync_spec(args)->Ok_0.fixture_responses.push(
                    fixture_response_spec(value)->Ok_0,
                ),
                ..sync_spec(args)->Ok_0
            },
        ),
{
    let flag = "--fixture-response"@;
    let o = sync_spec(args)->Ok_0;
    let all = args + seq![flag, value];
    let n = args.len() as int;
    assert(fold_flags(args, 0, sync_default()) == Ok::<SyncView, Seq<char>>(o));
    lemma_fold_flags_extend(args, seq![flag, value], 0, sync_default());
    assert(all[n] == flag);
    assert(all[n + 1] == value);
    lemma_fixture_flags_are_distinct(flag);
    let o2 = SyncView {
        fixture_responses: o.fixture_responses.push(fixture_response_spec(value)->Ok_0),
        ..o
    };
    assert(fold_flags(all, n + 2, o2) == Ok::<SyncView, Seq<char>>(o2));
    assert(fold_flags(all, 0, sync_default()) == Ok::<SyncView, Seq<char>>(o2));
    assert(sync_finish(o2) == Ok::<SyncView, Seq<char>>(o2));
}

/// The flags that carry token transport inputs are none of the other
/// flags the planning commands know, nor one another.
proof fn lemma_token_flags_are_distinct(flag: Seq<char>)
    requires
        flag == "--token-response"@ || flag == "--refresh-client-id"@ || flag
            == "--refresh-client-secret"@,
    ensures
        !network_auth(flag),
        flag != "--dry-run"@,
        flag != "--refresh-snapshots"@,
        flag != "--live-read"@,
        flag != "--auto-link-local"@,
        flag != "--test-token-transport"@,
        flag != "--test-write-transport"@,
        flag != "--verify-post-write"@,
        flag != "--client-secret"@,
        flag != "--fixture"@,
        flag != "--db"@,
        flag != "--account"@,
        flag != "--account-id"@,
        flag != "--kind"@,
        flag != "--providers"@,
        flag != "--fixture-response"@,
        flag != "--test-credential-bundle"@,
        flag != "--credential-bundle"@,
        flag != "--credential-bundle-passphrase-env"@,
        flag == "--token-response"@ ==> flag != "--refresh-client-id"@ && flag
            != "--refresh-client-secret"@,
        flag == "--refresh-client-id"@ ==> flag != "--refresh-client-secret"@,
{
    reveal_strlit("--dry-run");
    reveal_strlit("--refresh-snapshots");
    reveal_strlit("--live-read");
    reveal_strlit("--auto-link-local");
    reveal_strlit("--test-token-transport");
    reveal_strlit("--test-write-transport");
    reveal_strlit("--verify-post-write");
    reveal_strlit("--client-secret");
    reveal_strlit("--fixture");
    reveal_strlit("--db");
    reveal_strlit("--account");
    reveal_strlit("--account-id");
    reveal_strlit("--kind");
    reveal_strlit("--providers");
    reveal_strlit("--fixture-response");
    reveal_strlit("--test-credential-bundle");
    reveal_strlit("--credential-bundle");
    reveal_strlit("--credential-bundle-passphrase-env");
    reveal_strlit("--apply");
    reveal_strlit("--write");
    reveal_strlit("--delete");
    reveal_strlit("--refresh");
    reveal_strlit("--reauthorize");
    reveal_strlit("--open-browser");
    reveal_strlit("--exchange-token");
    reveal_strlit("--authorization-code");
    reveal_strlit("--access-token");
    reveal_strlit("--refresh-token");
    reveal_strlit("--cookie");
    reveal_strlit("--session");
    reveal_strlit("--browser-profile");
    reveal_strlit("--remote-debugging-port");
    reveal_strlit("--csrf-token");
    reveal_strlit("--token-response");
    reveal_strlit("--refresh-client-id");
    reveal_strlit("--refresh-client-secret");
    if flag == "--token-response"@ {
        assert("--token-response"@.len() != "--dry-run"@.len());
        assert("--token-response"@.len() != "--refresh-snapshots"@.len());
        assert("--token-response"@.len() != "--live-read"@.len());
        assert("--token-response"@.len() != "--auto-link-local"@.len());
        assert("--token-response"@.len() != "--test-token-transport"@.len());
        assert("--token-response"@.len() != "--test-write-transport"@.len());
        assert("--token-response"@.len() != "--verify-post-write"@.len());
        assert("--token-response"@.len() != "--client-secret"@.len());
        assert("--token-response"@.len() != "--fixture"@.len());
        assert("--token-response"@.len() != "--db"@.len());
        assert("--token-response"@.len() != "--account"@.len());
        assert("--token-response"@.len() != "--account-id"@.len());
        assert("--token-response"@.len() != "--kind"@.len());
        assert("--token-response"@.len() != "--providers"@.len());
        assert("--token-response"@.len() != "--fixture-response"@.len());
        assert("--token-response"@.len() != "--test-credential-bundle"@.len());
        assert("--token-response"@.len() != "--credential-bundle"@.len());
        assert("--token-response"@.len() != "--credential-bundle-passphrase-env"@.len());
        assert("--token-response"@.len() != "--apply"@.len());
        assert("--token-response"@.len() != "--write"@.len());
        assert("--token-response"@.len() != "--delete"@.len());
        assert("--token-response"@.len() != "--refresh"@.len());
        assert("--token-response"@.len() != "--reauthorize"@.len());
        assert("--token-response"@.len() != "--open-browser"@.len());
        assert("--token-response"@[2] != "--exchange-token"@[2]);
        assert("--token-response"@.len() != "--authorization-code"@.len());
        assert("--token-response"@.len() != "--access-token"@.len());
        assert("--token-response"@.len() != "--refresh-token"@.len());
        assert("--token-response"@.len() != "--cookie"@.len());
        assert("--token-response"@.len() != "--session"@.len());
        assert("--token-response"@.len() != "--browser-profile"@.len());
        assert("--token-response"@.len() != "--remote-debugging-port"@.len());
        assert("--token-response"@.len() != "--csrf-token"@.len());
        assert("--token-response"@.len() != "--refresh-client-id"@.len());
        assert("--token-response"@.len() != "--refresh-client-secret"@.len());
    } else if flag == "--refresh-client-id"@ {
        assert("--refresh-client-id"@.len() != "--dry-run"@.len());
        assert("--refresh-client-id"@[10] != "--refresh-snapshots"@[10]);
        assert("--refresh-client-id"@.len() != "--live-read"@.len());
        assert("--refresh-client-id"@.len() != "--auto-link-local"@.len());
        assert("--refresh-client-id"@.len() != "--test-token-transport"@.len());
        assert("--refresh-client-id"@.len() != "--test-write-transport"@.len());
        assert("--refresh-client-id"@[2] != "--verify-post-write"@[2]);
        assert("--refresh-client-id"@.len() != "--client-secret"@.len());
        assert("--refresh-client-id"@.len() != "--fixture"@.len());
        assert("--refresh-client-id"@.len() != "--db"@.len());
        assert("--refresh-client-id"@.len() != "--account"@.len());
        assert("--refresh-client-id"@.len() != "--account-id"@.len());
        assert("--refresh-client-id"@.len() != "--kind"@.len());
        assert("--refresh-client-id"@.len() != "--providers"@.len());
        assert("--refresh-client-id"@.len() != "--fixture-response"@.len());
        assert("--refresh-client-id"@.len() != "--test-credential-bundle"@.len());
        assert("--refresh-client-id"@[2] != "--credential-bundle"@[2]);
        assert("--refresh-client-id"@.len() != "--credential-bundle-passphrase-env"@.len());
        assert("--refresh-client-id"@.len() != "--apply"@.len());
        assert("--refresh-client-id"@.len() != "--write"@.len());
        assert("--refresh-client-id"@.len() != "--delete"@.len());
        assert("--refresh-client-id"@.len() != "--refresh"@.len());
        assert("--refresh-client-id"@.len() != "--reauthorize"@.len());
        assert("--refresh-client-id"@.len() != "--open-browser"@.len());
        assert("--refresh-client-id"@.len() != "--exchange-token"@.len());
        assert("--refresh-client-id"@.len() != "--authorization-code"@.len());
        assert("--refresh-client-id"@.len() != "--access-token"@.len());
        assert("--refresh-client-id"@.len() != "--refresh-token"@.len());
        assert("--refresh-client-id"@.len() != "--cookie"@.len());
        assert("--refresh-client-id"@.len() != "--session"@.len());
        assert("--refresh-client-id"@.len() != "--browser-profile"@.len());
        assert("--refresh-client-id"@.len() != "--remote-debugging-port"@.len());
        assert("--refresh-client-id"@.len() != "--csrf-token"@.len());
        assert("--refresh-client-id"@.len() != "--token-response"@.len());
        assert("--refresh-client-id"@.len() != "--refresh-client-secret"@.len());
    } else {
        assert("--refresh-client-secret"@.len() != "--dry-run"@.len());
        assert("--refresh-client-secret"@.len() != "--refresh-snapshots"@.len());
        assert("--refresh-client-secret"@.len() != "--live-read"@.len());
        assert("--refresh-client-secret"@.len() != "--auto-link-local"@.len());
        assert("--refresh-client-secret"@.len() != "--test-token-transport"@.len());
        assert("--refresh-client-secret"@.len() != "--test-write-transport"@.len());
        assert("--refresh-client-secret"@.len() != "--verify-post-write"@.len());
        assert("--refresh-client-secret"@.len() != "--client-secret"@.len());
        assert("--refresh-client-secret"@.len() != "--fixture"@.len());
        assert("--refresh-client-secret"@.len() != "--db"@.len());
        assert("--refresh-client-secret"@.len() != "--account"@.len());
        assert("--refresh-client-secret"@.len() != "--account-id"@.len());
        assert("--refresh-client-secret"@.len() != "--kind"@.len());
        assert("--refresh-client-secret"@.len() != "--providers"@.len());
        assert("--refresh-client-secret"@.len() != "--fixture-response"@.len());
        assert("--refresh-client-secret"@.len() != "--test-credential-bundle"@.len());
        assert("--refresh-client-secret"@.len() != "--credential-bundle"@.len());
        assert("--refresh-client-secret"@.len() != "--credential-bundle-passphrase-env"@.len());
        assert("--refresh-client-secret"@.len() != "--apply"@.len());
        assert("--refresh-client-secret"@.len() != "--write"@.len());
        assert("--refresh-client-secret"@.len() != "--delete"@.len());
        assert("--refresh-client-secret"@.len() != "--refresh"@.len());
        assert("--refresh-client-secret"@.len() != "--reauthorize"@.len());
        assert("--refresh-client-secret"@.len() != "--open-browser"@.len());
        assert("--refresh-client-secret"@.len() != "--exchange-token"@.len());
        assert("--refresh-client-secret"@.len() != "--authorization-code"@.len());
        assert("--refresh-client-secret"@.len() != "--access-token"@.len());
        assert("--refresh-client-secret"@.len() != "--refresh-token"@.len());
        assert("--refresh-client-secret"@.len() != "--cookie"@.len());
        assert("--refresh-client-secret"@.len() != "--session"@.len());
        assert("--refresh-client-secret"@.len() != "--browser-profile"@.len());
        assert("--refresh-client-secret"@[4] != "--remote-debugging-port"@[4]);
        assert("--refresh-client-secret"@.len() != "--csrf-token"@.len());
        assert("--refresh-client-secret"@.len() != "--token-response"@.len());
        assert("--refresh-client-secret"@.len() != "--refresh-client-id"@.len());
    }
}

/// `plan` reads every token transport input it is given, in order: one more
/// `--token-response`, `--refresh-client-id` or `--refresh-client-secret`
/// after arguments that read without error adds its value after the others
/// of its kind and changes nothing else.
pub proof fn lemma_plan_reads_every_token_input(
    args: Seq<Seq<char>>,
    flag: Seq<char>,
    value: Seq<char>,
)
    requires
        fold_flags(args, 0, plan_default()) is Ok,
        flag == "--token-response"@ || flag == "--refresh-client-id"@ || flag
            == "--refresh-client-secret"@,
    ensures
        ({
            let o = fold_flags(args, 0, plan_default())->Ok_0;
            let r = fold_flags(args + seq![flag, value], 0, plan_default());
            &&& flag == "--token-response"@ && token_response_spec(value) is Ok ==> r == Ok::<
                PlanView,
                Seq<char>,
            >(PlanView {
                token_responses: o.token_responses.push(token_response_spec(value)->Ok_0),
                ..o
            })
            &&& flag == "--refresh-client-id"@ && scoped_value_spec(value, flag) is Ok ==> r
                == Ok::<PlanView, Seq<char>>(PlanView {
                refresh_client_ids: o.refresh_client_ids.push(
                    scoped_value_spec(value, flag)->Ok_0,
                ),
                ..o
            })
            &&& flag == "--refresh-client-secret"@ && scoped_value_spec(value, flag) is Ok ==> r
                == Ok::<PlanView, Seq<char>>(PlanView {
                refresh_client_secrets: o.refresh_client_secrets.push(
                    scoped_value_spec(value, flag)->Ok_0,
                ),
                ..o
            })
        }),
{
    lemma_token_flags_are_distinct(flag);
    lemma_fold_flags_append_value(args, flag, value, plan_default());
}

/// `sync` reads every token transport input it is given, in order: one more
/// `--token-response`, `--refresh-client-id` or `--refresh-client-secret`
/// after arguments that read without error adds its value after the others
/// of its kind and changes nothing else.
pub proof fn lemma_sync_reads_every_token_input(
    args: Seq<Seq<char>>,
    flag: Seq<char>,
    value: Seq<char>,
)
    requires
        fold_flags(args, 0, sync_default()) is Ok,
        flag == "--token-response"@ || flag == "--refresh-client-id"@ || flag
            == "--refresh-client-secret"@,
    ensures
        ({
            let o = fold_flags(args, 0, sync_default())->Ok_0;
            let r = fold_flags(args + seq![flag, value], 0, sync_default());
            &&& flag == "--token-response"@ && token_response_spec(value) is Ok ==> r == Ok::<
                SyncView,
                Seq<char>,
            >(SyncView {
                token_responses: o.token_responses.push(token_response_spec(value)->Ok_0),
                ..o
            })
            &&& flag == "--refresh-client-id"@ && scoped_value_spec(value, flag) is Ok ==> r
                == Ok::<SyncView, Seq<char>>(SyncView {
                refresh_client_ids: o.refresh_client_ids.push(
                    scoped_value_spec(value, flag)->Ok_0,
                ),
                ..o
            })
            &&& flag == "--refresh-client-secret"@ && scoped_value_spec(value, flag) is Ok ==> r
                == Ok::<SyncView, Seq<char>>(SyncView {
                refresh_client_secrets: o.refresh_client_secrets.push(
                    scoped_value_spec(value, flag)->Ok_0,
                ),
                ..o
            })
        }),
{
    lemma_token_flags_are_distinct(flag);
    lemma_fold_flags_append_value(args, flag, value, sync_default());
}

} // verus!
