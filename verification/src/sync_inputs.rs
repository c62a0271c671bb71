//! The `<provider>:...` values of `plan`, `apply` and `sync`: fixture
//! responses, token responses and per-provider client ids and secrets, and
//! the checks that tie them together.

use vstd::prelude::*;
use crate::callback::first_index;
use crate::model::{
    parse_media_kind, parse_media_kind_spec, parse_provider, parse_provider_spec, MediaKind,
    Provider,
};
use crate::text::{
    blank, chars_eq_str, chars_of, clone_opt, concat, is_blank, opt_chars, owned, string_from_chars,
};

verus! {

// ---------------------------------------------------------------------------
// Pieces of a value
// ---------------------------------------------------------------------------

/// The characters `v[from..to]` as a fresh `String`.
fn piece(v: &Vec<char>, from: usize, to: usize) -> (r: String)
    requires
        from <= to <= v.len(),
    ensures
        r@ == v@.subrange(from as int, to as int),
{
    let mut w: Vec<char> = Vec::new();
    let mut i: usize = from;
    while i < to
        invariant
            from <= i <= to,
            to <= v.len(),
            w@ == v@.subrange(from as int, i as int),
        decreases to - i,
    {
        w.push(v[i]);
        i = i + 1;
        assert(w@ =~= v@.subrange(from as int, i as int));
    }
    string_from_chars(&w)
}

/// The index of the first `c` in `v[from..]`, or `v.len()`.
fn find_from(v: &Vec<char>, from: usize, c: char) -> (r: usize)
    requires
        from <= v.len(),
    ensures
        from <= r <= v.len(),
        r - from == first_index(v@.subrange(from as int, v.len() as int), c),
{
    let mut i: usize = from;
    while i < v.len() && v[i] != c
        invariant
            from <= i <= v.len(),
            forall|j: int| from <= j < i ==> v@[j] != c,
        decreases v.len() - i,
    {
        i = i + 1;
    }
    proof {
        lemma_first_index_at(v@.subrange(from as int, v.len() as int), c, i - from);
    }
    i
}

proof fn lemma_first_index_at(s: Seq<char>, c: char, i: int)
    requires
        0 <= i <= s.len(),
        forall|j: int| 0 <= j < i ==> s[j] != c,
        i == s.len() || s[i] == c,
    ensures
        first_index(s, c) == i,
    decreases i,
{
    if i > 0 {
        lemma_first_index_at(s.drop_first(), c, i - 1);
    }
}

/// The text before the first `:` and, when there is one, the text after it
/// (what `splitn(2, ':')` yields).
pub open spec fn split_colon(s: Seq<char>) -> (Seq<char>, Option<Seq<char>>) {
    let i = first_index(s, ':');
    if i < s.len() {
        (s.subrange(0, i), Some(s.subrange(i + 1, s.len() as int)))
    } else {
        (s, None)
    }
}

fn split_colon_exec(v: &Vec<char>, from: usize) -> (r: (String, Option<usize>))
    requires
        from <= v.len(),
    ensures
        r.0@ == split_colon(v@.subrange(from as int, v.len() as int)).0,
        match r.1 {
            Some(k) => from < k <= v.len() && split_colon(
                v@.subrange(from as int, v.len() as int),
            ).1 == Some(v@.subrange(k as int, v.len() as int)),
            None => split_colon(v@.subrange(from as int, v.len() as int)).1 is None,
        },
{
    let i = find_from(v, from, ':');
    let ghost s = v@.subrange(from as int, v.len() as int);
    if i < v.len() {
        let head = piece(v, from, i);
        assert(head@ =~= s.subrange(0, i - from));
        assert(v@.subrange(i + 1, v.len() as int) =~= s.subrange(i - from + 1, s.len() as int));
        (head, Some(i + 1))
    } else {
        let head = piece(v, from, i);
        (head, None)
    }
}

// ---------------------------------------------------------------------------
// --fixture-response <provider>:<kind>:<path>
// ---------------------------------------------------------------------------

/// Which provider endpoint a fixture response stands for.
#[derive(Debug)]
pub enum FixtureResponseEndpoint {
    Collection,
    BangumiEpisodeCollection { subject_id: String },
}

/// A local file that stands in for one provider response.
#[derive(Debug)]
pub struct FixtureResponseInput {
    pub provider: Provider,
    pub media_kind: MediaKind,
    pub endpoint: FixtureResponseEndpoint,
    pub path: String,
}

pub enum FixtureEndpointView {
    Collection,
    BangumiEpisodeCollection { subject_id: Seq<char> },
}

pub struct FixtureResponseView {
    pub provider: Provider,
    pub media_kind: MediaKind,
    pub endpoint: FixtureEndpointView,
    pub path: Seq<char>,
}

impl DeepView for FixtureResponseInput {
    type V = FixtureResponseView;

    open spec fn deep_view(&self) -> FixtureResponseView {
        FixtureResponseView {
            provider: self.provider,
            media_kind: self.media_kind,
            endpoint: match self.endpoint {
                FixtureResponseEndpoint::Collection => FixtureEndpointView::Collection,
                FixtureResponseEndpoint::BangumiEpisodeCollection { subject_id } => {
                    FixtureEndpointView::BangumiEpisodeCollection { subject_id: subject_id@ }
                },
            },
            path: self.path@,
        }
    }
}

/// The endpoint and path of the part after `<provider>:<kind>:`. Only
/// `bangumi:anime:` accepts the `episodes:<subject-id>:<path>` form.
pub open spec fn fixture_rest_spec(provider: Provider, media_kind: MediaKind,
    rest: Seq<char>) -> Result<
    (FixtureEndpointView, Seq<char>),
    Seq<char>,
> {
    if provider == Provider::Bangumi && media_kind == MediaKind::Anime && rest.len() >= 9
        && rest.subrange(0, 9) == "episodes:"@ {
        let (subject_id, path) = split_colon(rest.subrange(9, rest.len() as int));
        match path {
            None => Err("invalid --fixture-response: missing path"@),
            Some(p) => if blank(subject_id) {
                Err("invalid --fixture-response: missing subject id"@)
            } else {
                Ok((FixtureEndpointView::BangumiEpisodeCollection { subject_id }, p))
            },
        }
    } else {
        Ok((FixtureEndpointView::Collection, rest))
    }
}

/// `--fixture-response <provider>:<kind>:<path>` or
/// `--fixture-response bangumi:anime:episodes:<subject-id>:<path>`.
pub open spec fn fixture_response_spec(value: Seq<char>) -> Result<FixtureResponseView, Seq<char>> {
    let (p0, r0) = split_colon(value);
    match parse_provider_spec(p0) {
        Err(e) => Err(e),
        Ok(provider) => match r0 {
            None => Err("invalid --fixture-response"@),
            Some(r0) => {
                let (k0, r1) = split_colon(r0);
                match parse_media_kind_spec(k0) {
                    Err(e) => Err(e),
                    Ok(media_kind) => match r1 {
                        None => Err("invalid --fixture-response"@),
                        Some(rest) => match fixture_rest_spec(provider, media_kind, rest) {
                            Err(e) => Err(e),
                            Ok((endpoint, path)) => if blank(path) {
                                Err("invalid --fixture-response: missing path"@)
                            } else {
                                Ok(FixtureResponseView { provider, media_kind, endpoint, path })
                            },
                        },
                    },
                }
            },
        },
    }
}

/// Parses one `--fixture-response` value.
pub fn parse_fixture_response_input(value: &str) -> (r: Result<FixtureResponseInput, String>)
    ensures
        match r {
            Ok(f) => fixture_response_spec(value@) == Ok::<FixtureResponseView, Seq<char>>(
                f.deep_view(),
            ),
            Err(e) => fixture_response_spec(value@) == Err::<FixtureResponseView, Seq<char>>(e@),
        },
{
    let v = chars_of(value);
    assert(v@.subrange(0, v.len() as int) =~= value@);
    let (p0, r0) = split_colon_exec(&v, 0);
    let provider = parse_provider(p0.as_str())?;
    let k_start = match r0 {
        Some(k) => k,
        None => {
            return Err(owned("invalid --fixture-response"));
        },
    };
    let (k0, r1) = split_colon_exec(&v, k_start);
    let media_kind = parse_media_kind(k0.as_str())?;
    let rest_start = match r1 {
        Some(k) => k,
        None => {
            return Err(owned("invalid --fixture-response"));
        },
    };
    let ghost rest = v@.subrange(rest_start as int, v.len() as int);
    let mut endpoint = FixtureResponseEndpoint::Collection;
    let mut path_start: usize = rest_start;
    if provider == Provider::Bangumi && media_kind == MediaKind::Anime && v.len() - rest_start
        >= 9 {
        let prefix = piece(&v, rest_start, rest_start + 9);
        let prefix_chars = chars_of(prefix.as_str());
        assert(prefix@ =~= rest.subrange(0, 9));
        if chars_eq_str(&prefix_chars, "episodes:") {
            let (subject_id, p) = split_colon_exec(&v, rest_start + 9);
            assert(v@.subrange(rest_start + 9, v.len() as int) =~= rest.subrange(
                9,
                rest.len() as int,
            ));
            let ps = match p {
                Some(k) => k,
                None => {
                    return Err(owned("invalid --fixture-response: missing path"));
                },
            };
            if is_blank(subject_id.as_str()) {
                return Err(owned("invalid --fixture-response: missing subject id"));
            }
            endpoint = FixtureResponseEndpoint::BangumiEpisodeCollection { subject_id };
            path_start = ps;
        }
    }
    let path = piece(&v, path_start, v.len());
    if is_blank(path.as_str()) {
        return Err(owned("invalid --fixture-response: missing path"));
    }
    Ok(FixtureResponseInput { provider, media_kind, endpoint, path })
}

// ---------------------------------------------------------------------------
// --token-response <provider>:<path>
// ---------------------------------------------------------------------------

/// A local file that stands in for a provider's token endpoint.
#[derive(Debug)]
pub struct ProviderTokenResponseInput {
    pub provider: Provider,
    pub path: String,
}

impl DeepView for ProviderTokenResponseInput {
    type V = (Provider, Seq<char>);

    open spec fn deep_view(&self) -> (Provider, Seq<char>) {
        (self.provider, self.path@)
    }
}

/// `--token-response <provider>:<path>`.
pub open spec fn token_response_spec(value: Seq<char>) -> Result<(Provider, Seq<char>), Seq<char>> {
    let (p0, rest) = split_colon(value);
    match parse_provider_spec(p0) {
        Err(e) => Err(e),
        Ok(provider) => match rest {
            None => Err("invalid --token-response; expected <provider>:<path>"@),
            Some(path) => if blank(path) {
                Err("invalid --token-response; path must not be empty"@)
            } else {
                Ok((provider, path))
            },
        },
    }
}

/// Parses one `--token-response` value.
pub fn parse_provider_token_response_input(value: &str) -> (r: Result<
    ProviderTokenResponseInput,
    String,
>)
    ensures
        match r {
            Ok(t) => token_response_spec(value@) == Ok::<(Provider, Seq<char>), Seq<char>>(
                t.deep_view(),
            ),
            Err(e) => token_response_spec(value@) == Err::<(Provider, Seq<char>), Seq<char>>(e@),
        },
{
    let v = chars_of(value);
    assert(v@.subrange(0, v.len() as int) =~= value@);
    let (p0, rest) = split_colon_exec(&v, 0);
    let provider = parse_provider(p0.as_str())?;
    let start = match rest {
        Some(k) => k,
        None => {
            return Err(owned("invalid --token-response; expected <provider>:<path>"));
        },
    };
    let path = piece(&v, start, v.len());
    if is_blank(path.as_str()) {
        return Err(owned("invalid --token-response; path must not be empty"));
    }
    Ok(ProviderTokenResponseInput { provider, path })
}

// ---------------------------------------------------------------------------
// --refresh-client-id / --refresh-client-secret <provider>:<value>
// ---------------------------------------------------------------------------

/// A value given for one provider.
#[derive(Debug)]
pub struct ProviderScopedValue {
    pub provider: Provider,
    pub value: String,
}

impl DeepView for ProviderScopedValue {
    type V = (Provider, Seq<char>);

    open spec fn deep_view(&self) -> (Provider, Seq<char>) {
        (self.provider, self.value@)
    }
}

/// `<flag> <provider>:<value>`.
pub open spec fn scoped_value_spec(value: Seq<char>, flag: Seq<char>) -> Result<
    (Provider, Seq<char>),
    Seq<char>,
> {
    let (p0, rest) = split_colon(value);
    match parse_provider_spec(p0) {
        Err(e) => Err(e),
        Ok(provider) => match rest {
            None => Err("invalid "@ + flag + "; expected <provider>:<value>"@),
            Some(v) => if blank(v) {
                Err("invalid "@ + flag + "; value must not be empty"@)
            } else {
                Ok((provider, v))
            },
        },
    }
}

/// Parses one `--refresh-client-id` or `--refresh-client-secret` value.
pub fn parse_provider_scoped_value(value: &str, flag: &str) -> (r: Result<
    ProviderScopedValue,
    String,
>)
    ensures
        match r {
            Ok(t) => scoped_value_spec(value@, flag@) == Ok::<(Provider, Seq<char>), Seq<char>>(
                t.deep_view(),
            ),
            Err(e) => scoped_value_spec(value@, flag@) == Err::<(Provider, Seq<char>), Seq<char>>(
                e@,
            ),
        },
{
    let v = chars_of(value);
    assert(v@.subrange(0, v.len() as int) =~= value@);
    let (p0, rest) = split_colon_exec(&v, 0);
    let provider = parse_provider(p0.as_str())?;
    let start = match rest {
        Some(k) => k,
        None => {
            let mut e = concat("invalid ", flag);
            e.append("; expected <provider>:<value>");
            return Err(e);
        },
    };
    let scoped = piece(&v, start, v.len());
    if is_blank(scoped.as_str()) {
        let mut e = concat("invalid ", flag);
        e.append("; value must not be empty");
        return Err(e);
    }
    Ok(ProviderScopedValue { provider, value: scoped })
}

/// The value given for `provider`: the first one, if any.
pub open spec fn scoped_lookup(inputs: Seq<(Provider, Seq<char>)>, provider: Provider) -> Option<
    Seq<char>,
>
    decreases inputs.len(),
{
    if inputs.len() == 0 {
        None
    } else if inputs[0].0 == provider {
        Some(inputs[0].1)
    } else {
        scoped_lookup(inputs.drop_first(), provider)
    }
}

proof fn lemma_scoped_lookup_skip(inputs: Seq<(Provider, Seq<char>)>, provider: Provider, i: int)
    requires
        0 <= i <= inputs.len(),
        forall|j: int| 0 <= j < i ==> inputs[j].0 != provider,
    ensures
        scoped_lookup(inputs, provider) == scoped_lookup(inputs.skip(i), provider),
    decreases i,
{
    if i > 0 {
        lemma_scoped_lookup_skip(inputs.drop_first(), provider, i - 1);
        assert(inputs.drop_first().skip(i - 1) =~= inputs.skip(i));
    } else {
        assert(inputs.skip(0) =~= inputs);
    }
}

/// The value given for `provider`, if any.
pub fn provider_scoped_value(inputs: &Vec<ProviderScopedValue>, provider: Provider) -> (r: Option<
    &String,
>)
    ensures
        match r {
            Some(v) => scoped_lookup(inputs.deep_view(), provider) == Some(v@),
            None => scoped_lookup(inputs.deep_view(), provider) is None,
        },
{
    let ghost s = inputs.deep_view();
    let mut i: usize = 0;
    while i < inputs.len()
        invariant
            s == inputs.deep_view(),
            0 <= i <= inputs.len(),
            forall|j: int| 0 <= j < i ==> s[j].0 != provider,
        decreases inputs.len() - i,
    {
        if inputs[i].provider == provider {
            proof {
                lemma_scoped_lookup_skip(s, provider, i as int);
            }
            return Some(&inputs[i].value);
        }
        i = i + 1;
    }
    proof {
        lemma_scoped_lookup_skip(s, provider, i as int);
    }
    None
}

// ---------------------------------------------------------------------------
// Token transports and refresh configuration
// ---------------------------------------------------------------------------

/// `--test-token-transport` and the flags that depend on it agree: without
/// it none of its flags may be given; with it a credential bundle is
/// needed, and every token response and client secret needs a client id for
/// its provider.
pub open spec fn token_transport_check_spec(
    test_token_transport: bool,
    has_credential_bundle: bool,
    token_responses: Seq<(Provider, Seq<char>)>,
    refresh_client_ids: Seq<(Provider, Seq<char>)>,
    refresh_client_secrets: Seq<(Provider, Seq<char>)>,
) -> Result<(), Seq<char>> {
    if !test_token_transport {
        if token_responses.len() > 0 {
            Err("--token-response requires --test-token-transport"@)
        } else if refresh_client_ids.len() > 0 {
            Err("--refresh-client-id requires --test-token-transport"@)
        } else if refresh_client_secrets.len() > 0 {
            Err("--refresh-client-secret requires --test-token-transport"@)
        } else {
            Ok(())
        }
    } else if !has_credential_bundle {
        Err("--test-token-transport requires a credential bundle source"@)
    } else if exists|i: int|
        0 <= i < token_responses.len() && scoped_lookup(
            refresh_client_ids,
            #[trigger] token_responses[i].0,
        ) is None {
        Err("--token-response requires matching --refresh-client-id"@)
    } else if exists|i: int|
        0 <= i < refresh_client_secrets.len() && scoped_lookup(
            refresh_client_ids,
            #[trigger] refresh_client_secrets[i].0,
        ) is None {
        Err("--refresh-client-secret requires matching --refresh-client-id"@)
    } else {
        Ok(())
    }
}

/// Checks `--test-token-transport` against the flags that depend on it.
pub fn validate_test_token_transport_options(
    test_token_transport: bool,
    has_credential_bundle: bool,
    token_responses: &Vec<ProviderTokenResponseInput>,
    refresh_client_ids: &Vec<ProviderScopedValue>,
    refresh_client_secrets: &Vec<ProviderScopedValue>,
) -> (r: Result<(), String>)
    ensures
        match r {
            Ok(_) => token_transport_check_spec(
                test_token_transport,
                has_credential_bundle,
                token_responses.deep_view(),
                refresh_client_ids.deep_view(),
                refresh_client_secrets.deep_view(),
            ) == Ok::<(), Seq<char>>(()),
            Err(e) => token_transport_check_spec(
                test_token_transport,
                has_credential_bundle,
                token_responses.deep_view(),
                refresh_client_ids.deep_view(),
                refresh_client_secrets.deep_view(),
            ) == Err::<(), Seq<char>>(e@),
        },
{
    let ghost tr = token_responses.deep_view();
    let ghost ids = refresh_client_ids.deep_view();
    let ghost secrets = refresh_client_secrets.deep_view();
    if !test_token_transport {
        if token_responses.len() > 0 {
            return Err(owned("--token-response requires --test-token-transport"));
        }
        if refresh_client_ids.len() > 0 {
            return Err(owned("--refresh-client-id requires --test-token-transport"));
        }
        if refresh_client_secrets.len() > 0 {
            return Err(owned("--refresh-client-secret requires --test-token-transport"));
        }
        return Ok(());
    }
    if !has_credential_bundle {
        return Err(owned("--test-token-transport requires a credential bundle source"));
    }
    let mut i: usize = 0;
    while i < token_responses.len()
        invariant
            test_token_transport && has_credential_bundle,
            tr == token_responses.deep_view(),
            ids == refresh_client_ids.deep_view(),
            0 <= i <= token_responses.len(),
            forall|j: int| 0 <= j < i ==> scoped_lookup(ids, #[trigger] tr[j].0) is Some,
        decreases token_responses.len() - i,
    {
        if provider_scoped_value(refresh_client_ids, token_responses[i].provider).is_none() {
            assert(scoped_lookup(ids, tr[i as int].0) is None);
            assert(scoped_lookup(
                refresh_client_ids.deep_view(),
                token_responses.deep_view()[i as int].0,
            ) is None);
            return Err(owned("--token-response requires matching --refresh-client-id"));
        }
        i = i + 1;
    }
    let mut k: usize = 0;
    while k < refresh_client_secrets.len()
        invariant
            test_token_transport && has_credential_bundle,
            tr == token_responses.deep_view(),
            ids == refresh_client_ids.deep_view(),
            secrets == refresh_client_secrets.deep_view(),
            forall|j: int| 0 <= j < tr.len() ==> scoped_lookup(ids, #[trigger] tr[j].0) is Some,
            0 <= k <= refresh_client_secrets.len(),
            forall|j: int| 0 <= j < k ==> scoped_lookup(ids, #[trigger] secrets[j].0) is Some,
        decreases refresh_client_secrets.len() - k,
    {
        if provider_scoped_value(refresh_client_ids, refresh_client_secrets[k].provider).is_none() {
            assert(scoped_lookup(ids, secrets[k as int].0) is None);
            assert(scoped_lookup(
                refresh_client_ids.deep_view(),
                refresh_client_secrets.deep_view()[k as int].0,
            ) is None);
            return Err(owned("--refresh-client-secret requires matching --refresh-client-id"));
        }
        k = k + 1;
    }
    Ok(())
}

/// How stored credentials of one provider are refreshed during a sync.
#[derive(Debug)]
pub struct RefreshConfig {
    pub provider: Provider,
    pub client_id: String,
    pub client_secret: Option<String>,
}

impl DeepView for RefreshConfig {
    type V = (Provider, Seq<char>, Option<Seq<char>>);

    open spec fn deep_view(&self) -> (Provider, Seq<char>, Option<Seq<char>>) {
        (
            self.provider,
            self.client_id@,
            match self.client_secret {
                Some(s) => Some(s@),
                None => None,
            },
        )
    }
}

/// One refresh configuration per provider that has a client id, in the
/// order of `providers`, with that provider's client secret if one was
/// given.
pub open spec fn refresh_configs_spec(
    providers: Seq<Provider>,
    client_ids: Seq<(Provider, Seq<char>)>,
    client_secrets: Seq<(Provider, Seq<char>)>,
) -> Seq<(Provider, Seq<char>, Option<Seq<char>>)>
    decreases providers.len(),
{
    if providers.len() == 0 {
        Seq::empty()
    } else {
        let before = refresh_configs_spec(providers.drop_last(), client_ids, client_secrets);
        let p = providers.last();
        match scoped_lookup(client_ids, p) {
            Some(id) => before.push((p, id, scoped_lookup(client_secrets, p))),
            None => before,
        }
    }
}

/// The refresh configurations for the providers of a sync.
pub fn build_refresh_configs(
    providers: &Vec<Provider>,
    client_ids: &Vec<ProviderScopedValue>,
    client_secrets: &Vec<ProviderScopedValue>,
) -> (r: Vec<RefreshConfig>)
    ensures
        r.deep_view() == refresh_configs_spec(
            providers@,
            client_ids.deep_view(),
            client_secrets.deep_view(),
        ),
{
    let mut out: Vec<RefreshConfig> = Vec::new();
    let mut i: usize = 0;
    while i < providers.len()
        invariant
            0 <= i <= providers.len(),
            out.deep_view() == refresh_configs_spec(
                providers@.subrange(0, i as int),
                client_ids.deep_view(),
                client_secrets.deep_view(),
            ),
        decreases providers.len() - i,
    {
        let p = providers[i];
        assert(providers@.subrange(0, i + 1).drop_last() =~= providers@.subrange(0, i as int));
        match provider_scoped_value(client_ids, p) {
            Some(id) => {
                let secret = match provider_scoped_value(client_secrets, p) {
                    Some(s) => Some(s.clone()),
                    None => None,
                };
                let ghost before = out.deep_view();
                let c = RefreshConfig { provider: p, client_id: id.clone(), client_secret: secret };
                let ghost cv = c.deep_view();
                out.push(c);
                assert(out.deep_view() =~= before.push(cv));
            },
            None => {},
        }
        i = i + 1;
    }
    assert(providers@.subrange(0, providers.len() as int) =~= providers@);
    out
}

/// The token response file given for a provider: the last one, if any.
pub open spec fn token_path_lookup(inputs: Seq<(Provider, Seq<char>)>,
    provider: Provider) -> Option<
    Seq<char>,
>
    decreases inputs.len(),
{
    if inputs.len() == 0 {
        None
    } else if inputs.last().0 == provider {
        Some(inputs.last().1)
    } else {
        token_path_lookup(inputs.drop_last(), provider)
    }
}

/// The token response file for each provider: a later `--token-response`
/// for a provider replaces an earlier one.
pub struct TokenResponsePaths {
    pub entries: Vec<ProviderTokenResponseInput>,
}

/// The token response files by provider.
pub fn token_response_path_map(inputs: &Vec<ProviderTokenResponseInput>) -> (r:
    TokenResponsePaths)
    ensures
        r.entries.deep_view() == inputs.deep_view(),
{
    let mut entries: Vec<ProviderTokenResponseInput> = Vec::new();
    let mut i: usize = 0;
    while i < inputs.len()
        invariant
            0 <= i <= inputs.len(),
            entries.deep_view() == inputs.deep_view().subrange(0, i as int),
        decreases inputs.len() - i,
    {
        let ghost before = entries.deep_view();
        let e = ProviderTokenResponseInput {
            provider: inputs[i].provider,
            path: inputs[i].path.clone(),
        };
        assert(e.deep_view() == inputs.deep_view()[i as int]);
        entries.push(e);
        assert(entries.deep_view() =~= before.push(inputs.deep_view()[i as int]));
        assert(inputs.deep_view().subrange(0, i + 1) =~= before.push(inputs.deep_view()[i as int]));
        i = i + 1;
    }
    assert(inputs.deep_view().subrange(0, inputs.len() as int) =~= inputs.deep_view());
    TokenResponsePaths { entries }
}

impl TokenResponsePaths {
    /// The token response file for `provider`, if any.
    pub fn get(&self, provider: Provider) -> (r: Option<&String>)
        ensures
            match r {
                Some(p) => token_path_lookup(self.entries.deep_view(), provider) == Some(p@),
                None => token_path_lookup(self.entries.deep_view(), provider) is None,
            },
    {
        let ghost s = self.entries.deep_view();
        let mut i: usize = self.entries.len();
        assert(s.subrange(0, i as int) =~= s);
        while i > 0
            invariant
                s == self.entries.deep_view(),
                i <= self.entries.len(),
                token_path_lookup(s, provider) == token_path_lookup(s.subrange(0, i as int),
                    provider),
            decreases i,
        {
            assert(s.subrange(0, i as int).last() == s[i - 1]);
            if self.entries[i - 1].provider == provider {
                return Some(&self.entries[i - 1].path);
            }
            assert(s.subrange(0, i as int).drop_last() =~= s.subrange(0, i - 1));
            i = i - 1;
        }
        None
    }
}

/// The token response file the fixture token transport reads for a
/// provider: the one given for that provider, or else the default one.
pub fn token_response_path_for(
    paths: &TokenResponsePaths,
    default_path: &Option<String>,
    provider: Provider,
) -> (r: Option<String>)
    ensures
        opt_chars(r) == match token_path_lookup(paths.entries.deep_view(), provider) {
            Some(p) => Some(p),
            None => opt_chars(*default_path),
        },
{
    match paths.get(provider) {
        Some(p) => Some(p.clone()),
        None => clone_opt(default_path),
    }
}

} // verus!
