//! The small vocabularies of the command line: providers, media kinds,
//! datasets, output formats and media scopes, with their names and parsers.

use vstd::prelude::*;
use crate::text::{
    all_digits, chars_eq_str, chars_of, concat, digits_value, is_digit, owned, split_chars,
    split_on, str_eq, string_from_chars, trim, trim_chars,
};

verus! {

/// A collection provider.
#[derive(Clone, Copy, Debug, PartialEq, Eq, Hash, Structural)]
pub enum Provider {
    Bangumi,
    AniList,
    MyAnimeList,
}

/// A kind of collection entry.
#[derive(Clone, Copy, Debug, PartialEq, Eq, Hash, Structural)]
pub enum MediaKind {
    Anime,
    Manga,
}

/// A catalog dataset that `import-dataset` accepts.
#[derive(Clone, Copy, Debug, PartialEq, Eq, Structural)]
pub enum DatasetKind {
    AnimeOffline,
    BangumiData,
}

/// How a command reports: plain text or JSON.
#[derive(Clone, Copy, Debug, PartialEq, Eq, Structural)]
pub enum PlanOutputFormat {
    Text,
    Json,
}

/// The media kinds a plan covers.
#[derive(Clone, Copy, Debug, PartialEq, Eq, Structural)]
pub enum PlanMediaScope {
    One(MediaKind),
    All,
}

/// The result type of the parsers below with its message as characters.
pub open spec fn res_chars<T>(r: Result<T, String>) -> Result<T, Seq<char>> {
    match r {
        Ok(v) => Ok(v),
        Err(e) => Err(e@),
    }
}

pub open spec fn provider_name(p: Provider) -> Seq<char> {
    match p {
        Provider::Bangumi => "bangumi"@,
        Provider::AniList => "anilist"@,
        Provider::MyAnimeList => "myanimelist"@,
    }
}

pub open spec fn media_kind_name(k: MediaKind) -> Seq<char> {
    match k {
        MediaKind::Anime => "anime"@,
        MediaKind::Manga => "manga"@,
    }
}

pub open spec fn dataset_name(d: DatasetKind) -> Seq<char> {
    match d {
        DatasetKind::AnimeOffline => "anime-offline"@,
        DatasetKind::BangumiData => "bangumi-data"@,
    }
}

impl Provider {
    /// The provider's name on the command line and in reports.
    pub fn as_str(self) -> (r: &'static str)
        ensures
            r@ == provider_name(self),
    {
        match self {
            Provider::Bangumi => "bangumi",
            Provider::AniList => "anilist",
            Provider::MyAnimeList => "myanimelist",
        }
    }
}

impl MediaKind {
    /// The media kind's name on the command line and in reports.
    pub fn as_str(self) -> (r: &'static str)
        ensures
            r@ == media_kind_name(self),
    {
        match self {
            MediaKind::Anime => "anime",
            MediaKind::Manga => "manga",
        }
    }
}

impl DatasetKind {
    /// The dataset's name in reports.
    pub fn as_str(self) -> (r: &'static str)
        ensures
            r@ == dataset_name(self),
    {
        match self {
            DatasetKind::AnimeOffline => "anime-offline",
            DatasetKind::BangumiData => "bangumi-data",
        }
    }
}

impl Default for PlanOutputFormat {
    fn default() -> (r: Self)
        ensures
            r == PlanOutputFormat::Text,
    {
        PlanOutputFormat::Text
    }
}

// ---------------------------------------------------------------------------
// Parsers of single values
// ---------------------------------------------------------------------------

pub open spec fn provider_from(s: Seq<char>) -> Option<Provider> {
    if s == "bangumi"@ {
        Some(Provider::Bangumi)
    } else if s == "anilist"@ {
        Some(Provider::AniList)
    } else if s == "myanimelist"@ || s == "mal"@ {
        Some(Provider::MyAnimeList)
    } else {
        None
    }
}

pub open spec fn parse_provider_spec(s: Seq<char>) -> Result<Provider, Seq<char>> {
    match provider_from(s) {
        Some(p) => Ok(p),
        None => Err("unsupported provider: "@ + s),
    }
}

pub open spec fn parse_media_kind_spec(s: Seq<char>) -> Result<MediaKind, Seq<char>> {
    if s == "anime"@ {
        Ok(MediaKind::Anime)
    } else if s == "manga"@ {
        Ok(MediaKind::Manga)
    } else {
        Err("unsupported media kind: "@ + s)
    }
}

pub open spec fn parse_dataset_kind_spec(s: Seq<char>) -> Result<DatasetKind, Seq<char>> {
    if s == "anime-offline"@ || s == "anime-offline-database"@ {
        Ok(DatasetKind::AnimeOffline)
    } else if s == "bangumi-data"@ {
        Ok(DatasetKind::BangumiData)
    } else {
        Err("unsupported dataset: "@ + s)
    }
}

pub open spec fn parse_plan_output_format_spec(s: Seq<char>) -> Result<
    PlanOutputFormat,
    Seq<char>,
> {
    if s == "text"@ {
        Ok(PlanOutputFormat::Text)
    } else if s == "json"@ {
        Ok(PlanOutputFormat::Json)
    } else {
        Err("unsupported output format: "@ + s)
    }
}

pub open spec fn parse_plan_media_scope_spec(s: Seq<char>) -> Result<PlanMediaScope, Seq<char>> {
    if s == "all"@ {
        Ok(PlanMediaScope::All)
    } else {
        match parse_media_kind_spec(s) {
            Ok(k) => Ok(PlanMediaScope::One(k)),
            Err(e) => Err(e),
        }
    }
}

/// A release year is exactly four ASCII digits.
pub open spec fn parse_release_year_spec(s: Seq<char>) -> Result<u16, Seq<char>> {
    if s.len() == 4 && (forall|i: int| 0 <= i < 4 ==> #[trigger] is_digit(s[i])) {
        Ok(digits_value(s) as u16)
    } else {
        Err("invalid --release-year: "@ + s)
    }
}

/// `--provider <name>`.
pub fn parse_provider(value: &str) -> (r: Result<Provider, String>)
    ensures
        res_chars(r) == parse_provider_spec(value@),
{
    if str_eq(value, "bangumi") {
        Ok(Provider::Bangumi)
    } else if str_eq(value, "anilist") {
        Ok(Provider::AniList)
    } else if str_eq(value, "myanimelist") || str_eq(value, "mal") {
        Ok(Provider::MyAnimeList)
    } else {
        Err(concat("unsupported provider: ", value))
    }
}

/// `--kind <anime|manga>`.
pub fn parse_media_kind(value: &str) -> (r: Result<MediaKind, String>)
    ensures
        res_chars(r) == parse_media_kind_spec(value@),
{
    if str_eq(value, "anime") {
        Ok(MediaKind::Anime)
    } else if str_eq(value, "manga") {
        Ok(MediaKind::Manga)
    } else {
        Err(concat("unsupported media kind: ", value))
    }
}

/// `--dataset <anime-offline|bangumi-data>`.
pub fn parse_dataset_kind(value: &str) -> (r: Result<DatasetKind, String>)
    ensures
        res_chars(r) == parse_dataset_kind_spec(value@),
{
    if str_eq(value, "anime-offline") || str_eq(value, "anime-offline-database") {
        Ok(DatasetKind::AnimeOffline)
    } else if str_eq(value, "bangumi-data") {
        Ok(DatasetKind::BangumiData)
    } else {
        Err(concat("unsupported dataset: ", value))
    }
}

/// `--format <text|json>`.
pub fn parse_plan_output_format(value: &str) -> (r: Result<PlanOutputFormat, String>)
    ensures
        res_chars(r) == parse_plan_output_format_spec(value@),
{
    if str_eq(value, "text") {
        Ok(PlanOutputFormat::Text)
    } else if str_eq(value, "json") {
        Ok(PlanOutputFormat::Json)
    } else {
        Err(concat("unsupported output format: ", value))
    }
}

/// `--kind <anime|manga|all>`.
pub fn parse_plan_media_scope(value: &str) -> (r: Result<PlanMediaScope, String>)
    ensures
        res_chars(r) == parse_plan_media_scope_spec(value@),
{
    if str_eq(value, "all") {
        Ok(PlanMediaScope::All)
    } else {
        match parse_media_kind(value) {
            Ok(k) => Ok(PlanMediaScope::One(k)),
            Err(e) => Err(e),
        }
    }
}

/// `--release-year <yyyy>`: four ASCII digits.
pub fn parse_release_year(value: &str) -> (r: Result<u16, String>)
    ensures
        res_chars(r) == parse_release_year_spec(value@),
        r matches Ok(y) ==> y <= 9999,
{
    let v = chars_of(value);
    if v.len() == 4 && '0' <= v[0] && v[0] <= '9' && '0' <= v[1] && v[1] <= '9' && '0' <= v[2]
        && v[2] <= '9' && '0' <= v[3] && v[3] <= '9' {
        let d0 = (v[0] as u32 - '0' as u32) as u16;
        let d1 = (v[1] as u32 - '0' as u32) as u16;
        let d2 = (v[2] as u32 - '0' as u32) as u16;
        let d3 = (v[3] as u32 - '0' as u32) as u16;
        proof {
            let s = value@;
            let s1 = s.drop_last();
            let s2 = s1.drop_last();
            let s3 = s2.drop_last();
            let s4 = s3.drop_last();
            assert(s4.len() == 0);
            assert(s3.last() == s[0]);
            assert(s2.last() == s[1]);
            assert(s1.last() == s[2]);
            assert(digits_value(s4) == 0);
            assert(digits_value(s3) == d0);
            assert(digits_value(s2) == d0 * 10 + d1);
            assert(digits_value(s1) == (d0 * 10 + d1) * 10 + d2);
            assert(digits_value(s) == ((d0 * 10 + d1) * 10 + d2) * 10 + d3);
            assert(forall|i: int| 0 <= i < 4 ==> #[trigger] is_digit(s[i]));
        }
        Ok(((d0 * 10 + d1) * 10 + d2) * 10 + d3)
    } else {
        proof {
            if value@.len() == 4 && (forall|i: int| 0 <= i < 4 ==> #[trigger] is_digit(value@[i])) {
                assert(is_digit(value@[0]) && is_digit(value@[1]) && is_digit(value@[2])
                    && is_digit(value@[3]));
            }
        }
        Err(concat("invalid --release-year: ", value))
    }
}

// ---------------------------------------------------------------------------
// Provider lists
// ---------------------------------------------------------------------------

/// The providers named by comma-separated pieces, each trimmed, empty pieces
/// skipped; the first unknown name is the error.
pub open spec fn providers_from_parts(parts: Seq<Seq<char>>) -> Result<Seq<Provider>, Seq<char>>
    decreases parts.len(),
{
    if parts.len() == 0 {
        Ok(Seq::<Provider>::empty())
    } else {
        match providers_from_parts(parts.drop_last()) {
            Err(e) => Err(e),
            Ok(ps) => {
                let t = trim(parts.last());
                if t.len() == 0 {
                    Ok(ps)
                } else {
                    match parse_provider_spec(t) {
                        Ok(p) => Ok(ps.push(p)),
                        Err(e) => Err(e),
                    }
                }
            },
        }
    }
}

/// `--providers <list>`.
pub open spec fn parse_provider_list_spec(s: Seq<char>) -> Result<Seq<Provider>, Seq<char>> {
    providers_from_parts(split_on(s, ','))
}

fn parse_provider_chars(v: &Vec<char>) -> (r: Result<Provider, String>)
    ensures
        res_chars(r) == parse_provider_spec(v@),
{
    if chars_eq_str(v, "bangumi") {
        Ok(Provider::Bangumi)
    } else if chars_eq_str(v, "anilist") {
        Ok(Provider::AniList)
    } else if chars_eq_str(v, "myanimelist") || chars_eq_str(v, "mal") {
        Ok(Provider::MyAnimeList)
    } else {
        let mut e = owned("unsupported provider: ");
        let name = string_from_chars(v);
        e.append(name.as_str());
        Err(e)
    }
}

/// `--providers <list>`: comma-separated provider names.
pub fn parse_provider_list(value: &str) -> (r: Result<Vec<Provider>, String>)
    ensures
        match r {
            Ok(v) => parse_provider_list_spec(value@) == Ok::<Seq<Provider>, Seq<char>>(v@),
            Err(e) => parse_provider_list_spec(value@) == Err::<Seq<Provider>, Seq<char>>(e@),
        },
{
    let chars = chars_of(value);
    let parts = split_chars(&chars, ',');
    let ghost sp = split_on(value@, ',');
    let mut out: Vec<Provider> = Vec::new();
    let mut i: usize = 0;
    while i < parts.len()
        invariant
            chars@ == value@,
            sp == split_on(value@, ','),
            parts@.len() == sp.len(),
            forall|j: int| 0 <= j < parts@.len() ==> #[trigger] parts@[j]@ == sp[j],
            0 <= i <= parts.len(),
            providers_from_parts(sp.subrange(0, i as int)) == Ok::<Seq<Provider>, Seq<char>>(
                out@,
            ),
        decreases parts.len() - i,
    {
        assert(sp.subrange(0, i + 1).drop_last() =~= sp.subrange(0, i as int));
        assert(sp.subrange(0, i + 1).last() == parts@[i as int]@);
        let t = trim_chars(&parts[i]);
        if t.len() > 0 {
            match parse_provider_chars(&t) {
                Ok(p) => out.push(p),
                Err(e) => {
                    proof {
                        lemma_providers_from_parts_err(sp, i as int + 1);
                    }
                    return Err(e);
                },
            }
        }
        i = i + 1;
    }
    assert(sp.subrange(0, parts.len() as int) =~= sp);
    Ok(out)
}

/// Once a prefix of the pieces is refused, so is every longer prefix, with
/// the same message.
proof fn lemma_providers_from_parts_err(parts: Seq<Seq<char>>, k: int)
    requires
        0 <= k <= parts.len(),
        providers_from_parts(parts.subrange(0, k)) is Err,
    ensures
        providers_from_parts(parts) == providers_from_parts(parts.subrange(0, k)),
    decreases parts.len() - k,
{
    if k < parts.len() {
        assert(parts.subrange(0, k + 1).drop_last() =~= parts.subrange(0, k));
        lemma_providers_from_parts_err(parts, k + 1);
    } else {
        assert(parts.subrange(0, k) =~= parts);
    }
}

/// The media kinds a scope covers, in report order.
pub open spec fn plan_media_kinds_spec(scope: PlanMediaScope) -> Seq<MediaKind> {
    match scope {
        PlanMediaScope::One(k) => seq![k],
        PlanMediaScope::All => seq![MediaKind::Anime, MediaKind::Manga],
    }
}

/// The media kinds a scope covers.
pub fn plan_media_kinds(scope: PlanMediaScope) -> (r: Vec<MediaKind>)
    ensures
        r@ == plan_media_kinds_spec(scope),
{
    let mut r = Vec::new();
    match scope {
        PlanMediaScope::One(k) => {
            r.push(k);
        },
        PlanMediaScope::All => {
            r.push(MediaKind::Anime);
            r.push(MediaKind::Manga);
        },
    }
    assert(r@ =~= plan_media_kinds_spec(scope));
    r
}

} // verus!

verus! {

/// A provider's name reads back as that provider.
pub proof fn lemma_provider_name_roundtrip(p: Provider)
    ensures
        provider_from(provider_name(p)) == Some(p),
        parse_provider_spec(provider_name(p)) == Ok::<Provider, Seq<char>>(p),
{
    reveal_strlit("bangumi");
    reveal_strlit("anilist");
    reveal_strlit("myanimelist");
    assert("anilist"@[0] != "bangumi"@[0]);
    assert("myanimelist"@.len() != "bangumi"@.len());
    assert("myanimelist"@.len() != "anilist"@.len());
}

/// A media kind's name reads back as that media kind.
pub proof fn lemma_media_kind_name_roundtrip(k: MediaKind)
    ensures
        parse_media_kind_spec(media_kind_name(k)) == Ok::<MediaKind, Seq<char>>(k),
{
    reveal_strlit("anime");
    reveal_strlit("manga");
    assert("manga"@[0] != "anime"@[0]);
}

} // verus!
