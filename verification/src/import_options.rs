//! Options of the local import and identity commands: `import-fixtures`,
//! `import-legacy-config`, `import-dataset`, `inspect-match`, `auto-link`.

use vstd::prelude::*;
use crate::flags::{
    arg_views, fold_flags, is_write_or_network, missing_value_for, writes_or_network, FlagAction,
    FlagGrammar,
};
use crate::model::{
    parse_dataset_kind, parse_dataset_kind_spec, parse_media_kind, parse_media_kind_spec,
    parse_plan_output_format, parse_plan_output_format_spec, parse_provider, parse_provider_spec,
    parse_release_year, parse_release_year_spec, DatasetKind, MediaKind, PlanOutputFormat,
    Provider,
};
use crate::text::{
    concat, opt_blank, opt_chars, option_is_blank, owned, parse_u32, parse_u32_spec, str_eq,
};

verus! {

// ---------------------------------------------------------------------------
// import-fixtures
// ---------------------------------------------------------------------------

/// Options of `import-fixtures`.
pub struct ImportFixtureOptions {
    pub provider: Option<Provider>,
    pub media_kind: Option<MediaKind>,
    pub fixture_path: Option<String>,
    pub db_path: Option<String>,
    pub account_id: Option<String>,
}

pub struct ImportFixtureView {
    pub provider: Option<Provider>,
    pub media_kind: Option<MediaKind>,
    pub fixture_path: Option<Seq<char>>,
    pub db_path: Option<Seq<char>>,
    pub account_id: Option<Seq<char>>,
}

impl View for ImportFixtureOptions {
    type V = ImportFixtureView;

    open spec fn view(&self) -> ImportFixtureView {
        ImportFixtureView {
            provider: self.provider,
            media_kind: self.media_kind,
            fixture_path: opt_chars(self.fixture_path),
            db_path: opt_chars(self.db_path),
            account_id: opt_chars(self.account_id),
        }
    }
}

impl FlagGrammar for ImportFixtureView {
    open spec fn on_flag(self, flag: Seq<char>) -> FlagAction<Self> {
        FlagAction::Value
    }

    open spec fn missing_value(flag: Seq<char>) -> Seq<char> {
        missing_value_for(flag)
    }

    open spec fn on_value(self, flag: Seq<char>, value: Seq<char>) -> Result<Self, Seq<char>> {
        if flag == "--provider"@ {
            match parse_provider_spec(value) {
                Ok(p) => Ok(ImportFixtureView { provider: Some(p), ..self }),
                Err(e) => Err(e),
            }
        } else if flag == "--kind"@ {
            match parse_media_kind_spec(value) {
                Ok(k) => Ok(ImportFixtureView { media_kind: Some(k), ..self }),
                Err(e) => Err(e),
            }
        } else if flag == "--fixture"@ || flag == "--file"@ {
            Ok(ImportFixtureView { fixture_path: Some(value), ..self })
        } else if flag == "--db"@ {
            Ok(ImportFixtureView { db_path: Some(value), ..self })
        } else if flag == "--account"@ || flag == "--account-id"@ {
            Ok(ImportFixtureView { account_id: Some(value), ..self })
        } else if flag == "--apply"@ || flag == "--write"@ || flag == "--delete"@ {
            Err("writes are disabled for import-fixtures: "@ + flag)
        } else {
            Err("unexpected argument for import-fixtures: "@ + flag)
        }
    }
}

pub open spec fn import_fixture_default() -> ImportFixtureView {
    ImportFixtureView {
        provider: None,
        media_kind: None,
        fixture_path: None,
        db_path: None,
        account_id: None,
    }
}

pub open spec fn import_fixture_finish(o: ImportFixtureView) -> Result<
    ImportFixtureView,
    Seq<char>,
> {
    if o.provider is None {
        Err("missing --provider"@)
    } else if o.media_kind is None {
        Err("missing --kind"@)
    } else if o.fixture_path is None {
        Err("missing --fixture"@)
    } else if o.db_path is None {
        Err("missing --db"@)
    } else if opt_blank(o.account_id) {
        Err("missing --account"@)
    } else {
        Ok(o)
    }
}

/// What `import-fixtures` makes of its arguments.
pub open spec fn import_fixture_spec(args: Seq<Seq<char>>) -> Result<ImportFixtureView, Seq<char>> {
    match fold_flags(args, 0, import_fixture_default()) {
        Ok(o) => import_fixture_finish(o),
        Err(e) => Err(e),
    }
}

/// Parses the arguments of `import-fixtures`.
pub fn parse_import_fixture_options(args: &[String]) -> (r: Result<ImportFixtureOptions, String>)
    ensures
        match r {
            Ok(o) => import_fixture_spec(arg_views(args@)) == Ok::<
                ImportFixtureView,
                Seq<char>,
            >(o@),
            Err(e) => import_fixture_spec(arg_views(args@)) == Err::<
                ImportFixtureView,
                Seq<char>,
            >(e@),
        },
        r matches Ok(o) ==> o.provider is Some && o.media_kind is Some && o.fixture_path is Some
            && o.db_path is Some && o.account_id is Some,
{
    let ghost a = arg_views(args@);
    let mut options = ImportFixtureOptions {
        provider: None,
        media_kind: None,
        fixture_path: None,
        db_path: None,
        account_id: None,
    };
    let mut index: usize = 0;
    while index < args.len()
        invariant
            a == arg_views(args@),
            index <= args.len(),
            fold_flags(a, 0, import_fixture_default()) == fold_flags(a, index as int, options@),
        decreases args.len() - index,
    {
        let flag = args[index].as_str();
        if index + 1 >= args.len() {
            return Err(concat("missing value for ", flag));
        }
        let value = args[index + 1].as_str();
        if str_eq(flag, "--provider") {
            options.provider = Some(parse_provider(value)?);
        } else if str_eq(flag, "--kind") {
            options.media_kind = Some(parse_media_kind(value)?);
        } else if str_eq(flag, "--fixture") || str_eq(flag, "--file") {
            options.fixture_path = Some(owned(value));
        } else if str_eq(flag, "--db") {
            options.db_path = Some(owned(value));
        } else if str_eq(flag, "--account") || str_eq(flag, "--account-id") {
            options.account_id = Some(owned(value));
        } else if str_eq(flag, "--apply") || str_eq(flag, "--write") || str_eq(flag, "--delete") {
            return Err(concat("writes are disabled for import-fixtures: ", flag));
        } else {
            return Err(concat("unexpected argument for import-fixtures: ", flag));
        }
        index = index + 2;
    }
    if options.provider.is_none() {
        return Err(owned("missing --provider"));
    }
    if options.media_kind.is_none() {
        return Err(owned("missing --kind"));
    }
    if options.fixture_path.is_none() {
        return Err(owned("missing --fixture"));
    }
    if options.db_path.is_none() {
        return Err(owned("missing --db"));
    }
    if option_is_blank(&options.account_id) {
        return Err(owned("missing --account"));
    }
    Ok(options)
}


// ---------------------------------------------------------------------------
// import-legacy-config
// ---------------------------------------------------------------------------

/// Options of `import-legacy-config`.
pub struct ImportLegacyConfigOptions {
    pub db_path: Option<String>,
    pub media_kind: Option<MediaKind>,
    pub manual_relations_path: Option<String>,
    pub ignore_entries_path: Option<String>,
}

pub struct ImportLegacyConfigView {
    pub db_path: Option<Seq<char>>,
    pub media_kind: Option<MediaKind>,
    pub manual_relations_path: Option<Seq<char>>,
    pub ignore_entries_path: Option<Seq<char>>,
}

impl View for ImportLegacyConfigOptions {
    type V = ImportLegacyConfigView;

    open spec fn view(&self) -> ImportLegacyConfigView {
        ImportLegacyConfigView {
            db_path: opt_chars(self.db_path),
            media_kind: self.media_kind,
            manual_relations_path: opt_chars(self.manual_relations_path),
            ignore_entries_path: opt_chars(self.ignore_entries_path),
        }
    }
}

impl FlagGrammar for ImportLegacyConfigView {
    open spec fn on_flag(self, flag: Seq<char>) -> FlagAction<Self> {
        if writes_or_network(flag) {
            FlagAction::Refuse(
                "provider writes and network auth are disabled for import-legacy-config: "@ + flag,
            )
        } else {
            FlagAction::Value
        }
    }

    open spec fn missing_value(flag: Seq<char>) -> Seq<char> {
        missing_value_for(flag)
    }

    open spec fn on_value(self, flag: Seq<char>, value: Seq<char>) -> Result<Self, Seq<char>> {
        if flag == "--db"@ {
            Ok(ImportLegacyConfigView { db_path: Some(value), ..self })
        } else if flag == "--kind"@ {
            match parse_media_kind_spec(value) {
                Ok(k) => Ok(ImportLegacyConfigView { media_kind: Some(k), ..self }),
                Err(e) => Err(e),
            }
        } else if flag == "--manual-relations"@ || flag == "--manual-relations-file"@ {
            Ok(ImportLegacyConfigView { manual_relations_path: Some(value), ..self })
        } else if flag == "--ignore-entries"@ || flag == "--ignore-entries-file"@ {
            Ok(ImportLegacyConfigView { ignore_entries_path: Some(value), ..self })
        } else {
            Err("unexpected argument for import-legacy-config: "@ + flag)
        }
    }
}

pub open spec fn import_legacy_config_default() -> ImportLegacyConfigView {
    ImportLegacyConfigView {
        db_path: None,
        media_kind: None,
        manual_relations_path: None,
        ignore_entries_path: None,
    }
}

pub open spec fn import_legacy_config_finish(o: ImportLegacyConfigView) -> Result<
    ImportLegacyConfigView,
    Seq<char>,
> {
    if o.db_path is None {
        Err("missing --db"@)
    } else if o.media_kind is None {
        Err("missing --kind"@)
    } else if o.manual_relations_path is None && o.ignore_entries_path is None {
        Err("missing --manual-relations or --ignore-entries"@)
    } else {
        Ok(o)
    }
}

/// What `import-legacy-config` makes of its arguments.
pub open spec fn import_legacy_config_spec(args: Seq<Seq<char>>) -> Result<
    ImportLegacyConfigView,
    Seq<char>,
> {
    match fold_flags(args, 0, import_legacy_config_default()) {
        Ok(o) => import_legacy_config_finish(o),
        Err(e) => Err(e),
    }
}

/// Parses the arguments of `import-legacy-config`.
pub fn parse_import_legacy_config_options(args: &[String]) -> (r: Result<
    ImportLegacyConfigOptions,
    String,
>)
    ensures
        match r {
            Ok(o) => import_legacy_config_spec(arg_views(args@)) == Ok::<
                ImportLegacyConfigView,
                Seq<char>,
            >(o@),
            Err(e) => import_legacy_config_spec(arg_views(args@)) == Err::<
                ImportLegacyConfigView,
                Seq<char>,
            >(e@),
        },
        r matches Ok(o) ==> o.db_path is Some && o.media_kind is Some && (
        o.manual_relations_path is Some || o.ignore_entries_path is Some),
{
    let ghost a = arg_views(args@);
    let mut options = ImportLegacyConfigOptions {
        db_path: None,
        media_kind: None,
        manual_relations_path: None,
        ignore_entries_path: None,
    };
    let mut index: usize = 0;
    while index < args.len()
        invariant
            a == arg_views(args@),
            index <= args.len(),
            fold_flags(a, 0, import_legacy_config_default()) == fold_flags(
                a,
                index as int,
                options@,
            ),
        decreases args.len() - index,
    {
        let flag = args[index].as_str();
        if is_write_or_network(flag) {
            return Err(
                concat(
                    "provider writes and network auth are disabled for import-legacy-config: ",
                    flag,
                ),
            );
        }
        if index + 1 >= args.len() {
            return Err(concat("missing value for ", flag));
        }
        let value = args[index + 1].as_str();
        if str_eq(flag, "--db") {
            options.db_path = Some(owned(value));
        } else if str_eq(flag, "--kind") {
            options.media_kind = Some(parse_media_kind(value)?);
        } else if str_eq(flag, "--manual-relations") || str_eq(flag, "--manual-relations-file") {
            options.manual_relations_path = Some(owned(value));
        } else if str_eq(flag, "--ignore-entries") || str_eq(flag, "--ignore-entries-file") {
            options.ignore_entries_path = Some(owned(value));
        } else {
            return Err(concat("unexpected argument for import-legacy-config: ", flag));
        }
        index = index + 2;
    }
    if options.db_path.is_none() {
        return Err(owned("missing --db"));
    }
    if options.media_kind.is_none() {
        return Err(owned("missing --kind"));
    }
    if options.manual_relations_path.is_none() && options.ignore_entries_path.is_none() {
        return Err(owned("missing --manual-relations or --ignore-entries"));
    }
    Ok(options)
}

// ---------------------------------------------------------------------------
// import-dataset
// ---------------------------------------------------------------------------

/// Options of `import-dataset`.
pub struct ImportDatasetOptions {
    pub db_path: Option<String>,
    pub dataset: Option<DatasetKind>,
    pub file_path: Option<String>,
    pub media_kind: Option<MediaKind>,
}

pub struct ImportDatasetView {
    pub db_path: Option<Seq<char>>,
    pub dataset: Option<DatasetKind>,
    pub file_path: Option<Seq<char>>,
    pub media_kind: Option<MediaKind>,
}

impl View for ImportDatasetOptions {
    type V = ImportDatasetView;

    open spec fn view(&self) -> ImportDatasetView {
        ImportDatasetView {
            db_path: opt_chars(self.db_path),
            dataset: self.dataset,
            file_path: opt_chars(self.file_path),
            media_kind: self.media_kind,
        }
    }
}

impl FlagGrammar for ImportDatasetView {
    open spec fn on_flag(self, flag: Seq<char>) -> FlagAction<Self> {
        if writes_or_network(flag) {
            FlagAction::Refuse(
                "provider writes and network auth are disabled for import-dataset: "@ + flag,
            )
        } else {
            FlagAction::Value
        }
    }

    open spec fn missing_value(flag: Seq<char>) -> Seq<char> {
        missing_value_for(flag)
    }

    open spec fn on_value(self, flag: Seq<char>, value: Seq<char>) -> Result<Self, Seq<char>> {
        if flag == "--db"@ {
            Ok(ImportDatasetView { db_path: Some(value), ..self })
        } else if flag == "--dataset"@ {
            match parse_dataset_kind_spec(value) {
                Ok(d) => Ok(ImportDatasetView { dataset: Some(d), ..self }),
                Err(e) => Err(e),
            }
        } else if flag == "--file"@ || flag == "--dataset-file"@ {
            Ok(ImportDatasetView { file_path: Some(value), ..self })
        } else if flag == "--kind"@ {
            match parse_media_kind_spec(value) {
                Ok(k) => Ok(ImportDatasetView { media_kind: Some(k), ..self }),
                Err(e) => Err(e),
            }
        } else {
            Err("unexpected argument for import-dataset: "@ + flag)
        }
    }
}

pub open spec fn import_dataset_default() -> ImportDatasetView {
    ImportDatasetView { db_path: None, dataset: None, file_path: None, media_kind: None }
}

pub open spec fn import_dataset_finish(o: ImportDatasetView) -> Result<
    ImportDatasetView,
    Seq<char>,
> {
    if o.db_path is None {
        Err("missing --db"@)
    } else if o.dataset is None {
        Err("missing --dataset"@)
    } else if o.file_path is None {
        Err("missing --file"@)
    } else if o.dataset == Some(DatasetKind::AnimeOffline) && o.media_kind is Some {
        Err("anime-offline does not accept --kind"@)
    } else if o.dataset == Some(DatasetKind::BangumiData) && o.media_kind is None {
        Err("missing --kind for bangumi-data"@)
    } else {
        Ok(o)
    }
}

/// What `import-dataset` makes of its arguments.
pub open spec fn import_dataset_spec(args: Seq<Seq<char>>) -> Result<ImportDatasetView, Seq<char>> {
    match fold_flags(args, 0, import_dataset_default()) {
        Ok(o) => import_dataset_finish(o),
        Err(e) => Err(e),
    }
}

/// Parses the arguments of `import-dataset`.
pub fn parse_import_dataset_options(args: &[String]) -> (r: Result<ImportDatasetOptions, String>)
    ensures
        match r {
            Ok(o) => import_dataset_spec(arg_views(args@)) == Ok::<
                ImportDatasetView,
                Seq<char>,
            >(o@),
            Err(e) => import_dataset_spec(arg_views(args@)) == Err::<
                ImportDatasetView,
                Seq<char>,
            >(e@),
        },
        r matches Ok(o) ==> o.db_path is Some && o.file_path is Some && (o.dataset == Some(
            DatasetKind::AnimeOffline,
        ) && o.media_kind is None || o.dataset == Some(DatasetKind::BangumiData)
            && o.media_kind is Some),
{
    let ghost a = arg_views(args@);
    let mut options = ImportDatasetOptions {
        db_path: None,
        dataset: None,
        file_path: None,
        media_kind: None,
    };
    let mut index: usize = 0;
    while index < args.len()
        invariant
            a == arg_views(args@),
            index <= args.len(),
            fold_flags(a, 0, import_dataset_default()) == fold_flags(a, index as int, options@),
        decreases args.len() - index,
    {
        let flag = args[index].as_str();
        if is_write_or_network(flag) {
            return Err(
                concat("provider writes and network auth are disabled for import-dataset: ", flag),
            );
        }
        if index + 1 >= args.len() {
            return Err(concat("missing value for ", flag));
        }
        let value = args[index + 1].as_str();
        if str_eq(flag, "--db") {
            options.db_path = Some(owned(value));
        } else if str_eq(flag, "--dataset") {
            options.dataset = Some(parse_dataset_kind(value)?);
        } else if str_eq(flag, "--file") || str_eq(flag, "--dataset-file") {
            options.file_path = Some(owned(value));
        } else if str_eq(flag, "--kind") {
            options.media_kind = Some(parse_media_kind(value)?);
        } else {
            return Err(concat("unexpected argument for import-dataset: ", flag));
        }
        index = index + 2;
    }
    if options.db_path.is_none() {
        return Err(owned("missing --db"));
    }
    let dataset = match options.dataset {
        Some(d) => d,
        None => {
            return Err(owned("missing --dataset"));
        },
    };
    if options.file_path.is_none() {
        return Err(owned("missing --file"));
    }
    match (dataset, &options.media_kind) {
        (DatasetKind::AnimeOffline, Some(_)) => {
            return Err(owned("anime-offline does not accept --kind"));
        },
        (DatasetKind::BangumiData, None) => {
            return Err(owned("missing --kind for bangumi-data"));
        },
        _ => {},
    }
    Ok(options)
}

// ---------------------------------------------------------------------------
// inspect-match
// ---------------------------------------------------------------------------

/// Options of `inspect-match`.
pub struct InspectMatchOptions {
    pub dry_run: bool,
    pub db_path: Option<String>,
    pub media_kind: Option<MediaKind>,
    pub query: Option<String>,
    pub release_year: Option<u16>,
    pub limit: u32,
    pub output_format: PlanOutputFormat,
}

pub struct InspectMatchView {
    pub dry_run: bool,
    pub db_path: Option<Seq<char>>,
    pub media_kind: Option<MediaKind>,
    pub query: Option<Seq<char>>,
    pub release_year: Option<u16>,
    pub limit: u32,
    pub output_format: PlanOutputFormat,
}

impl View for InspectMatchOptions {
    type V = InspectMatchView;

    open spec fn view(&self) -> InspectMatchView {
        InspectMatchView {
            dry_run: self.dry_run,
            db_path: opt_chars(self.db_path),
            media_kind: self.media_kind,
            query: opt_chars(self.query),
            release_year: self.release_year,
            limit: self.limit,
            output_format: self.output_format,
        }
    }
}

impl FlagGrammar for InspectMatchView {
    open spec fn on_flag(self, flag: Seq<char>) -> FlagAction<Self> {
        if flag == "--dry-run"@ {
            FlagAction::Switch(InspectMatchView { dry_run: true, ..self })
        } else if writes_or_network(flag) {
            FlagAction::Refuse("writes and network calls are disabled for inspect-match: "@ + flag)
        } else {
            FlagAction::Value
        }
    }

    open spec fn missing_value(flag: Seq<char>) -> Seq<char> {
        missing_value_for(flag)
    }

    open spec fn on_value(self, flag: Seq<char>, value: Seq<char>) -> Result<Self, Seq<char>> {
        if flag == "--db"@ {
            Ok(InspectMatchView { db_path: Some(value), ..self })
        } else if flag == "--kind"@ {
            match parse_media_kind_spec(value) {
                Ok(k) => Ok(InspectMatchView { media_kind: Some(k), ..self }),
                Err(e) => Err(e),
            }
        } else if flag == "--query"@ || flag == "--title"@ {
            Ok(InspectMatchView { query: Some(value), ..self })
        } else if flag == "--release-year"@ || flag == "--year"@ {
            match parse_release_year_spec(value) {
                Ok(y) => Ok(InspectMatchView { release_year: Some(y), ..self }),
                Err(e) => Err(e),
            }
        } else if flag == "--format"@ {
            match parse_plan_output_format_spec(value) {
                Ok(f) => Ok(InspectMatchView { output_format: f, ..self }),
                Err(e) => Err(e),
            }
        } else if flag == "--limit"@ {
            match parse_u32_spec(value) {
                Some(n) => if n == 0 {
                    Err("invalid --limit: must be greater than 0"@)
                } else {
                    Ok(InspectMatchView { limit: n, ..self })
                },
                None => Err("invalid --limit: "@ + value),
            }
        } else {
            Err("unexpected argument for inspect-match: "@ + flag)
        }
    }
}

/// `inspect-match` looks at ten candidates unless told otherwise.
pub open spec fn inspect_match_default() -> InspectMatchView {
    InspectMatchView {
        dry_run: false,
        db_path: None,
        media_kind: None,
        query: None,
        release_year: None,
        limit: 10,
        output_format: PlanOutputFormat::Text,
    }
}

pub open spec fn inspect_match_finish(o: InspectMatchView) -> Result<
    InspectMatchView,
    Seq<char>,
> {
    if !o.dry_run {
        Err("missing --dry-run"@)
    } else if o.db_path is None {
        Err("missing --db"@)
    } else if o.media_kind is None {
        Err("missing --kind"@)
    } else if opt_blank(o.query) {
        Err("missing --query"@)
    } else {
        Ok(o)
    }
}

/// What `inspect-match` makes of its arguments.
pub open spec fn inspect_match_spec(args: Seq<Seq<char>>) -> Result<InspectMatchView, Seq<char>> {
    match fold_flags(args, 0, inspect_match_default()) {
        Ok(o) => inspect_match_finish(o),
        Err(e) => Err(e),
    }
}

impl Default for InspectMatchOptions {
    fn default() -> (r: Self)
        ensures
            r@ == inspect_match_default(),
    {
        InspectMatchOptions {
            dry_run: false,
            db_path: None,
            media_kind: None,
            query: None,
            release_year: None,
            limit: 10,
            output_format: PlanOutputFormat::Text,
        }
    }
}

/// Parses the arguments of `inspect-match`.
pub fn parse_inspect_match_options(args: &[String]) -> (r: Result<InspectMatchOptions, String>)
    ensures
        match r {
            Ok(o) => inspect_match_spec(arg_views(args@)) == Ok::<InspectMatchView, Seq<char>>(
                o@,
            ),
            Err(e) => inspect_match_spec(arg_views(args@)) == Err::<
                InspectMatchView,
                Seq<char>,
            >(e@),
        },
        r matches Ok(o) ==> o.dry_run && o.db_path is Some && o.media_kind is Some
            && o.query is Some && o.limit > 0,
{
    let ghost a = arg_views(args@);
    let mut options = InspectMatchOptions::default();
    let mut index: usize = 0;
    while index < args.len()
        invariant
            a == arg_views(args@),
            index <= args.len(),
            fold_flags(a, 0, inspect_match_default()) == fold_flags(a, index as int, options@),
            options.limit > 0,
        decreases args.len() - index,
    {
        let flag = args[index].as_str();
        if str_eq(flag, "--dry-run") {
            options.dry_run = true;
            index = index + 1;
            continue;
        }
        if is_write_or_network(flag) {
            return Err(concat("writes and network calls are disabled for inspect-match: ", flag));
        }
        if index + 1 >= args.len() {
            return Err(concat("missing value for ", flag));
        }
        let value = args[index + 1].as_str();
        if str_eq(flag, "--db") {
            options.db_path = Some(owned(value));
        } else if str_eq(flag, "--kind") {
            options.media_kind = Some(parse_media_kind(value)?);
        } else if str_eq(flag, "--query") || str_eq(flag, "--title") {
            options.query = Some(owned(value));
        } else if str_eq(flag, "--release-year") || str_eq(flag, "--year") {
            options.release_year = Some(parse_release_year(value)?);
        } else if str_eq(flag, "--format") {
            options.output_format = parse_plan_output_format(value)?;
        } else if str_eq(flag, "--limit") {
            match parse_u32(value) {
                Some(n) => {
                    if n == 0 {
                        return Err(owned("invalid --limit: must be greater than 0"));
                    }
                    options.limit = n;
                },
                None => {
                    return Err(concat("invalid --limit: ", value));
                },
            }
        } else {
            return Err(concat("unexpected argument for inspect-match: ", flag));
        }
        index = index + 2;
    }
    if !options.dry_run {
        return Err(owned("missing --dry-run"));
    }
    if options.db_path.is_none() {
        return Err(owned("missing --db"));
    }
    if options.media_kind.is_none() {
        return Err(owned("missing --kind"));
    }
    if option_is_blank(&options.query) {
        return Err(owned("missing --query"));
    }
    Ok(options)
}

// ---------------------------------------------------------------------------
// auto-link
// ---------------------------------------------------------------------------

/// Options of `auto-link`.
pub struct AutoLinkOptions {
    pub dry_run: bool,
    pub apply_local: bool,
    pub db_path: Option<String>,
    pub provider: Option<Provider>,
    pub media_kind: Option<MediaKind>,
    pub external_id: Option<String>,
    pub output_format: PlanOutputFormat,
}

pub struct AutoLinkView {
    pub dry_run: bool,
    pub apply_local: bool,
    pub db_path: Option<Seq<char>>,
    pub provider: Option<Provider>,
    pub media_kind: Option<MediaKind>,
    pub external_id: Option<Seq<char>>,
    pub output_format: PlanOutputFormat,
}

impl View for AutoLinkOptions {
    type V = AutoLinkView;

    open spec fn view(&self) -> AutoLinkView {
        AutoLinkView {
            dry_run: self.dry_run,
            apply_local: self.apply_local,
            db_path: opt_chars(self.db_path),
            provider: self.provider,
            media_kind: self.media_kind,
            external_id: opt_chars(self.external_id),
            output_format: self.output_format,
        }
    }
}

impl FlagGrammar for AutoLinkView {
    open spec fn on_flag(self, flag: Seq<char>) -> FlagAction<Self> {
        if flag == "--dry-run"@ {
            FlagAction::Switch(AutoLinkView { dry_run: true, ..self })
        } else if flag == "--apply-local"@ {
            FlagAction::Switch(AutoLinkView { apply_local: true, ..self })
        } else if writes_or_network(flag) {
            FlagAction::Refuse(
                "provider writes and network calls are disabled for auto-link: "@ + flag,
            )
        } else {
            FlagAction::Value
        }
    }

    open spec fn missing_value(flag: Seq<char>) -> Seq<char> {
        missing_value_for(flag)
    }

    open spec fn on_value(self, flag: Seq<char>, value: Seq<char>) -> Result<Self, Seq<char>> {
        if flag == "--db"@ {
            Ok(AutoLinkView { db_path: Some(value), ..self })
        } else if flag == "--provider"@ {
            match parse_provider_spec(value) {
                Ok(p) => Ok(AutoLinkView { provider: Some(p), ..self }),
                Err(e) => Err(e),
            }
        } else if flag == "--kind"@ {
            match parse_media_kind_spec(value) {
                Ok(k) => Ok(AutoLinkView { media_kind: Some(k), ..self }),
                Err(e) => Err(e),
            }
        } else if flag == "--id"@ || flag == "--external-id"@ || flag == "--provider-id"@ {
            Ok(AutoLinkView { external_id: Some(value), ..self })
        } else if flag == "--format"@ {
            match parse_plan_output_format_spec(value) {
                Ok(f) => Ok(AutoLinkView { output_format: f, ..self }),
                Err(e) => Err(e),
            }
        } else {
            Err("unexpected argument for auto-link: "@ + flag)
        }
    }
}

pub open spec fn auto_link_default() -> AutoLinkView {
    AutoLinkView {
        dry_run: false,
        apply_local: false,
        db_path: None,
        provider: None,
        media_kind: None,
        external_id: None,
        output_format: PlanOutputFormat::Text,
    }
}

pub open spec fn auto_link_finish(o: AutoLinkView) -> Result<AutoLinkView, Seq<char>> {
    if o.dry_run && o.apply_local {
        Err("choose only one of --dry-run or --apply-local"@)
    } else if !o.dry_run && !o.apply_local {
        Err("missing --dry-run or --apply-local"@)
    } else if o.db_path is None {
        Err("missing --db"@)
    } else if o.provider is None {
        Err("missing --provider"@)
    } else if o.media_kind is None {
        Err("missing --kind"@)
    } else if opt_blank(o.external_id) {
        Err("missing --id"@)
    } else {
        Ok(o)
    }
}

/// What `auto-link` makes of its arguments.
pub open spec fn auto_link_spec(args: Seq<Seq<char>>) -> Result<AutoLinkView, Seq<char>> {
    match fold_flags(args, 0, auto_link_default()) {
        Ok(o) => auto_link_finish(o),
        Err(e) => Err(e),
    }
}

/// Parses the arguments of `auto-link`.
pub fn parse_auto_link_options(args: &[String]) -> (r: Result<AutoLinkOptions, String>)
    ensures
        match r {
            Ok(o) => auto_link_spec(arg_views(args@)) == Ok::<AutoLinkView, Seq<char>>(o@),
            Err(e) => auto_link_spec(arg_views(args@)) == Err::<AutoLinkView, Seq<char>>(e@),
        },
        r matches Ok(o) ==> o.dry_run != o.apply_local && o.db_path is Some && o.provider is Some
            && o.media_kind is Some && o.external_id is Some,
{
    let ghost a = arg_views(args@);
    let mut options = AutoLinkOptions {
        dry_run: false,
        apply_local: false,
        db_path: None,
        provider: None,
        media_kind: None,
        external_id: None,
        output_format: PlanOutputFormat::Text,
    };
    let mut index: usize = 0;
    while index < args.len()
        invariant
            a == arg_views(args@),
            index <= args.len(),
            fold_flags(a, 0, auto_link_default()) == fold_flags(a, index as int, options@),
        decreases args.len() - index,
    {
        let flag = args[index].as_str();
        if str_eq(flag, "--dry-run") {
            options.dry_run = true;
            index = index + 1;
            continue;
        }
        if str_eq(flag, "--apply-local") {
            options.apply_local = true;
            index = index + 1;
            continue;
        }
        if is_write_or_network(flag) {
            return Err(
                concat("provider writes and network calls are disabled for auto-link: ", flag),
            );
        }
        if index + 1 >= args.len() {
            return Err(concat("missing value for ", flag));
        }
        let value = args[index + 1].as_str();
        if str_eq(flag, "--db") {
            options.db_path = Some(owned(value));
        } else if str_eq(flag, "--provider") {
            options.provider = Some(parse_provider(value)?);
        } else if str_eq(flag, "--kind") {
            options.media_kind = Some(parse_media_kind(value)?);
        } else if str_eq(flag, "--id") || str_eq(flag, "--external-id") || str_eq(
            flag,
            "--provider-id",
        ) {
            options.external_id = Some(owned(value));
        } else if str_eq(flag, "--format") {
            options.output_format = parse_plan_output_format(value)?;
        } else {
            return Err(concat("unexpected argument for auto-link: ", flag));
        }
        index = index + 2;
    }
    if options.dry_run && options.apply_local {
        return Err(owned("choose only one of --dry-run or --apply-local"));
    }
    if !options.dry_run && !options.apply_local {
        return Err(owned("missing --dry-run or --apply-local"));
    }
    if options.db_path.is_none() {
        return Err(owned("missing --db"));
    }
    if options.provider.is_none() {
        return Err(owned("missing --provider"));
    }
    if options.media_kind.is_none() {
        return Err(owned("missing --kind"));
    }
    if option_is_blank(&options.external_id) {
        return Err(owned("missing --id"));
    }
    Ok(options)
}

} // verus!
