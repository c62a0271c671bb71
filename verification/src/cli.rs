//! The top of the command line: the usage text, the outcome of a command,
//! and the choice of command from the first arguments.

use vstd::prelude::*;
use vstd::slice::slice_subrange;
use crate::flags::arg_views;
use crate::json::{Json, JsonValue};
use crate::model::PlanOutputFormat;
use crate::text::{concat, str_eq};

verus! {

/// The usage text, printed for `--help` and after every argument error.
pub const USAGE: &'static str = "sync-v2

Usage:
  sync-v2 --help
  sync-v2 auth status --db <path> --provider <provider> --account <id> [(--test-credential-bundle <path>|--credential-bundle <path> --credential-bundle-passphrase-env <env>)] [--now <unix-seconds>] [--format text|json]
  sync-v2 auth begin --provider <provider> --client-id <id> --redirect-uri <uri> --session-file <path> [--show-sensitive-authorization-url] [--now <unix-seconds>] [--format text|json]
  sync-v2 auth callback-plan --session-file <path> --callback-url <url-or-query> [--now <unix-seconds>] [--format text|json]
  sync-v2 auth complete --test-token-transport --session-file <path> --callback-url <url-or-query> --db <path> --account <id> (--test-credential-bundle <path>|--credential-bundle <path> --credential-bundle-passphrase-env <env>) --token-response <path> [--client-secret <secret> --now <unix-seconds>] [--format text|json]
  sync-v2 auth authorize-url --provider <provider> --client-id <id> --redirect-uri <uri> --state <state> [--pkce-code-challenge <value>] [--show-sensitive-authorization-url] [--format text|json]
  sync-v2 auth exchange-code --test-token-transport --db <path> --provider <provider> --account <id> --client-id <id> --redirect-uri <uri> --authorization-code <code> --test-credential-bundle <path> --token-response <path> [--client-secret <secret> --pkce-code-verifier <value> --now <unix-seconds>] [--format text|json]
  sync-v2 auth refresh --test-token-transport --db <path> --provider <provider> --account <id> --client-id <id> (--test-credential-bundle <path>|--credential-bundle <path> --credential-bundle-passphrase-env <env>) [--token-response <path>] [--client-secret <secret> --now <unix-seconds>] [--format text|json]
  sync-v2 import-fixtures --provider <provider> --kind <anime|manga> --fixture <path> --db <path> --account <id>
  sync-v2 import-legacy-config --db <path> --kind <anime|manga> [--manual-relations <path>] [--ignore-entries <path>]
  sync-v2 import-dataset --db <path> --dataset <anime-offline|bangumi-data> --file <path> [--kind <anime|manga>]
  sync-v2 plan --dry-run --db <path> --account <id> --kind <anime|manga|all> --providers <list> [--refresh-snapshots ((--fixture-response <provider>:<kind>:<path>|bangumi:anime:episodes:<subject-id>:<path>...)|--live-read) [--auto-link-local] [(--test-credential-bundle <path>|--credential-bundle <path> --credential-bundle-passphrase-env <env>)] --test-token-transport --token-response <provider>:<path>... --refresh-client-id <provider>:<id>... --refresh-client-secret <provider>:<secret>... --limit <n> --now <unix-seconds>] [--format text|json]
  sync-v2 apply --test-write-transport [--verify-post-write --fixture-response <provider>:<kind>:<path>... --limit <n>] [--auto-link-local] --db <path> --account <id> --kind <anime|manga|all> --providers <list> [(--test-credential-bundle <path>|--credential-bundle <path> --credential-bundle-passphrase-env <env>)] [--now <unix-seconds>] [--format text|json]
  sync-v2 sync --test-write-transport [--verify-post-write] [--auto-link-local] --db <path> --account <id> --kind <anime|manga|all> --providers <list> --fixture-response <provider>:<kind>:<path>|bangumi:anime:episodes:<subject-id>:<path>... [(--test-credential-bundle <path>|--credential-bundle <path> --credential-bundle-passphrase-env <env>)] [--test-token-transport --token-response <provider>:<path>... --refresh-client-id <provider>:<id>... --refresh-client-secret <provider>:<secret>... --limit <n> --now <unix-seconds>] [--format text|json]
  sync-v2 inspect-match --dry-run --db <path> --kind <anime|manga> --query <title> [--release-year <yyyy>] [--limit <n>] [--format text|json]
  sync-v2 auto-link (--dry-run|--apply-local) --db <path> --provider <provider> --kind <anime|manga> --id <provider-id> [--format text|json]

Commands:
  auth status      Inspect local credential metadata and report required auth action.
  auth begin       Create a local OAuth authorization session file without browser or network actions.
  auth callback-plan
                  Validate a pasted OAuth callback against a local auth session without token exchange.
  auth complete    Validate a local auth session callback, then install credentials through an injected test token transport.
  auth authorize-url
                  Build local-only OAuth authorization metadata without browser or network actions.
  auth exchange-code
                  Install local credential metadata through an injected test token transport.
  auth refresh     Refresh local credential metadata through an injected test token transport.
  import-fixtures  Import local fixture snapshots into the v2 model.
  import-legacy-config
                  Import legacy manual/ignore config files into the local identity graph.
  import-dataset   Import local catalog/crosswalk datasets into the SQLite match cache.
  plan             Build a dry-run sync plan. Optionally refresh local snapshots from fixture responses first.
  apply            Apply a local plan through stored credentials and a test write transport only.
  sync             Refresh snapshots with fixture read transport plus test write transport apply.
  inspect-match    Explain identity candidates for a fixture entry.
  auto-link        Resolve one local provider item into local identity edges.

Safety:
  Live provider writes, deletes, notes, tags, and network auth are disabled.
  auth begin writes a local temporary auth session file; it does not open a browser, exchange tokens, read a DB, or write credential bundles. It suppresses the sensitive authorization URL unless --show-sensitive-authorization-url is passed.
  auth callback-plan validates only local callback/session data; it does not exchange tokens, read a DB, or write credentials.
  auth complete --test-token-transport exchanges only against local fixture token responses after local session/callback validation; encrypted credential bundles require a passphrase from an environment variable.
  auth authorize-url builds local authorization metadata only; it does not open a browser, exchange tokens, or write a DB. It suppresses the sensitive authorization URL unless --show-sensitive-authorization-url is passed.
  auth exchange-code --test-token-transport exchanges only against local fixture token responses and installs only local credential metadata plus the test credential bundle.
  auth refresh --test-token-transport uses local fixture token responses when refresh is required and may update only local credential metadata plus the selected local credential bundle.
  auth status verifies only local credential bundle readability when a bundle is provided; it does not refresh tokens, start a browser, or send network requests.
  plan --refresh-snapshots uses local credential metadata plus fixture responses and may update only the local SQLite snapshot cache; --auto-link-local may update only the local SQLite identity graph and collection work links before planning; --test-token-transport may refresh local bundle credentials from fixture token responses first.
  apply --test-write-transport records provider-shaped write attempts only in the local SQLite journal; --auto-link-local may update only the local SQLite identity graph and collection work links before planning/apply; --verify-post-write consumes fixture reads for read-back verification.
  sync --test-write-transport refreshes local SQLite snapshots from fixtures, then records provider-shaped write attempts only in the local SQLite journal; --auto-link-local may update only the local SQLite identity graph and collection work links before planning/apply; --test-token-transport may refresh local bundle credentials from fixture token responses first; --verify-post-write consumes additional fixture reads for read-back verification.
  --test-credential-bundle is a local test-only credential source, not production encryption.
  auto-link --apply-local writes only the local SQLite identity graph.
";

/// What a command prints and the exit status it ends with.
/// A JSON report, when there is one, follows the text on standard output.
#[derive(Debug)]
pub struct CommandOutput {
    pub exit_code: i32,
    pub stdout: String,
    pub stdout_json: Option<JsonValue>,
    pub stderr: String,
}

pub struct CommandOutputView {
    pub exit_code: i32,
    pub stdout: Seq<char>,
    pub stdout_json: Option<Json>,
    pub stderr: Seq<char>,
}

impl View for CommandOutput {
    type V = CommandOutputView;

    open spec fn view(&self) -> CommandOutputView {
        CommandOutputView {
            exit_code: self.exit_code,
            stdout: self.stdout@,
            stdout_json: match self.stdout_json {
                Some(j) => Some(j@),
                None => None,
            },
            stderr: self.stderr@,
        }
    }
}

/// A command that succeeds with a text report.
pub open spec fn text_output(stdout: Seq<char>) -> CommandOutputView {
    CommandOutputView { exit_code: 0, stdout, stdout_json: None, stderr: Seq::empty() }
}

/// A command that succeeds with a JSON report.
pub open spec fn json_output(report: Json) -> CommandOutputView {
    CommandOutputView {
        exit_code: 0,
        stdout: Seq::empty(),
        stdout_json: Some(report),
        stderr: Seq::empty(),
    }
}

/// The report in the format asked for.
pub open spec fn report_output(format: PlanOutputFormat, text: Seq<char>, json: Json) -> CommandOutputView {
    match format {
        PlanOutputFormat::Text => text_output(text),
        PlanOutputFormat::Json => json_output(json),
    }
}

/// The same output with another exit status.
pub open spec fn with_exit(o: CommandOutputView, exit_code: i32) -> CommandOutputView {
    CommandOutputView { exit_code, ..o }
}

/// A command that ends with a message on standard error.
pub open spec fn failure_spec(exit_code: i32, message: Seq<char>) -> CommandOutputView {
    CommandOutputView {
        exit_code,
        stdout: Seq::empty(),
        stdout_json: None,
        stderr: message + "\n"@,
    }
}

/// A command that ends with a message on standard error.
pub fn failure(exit_code: i32, message: &str) -> (r: CommandOutput)
    ensures
        r@ == failure_spec(exit_code, message@),
{
    CommandOutput {
        exit_code,
        stdout: String::new(),
        stdout_json: None,
        stderr: concat(message, "\n"),
    }
}

/// A command that succeeds with a text report.
pub fn text_report(stdout: String) -> (r: CommandOutput)
    ensures
        r@ == (CommandOutputView {
            exit_code: 0,
            stdout: stdout@,
            stdout_json: None,
            stderr: Seq::empty(),
        }),
{
    CommandOutput { exit_code: 0, stdout, stdout_json: None, stderr: String::new() }
}

/// A command that succeeds with a JSON report.
pub fn json_report(report: JsonValue) -> (r: CommandOutput)
    ensures
        r@ == (CommandOutputView {
            exit_code: 0,
            stdout: Seq::empty(),
            stdout_json: Some(report@),
            stderr: Seq::empty(),
        }),
{
    CommandOutput { exit_code: 0, stdout: String::new(), stdout_json: Some(report), stderr: String::new() }
}

/// A command of the tool, run on the arguments after its name.
#[derive(Clone, Copy, Debug, PartialEq, Eq, Structural)]
pub enum CliCommand {
    AuthStatus,
    AuthBegin,
    AuthCallbackPlan,
    AuthComplete,
    AuthAuthorizeUrl,
    AuthExchangeCode,
    AuthRefresh,
    ImportFixtures,
    ImportLegacyConfig,
    ImportDataset,
    Plan,
    Apply,
    Sync,
    InspectMatch,
    AutoLink,
}

/// What the first arguments decide: either the tool is done with this
/// output, or it runs a command on the arguments from `args_from` on.
#[derive(Debug)]
pub enum RunStep {
    Output(CommandOutput),
    Command { command: CliCommand, args_from: usize },
}

pub enum RunStepView {
    Output(CommandOutputView),
    Command { command: CliCommand, args_from: int },
}

impl View for RunStep {
    type V = RunStepView;

    open spec fn view(&self) -> RunStepView {
        match self {
            RunStep::Output(o) => RunStepView::Output(o@),
            RunStep::Command { command, args_from } => RunStepView::Command {
                command: *command,
                args_from: *args_from as int,
            },
        }
    }
}

/// The output for a refused argument: the message, a newline and the usage
/// text on standard error, exit status 2.
pub open spec fn usage_error_spec(message: Seq<char>) -> CommandOutputView {
    CommandOutputView {
        exit_code: 2,
        stdout: Seq::empty(),
        stdout_json: None,
        stderr: message + "\n"@ + USAGE@,
    }
}

/// The output for a refused argument.
pub fn usage_error(message: &str) -> (r: CommandOutput)
    ensures
        r@ == usage_error_spec(message@),
{
    let mut stderr = concat(message, "\n");
    stderr.append(USAGE);
    CommandOutput { exit_code: 2, stdout: String::new(), stdout_json: None, stderr }
}

/// The command an `auth` subcommand name selects.
pub open spec fn auth_subcommand(name: Seq<char>) -> Option<CliCommand> {
    if name == "status"@ {
        Some(CliCommand::AuthStatus)
    } else if name == "begin"@ {
        Some(CliCommand::AuthBegin)
    } else if name == "callback-plan"@ {
        Some(CliCommand::AuthCallbackPlan)
    } else if name == "complete"@ {
        Some(CliCommand::AuthComplete)
    } else if name == "authorize-url"@ {
        Some(CliCommand::AuthAuthorizeUrl)
    } else if name == "exchange-code"@ {
        Some(CliCommand::AuthExchangeCode)
    } else if name == "refresh"@ {
        Some(CliCommand::AuthRefresh)
    } else {
        None
    }
}

/// What `auth` does with its arguments: the first names the subcommand,
/// which runs on the rest.
pub open spec fn run_auth_spec(args: Seq<Seq<char>>) -> RunStepView {
    if args.len() == 0 {
        RunStepView::Output(usage_error_spec("missing auth subcommand"@))
    } else {
        match auth_subcommand(args[0]) {
            Some(c) => RunStepView::Command { command: c, args_from: 1 },
            None => RunStepView::Output(usage_error_spec("unknown auth subcommand: "@ + args[0])),
        }
    }
}

/// Chooses the `auth` subcommand.
pub fn run_auth(args: &[String]) -> (r: RunStep)
    ensures
        r@ == run_auth_spec(arg_views(args@)),
{
    if args.len() == 0 {
        return RunStep::Output(usage_error("missing auth subcommand"));
    }
    let name = args[0].as_str();
    let command = if str_eq(name, "status") {
        CliCommand::AuthStatus
    } else if str_eq(name, "begin") {
        CliCommand::AuthBegin
    } else if str_eq(name, "callback-plan") {
        CliCommand::AuthCallbackPlan
    } else if str_eq(name, "complete") {
        CliCommand::AuthComplete
    } else if str_eq(name, "authorize-url") {
        CliCommand::AuthAuthorizeUrl
    } else if str_eq(name, "exchange-code") {
        CliCommand::AuthExchangeCode
    } else if str_eq(name, "refresh") {
        CliCommand::AuthRefresh
    } else {
        let message = concat("unknown auth subcommand: ", name);
        return RunStep::Output(usage_error(message.as_str()));
    };
    RunStep::Command { command, args_from: 1 }
}

/// The command a top-level name selects.
pub open spec fn top_command(name: Seq<char>) -> Option<CliCommand> {
    if name == "import-fixtures"@ {
        Some(CliCommand::ImportFixtures)
    } else if name == "import-legacy-config"@ {
        Some(CliCommand::ImportLegacyConfig)
    } else if name == "import-dataset"@ {
        Some(CliCommand::ImportDataset)
    } else if name == "plan"@ {
        Some(CliCommand::Plan)
    } else if name == "apply"@ {
        Some(CliCommand::Apply)
    } else if name == "sync"@ {
        Some(CliCommand::Sync)
    } else if name == "inspect-match"@ {
        Some(CliCommand::InspectMatch)
    } else if name == "auto-link"@ {
        Some(CliCommand::AutoLink)
    } else {
        None
    }
}

/// What the tool does with its arguments; the first is the program name,
/// the second names the command, which runs on the rest. No command is
/// `--help`.
pub open spec fn run_spec(args: Seq<Seq<char>>) -> RunStepView {
    let name = if args.len() > 1 {
        args[1]
    } else {
        "--help"@
    };
    if name == "--help"@ || name == "-h"@ {
        RunStepView::Output(
            CommandOutputView {
                exit_code: 0,
                stdout: USAGE@,
                stdout_json: None,
                stderr: Seq::empty(),
            },
        )
    } else if name == "auth"@ {
        match run_auth_spec(args.subrange(2, args.len() as int)) {
            RunStepView::Command { command, args_from } => RunStepView::Command {
                command,
                args_from: args_from + 2,
            },
            RunStepView::Output(o) => RunStepView::Output(o),
        }
    } else {
        match top_command(name) {
            Some(c) => RunStepView::Command { command: c, args_from: 2 },
            None => RunStepView::Output(
                CommandOutputView {
                    exit_code: 2,
                    stdout: Seq::empty(),
                    stdout_json: None,
                    stderr: "unknown command: "@ + name + "\n"@ + USAGE@,
                },
            ),
        }
    }
}

/// Chooses what the tool does with its arguments.
pub fn run(args: &[String]) -> (r: RunStep)
    ensures
        r@ == run_spec(arg_views(args@)),
        r matches RunStep::Command { args_from, .. } ==> args_from <= args.len(),
{
    if args.len() <= 1 || str_eq(args[1].as_str(), "--help") || str_eq(args[1].as_str(), "-h") {
        return RunStep::Output(
            CommandOutput {
                exit_code: 0,
                stdout: String::from_str(USAGE),
                stdout_json: None,
                stderr: String::new(),
            },
        );
    }
    let name = args[1].as_str();
    if str_eq(name, "auth") {
        let rest = slice_subrange(args, 2, args.len());
        assert(arg_views(rest@) =~= arg_views(args@).subrange(2, args@.len() as int));
        return match run_auth(rest) {
            RunStep::Command { command, args_from } => RunStep::Command {
                command,
                args_from: args_from + 2,
            },
            RunStep::Output(o) => RunStep::Output(o),
        };
    }
    let command = if str_eq(name, "import-fixtures") {
        CliCommand::ImportFixtures
    } else if str_eq(name, "import-legacy-config") {
        CliCommand::ImportLegacyConfig
    } else if str_eq(name, "import-dataset") {
        CliCommand::ImportDataset
    } else if str_eq(name, "plan") {
        CliCommand::Plan
    } else if str_eq(name, "apply") {
        CliCommand::Apply
    } else if str_eq(name, "sync") {
        CliCommand::Sync
    } else if str_eq(name, "inspect-match") {
        CliCommand::InspectMatch
    } else if str_eq(name, "auto-link") {
        CliCommand::AutoLink
    } else {
        let mut stderr = concat("unknown command: ", name);
        stderr.append("\n");
        stderr.append(USAGE);
        return RunStep::Output(CommandOutput { exit_code: 2, stdout: String::new(), stdout_json: None, stderr });
    };
    RunStep::Command { command, args_from: 2 }
}

} // verus!
