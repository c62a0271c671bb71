//! What the commands refuse: provider writes, token exchange, browser
//! sessions and secrets given on the command line.

use vstd::prelude::*;
use crate::flags::{fold_flags, network_auth, FlagAction, FlagGrammar};
use crate::sync_options::{
    apply_default, apply_spec, plan_default, plan_spec, sync_default, sync_spec, ApplyView,
    PlanView, SyncView,
};

verus! {

proof fn lemma_refused_flag_is_not_dry_run(f: Seq<char>)
    requires
        network_auth(f),
    ensures
        f != "--dry-run"@,
{
    reveal_strlit("--dry-run");
    reveal_strlit("--apply");
    reveal_strlit("--write");
    reveal_strlit("--delete");
    reveal_strlit("--refresh");
    reveal_strlit("--reauthorize");
    reveal_strlit("--open-browser");
    reveal_strlit("--exchange-token");
    reveal_strlit("--authorization-code");
    reveal_strlit("--access-token");
    reveal_strlit("--refresh-token");
    reveal_strlit("--cookie");
    reveal_strlit("--session");
    reveal_strlit("--browser-profile");
    reveal_strlit("--remote-debugging-port");
    reveal_strlit("--csrf-token");
    assert("--apply"@ != "--dry-run"@) by {
        assert("--apply"@.len() != "--dry-run"@.len());
    }
    assert("--write"@ != "--dry-run"@) by {
        assert("--write"@.len() != "--dry-run"@.len());
    }
    assert("--delete"@ != "--dry-run"@) by {
        assert("--delete"@.len() != "--dry-run"@.len());
    }
    assert("--refresh"@ != "--dry-run"@) by {
        assert("--refresh"@[2] != "--dry-run"@[2]);
    }
    assert("--reauthorize"@ != "--dry-run"@) by {
        assert("--reauthorize"@.len() != "--dry-run"@.len());
    }
    assert("--open-browser"@ != "--dry-run"@) by {
        assert("--open-browser"@.len() != "--dry-run"@.len());
    }
    assert("--exchange-token"@ != "--dry-run"@) by {
        assert("--exchange-token"@.len() != "--dry-run"@.len());
    }
    assert("--authorization-code"@ != "--dry-run"@) by {
        assert("--authorization-code"@.len() != "--dry-run"@.len());
    }
    assert("--access-token"@ != "--dry-run"@) by {
        assert("--access-token"@.len() != "--dry-run"@.len());
    }
    assert("--refresh-token"@ != "--dry-run"@) by {
        assert("--refresh-token"@.len() != "--dry-run"@.len());
    }
    assert("--cookie"@ != "--dry-run"@) by {
        assert("--cookie"@.len() != "--dry-run"@.len());
    }
    assert("--session"@ != "--dry-run"@) by {
        assert("--session"@[2] != "--dry-run"@[2]);
    }
    assert("--browser-profile"@ != "--dry-run"@) by {
        assert("--browser-profile"@.len() != "--dry-run"@.len());
    }
    assert("--remote-debugging-port"@ != "--dry-run"@) by {
        assert("--remote-debugging-port"@.len() != "--dry-run"@.len());
    }
    assert("--csrf-token"@ != "--dry-run"@) by {
        assert("--csrf-token"@.len() != "--dry-run"@.len());
    }
}

proof fn lemma_refused_flag_is_not_refresh_snapshots(f: Seq<char>)
    requires
        network_auth(f),
    ensures
        f != "--refresh-snapshots"@,
{
    reveal_strlit("--refresh-snapshots");
    reveal_strlit("--apply");
    reveal_strlit("--write");
    reveal_strlit("--delete");
    reveal_strlit("--refresh");
    reveal_strlit("--reauthorize");
    reveal_strlit("--open-browser");
    reveal_strlit("--exchange-token");
    reveal_strlit("--authorization-code");
    reveal_strlit("--access-token");
    reveal_strlit("--refresh-token");
    reveal_strlit("--cookie");
    reveal_strlit("--session");
    reveal_strlit("--browser-profile");
    reveal_strlit("--remote-debugging-port");
    reveal_strlit("--csrf-token");
    assert("--apply"@ != "--refresh-snapshots"@) by {
        assert("--apply"@.len() != "--refresh-snapshots"@.len());
    }
    assert("--write"@ != "--refresh-snapshots"@) by {
        assert("--write"@.len() != "--refresh-snapshots"@.len());
    }
    assert("--delete"@ != "--refresh-snapshots"@) by {
        assert("--delete"@.len() != "--refresh-snapshots"@.len());
    }
    assert("--refresh"@ != "--refresh-snapshots"@) by {
        assert("--refresh"@.len() != "--refresh-snapshots"@.len());
    }
    assert("--reauthorize"@ != "--refresh-snapshots"@) by {
        assert("--reauthorize"@.len() != "--refresh-snapshots"@.len());
    }
    assert("--open-browser"@ != "--refresh-snapshots"@) by {
        assert("--open-browser"@.len() != "--refresh-snapshots"@.len());
    }
    assert("--exchange-token"@ != "--refresh-snapshots"@) by {
        assert("--exchange-token"@.len() != "--refresh-snapshots"@.len());
    }
    assert("--authorization-code"@ != "--refresh-snapshots"@) by {
        assert("--authorization-code"@.len() != "--refresh-snapshots"@.len());
    }
    assert("--access-token"@ != "--refresh-snapshots"@) by {
        assert("--access-token"@.len() != "--refresh-snapshots"@.len());
    }
    assert("--refresh-token"@ != "--refresh-snapshots"@) by {
        assert("--refresh-token"@.len() != "--refresh-snapshots"@.len());
    }
    assert("--cookie"@ != "--refresh-snapshots"@) by {
        assert("--cookie"@.len() != "--refresh-snapshots"@.len());
    }
    assert("--session"@ != "--refresh-snapshots"@) by {
        assert("--session"@.len() != "--refresh-snapshots"@.len());
    }
    assert("--browser-profile"@ != "--refresh-snapshots"@) by {
        assert("--browser-profile"@.len() != "--refresh-snapshots"@.len());
    }
    assert("--remote-debugging-port"@ != "--refresh-snapshots"@) by {
        assert("--remote-debugging-port"@.len() != "--refresh-snapshots"@.len());
    }
    assert("--csrf-token"@ != "--refresh-snapshots"@) by {
        assert("--csrf-token"@.len() != "--refresh-snapshots"@.len());
    }
}

proof fn lemma_refused_flag_is_not_live_read(f: Seq<char>)
    requires
        network_auth(f),
    ensures
        f != "--live-read"@,
{
    reveal_strlit("--live-read");
    reveal_strlit("--apply");
    reveal_strlit("--write");
    reveal_strlit("--delete");
    reveal_strlit("--refresh");
    reveal_strlit("--reauthorize");
    reveal_strlit("--open-browser");
    reveal_strlit("--exchange-token");
    reveal_strlit("--authorization-code");
    reveal_strlit("--access-token");
    reveal_strlit("--refresh-token");
    reveal_strlit("--cookie");
    reveal_strlit("--session");
    reveal_strlit("--browser-profile");
    reveal_strlit("--remote-debugging-port");
    reveal_strlit("--csrf-token");
    assert("--apply"@ != "--live-read"@) by {
        assert("--apply"@.len() != "--live-read"@.len());
    }
    assert("--write"@ != "--live-read"@) by {
        assert("--write"@.len() != "--live-read"@.len());
    }
    assert("--delete"@ != "--live-read"@) by {
        assert("--delete"@.len() != "--live-read"@.len());
    }
    assert("--refresh"@ != "--live-read"@) by {
        assert("--refresh"@.len() != "--live-read"@.len());
    }
    assert("--reauthorize"@ != "--live-read"@) by {
        assert("--reauthorize"@.len() != "--live-read"@.len());
    }
    assert("--open-browser"@ != "--live-read"@) by {
        assert("--open-browser"@.len() != "--live-read"@.len());
    }
    assert("--exchange-token"@ != "--live-read"@) by {
        assert("--exchange-token"@.len() != "--live-read"@.len());
    }
    assert("--authorization-code"@ != "--live-read"@) by {
        assert("--authorization-code"@.len() != "--live-read"@.len());
    }
    assert("--access-token"@ != "--live-read"@) by {
        assert("--access-token"@.len() != "--live-read"@.len());
    }
    assert("--refresh-token"@ != "--live-read"@) by {
        assert("--refresh-token"@.len() != "--live-read"@.len());
    }
    assert("--cookie"@ != "--live-read"@) by {
        assert("--cookie"@.len() != "--live-read"@.len());
    }
    assert("--session"@ != "--live-read"@) by {
        assert("--session"@.len() != "--live-read"@.len());
    }
    assert("--browser-profile"@ != "--live-read"@) by {
        assert("--browser-profile"@.len() != "--live-read"@.len());
    }
    assert("--remote-debugging-port"@ != "--live-read"@) by {
        assert("--remote-debugging-port"@.len() != "--live-read"@.len());
    }
    assert("--csrf-token"@ != "--live-read"@) by {
        assert("--csrf-token"@.len() != "--live-read"@.len());
    }
}

proof fn lemma_refused_flag_is_not_auto_link_local(f: Seq<char>)
    requires
        network_auth(f),
    ensures
        f != "--auto-link-local"@,
{
    reveal_strlit("--auto-link-local");
    reveal_strlit("--apply");
    reveal_strlit("--write");
    reveal_strlit("--delete");
    reveal_strlit("--refresh");
    reveal_strlit("--reauthorize");
    reveal_strlit("--open-browser");
    reveal_strlit("--exchange-token");
    reveal_strlit("--authorization-code");
    reveal_strlit("--access-token");
    reveal_strlit("--refresh-token");
    reveal_strlit("--cookie");
    reveal_strlit("--session");
    reveal_strlit("--browser-profile");
    reveal_strlit("--remote-debugging-port");
    reveal_strlit("--csrf-token");
    assert("--apply"@ != "--auto-link-local"@) by {
        assert("--apply"@.len() != "--auto-link-local"@.len());
    }
    assert("--write"@ != "--auto-link-local"@) by {
        assert("--write"@.len() != "--auto-link-local"@.len());
    }
    assert("--delete"@ != "--auto-link-local"@) by {
        assert("--delete"@.len() != "--auto-link-local"@.len());
    }
    assert("--refresh"@ != "--auto-link-local"@) by {
        assert("--refresh"@.len() != "--auto-link-local"@.len());
    }
    assert("--reauthorize"@ != "--auto-link-local"@) by {
        assert("--reauthorize"@.len() != "--auto-link-local"@.len());
    }
    assert("--open-browser"@ != "--auto-link-local"@) by {
        assert("--open-browser"@.len() != "--auto-link-local"@.len());
    }
    assert("--exchange-token"@ != "--auto-link-local"@) by {
        assert("--exchange-token"@.len() != "--auto-link-local"@.len());
    }
    assert("--authorization-code"@ != "--auto-link-local"@) by {
        assert("--authorization-code"@.len() != "--auto-link-local"@.len());
    }
    assert("--access-token"@ != "--auto-link-local"@) by {
        assert("--access-token"@.len() != "--auto-link-local"@.len());
    }
    assert("--refresh-token"@ != "--auto-link-local"@) by {
        assert("--refresh-token"@.len() != "--auto-link-local"@.len());
    }
    assert("--cookie"@ != "--auto-link-local"@) by {
        assert("--cookie"@.len() != "--auto-link-local"@.len());
    }
    assert("--session"@ != "--auto-link-local"@) by {
        assert("--session"@.len() != "--auto-link-local"@.len());
    }
    assert("--browser-profile"@ != "--auto-link-local"@) by {
        assert("--browser-profile"@[2] != "--auto-link-local"@[2]);
    }
    assert("--remote-debugging-port"@ != "--auto-link-local"@) by {
        assert("--remote-debugging-port"@.len() != "--auto-link-local"@.len());
    }
    assert("--csrf-token"@ != "--auto-link-local"@) by {
        assert("--csrf-token"@.len() != "--auto-link-local"@.len());
    }
}

proof fn lemma_refused_flag_is_not_test_token_transport(f: Seq<char>)
    requires
        network_auth(f),
    ensures
        f != "--test-token-transport"@,
{
    reveal_strlit("--test-token-transport");
    reveal_strlit("--apply");
    reveal_strlit("--write");
    reveal_strlit("--delete");
    reveal_strlit("--refresh");
    reveal_strlit("--reauthorize");
    reveal_strlit("--open-browser");
    reveal_strlit("--exchange-token");
    reveal_strlit("--authorization-code");
    reveal_strlit("--access-token");
    reveal_strlit("--refresh-token");
    reveal_strlit("--cookie");
    reveal_strlit("--session");
    reveal_strlit("--browser-profile");
    reveal_strlit("--remote-debugging-port");
    reveal_strlit("--csrf-token");
    assert("--apply"@ != "--test-token-transport"@) by {
        assert("--apply"@.len() != "--test-token-transport"@.len());
    }
    assert("--write"@ != "--test-token-transport"@) by {
        assert("--write"@.len() != "--test-token-transport"@.len());
    }
    assert("--delete"@ != "--test-token-transport"@) by {
        assert("--delete"@.len() != "--test-token-transport"@.len());
    }
    assert("--refresh"@ != "--test-token-transport"@) by {
        assert("--refresh"@.len() != "--test-token-transport"@.len());
    }
    assert("--reauthorize"@ != "--test-token-transport"@) by {
        assert("--reauthorize"@.len() != "--test-token-transport"@.len());
    }
    assert("--open-browser"@ != "--test-token-transport"@) by {
        assert("--open-browser"@.len() != "--test-token-transport"@.len());
    }
    assert("--exchange-token"@ != "--test-token-transport"@) by {
        assert("--exchange-token"@.len() != "--test-token-transport"@.len());
    }
    assert("--authorization-code"@ != "--test-token-transport"@) by {
        assert("--authorization-code"@.len() != "--test-token-transport"@.len());
    }
    assert("--access-token"@ != "--test-token-transport"@) by {
        assert("--access-token"@.len() != "--test-token-transport"@.len());
    }
    assert("--refresh-token"@ != "--test-token-transport"@) by {
        assert("--refresh-token"@.len() != "--test-token-transport"@.len());
    }
    assert("--cookie"@ != "--test-token-transport"@) by {
        assert("--cookie"@.len() != "--test-token-transport"@.len());
    }
    assert("--session"@ != "--test-token-transport"@) by {
        assert("--session"@.len() != "--test-token-transport"@.len());
    }
    assert("--browser-profile"@ != "--test-token-transport"@) by {
        assert("--browser-profile"@.len() != "--test-token-transport"@.len());
    }
    assert("--remote-debugging-port"@ != "--test-token-transport"@) by {
        assert("--remote-debugging-port"@.len() != "--test-token-transport"@.len());
    }
    assert("--csrf-token"@ != "--test-token-transport"@) by {
        assert("--csrf-token"@.len() != "--test-token-transport"@.len());
    }
}

proof fn lemma_refused_flag_is_not_test_write_transport(f: Seq<char>)
    requires
        network_auth(f),
    ensures
        f != "--test-write-transport"@,
{
    reveal_strlit("--test-write-transport");
    reveal_strlit("--apply");
    reveal_strlit("--write");
    reveal_strlit("--delete");
    reveal_strlit("--refresh");
    reveal_strlit("--reauthorize");
    reveal_strlit("--open-browser");
    reveal_strlit("--exchange-token");
    reveal_strlit("--authorization-code");
    reveal_strlit("--access-token");
    reveal_strlit("--refresh-token");
    reveal_strlit("--cookie");
    reveal_strlit("--session");
    reveal_strlit("--browser-profile");
    reveal_strlit("--remote-debugging-port");
    reveal_strlit("--csrf-token");
    assert("--apply"@ != "--test-write-transport"@) by {
        assert("--apply"@.len() != "--test-write-transport"@.len());
    }
    assert("--write"@ != "--test-write-transport"@) by {
        assert("--write"@.len() != "--test-write-transport"@.len());
    }
    assert("--delete"@ != "--test-write-transport"@) by {
        assert("--delete"@.len() != "--test-write-transport"@.len());
    }
    assert("--refresh"@ != "--test-write-transport"@) by {
        assert("--refresh"@.len() != "--test-write-transport"@.len());
    }
    assert("--reauthorize"@ != "--test-write-transport"@) by {
        assert("--reauthorize"@.len() != "--test-write-transport"@.len());
    }
    assert("--open-browser"@ != "--test-write-transport"@) by {
        assert("--open-browser"@.len() != "--test-write-transport"@.len());
    }
    assert("--exchange-token"@ != "--test-write-transport"@) by {
        assert("--exchange-token"@.len() != "--test-write-transport"@.len());
    }
    assert("--authorization-code"@ != "--test-write-transport"@) by {
        assert("--authorization-code"@.len() != "--test-write-transport"@.len());
    }
    assert("--access-token"@ != "--test-write-transport"@) by {
        assert("--access-token"@.len() != "--test-write-transport"@.len());
    }
    assert("--refresh-token"@ != "--test-write-transport"@) by {
        assert("--refresh-token"@.len() != "--test-write-transport"@.len());
    }
    assert("--cookie"@ != "--test-write-transport"@) by {
        assert("--cookie"@.len() != "--test-write-transport"@.len());
    }
    assert("--session"@ != "--test-write-transport"@) by {
        assert("--session"@.len() != "--test-write-transport"@.len());
    }
    assert("--browser-profile"@ != "--test-write-transport"@) by {
        assert("--browser-profile"@.len() != "--test-write-transport"@.len());
    }
    assert("--remote-debugging-port"@ != "--test-write-transport"@) by {
        assert("--remote-debugging-port"@.len() != "--test-write-transport"@.len());
    }
    assert("--csrf-token"@ != "--test-write-transport"@) by {
        assert("--csrf-token"@.len() != "--test-write-transport"@.len());
    }
}

proof fn lemma_refused_flag_is_not_verify_post_write(f: Seq<char>)
    requires
        network_auth(f),
    ensures
        f != "--verify-post-write"@,
{
    reveal_strlit("--verify-post-write");
    reveal_strlit("--apply");
    reveal_strlit("--write");
    reveal_strlit("--delete");
    reveal_strlit("--refresh");
    reveal_strlit("--reauthorize");
    reveal_strlit("--open-browser");
    reveal_strlit("--exchange-token");
    reveal_strlit("--authorization-code");
    reveal_strlit("--access-token");
    reveal_strlit("--refresh-token");
    reveal_strlit("--cookie");
    reveal_strlit("--session");
    reveal_strlit("--browser-profile");
    reveal_strlit("--remote-debugging-port");
    reveal_strlit("--csrf-token");
    assert("--apply"@ != "--verify-post-write"@) by {
        assert("--apply"@.len() != "--verify-post-write"@.len());
    }
    assert("--write"@ != "--verify-post-write"@) by {
        assert("--write"@.len() != "--verify-post-write"@.len());
    }
    assert("--delete"@ != "--verify-post-write"@) by {
        assert("--delete"@.len() != "--verify-post-write"@.len());
    }
    assert("--refresh"@ != "--verify-post-write"@) by {
        assert("--refresh"@.len() != "--verify-post-write"@.len());
    }
    assert("--reauthorize"@ != "--verify-post-write"@) by {
        assert("--reauthorize"@.len() != "--verify-post-write"@.len());
    }
    assert("--open-browser"@ != "--verify-post-write"@) by {
        assert("--open-browser"@.len() != "--verify-post-write"@.len());
    }
    assert("--exchange-token"@ != "--verify-post-write"@) by {
        assert("--exchange-token"@.len() != "--verify-post-write"@.len());
    }
    assert("--authorization-code"@ != "--verify-post-write"@) by {
        assert("--authorization-code"@.len() != "--verify-post-write"@.len());
    }
    assert("--access-token"@ != "--verify-post-write"@) by {
        assert("--access-token"@.len() != "--verify-post-write"@.len());
    }
    assert("--refresh-token"@ != "--verify-post-write"@) by {
        assert("--refresh-token"@.len() != "--verify-post-write"@.len());
    }
    assert("--cookie"@ != "--verify-post-write"@) by {
        assert("--cookie"@.len() != "--verify-post-write"@.len());
    }
    assert("--session"@ != "--verify-post-write"@) by {
        assert("--session"@.len() != "--verify-post-write"@.len());
    }
    assert("--browser-profile"@ != "--verify-post-write"@) by {
        assert("--browser-profile"@.len() != "--verify-post-write"@.len());
    }
    assert("--remote-debugging-port"@ != "--verify-post-write"@) by {
        assert("--remote-debugging-port"@.len() != "--verify-post-write"@.len());
    }
    assert("--csrf-token"@ != "--verify-post-write"@) by {
        assert("--csrf-token"@.len() != "--verify-post-write"@.len());
    }
}

/// The refused flags are none of the switches of `plan`, `apply` and
/// `sync`.
proof fn lemma_refused_flags_are_not_switches(f: Seq<char>)
    requires
        network_auth(f),
    ensures
        f != "--dry-run"@,
        f != "--refresh-snapshots"@,
        f != "--live-read"@,
        f != "--auto-link-local"@,
        f != "--test-token-transport"@,
        f != "--test-write-transport"@,
        f != "--verify-post-write"@,
{
    lemma_refused_flag_is_not_dry_run(f);
    lemma_refused_flag_is_not_refresh_snapshots(f);
    lemma_refused_flag_is_not_live_read(f);
    lemma_refused_flag_is_not_auto_link_local(f);
    lemma_refused_flag_is_not_test_token_transport(f);
    lemma_refused_flag_is_not_test_write_transport(f);
    lemma_refused_flag_is_not_verify_post_write(f);
}

/// `plan` refuses a provider write, a token exchange, a browser session or
/// a secret wherever one comes as a flag.
pub proof fn lemma_plan_refuses_network_auth(args: Seq<Seq<char>>, i: int, acc: PlanView)
    requires
        0 <= i < args.len(),
        network_auth(args[i]),
    ensures
        fold_flags(args, i, acc) is Err,
{
    lemma_refused_flags_are_not_switches(args[i]);
    assert(acc.on_flag(args[i]) is Refuse);
}

/// `apply` refuses a provider write, a token exchange, a browser session or
/// a secret wherever one comes as a flag.
pub proof fn lemma_apply_refuses_network_auth(args: Seq<Seq<char>>, i: int, acc: ApplyView)
    requires
        0 <= i < args.len(),
        network_auth(args[i]),
    ensures
        fold_flags(args, i, acc) is Err,
{
    lemma_refused_flags_are_not_switches(args[i]);
    assert(acc.on_flag(args[i]) is Refuse);
}

/// `sync` refuses a provider write, a token exchange, a browser session or
/// a secret wherever one comes as a flag.
pub proof fn lemma_sync_refuses_network_auth(args: Seq<Seq<char>>, i: int, acc: SyncView)
    requires
        0 <= i < args.len(),
        network_auth(args[i]),
    ensures
        fold_flags(args, i, acc) is Err,
{
    lemma_refused_flags_are_not_switches(args[i]);
    assert(acc.on_flag(args[i]) is Refuse);
}

/// `plan`, `apply` and `sync` are refused when their first argument is a
/// provider write, a token exchange, a browser session or a secret.
pub proof fn lemma_commands_refuse_leading_network_auth(args: Seq<Seq<char>>)
    requires
        args.len() > 0,
        network_auth(args[0]),
    ensures
        plan_spec(args) is Err,
        apply_spec(args) is Err,
        sync_spec(args) is Err,
{
    lemma_plan_refuses_network_auth(args, 0, plan_default());
    lemma_apply_refuses_network_auth(args, 0, apply_default());
    lemma_sync_refuses_network_auth(args, 0, sync_default());
}

} // verus!
