//! The shape every command's argument parser shares: flags are read left to
//! right; a flag either stands alone, is refused, or takes the next argument
//! as its value. Each command states its flags as a [`FlagGrammar`].

use vstd::prelude::*;
use crate::model::res_chars;
use crate::text::{parse_i64, parse_i64_spec, str_eq};

verus! {

/// What a command does with a flag before it looks for a value.
pub enum FlagAction<T> {
    /// The flag stands alone and yields these options.
    Switch(T),
    /// The flag is refused with this message.
    Refuse(Seq<char>),
    /// The flag takes the next argument as its value.
    Value,
}

/// The flags of one command, over the values of its options.
pub trait FlagGrammar: Sized {
    spec fn on_flag(self, flag: Seq<char>) -> FlagAction<Self>;

    /// The message when a flag that takes a value comes last.
    spec fn missing_value(flag: Seq<char>) -> Seq<char>;

    spec fn on_value(self, flag: Seq<char>, value: Seq<char>) -> Result<Self, Seq<char>>;
}

/// Reads the arguments from position `i` on, starting from the options
/// `acc`; the first refusal is the error.
pub open spec fn fold_flags<T: FlagGrammar>(args: Seq<Seq<char>>, i: int, acc: T) -> Result<
    T,
    Seq<char>,
>
    decreases args.len() - i,
{
    if i >= args.len() {
        Ok(acc)
    } else {
        match acc.on_flag(args[i]) {
            FlagAction::Switch(t) => fold_flags(args, i + 1, t),
            FlagAction::Refuse(e) => Err(e),
            FlagAction::Value => if i + 1 >= args.len() {
                Err(T::missing_value(args[i]))
            } else {
                match acc.on_value(args[i], args[i + 1]) {
                    Ok(t) => fold_flags(args, i + 2, t),
                    Err(e) => Err(e),
                }
            },
        }
    }
}

/// The characters of each argument.
pub open spec fn arg_views(args: Seq<String>) -> Seq<Seq<char>> {
    Seq::new(args.len(), |i: int| args[i]@)
}

/// The message for a flag that needs a value and has none.
pub open spec fn missing_value_for(flag: Seq<char>) -> Seq<char> {
    "missing value for "@ + flag
}

/// The flags that would write to a provider or start network auth.
pub open spec fn writes_or_network(flag: Seq<char>) -> bool {
    flag == "--apply"@ || flag == "--write"@ || flag == "--delete"@ || flag == "--refresh"@
        || flag == "--reauthorize"@ || flag == "--open-browser"@
}

pub fn is_write_or_network(flag: &str) -> (r: bool)
    ensures
        r == writes_or_network(flag@),
{
    str_eq(flag, "--apply") || str_eq(flag, "--write") || str_eq(flag, "--delete") || str_eq(
        flag,
        "--refresh",
    ) || str_eq(flag, "--reauthorize") || str_eq(flag, "--open-browser")
}

/// Flags that carry secrets or browser state.
pub open spec fn secret_input(flag: Seq<char>) -> bool {
    flag == "--access-token"@ || flag == "--refresh-token"@ || flag == "--cookie"@ || flag
        == "--session"@ || flag == "--browser-profile"@ || flag == "--remote-debugging-port"@
        || flag == "--csrf-token"@
}

pub fn is_secret_input(flag: &str) -> (r: bool)
    ensures
        r == secret_input(flag@),
{
    str_eq(flag, "--access-token") || str_eq(flag, "--refresh-token") || str_eq(flag, "--cookie")
        || str_eq(flag, "--session") || str_eq(flag, "--browser-profile") || str_eq(
        flag,
        "--remote-debugging-port",
    ) || str_eq(flag, "--csrf-token")
}

/// Writes, network auth, token exchange and secret input.
pub open spec fn network_auth(flag: Seq<char>) -> bool {
    writes_or_network(flag) || flag == "--exchange-token"@ || flag == "--authorization-code"@
        || secret_input(flag)
}

pub fn is_network_auth(flag: &str) -> (r: bool)
    ensures
        r == network_auth(flag@),
{
    is_write_or_network(flag) || str_eq(flag, "--exchange-token") || str_eq(
        flag,
        "--authorization-code",
    ) || is_secret_input(flag)
}

/// `--now <unix-seconds>` with the given message on a bad value.
pub open spec fn now_value_spec(value: Seq<char>, message: Seq<char>) -> Result<i64, Seq<char>> {
    match parse_i64_spec(value) {
        Some(n) => Ok(n),
        None => Err(message),
    }
}

pub fn parse_now_value(value: &str, message: String) -> (r: Result<i64, String>)
    ensures
        res_chars(r) == now_value_spec(value@, message@),
{
    match parse_i64(value) {
        Some(n) => Ok(n),
        None => Err(message),
    }
}

/// Reading more arguments after a list that reads without error goes on
/// from where that list ended.
pub proof fn lemma_fold_flags_extend<T: FlagGrammar>(
    args: Seq<Seq<char>>,
    tail: Seq<Seq<char>>,
    i: int,
    acc: T,
)
    requires
        0 <= i <= args.len(),
        fold_flags(args, i, acc) is Ok,
    ensures
        fold_flags(args + tail, i, acc) == fold_flags(
            args + tail,
            args.len() as int,
            fold_flags(args, i, acc)->Ok_0,
        ),
    decreases args.len() - i,
{
    let all = args + tail;
    if i < args.len() {
        assert(all[i] == args[i]);
        match acc.on_flag(args[i]) {
            FlagAction::Switch(t) => {
                lemma_fold_flags_extend(args, tail, i + 1, t);
            },
            FlagAction::Refuse(_) => {},
            FlagAction::Value => {
                assert(all[i + 1] == args[i + 1]);
                match acc.on_value(args[i], args[i + 1]) {
                    Ok(t) => {
                        lemma_fold_flags_extend(args, tail, i + 2, t);
                    },
                    Err(_) => {},
                }
            },
        }
    }
}

/// A flag that takes a value, given last with its value after arguments
/// that read without error, is read from where those arguments left off.
pub proof fn lemma_fold_flags_append_value<T: FlagGrammar>(
    args: Seq<Seq<char>>,
    flag: Seq<char>,
    value: Seq<char>,
    acc: T,
)
    requires
        fold_flags(args, 0, acc) is Ok,
        fold_flags(args, 0, acc)->Ok_0.on_flag(flag) is Value,
    ensures
        fold_flags(args + seq![flag, value], 0, acc) == fold_flags(args, 0, acc)->Ok_0.on_value(
            flag,
            value,
        ),
{
    let all = args + seq![flag, value];
    let n = args.len() as int;
    lemma_fold_flags_extend(args, seq![flag, value], 0, acc);
    assert(all[n] == flag);
    assert(all[n + 1] == value);
    let o = fold_flags(args, 0, acc)->Ok_0;
    match o.on_value(flag, value) {
        Ok(t) => {
            assert(fold_flags(all, n + 2, t) == Ok::<T, Seq<char>>(t));
        },
        Err(_) => {},
    }
}

} // verus!
