//! Running a command with the vault's secrets in its environment.

use crate::cmd::import::{pairs_view, Pair};
use crate::crypto::aead::AeadKey;
use crate::util::errors::{ObscuraError, ObscuraResult};
use crate::util::text::texts;
use crate::vault::aliases::AliasesData;
use crate::vault::model::{decrypt_value_spec, AliasDataView};
use vstd::prelude::*;
use vstd::string::*;

verus! {

/// The arguments of `run`.
#[derive(Debug, PartialEq, Eq)]
pub struct RunArgs {
    pub global: bool,
    pub project: bool,
    pub command: Vec<String>,
}

/// Whether every listed alias decrypts under the key.
pub open spec fn all_decrypt(
    aliases: Map<Seq<char>, AliasDataView>,
    names: Seq<Seq<char>>,
    dek: Seq<u8>,
) -> bool {
    forall|i: int|
        0 <= i < names.len() ==> decrypt_value_spec(aliases[#[trigger] names[i]].value_enc, dek)
            is Ok
}

/// The listed aliases with their decrypted values, in listing order.
pub open spec fn decrypted_pairs(
    aliases: Map<Seq<char>, AliasDataView>,
    names: Seq<Seq<char>>,
    dek: Seq<u8>,
) -> Seq<Pair> {
    Seq::new(
        names.len(),
        |i: int| (names[i], decrypt_value_spec(aliases[names[i]].value_enc, dek)->Ok_0),
    )
}

/// The environment that `run` adds for the child: one variable per alias
/// of the vault, named by the alias and holding its secret, and nothing
/// else. Fails where a stored value does not decrypt.
pub fn get_secrets_as_env_vars(aliases: &AliasesData, dek: &AeadKey) -> (res: ObscuraResult<
    Vec<(String, String)>,
>)
    ensures
        res is Ok <==> all_decrypt(aliases@, aliases.names(), dek@),
        res matches Ok(env_vars) ==> pairs_view(env_vars@) == decrypted_pairs(
            aliases@,
            aliases.names(),
            dek@,
        ),
        res matches Err(e) ==> e == ObscuraError::DecryptionFailed,
        aliases.names().no_duplicates(),
        forall|name: Seq<char>| aliases.names().contains(name) <==> aliases@.contains_key(name),
{
    let names = aliases.list_aliases();
    let ghost listed = aliases.names();
    let mut env_vars: Vec<(String, String)> = Vec::new();
    let mut i: usize = 0;
    while i < names.len()
        invariant
            i <= names@.len(),
            listed == aliases.names(),
            texts(names@) == listed,
            listed.no_duplicates(),
            forall|name: Seq<char>| listed.contains(name) <==> aliases@.contains_key(name),
            env_vars@.len() == i,
            forall|j: int|
                0 <= j < i ==> decrypt_value_spec(aliases@[#[trigger] listed[j]].value_enc, dek@)
                    is Ok,
            forall|j: int|
                0 <= j < i ==> (#[trigger] env_vars@[j]).0@ == listed[j] && env_vars@[j].1@
                    == decrypt_value_spec(aliases@[listed[j]].value_enc, dek@)->Ok_0,
        decreases names@.len() - i,
    {
        proof {
            assert(listed[i as int] == names@[i as int]@);
            assert(listed.contains(listed[i as int]));
        }
        match aliases.get_alias(names[i].as_str(), dek) {
            Ok(Some(value)) => {
                env_vars.push((names[i].clone(), value));
            },
            Ok(None) => {
                assert(false);
            },
            Err(_) => {
                return Err(ObscuraError::DecryptionFailed);
            },
        }
        i = i + 1;
    }
    assert(pairs_view(env_vars@) =~= decrypted_pairs(aliases@, listed, dek@));
    Ok(env_vars)
}

/// Splits what follows `--` into the program and its arguments; an empty
/// command line is refused.
pub fn split_command_args(command_args: Vec<String>) -> (res: ObscuraResult<(String, Vec<String>)>)
    ensures
        if command_args@.len() == 0 {
            res matches Err(e) && e == ObscuraError::InvalidVaultFormat
        } else {
            res matches Ok(split) && split.0@ == command_args@[0]@ && texts(split.1@) == texts(
                command_args@,
            ).drop_first()
        },
{
    if command_args.len() == 0 {
        return Err(ObscuraError::InvalidVaultFormat);
    }
    let command = command_args[0].clone();
    let mut args: Vec<String> = Vec::new();
    let mut i: usize = 1;
    while i < command_args.len()
        invariant
            1 <= i <= command_args@.len(),
            args@.len() == i - 1,
            forall|j: int| 0 <= j < i - 1 ==> (#[trigger] args@[j])@ == command_args@[j + 1]@,
        decreases command_args@.len() - i,
    {
        args.push(command_args[i].clone());
        i = i + 1;
    }
    assert(texts(args@) =~= texts(command_args@).drop_first());
    Ok((command, args))
}

/// The exit code of `run`: the child's exit code, or 1 where the child was
/// ended by a signal and has none.
pub fn exit_code(status: Option<i32>) -> (code: i32)
    ensures
        code == match status {
            Some(c) => c,
            None => 1,
        },
{
    match status {
        Some(c) => c,
        None => 1,
    }
}

} // verus!
