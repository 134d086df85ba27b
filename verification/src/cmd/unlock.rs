//! Caching a vault's key for a limited time.

use crate::session::{SessionFile, SessionStore};
use crate::util::encoding::decode_exact_spec;
use crate::util::errors::{ObscuraError, ObscuraResult};
use crate::vault::file::{decrypt_vault, decrypt_vault_spec};
use crate::vault::model::VaultFile;
use vstd::prelude::*;

verus! {

/// The arguments of `unlock`.
#[derive(Debug, PartialEq, Eq)]
pub struct UnlockArgs {
    pub timeout: u64,
    pub global: bool,
    pub project: bool,
}

/// The timeout of `unlock` where none is given, in minutes.
pub const DEFAULT_TIMEOUT_MINUTES: u64 = 60;

/// Checks the timeout before anything else is done: zero is refused.
pub fn check_timeout(args: &UnlockArgs) -> (res: ObscuraResult<()>)
    ensures
        res == if args.timeout == 0 {
            Err::<(), ObscuraError>(ObscuraError::InvalidTimeout)
        } else {
            Ok::<(), ObscuraError>(())
        },
{
    if args.timeout == 0 {
        Err(ObscuraError::InvalidTimeout)
    } else {
        Ok(())
    }
}

/// Opens the vault with the passphrase and caches its key under `key` for
/// the timeout of the arguments, counted from now. A zero timeout is
/// refused before the vault is touched; a vault that does not open leaves
/// the session as it was. Entries of other vaults are kept as they were or,
/// where they have expired, dropped. The key is wiped once it is cached.
pub fn handle_unlock(
    args: &UnlockArgs,
    vault_file: &VaultFile,
    passphrase: &str,
    session: &mut SessionFile,
    key: String,
    vault_path: String,
) -> (res: ObscuraResult<()>)
    ensures
        args.timeout == 0 ==> res == Err::<(), ObscuraError>(ObscuraError::InvalidTimeout)
            && final(session)@ == old(session)@,
        args.timeout != 0 ==> match decrypt_vault_spec(vault_file@, passphrase@) {
            Ok((dek, _)) => match res {
                Ok(_) => {
                    &&& final(session)@.contains_key(key@)
                    &&& final(session)@[key@].vault_path == vault_path@
                    &&& decode_exact_spec(final(session)@[key@].dek_b64, 32) == Some(dek)
                    &&& forall|other: Seq<char>|
                        other != key@ && #[trigger] final(session)@.contains_key(other) ==> {
                            &&& old(session)@.contains_key(other)
                            &&& final(session)@[other] == old(session)@[other]
                        }
                },
                Err(e) => e == ObscuraError::InvalidTimeout && final(session)@ == old(session)@,
            },
            Err(e) => res == Err::<(), ObscuraError>(e) && final(session)@ == old(session)@,
        },
{
    check_timeout(args)?;
    let (mut dek, _) = decrypt_vault(vault_file, passphrase)?;
    let stored = SessionStore::store_dek(session, key, vault_path, &dek, args.timeout);
    dek.zeroize();
    stored
}

} // verus!
