//! Forgetting cached keys.

use crate::session::{SessionDataView, SessionFile, SessionStore, SessionWrite};
use vstd::prelude::*;

verus! {

/// The arguments of `lock`.
#[derive(Debug, PartialEq, Eq)]
pub struct LockArgs {
    pub global: bool,
    pub project: bool,
}

/// Whether `lock` forgets the key of one vault only: with either scope flag
/// the resolved vault's key, without any every key.
pub fn lock_is_scoped(args: &LockArgs) -> (scoped: bool)
    ensures
        scoped == (args.global || args.project),
{
    args.global || args.project
}

/// Forgets the key cached under `key`, or every key where none is given.
pub fn handle_lock(session: &mut SessionFile, key: Option<&str>) -> (write: SessionWrite)
    ensures
        match key {
            Some(k) => {
                &&& final(session)@ == old(session)@.remove(k@)
                &&& write == if old(session)@.contains_key(k@) {
                    SessionWrite::Save
                } else {
                    SessionWrite::Nothing
                }
            },
            None => final(session)@ == Map::<Seq<char>, SessionDataView>::empty() && write
                == SessionWrite::DeleteFile,
        },
{
    SessionStore::clear(session, key)
}

} // verus!
