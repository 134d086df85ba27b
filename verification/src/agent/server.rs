//! The server side of the key agent: a table of keys by vault path, each
//! with the time of its last use, aged out after a fixed idle time.

use crate::agent::protocol::{AgentRequest, AgentResponse};
use crate::crypto::aead::AeadKey;
use crate::crypto::entropy::wipe_vec;
use crate::util::encoding::to_array;
use crate::util::errors::{ObscuraError, ObscuraResult};
use crate::util::text::{lemma_take_contains, texts};
use crate::util::text_map::TextMap;
use vstd::prelude::*;
use vstd::slice::slice_to_vec;
use vstd::string::*;

verus! {

/// Nanoseconds in a minute.
pub const NANOS_PER_MINUTE: u64 = 60_000_000_000;

/// Seconds between two runs of the sweeper.
pub const SWEEP_INTERVAL_SECS: u64 = 60;

/// What a table entry holds: the key and when it was last used, in
/// nanoseconds on the agent's monotonic clock.
pub struct StoredDekView {
    pub dek: Seq<u8>,
    pub last_accessed: u64,
}

/// A key held by the agent.
pub struct StoredDek {
    pub dek: AeadKey,
    pub last_accessed: u64,
}

impl View for StoredDek {
    type V = StoredDekView;

    open spec fn view(&self) -> StoredDekView {
        StoredDekView { dek: self.dek@, last_accessed: self.last_accessed }
    }
}

/// What the agent holds.
pub struct AgentState {
    pub deks: Map<Seq<char>, StoredDekView>,
    pub timeout: u64,
    pub shutdown: bool,
}

/// The agent's state: its table, its idle timeout in nanoseconds and
/// whether it was told to shut down.
pub struct AgentServer {
    deks: TextMap<StoredDek>,
    timeout: u64,
    shutdown: bool,
}

impl View for AgentServer {
    type V = AgentState;

    closed spec fn view(&self) -> AgentState {
        AgentState { deks: self.deks@, timeout: self.timeout, shutdown: self.shutdown }
    }
}

/// The idle timeout of `minutes`, in nanoseconds; a timeout too long to
/// count is the longest one.
pub open spec fn timeout_spec(minutes: u64) -> u64 {
    if minutes * NANOS_PER_MINUTE > u64::MAX {
        u64::MAX
    } else {
        (minutes * NANOS_PER_MINUTE) as u64
    }
}

/// How long an entry has been idle at `now`; a use that the clock places
/// after `now` counts as no time at all.
pub open spec fn idle_spec(entry: StoredDekView, now: u64) -> int {
    if now >= entry.last_accessed {
        now - entry.last_accessed
    } else {
        0
    }
}

/// The entries that a sweep at `now` keeps: those idle for less than the
/// timeout.
pub open spec fn swept(deks: Map<Seq<char>, StoredDekView>, now: u64, timeout: u64) -> Map<
    Seq<char>,
    StoredDekView,
> {
    Map::new(
        |path: Seq<char>| deks.contains_key(path) && idle_spec(deks[path], now) < timeout,
        |path: Seq<char>| deks[path],
    )
}

spec fn swept_prefix(
    deks: Map<Seq<char>, StoredDekView>,
    names: Seq<Seq<char>>,
    done: int,
    now: u64,
    timeout: u64,
) -> Map<Seq<char>, StoredDekView> {
    Map::new(
        |path: Seq<char>|
            deks.contains_key(path) && (names.take(done).contains(path) ==> idle_spec(
                deks[path],
                now,
            ) < timeout),
        |path: Seq<char>| deks[path],
    )
}

/// Whether the agent holds a key for `path` that is still good at `now`:
/// one that has been idle for less than the timeout.
pub open spec fn is_fresh(state: AgentState, path: Seq<char>, now: u64) -> bool {
    state.deks.contains_key(path) && idle_spec(state.deks[path], now) < state.timeout
}

/// The state after a request and the reply to it, as a relation between the
/// state before, the request, the time and the outcome. A key is handed out
/// only while it is fresh, and handing it out renews it; a key that has
/// outlived the timeout is dropped and reported as not found.
pub open spec fn handles(
    before: AgentState,
    request: AgentRequest,
    now: u64,
    after: AgentState,
    response: AgentResponse,
) -> bool {
    match request {
        AgentRequest::GetDek { vault_path } => if is_fresh(before, vault_path@, now) {
            &&& response matches AgentResponse::Dek { dek }
            &&& dek@ == before.deks[vault_path@].dek
            &&& after == (AgentState {
                deks: before.deks.insert(
                    vault_path@,
                    StoredDekView { dek: before.deks[vault_path@].dek, last_accessed: now },
                ),
                ..before
            })
        } else {
            &&& response is NotFound
            &&& after == (AgentState { deks: before.deks.remove(vault_path@), ..before })
        },
        AgentRequest::StoreDek { vault_path, dek } => if dek@.len() == 32 {
            &&& response is Okay
            &&& after == (AgentState {
                deks: before.deks.insert(
                    vault_path@,
                    StoredDekView { dek: dek@, last_accessed: now },
                ),
                ..before
            })
        } else {
            &&& response matches AgentResponse::Error(message)
            &&& message@ == "Invalid DEK length"@
            &&& after == before
        },
        AgentRequest::Ping => response is Okay && after == before,
        AgentRequest::Shutdown => response is Okay && after == (AgentState {
            shutdown: true,
            ..before
        }),
    }
}

impl AgentServer {
    /// An agent with an empty table that ages entries out after
    /// `timeout_minutes` of idleness.
    pub fn new(timeout_minutes: u64) -> (server: Self)
        ensures
            server@ == (AgentState {
                deks: Map::empty(),
                timeout: timeout_spec(timeout_minutes),
                shutdown: false,
            }),
    {
        let timeout = if timeout_minutes > u64::MAX / NANOS_PER_MINUTE {
            u64::MAX
        } else {
            timeout_minutes * NANOS_PER_MINUTE
        };
        AgentServer { deks: TextMap::new(), timeout, shutdown: false }
    }

    /// Whether the agent was told to shut down. The accept loop and the
    /// sweeper stop once this holds.
    pub fn is_shutdown(&self) -> (stopped: bool)
        ensures
            stopped == self@.shutdown,
    {
        self.shutdown
    }

    /// How many keys the agent holds.
    pub fn len(&self) -> (n: usize)
        ensures
            self@.deks.dom().finite(),
            n == self@.deks.len(),
    {
        self.deks.len()
    }

    /// Answers one request at time `now`. A key request that hits a fresh
    /// entry renews its last use; one that hits a stale entry drops it. A
    /// stored key must be 32 bytes long. Keys that leave the table are
    /// wiped.
    pub fn handle_request(&mut self, request: AgentRequest, now: u64) -> (response: AgentResponse)
        ensures
            handles(old(self)@, request, now, final(self)@, response),
    {
        match request {
            AgentRequest::GetDek { vault_path } => {
                let ghost before = self@.deks;
                match self.deks.remove(vault_path.as_str()) {
                    Some(stored) => {
                        let mut dek = stored.dek;
                        let idle = if now >= stored.last_accessed {
                            now - stored.last_accessed
                        } else {
                            0
                        };
                        if idle < self.timeout {
                            let bytes = dek.as_bytes();
                            let reply = slice_to_vec(bytes.as_slice());
                            self.deks.put(vault_path, StoredDek { dek, last_accessed: now });
                            assert(self@.deks =~= before.insert(
                                vault_path@,
                                StoredDekView { dek: before[vault_path@].dek, last_accessed: now },
                            ));
                            AgentResponse::Dek { dek: reply }
                        } else {
                            dek.zeroize();
                            AgentResponse::NotFound
                        }
                    },
                    None => AgentResponse::NotFound,
                }
            },
            AgentRequest::StoreDek { vault_path, dek } => {
                let ghost before = self@.deks;
                let mut given = dek;
                let bytes = to_array::<32>(given.as_slice());
                wipe_vec(&mut given);
                match bytes {
                    Some(bytes) => {
                        match self.deks.remove(vault_path.as_str()) {
                            Some(replaced) => {
                                let mut stale = replaced.dek;
                                stale.zeroize();
                            },
                            None => {},
                        }
                        self.deks.put(
                            vault_path,
                            StoredDek { dek: AeadKey::from_bytes(bytes), last_accessed: now },
                        );
                        assert(self@.deks =~= before.insert(
                            vault_path@,
                            StoredDekView { dek: dek@, last_accessed: now },
                        ));
                        AgentResponse::Okay
                    },
                    None => AgentResponse::Error(String::from_str("Invalid DEK length")),
                }
            },
            AgentRequest::Ping => AgentResponse::Okay,
            AgentRequest::Shutdown => {
                self.shutdown = true;
                AgentResponse::Okay
            },
        }
    }

    /// Answers what arrived on one connection: a request that could not be
    /// decoded is the opaque failure and changes nothing.
    pub fn handle_connection(&mut self, decoded: Option<AgentRequest>, now: u64) -> (res:
        ObscuraResult<AgentResponse>)
        ensures
            match decoded {
                Some(request) => res matches Ok(response) && handles(
                    old(self)@,
                    request,
                    now,
                    final(self)@,
                    response,
                ),
                None => res matches Err(e) && e == ObscuraError::DecryptionFailed && final(self)@
                    == old(self)@,
            },
    {
        match decoded {
            Some(request) => Ok(self.handle_request(request, now)),
            None => Err(ObscuraError::DecryptionFailed),
        }
    }

    /// Drops every entry that has been idle for the timeout or longer, and
    /// wipes its key.
    pub fn sweep(&mut self, now: u64)
        ensures
            final(self)@ == (AgentState {
                deks: swept(old(self)@.deks, now, old(self)@.timeout),
                ..old(self)@
            }),
    {
        let keys = self.deks.keys();
        let ghost start = self@.deks;
        let ghost names = texts(keys@);
        let timeout = self.timeout;
        let mut i: usize = 0;
        proof {
            assert(names.take(0) =~= Seq::<Seq<char>>::empty());
            assert(self@.deks =~= swept_prefix(start, names, 0, now, timeout));
        }
        while i < keys.len()
            invariant
                i <= keys@.len(),
                names == texts(keys@),
                start == old(self)@.deks,
                timeout == old(self)@.timeout,
                self@.timeout == old(self)@.timeout,
                self@.shutdown == old(self)@.shutdown,
                forall|name: Seq<char>| names.contains(name) <==> start.contains_key(name),
                self@.deks == swept_prefix(start, names, i as int, now, timeout),
            decreases keys@.len() - i,
        {
            let ghost name = names[i as int];
            proof {
                assert(names.contains(name));
                assert(keys@[i as int]@ == name);
                lemma_take_contains(names, i as int);
            }
            let keep = match self.deks.get(keys[i].as_str()) {
                Some(stored) => {
                    let idle = if now >= stored.last_accessed {
                        now - stored.last_accessed
                    } else {
                        0
                    };
                    idle < timeout
                },
                None => false,
            };
            if !keep {
                let ghost before = self@.deks;
                match self.deks.remove(keys[i].as_str()) {
                    Some(dropped) => {
                        let mut stale = dropped.dek;
                        stale.zeroize();
                    },
                    None => {},
                }
                proof {
                    assert(before.remove(name) =~= swept_prefix(start, names, i + 1, now, timeout));
                }
            } else {
                proof {
                    assert(self@.deks =~= swept_prefix(start, names, i + 1, now, timeout));
                }
            }
            i = i + 1;
        }
        proof {
            assert(names.take(keys@.len() as int) =~= names);
            assert(self@.deks =~= swept(start, now, timeout));
        }
    }
}

/// An entry survives a sweep exactly while it has been idle for less than
/// the timeout, and a sweep changes no entry that it keeps.
pub proof fn lemma_agent_ttl(
    deks: Map<Seq<char>, StoredDekView>,
    path: Seq<char>,
    now: u64,
    timeout: u64,
)
    requires
        deks.contains_key(path),
    ensures
        swept(deks, now, timeout).contains_key(path) <==> idle_spec(deks[path], now) < timeout,
        swept(deks, now, timeout).contains_key(path) ==> swept(deks, now, timeout)[path]
            == deks[path],
        forall|other: Seq<char>| #[trigger]
            swept(deks, now, timeout).contains_key(other) ==> deks.contains_key(other),
{
}

/// A key request is answered with the key exactly while the entry has been
/// idle for less than the timeout, whether or not a sweep has run in
/// between: a stale key is never handed out, and its lifetime is never
/// extended.
pub proof fn lemma_agent_get_ttl(
    before: AgentState,
    vault_path: String,
    now: u64,
    after: AgentState,
    response: AgentResponse,
)
    requires
        handles(before, AgentRequest::GetDek { vault_path }, now, after, response),
    ensures
        response is Dek <==> is_fresh(before, vault_path@, now),
        response is Dek || response is NotFound,
        !is_fresh(before, vault_path@, now) ==> !after.deks.contains_key(vault_path@),
        is_fresh(before, vault_path@, now) ==> after.deks[vault_path@].last_accessed == now,
{
}

} // verus!
