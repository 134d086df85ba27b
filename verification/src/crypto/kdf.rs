//! Argon2id key derivation with per-vault cost parameters.

use crate::crypto::entropy::{random_bytes, wipe, zeros};
use crate::util::errors::{ObscuraError, ObscuraResult};
use argon2::{Algorithm, Argon2, Params, Version};
use vstd::prelude::*;
use vstd::string::*;

verus! {

pub const DEFAULT_MEMORY_KIB: u32 = 131_072;

pub const DEFAULT_TIME: u32 = 2;

pub const DEFAULT_LANES: u32 = 1;

pub const MIN_MEMORY_KIB: u32 = 65_536;

pub const MAX_MEMORY_KIB: u32 = 524_288;

pub const MIN_TIME: u32 = 1;

pub const MAX_TIME: u32 = 6;

/// Length of a vault's salt in bytes.
pub const SALT_LEN: usize = 16;

/// Longest password, in bytes, that Argon2 takes.
pub const MAX_PASSWORD_LEN: usize = 0xFFFF_FFFF;

/// The 32-byte Argon2id (version 0x13) hash of a password under a salt and
/// the three cost parameters.
pub uninterp spec fn spec_argon2id(
    password: Seq<u8>,
    salt: Seq<u8>,
    memory_kib: u32,
    time: u32,
    lanes: u32,
) -> Seq<u8>;

/// The decimal number that a text spells, if it spells one that fits `u32`.
pub uninterp spec fn spec_parse_u32(text: Seq<char>) -> Option<u32>;

/// The cost triples that Argon2 accepts for a 32-byte output.
pub open spec fn params_accepted(memory_kib: u32, time: u32, lanes: u32) -> bool {
    &&& memory_kib >= 8
    &&& memory_kib >= lanes * 8
    &&& time >= 1
    &&& 1 <= lanes <= 0xFF_FFFF
}

/// Calls `argon2::Params::new` with an output length of 32 and reports
/// whether it accepted the costs: memory of at least 8 KiB and at least
/// 8 KiB per lane, at least one pass, and between 1 and 2^24 - 1 lanes.
#[verifier::external_body]
fn argon2_accepts(memory_kib: u32, time: u32, lanes: u32) -> (accepted: bool)
    requires
        lanes * 8 <= u32::MAX,
    ensures
        accepted == params_accepted(memory_kib, time, lanes),
{
    Params::new(memory_kib, time, lanes, Some(32)).is_ok()
}

/// Calls `Argon2::hash_password_into` on an Argon2id, version 0x13 context
/// built by `Argon2::new` from the given costs, with a 32-byte output. With
/// accepted costs it fails only on a password longer than 2^32 - 1 bytes or
/// a salt outside 8 to 2^32 - 1 bytes; otherwise it gives the named hash.
/// The costs are bounded so that the call takes at most 512 MiB and six
/// passes.
#[verifier::external_body]
pub(crate) fn argon2id(
    password: &[u8],
    salt: &[u8],
    memory_kib: u32,
    time: u32,
    lanes: u32,
) -> (key: Option<[u8; 32]>)
    requires
        params_accepted(memory_kib, time, lanes),
        memory_kib <= MAX_MEMORY_KIB,
        time <= MAX_TIME,
    ensures
        key is Some <==> (password@.len() <= MAX_PASSWORD_LEN && 8 <= salt@.len() <= 0xFFFF_FFFF),
        key matches Some(k) ==> k@ == spec_argon2id(password@, salt@, memory_kib, time, lanes),
{
    let params = Params::new(memory_kib, time, lanes, Some(32)).ok()?;
    let mut key = [0u8; 32];
    Argon2::new(Algorithm::Argon2id, Version::V0x13, params)
        .hash_password_into(password, salt, &mut key)
        .ok()?;
    Some(key)
}

/// Calls `str::parse::<u32>`: the number that the text spells in decimal,
/// or `None` where it spells none that fits.
#[verifier::external_body]
fn parse_u32(text: &str) -> (value: Option<u32>)
    ensures
        value == spec_parse_u32(text@),
{
    text.parse::<u32>().ok()
}

/// `value` moved into `[min, max]`.
pub open spec fn clamp_spec(value: u32, min: u32, max: u32) -> u32 {
    if value < min {
        min
    } else if value > max {
        max
    } else {
        value
    }
}

pub fn clamp(value: u32, min: u32, max: u32) -> (res: u32)
    ensures
        res == clamp_spec(value, min, max),
{
    if value < min {
        min
    } else if value > max {
        max
    } else {
        value
    }
}

/// The cost that an optional override yields: the number it spells, clamped
/// into `[min, max]`, or `default` where it is absent or spells no number.
pub open spec fn cost_from_override_spec(
    parsed: Option<u32>,
    min: u32,
    max: u32,
    default: u32,
) -> u32 {
    match parsed {
        Some(value) => clamp_spec(value, min, max),
        None => default,
    }
}

pub fn cost_from_override(parsed: Option<u32>, min: u32, max: u32, default: u32) -> (cost: u32)
    ensures
        cost == cost_from_override_spec(parsed, min, max, default),
{
    match parsed {
        Some(value) => clamp(value, min, max),
        None => default,
    }
}

/// What an optional override text spells.
pub open spec fn parsed_override(text: Option<Seq<char>>) -> Option<u32> {
    match text {
        Some(t) => spec_parse_u32(t),
        None => None,
    }
}

/// The memory and time costs for new vaults, given the texts of the two
/// optional overrides (`OBSCURA_KDF_MEM_KIB` and `OBSCURA_KDF_TIME`).
pub fn resolve_kdf_costs(memory_override: Option<&str>, time_override: Option<&str>) -> (costs: (
    u32,
    u32,
))
    ensures
        costs.0 == cost_from_override_spec(
            parsed_override(
                match memory_override {
                    Some(t) => Some(t@),
                    None => None,
                },
            ),
            MIN_MEMORY_KIB,
            MAX_MEMORY_KIB,
            DEFAULT_MEMORY_KIB,
        ),
        costs.1 == cost_from_override_spec(
            parsed_override(
                match time_override {
                    Some(t) => Some(t@),
                    None => None,
                },
            ),
            MIN_TIME,
            MAX_TIME,
            DEFAULT_TIME,
        ),
        MIN_MEMORY_KIB <= costs.0 <= MAX_MEMORY_KIB,
        MIN_TIME <= costs.1 <= MAX_TIME,
{
    let memory = match memory_override {
        Some(text) => parse_u32(text),
        None => None,
    };
    let time = match time_override {
        Some(text) => parse_u32(text),
        None => None,
    };
    (
        cost_from_override(memory, MIN_MEMORY_KIB, MAX_MEMORY_KIB, DEFAULT_MEMORY_KIB),
        cost_from_override(time, MIN_TIME, MAX_TIME, DEFAULT_TIME),
    )
}

/// What derivation parameters hold: the salt and the three costs.
pub struct KdfSpec {
    pub salt: Seq<u8>,
    pub memory_kib: u32,
    pub time: u32,
    pub lanes: u32,
}

impl KdfSpec {
    /// Whether the costs lie in the ranges this vault format allows.
    pub open spec fn in_range(self) -> bool {
        &&& MIN_MEMORY_KIB <= self.memory_kib <= MAX_MEMORY_KIB
        &&& MIN_TIME <= self.time <= MAX_TIME
    }

    /// These parameters with memory and time moved into their ranges.
    pub open spec fn clamped(self) -> KdfSpec {
        KdfSpec {
            salt: self.salt,
            memory_kib: clamp_spec(self.memory_kib, MIN_MEMORY_KIB, MAX_MEMORY_KIB),
            time: clamp_spec(self.time, MIN_TIME, MAX_TIME),
            lanes: self.lanes,
        }
    }
}

/// The salt and costs under which a vault's key-encryption key is derived.
#[derive(Clone, Copy)]
pub struct KdfParams {
    pub salt: [u8; 16],
    pub memory_kib: u32,
    pub time: u32,
    pub lanes: u32,
}

impl View for KdfParams {
    type V = KdfSpec;

    open spec fn view(&self) -> KdfSpec {
        KdfSpec {
            salt: self.salt@,
            memory_kib: self.memory_kib,
            time: self.time,
            lanes: self.lanes,
        }
    }
}

impl KdfParams {
    /// Parameters for a new vault: a random salt, one lane, and the given
    /// costs moved into their ranges.
    pub fn new(memory_kib: u32, time: u32) -> (params: Self)
        ensures
            params.memory_kib == clamp_spec(memory_kib, MIN_MEMORY_KIB, MAX_MEMORY_KIB),
            params.time == clamp_spec(time, MIN_TIME, MAX_TIME),
            params.lanes == DEFAULT_LANES,
            params@.in_range(),
    {
        Self::with_salt(random_bytes::<16>(), memory_kib, time)
    }

    /// Parameters over a given salt, with one lane and the given costs moved
    /// into their ranges.
    pub fn with_salt(salt: [u8; 16], memory_kib: u32, time: u32) -> (params: Self)
        ensures
            params == (KdfParams {
                salt,
                memory_kib: clamp_spec(memory_kib, MIN_MEMORY_KIB, MAX_MEMORY_KIB),
                time: clamp_spec(time, MIN_TIME, MAX_TIME),
                lanes: DEFAULT_LANES,
            }),
            params@.in_range(),
    {
        KdfParams {
            salt,
            memory_kib: clamp(memory_kib, MIN_MEMORY_KIB, MAX_MEMORY_KIB),
            time: clamp(time, MIN_TIME, MAX_TIME),
            lanes: DEFAULT_LANES,
        }
    }

    /// Moves memory and time into their ranges, as is done whenever stored
    /// parameters are read back.
    pub fn clamped(&self) -> (params: Self)
        ensures
            params@ == self@.clamped(),
            params@.in_range(),
            self@.in_range() ==> params == *self,
    {
        KdfParams {
            salt: self.salt,
            memory_kib: clamp(self.memory_kib, MIN_MEMORY_KIB, MAX_MEMORY_KIB),
            time: clamp(self.time, MIN_TIME, MAX_TIME),
            lanes: self.lanes,
        }
    }

    /// Overwrites the salt with zeros.
    pub fn zeroize(&mut self)
        ensures
            final(self).salt@ == zeros(SALT_LEN as nat),
            final(self).memory_kib == old(self).memory_kib,
            final(self).time == old(self).time,
            final(self).lanes == old(self).lanes,
    {
        wipe(&mut self.salt);
    }
}

/// The memory cost a derivation runs at: the requested one where Argon2
/// accepts it, else the minimum memory floor where Argon2 accepts that,
/// else none. Costs above the ranges of the vault format are refused
/// outright, so that no derivation asks for more than 512 MiB or six
/// passes.
pub open spec fn effective_memory(params: KdfSpec) -> Option<u32> {
    if params.memory_kib > MAX_MEMORY_KIB || params.time > MAX_TIME {
        None
    } else if params_accepted(params.memory_kib, params.time, params.lanes) {
        Some(params.memory_kib)
    } else if params_accepted(MIN_MEMORY_KIB, params.time, params.lanes) {
        Some(MIN_MEMORY_KIB)
    } else {
        None
    }
}

/// The key that a passphrase yields under given parameters, or the
/// encryption failure where no key can be derived.
pub open spec fn derive_key_spec(passphrase: Seq<char>, params: KdfSpec) -> Result<
    Seq<u8>,
    ObscuraError,
> {
    match effective_memory(params) {
        Some(memory_kib) => if vstd::utf8::encode_utf8(passphrase).len() <= MAX_PASSWORD_LEN
            && 8 <= params.salt.len() <= 0xFFFF_FFFF {
            Ok(
                spec_argon2id(
                    vstd::utf8::encode_utf8(passphrase),
                    params.salt,
                    memory_kib,
                    params.time,
                    params.lanes,
                ),
            )
        } else {
            Err(ObscuraError::EncryptionFailed)
        },
        None => Err(ObscuraError::EncryptionFailed),
    }
}

/// Derives the 32-byte key for `passphrase`. Where Argon2 refuses the
/// requested costs, the derivation is tried once more at the minimum memory
/// floor before it fails.
pub fn derive_key(passphrase: &str, params: &KdfParams) -> (res: ObscuraResult<[u8; 32]>)
    ensures
        match derive_key_spec(passphrase@, params@) {
            Ok(key) => res matches Ok(k) && k@ == key,
            Err(e) => res matches Err(got) && got == e,
        },
{
    if params.memory_kib > MAX_MEMORY_KIB || params.time > MAX_TIME || params.lanes > 0xFF_FFFF {
        return Err(ObscuraError::EncryptionFailed);
    }
    let memory_kib = if argon2_accepts(params.memory_kib, params.time, params.lanes) {
        params.memory_kib
    } else if argon2_accepts(MIN_MEMORY_KIB, params.time, params.lanes) {
        MIN_MEMORY_KIB
    } else {
        return Err(ObscuraError::EncryptionFailed);
    };
    let salt = params.salt;
    match argon2id(passphrase.as_bytes(), salt.as_slice(), memory_kib, params.time, params.lanes) {
        Some(key) => Ok(key),
        None => Err(ObscuraError::EncryptionFailed),
    }
}

/// A derived key together with the parameters it was derived under.
pub struct KdfResult {
    pub key: [u8; 32],
    pub params: KdfParams,
}

impl KdfResult {
    /// Derives a key for a new vault: fresh parameters at the given costs,
    /// then the key under them.
    pub fn derive(passphrase: &str, memory_kib: u32, time: u32) -> (res: ObscuraResult<Self>)
        ensures
            res is Ok <==> vstd::utf8::encode_utf8(passphrase@).len() <= MAX_PASSWORD_LEN,
            res matches Ok(derived) ==> {
                &&& derived.params.memory_kib == clamp_spec(
                    memory_kib,
                    MIN_MEMORY_KIB,
                    MAX_MEMORY_KIB,
                )
                &&& derived.params.time == clamp_spec(time, MIN_TIME, MAX_TIME)
                &&& derived.params.lanes == DEFAULT_LANES
                &&& derive_key_spec(passphrase@, derived.params@) == Ok::<Seq<u8>, ObscuraError>(
                    derived.key@,
                )
            },
            res matches Err(e) ==> e == ObscuraError::EncryptionFailed,
    {
        let params = KdfParams::new(memory_kib, time);
        Self::derive_with_params(passphrase, &params)
    }

    /// Derives the key for an existing vault from its stored parameters.
    pub fn derive_with_params(passphrase: &str, params: &KdfParams) -> (res: ObscuraResult<Self>)
        ensures
            match derive_key_spec(passphrase@, params@) {
                Ok(key) => res matches Ok(derived) && derived.key@ == key && derived.params
                    == *params,
                Err(e) => res matches Err(got) && got == e,
            },
    {
        let key = derive_key(passphrase, params)?;
        Ok(KdfResult { key, params: *params })
    }

    /// Overwrites the key and the salt with zeros.
    pub fn zeroize(&mut self)
        ensures
            final(self).key@ == zeros(32),
            final(self).params.salt@ == zeros(SALT_LEN as nat),
    {
        wipe(&mut self.key);
        self.params.zeroize();
    }
}

} // verus!
