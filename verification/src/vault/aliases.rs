//! The alias map: secret names, each with its own encrypted value.

use crate::crypto::aead::AeadKey;
use crate::util::clock::now_rfc3339;
use crate::util::errors::{ObscuraError, ObscuraResult};
use crate::vault::model::{
    decrypt_value, decrypt_value_spec, encrypt_value, envelope_fits, AliasData, AliasDataView,
    EncryptedData,
};
use crate::util::text::texts;
use crate::util::text_map::{without, TextMap};
use vstd::prelude::*;
use vstd::string::*;
use vstd::utf8::*;

verus! {

/// The mapping from alias names to stored secrets. No name occurs twice.
pub struct AliasesData {
    entries: TextMap<AliasData>,
}

impl View for AliasesData {
    type V = Map<Seq<char>, AliasDataView>;

    closed spec fn view(&self) -> Map<Seq<char>, AliasDataView> {
        self.entries@
    }
}

/// What looking an alias up and decrypting it yields: absence is a normal
/// outcome, a stored value that does not decrypt is a failure.
pub open spec fn get_alias_spec(
    aliases: Map<Seq<char>, AliasDataView>,
    alias: Seq<char>,
    dek: Seq<u8>,
) -> Result<Option<Seq<char>>, ObscuraError> {
    if aliases.contains_key(alias) {
        match decrypt_value_spec(aliases[alias].value_enc, dek) {
            Ok(value) => Ok(Some(value)),
            Err(e) => Err(e),
        }
    } else {
        Ok(None)
    }
}

impl AliasesData {
    /// The alias names in the order in which they are listed.
    pub closed spec fn names(&self) -> Seq<Seq<char>> {
        self.entries.names()
    }

    /// An empty alias map.
    pub fn new() -> (aliases: Self)
        ensures
            aliases@ == Map::<Seq<char>, AliasDataView>::empty(),
            aliases.names() == Seq::<Seq<char>>::empty(),
    {
        AliasesData { entries: TextMap::new() }
    }

    /// How many aliases the map holds.
    pub fn len(&self) -> (n: usize)
        ensures
            self@.dom().finite(),
            n == self@.len(),
            n == self.names().len(),
    {
        self.entries.len()
    }

    /// Whether an alias is present.
    pub fn contains(&self, alias: &str) -> (present: bool)
        ensures
            present == self@.contains_key(alias@),
    {
        self.entries.contains(alias)
    }

    /// The stored entry of an alias, if it is present.
    pub fn get(&self, alias: &str) -> (entry: Option<&AliasData>)
        ensures
            entry is Some <==> self@.contains_key(alias@),
            entry matches Some(data) ==> data@ == self@[alias@],
    {
        self.entries.get(alias)
    }

    /// Stores `data` under `alias`, replacing what was stored there. A new
    /// name is listed last; a replaced one keeps its place.
    pub fn put(&mut self, alias: String, data: AliasData)
        ensures
            final(self)@ == old(self)@.insert(alias@, data@),
            final(self).names() == if old(self)@.contains_key(alias@) {
                old(self).names()
            } else {
                old(self).names().push(alias@)
            },
    {
        self.entries.put(alias, data);
    }

    /// Encrypts `value` under `dek` and stores it under `alias`, created now
    /// and not rotated. An existing alias is overwritten.
    pub fn add_alias(&mut self, alias: String, value: String, dek: &AeadKey) -> (res: ObscuraResult<
        (),
    >)
        ensures
            res is Ok <==> envelope_fits(encode_utf8(value@).len()),
            res is Ok ==> {
                &&& final(self)@.dom() == old(self)@.dom().insert(alias@)
                &&& forall|name: Seq<char>|
                    name != alias@ && old(self)@.contains_key(name) ==> final(self)@[name]
                        == old(self)@[name]
                &&& final(self)@[alias@].rotated_at is None
                &&& get_alias_spec(final(self)@, alias@, dek@) == Ok::<
                    Option<Seq<char>>,
                    ObscuraError,
                >(Some(value@))
            },
            res matches Err(e) ==> {
                &&& e == ObscuraError::EncryptionFailed
                &&& final(self)@ == old(self)@
            },
            final(self).names() == if res is Ok && !old(self)@.contains_key(alias@) {
                old(self).names().push(alias@)
            } else {
                old(self).names()
            },
    {
        self.add_alias_at(alias, value, dek, now_rfc3339())
    }

    /// Encrypts `value` under `dek` and stores it under `alias` with the
    /// given creation time and no rotation time. An existing alias is
    /// overwritten.
    pub fn add_alias_at(
        &mut self,
        alias: String,
        value: String,
        dek: &AeadKey,
        created_at: String,
    ) -> (res: ObscuraResult<()>)
        ensures
            res is Ok <==> envelope_fits(encode_utf8(value@).len()),
            res is Ok ==> {
                &&& final(self)@.dom() == old(self)@.dom().insert(alias@)
                &&& forall|name: Seq<char>|
                    name != alias@ && old(self)@.contains_key(name) ==> final(self)@[name]
                        == old(self)@[name]
                &&& final(self)@[alias@].created_at == created_at@
                &&& final(self)@[alias@].rotated_at is None
                &&& get_alias_spec(final(self)@, alias@, dek@) == Ok::<
                    Option<Seq<char>>,
                    ObscuraError,
                >(Some(value@))
            },
            res matches Err(e) ==> {
                &&& e == ObscuraError::EncryptionFailed
                &&& final(self)@ == old(self)@
            },
            final(self).names() == if res is Ok && !old(self)@.contains_key(alias@) {
                old(self).names().push(alias@)
            } else {
                old(self).names()
            },
    {
        let value_enc = encrypt_value(value.as_str(), dek)?;
        let data = AliasData { value_enc, created_at, rotated_at: None };
        self.put(alias, data);
        Ok(())
    }

    /// Looks `alias` up and decrypts its value.
    pub fn get_alias(&self, alias: &str, dek: &AeadKey) -> (res: ObscuraResult<Option<String>>)
        ensures
            match get_alias_spec(self@, alias@, dek@) {
                Ok(Some(value)) => res matches Ok(Some(out)) && out@ == value,
                Ok(None) => res matches Ok(None),
                Err(e) => res matches Err(got) && got == e,
            },
    {
        match self.get(alias) {
            Some(data) => {
                let value = decrypt_value(&data.value_enc, dek)?;
                Ok(Some(value))
            },
            None => Ok(None),
        }
    }

    /// Removes `alias` and says whether it was present.
    pub fn remove_alias(&mut self, alias: &str) -> (removed: bool)
        ensures
            removed == old(self)@.contains_key(alias@),
            final(self)@ == old(self)@.remove(alias@),
            final(self).names() == without(old(self).names(), alias@),
    {
        self.entries.remove(alias).is_some()
    }

    /// Replaces the encrypted value of a present alias and stamps the
    /// rotation; the creation time stays. Says whether the alias was present.
    pub fn rotate_with(
        &mut self,
        alias: &str,
        value_enc: EncryptedData,
        rotated_at: String,
    ) -> (rotated: bool)
        ensures
            rotated == old(self)@.contains_key(alias@),
            final(self).names() == old(self).names(),
            !rotated ==> final(self)@ == old(self)@,
            rotated ==> final(self)@ == old(self)@.insert(
                alias@,
                AliasDataView {
                    value_enc: value_enc@,
                    created_at: old(self)@[alias@].created_at,
                    rotated_at: Some(rotated_at@),
                },
            ),
    {
        let created_at = match self.entries.get(alias) {
            Some(data) => data.created_at.clone(),
            None => { return false; },
        };
        self.entries.put(
            alias.to_owned(),
            AliasData { value_enc, created_at, rotated_at: Some(rotated_at) },
        );
        true
    }

    /// Re-encrypts a present alias with a new value, rotated now. An absent
    /// alias is reported as `Ok(false)` and nothing changes.
    pub fn rotate_alias(&mut self, alias: &str, new_value: String, dek: &AeadKey) -> (res:
        ObscuraResult<bool>)
        ensures
            final(self).names() == old(self).names(),
            !old(self)@.contains_key(alias@) ==> {
                &&& res == Ok::<bool, ObscuraError>(false)
                &&& final(self)@ == old(self)@
            },
            old(self)@.contains_key(alias@) && !envelope_fits(encode_utf8(new_value@).len()) ==> {
                &&& res == Err::<bool, ObscuraError>(ObscuraError::EncryptionFailed)
                &&& final(self)@ == old(self)@
            },
            old(self)@.contains_key(alias@) && envelope_fits(encode_utf8(new_value@).len()) ==> {
                &&& res == Ok::<bool, ObscuraError>(true)
                &&& final(self)@.dom() == old(self)@.dom()
                &&& forall|name: Seq<char>|
                    name != alias@ && old(self)@.contains_key(name) ==> final(self)@[name]
                        == old(self)@[name]
                &&& final(self)@[alias@].created_at == old(self)@[alias@].created_at
                &&& final(self)@[alias@].rotated_at is Some
                &&& get_alias_spec(final(self)@, alias@, dek@) == Ok::<
                    Option<Seq<char>>,
                    ObscuraError,
                >(Some(new_value@))
            },
    {
        if !self.contains(alias) {
            return Ok(false);
        }
        let value_enc = encrypt_value(new_value.as_str(), dek)?;
        let rotated = self.rotate_with(alias, value_enc, now_rfc3339());
        assert(final(self)@.dom() =~= old(self)@.dom());
        Ok(rotated)
    }

    /// The alias names, each once, in listing order: the keys of the map
    /// and nothing else.
    pub fn list_aliases(&self) -> (names: Vec<String>)
        ensures
            texts(names@) == self.names(),
            self.names().no_duplicates(),
            forall|name: Seq<char>| self.names().contains(name) <==> self@.contains_key(name),
            self@.dom().finite(),
            self@.len() == names@.len(),
    {
        self.entries.keys()
    }
}

} // verus!
