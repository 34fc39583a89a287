//! The trusted keyring: the public signing subkeys parsed once from the key
//! blob shipped with the program, indexed by their key id. The keyring is the
//! sole root of trust and is never changed after it is loaded. Each entry
//! carries its subkey as the serialized public-key packet, so that what the
//! cryptographic check runs against is pinned down as plain bytes.

use pgp::composed::Deserializable;
use pgp::ser::Serialize;
use pgp::types::KeyDetails;
use vstd::prelude::*;

verus! {

/// The embedded trusted key blob could not be parsed. This is fatal: there is
/// no fallback trust source, so the program cannot proceed.
#[derive(Clone, Copy, Debug, PartialEq, Eq, Structural)]
pub enum ConfigError {
    BadKeyMaterial,
}

#[verifier::external_type_specification]
#[verifier::external_body]
pub struct ExPgpError(pgp::errors::Error);

/// Whether the blob parses as an OpenPGP transferable public key.
pub uninterp spec fn key_parses_of(blob: Seq<u8>) -> bool;

/// The subkeys a parsing blob binds to its primary key, in blob order: each
/// subkey's 8-byte key id read as a big-endian integer, together with that
/// subkey's serialized public-key packet.
pub uninterp spec fn subkey_table_of(blob: Seq<u8>) -> Seq<(u64, Seq<u8>)>;

/// The key ids of a subkey table, in order.
pub open spec fn spec_table_ids(table: Seq<(u64, Seq<u8>)>) -> Seq<u64> {
    table.map_values(|p: (u64, Seq<u8>)| p.0)
}

/// The serialized subkey packet that the first entry with the given key id
/// holds; empty when no entry has the id.
pub open spec fn spec_raw_for(table: Seq<(u64, Seq<u8>)>, id: u64) -> Seq<u8>
    decreases table.len(),
{
    if table.len() == 0 {
        Seq::empty()
    } else if table[0].0 == id {
        table[0].1
    } else {
        spec_raw_for(table.drop_first(), id)
    }
}

/// Relies on pgp's SignedPublicKey::from_bytes, KeyDetails::legacy_key_id and
/// the packet Serialize impl: whether the blob parses, and, when it does, the
/// bound subkeys in order, each as its key id with its re-serialized
/// public-key packet. Both results are functions of the blob bytes alone.
#[verifier::external_body]
fn parse_trusted_subkeys(bytes: &[u8]) -> (r: Result<Vec<(u64, Vec<u8>)>, pgp::errors::Error>)
    ensures
        (r is Ok) == key_parses_of(bytes@),
        r matches Ok(v) ==> v@.map_values(|p: (u64, Vec<u8>)| (p.0, p.1@)) == subkey_table_of(
            bytes@,
        ),
{
    let key = pgp::composed::SignedPublicKey::from_bytes(bytes)?;
    key.public_subkeys
        .iter()
        .map(|subkey| {
            let mut raw_id = [0u8; 8];
            raw_id.copy_from_slice(subkey.legacy_key_id().as_ref());
            let packet = pgp::packet::Packet::PublicSubkey(subkey.key.clone()).to_bytes()?;
            Ok((u64::from_be_bytes(raw_id), packet))
        })
        .collect()
}

/// One trusted subkey: its key id, and the subkey's serialized public-key
/// packet — the exact material the cryptographic check runs against.
pub struct KeyEntry {
    id: u64,
    raw: Vec<u8>,
}

impl KeyEntry {
    /// The subkey's OpenPGP key id, as a big-endian integer.
    pub closed spec fn spec_id(self) -> u64 {
        self.id
    }

    /// The subkey's serialized public-key packet.
    pub closed spec fn spec_raw(self) -> Seq<u8> {
        self.raw@
    }

    /// The subkey's OpenPGP key id, as a big-endian integer.
    pub fn id(&self) -> (r: u64)
        ensures
            r == self.spec_id(),
    {
        self.id
    }

    /// The subkey's serialized public-key packet.
    pub fn raw_packet(&self) -> (r: &Vec<u8>)
        ensures
            r@ == self.spec_raw(),
    {
        &self.raw
    }
}

/// The set of trusted public signing subkeys. Loaded once at startup, never
/// mutated afterwards: every method takes the keyring by shared reference, so
/// any number of concurrent verification calls see the same keys.
pub struct TrustedKeyring {
    entries: Vec<KeyEntry>,
}

impl View for TrustedKeyring {
    type V = Seq<u64>;

    /// To its callers a keyring is, first of all, the sequence of key ids it
    /// trusts.
    closed spec fn view(&self) -> Seq<u64> {
        self.entries@.map_values(|e: KeyEntry| e.id)
    }
}

impl TrustedKeyring {
    /// The keyring's full content: each trusted key id with the serialized
    /// subkey packet it stands for, in load order.
    pub closed spec fn spec_table(&self) -> Seq<(u64, Seq<u8>)> {
        self.entries@.map_values(|e: KeyEntry| (e.id, e.raw@))
    }

    /// The ids of the keyring are the ids of its table.
    pub proof fn lemma_view_is_table_ids(&self)
        ensures
            self@ == spec_table_ids(self.spec_table()),
    {
        assert(self@ =~= spec_table_ids(self.spec_table()));
    }

    /// Parses the embedded trusted key blob, once, at startup. It succeeds
    /// exactly when the blob parses; every subkey bound to the blob's primary
    /// key becomes one trusted entry, in order; a blob that does not parse is
    /// a fatal configuration error.
    pub fn load(bytes: &[u8]) -> (r: Result<TrustedKeyring, ConfigError>)
        ensures
            (r is Ok) == key_parses_of(bytes@),
            r matches Err(e) ==> e == ConfigError::BadKeyMaterial,
            r matches Ok(k) ==> k.spec_table() == subkey_table_of(bytes@) && k@ == spec_table_ids(
                subkey_table_of(bytes@),
            ),
    {
        let mut pairs = match parse_trusted_subkeys(bytes) {
            Ok(p) => p,
            Err(_) => {
                return Err(ConfigError::BadKeyMaterial);
            },
        };
        let ghost table = subkey_table_of(bytes@);
        let mut entries: Vec<KeyEntry> = Vec::new();
        proof {
            assert(entries@.map_values(|e: KeyEntry| (e.id, e.raw@)) + pairs@.map_values(
                |p: (u64, Vec<u8>)| (p.0, p.1@),
            ) =~= table);
        }
        while pairs.len() > 0
            invariant
                entries@.map_values(|e: KeyEntry| (e.id, e.raw@)) + pairs@.map_values(
                    |p: (u64, Vec<u8>)| (p.0, p.1@),
                ) == table,
            decreases pairs.len(),
        {
            let ghost old_entries = entries@;
            let ghost old_pairs = pairs@;
            let (id, raw) = pairs.remove(0);
            entries.push(KeyEntry { id, raw });
            proof {
                let f = |e: KeyEntry| (e.id, e.raw@);
                let g = |p: (u64, Vec<u8>)| (p.0, p.1@);
                assert(entries@.map_values(f) + pairs@.map_values(g) =~= old_entries.map_values(f)
                    + old_pairs.map_values(g));
            }
        }
        let keyring = TrustedKeyring { entries };
        proof {
            assert(keyring.spec_table() =~= table);
            keyring.lemma_view_is_table_ids();
        }
        Ok(keyring)
    }

    /// How many subkeys are trusted.
    pub fn subkey_count(&self) -> (r: usize)
        ensures
            r == self@.len(),
    {
        self.entries.len()
    }

    /// Exact lookup of a trusted subkey by key id: `Some` exactly when the id
    /// is in the keyring, and the entry handed back is the first one the
    /// table holds under that id. No partial matching, no chain-of-trust
    /// traversal, no expiry or revocation checking.
    pub fn find_subkey(&self, id: u64) -> (r: Option<&KeyEntry>)
        ensures
            r matches Some(entry) ==> entry.spec_id() == id && self@.contains(id)
                && entry.spec_raw() == spec_raw_for(self.spec_table(), id),
            r is None ==> !self@.contains(id),
    {
        let mut i: usize = 0;
        while i < self.entries.len()
            invariant
                i <= self.entries.len(),
                forall|j: int| 0 <= j < i ==> self.entries@[j].id != id,
            decreases self.entries.len() - i,
        {
            if self.entries[i].id == id {
                proof {
                    assert(self@[i as int] == id);
                    lemma_raw_for_first_match(self.spec_table(), id, i as int);
                }
                return Some(&self.entries[i]);
            }
            i += 1;
        }
        assert(forall|j: int| 0 <= j < self@.len() ==> self@[j] != id);
        None
    }
}

/// `spec_raw_for` picks the first matching entry: at the first index whose id
/// matches, the table's raw packet is the one `spec_raw_for` names.
proof fn lemma_raw_for_first_match(table: Seq<(u64, Seq<u8>)>, id: u64, i: int)
    requires
        0 <= i < table.len(),
        forall|j: int| 0 <= j < i ==> table[j].0 != id,
        table[i].0 == id,
    ensures
        spec_raw_for(table, id) == table[i].1,
    decreases i,
{
    if i > 0 {
        lemma_raw_for_first_match(table.drop_first(), id, i - 1);
    }
}

} // verus!
