//! The store of token verification keys, and the rules by which it is
//! refreshed from the key documents of the issuers.

use vstd::prelude::*;

verus! {

/// Seconds to wait before a refresh that failed is tried again.
pub const RETRY_DELAY_SECS: u64 = 10;

/// `jsonwebtoken::DecodingKey`: a key as the token library holds it. The
/// store carries such keys; nothing here looks inside one.
#[verifier::external_type_specification]
#[verifier::external_body]
pub struct ExDecodingKey(jsonwebtoken::DecodingKey);

/// `jsonwebtoken::errors::Error`: what the token library fails with. It is
/// only ever told apart from success.
#[verifier::external_type_specification]
#[verifier::external_body]
pub struct ExTokenError(jsonwebtoken::errors::Error);

/// Whether modulus and exponent, as an issuer writes them, can be read as
/// the two components of an RSA public key: both are unpadded URL-safe
/// base 64.
pub uninterp spec fn rsa_components_decode(n: Seq<char>, e: Seq<char>) -> bool;

/// `jsonwebtoken::DecodingKey::from_rsa_components`. It succeeds or fails by
/// the two texts alone; nothing is claimed of the key that it builds.
#[verifier::external_body]
fn rsa_decoding_key(n: &str, e: &str) -> (key: Result<
    jsonwebtoken::DecodingKey,
    jsonwebtoken::errors::Error,
>)
    ensures
        key is Ok <==> rsa_components_decode(n@, e@),
{
    jsonwebtoken::DecodingKey::from_rsa_components(n, e)
}

/// One key of an issuer's key document, as text.
#[derive(Clone, Debug)]
pub struct Jwk {
    pub kid: String,
    pub n: String,
    pub e: String,
}

/// The modulus and the exponent of an RSA public key, as an issuer writes
/// them.
pub struct RsaComponents {
    pub n: Seq<char>,
    pub e: Seq<char>,
}

/// One write to the store: a key and the identifier it goes under.
pub struct KeyWrite {
    pub kid: Seq<char>,
    pub key: RsaComponents,
}

impl View for Jwk {
    type V = KeyWrite;

    open spec fn view(&self) -> KeyWrite {
        KeyWrite { kid: self.kid@, key: RsaComponents { n: self.n@, e: self.e@ } }
    }
}

/// A key that token signatures are checked with.
pub struct VerificationKey {
    pub n: String,
    pub e: String,
    pub key: jsonwebtoken::DecodingKey,
}

impl View for VerificationKey {
    type V = RsaComponents;

    open spec fn view(&self) -> RsaComponents {
        RsaComponents { n: self.n@, e: self.e@ }
    }
}

/// Why a refresh of the key store failed.
#[derive(Clone, Copy, Debug, PartialEq, Eq, Structural)]
pub enum RefreshError {
    /// The key document could not be fetched or read.
    Fetch,
    /// The response carried no `Cache-Control` header.
    MissingCacheControl,
    /// The header names no `max-age`.
    MissingMaxAge,
    /// The `max-age` does not fit in 64 bits.
    MaxAgeTooLarge,
    /// A key of the document has components that cannot be read.
    BadKey,
}

impl VerificationKey {
    /// Builds the key from its components, if they can be read.
    pub fn from_components(n: &str, e: &str) -> (key: Result<VerificationKey, RefreshError>)
        ensures
            key is Ok <==> rsa_components_decode(n@, e@),
            key matches Ok(k) ==> k@ == (RsaComponents { n: n@, e: e@ }),
            key matches Err(err) ==> err == RefreshError::BadKey,
    {
        match rsa_decoding_key(n, e) {
            Ok(key) => Ok(VerificationKey { n: n.to_owned(), e: e.to_owned(), key }),
            Err(_) => Err(RefreshError::BadKey),
        }
    }
}

/// A key under the identifier that token headers name it by.
pub struct KeyEntry {
    pub kid: String,
    pub key: VerificationKey,
}

impl View for KeyEntry {
    type V = KeyWrite;

    open spec fn view(&self) -> KeyWrite {
        KeyWrite { kid: self.kid@, key: self.key@ }
    }
}

/// The writes that a sequence of entries stands for.
pub open spec fn entry_writes(entries: Seq<KeyEntry>) -> Seq<KeyWrite> {
    entries.map_values(|e: KeyEntry| e@)
}

/// The map that a sequence of entries builds up when each is written in
/// turn: of two entries with one identifier the later one stays.
pub open spec fn keys_after(
    before: Map<Seq<char>, RsaComponents>,
    entries: Seq<KeyWrite>,
) -> Map<Seq<char>, RsaComponents>
    decreases entries.len(),
{
    if entries.len() == 0 {
        before
    } else {
        keys_after(before, entries.drop_last()).insert(entries.last().kid, entries.last().key)
    }
}

/// No two entries share an identifier.
pub open spec fn distinct_kids(entries: Seq<KeyWrite>) -> bool {
    forall|i: int, j: int|
        0 <= i < j < entries.len() ==> (#[trigger] entries[i]).kid != (#[trigger] entries[j]).kid
}

/// The current verification keys, each under its key identifier.
pub struct KeyStore {
    entries: Vec<KeyEntry>,
}

impl View for KeyStore {
    type V = Map<Seq<char>, RsaComponents>;

    closed spec fn view(&self) -> Map<Seq<char>, RsaComponents> {
        keys_after(Map::empty(), entry_writes(self.entries@))
    }
}

/// What entries without a shared identifier build up from nothing: each
/// identifier maps to the key of its entry, and no other identifier occurs.
proof fn lemma_keys_of_distinct(entries: Seq<KeyWrite>)
    requires
        distinct_kids(entries),
    ensures
        forall|i: int|
            0 <= i < entries.len() ==> {
                &&& keys_after(Map::empty(), entries).contains_key((#[trigger] entries[i]).kid)
                &&& keys_after(Map::empty(), entries)[entries[i].kid] == entries[i].key
            },
        forall|k: Seq<char>| #[trigger]
            keys_after(Map::empty(), entries).contains_key(k) ==> exists|i: int|
                0 <= i < entries.len() && (#[trigger] entries[i]).kid == k,
    decreases entries.len(),
{
    if entries.len() > 0 {
        let front = entries.drop_last();
        assert(distinct_kids(front)) by {
            assert forall|i: int, j: int| 0 <= i < j < front.len() implies (#[trigger] front[i]).kid
                != (#[trigger] front[j]).kid by {
                assert(front[i] == entries[i]);
                assert(front[j] == entries[j]);
            }
        }
        lemma_keys_of_distinct(front);
        let last = entries.len() - 1;
        assert forall|i: int| 0 <= i < entries.len() implies {
            &&& keys_after(Map::empty(), entries).contains_key((#[trigger] entries[i]).kid)
            &&& keys_after(Map::empty(), entries)[entries[i].kid] == entries[i].key
        } by {
            if i < last {
                assert(front[i] == entries[i]);
                assert(entries[i].kid != entries[last].kid);
            }
        }
        assert forall|k: Seq<char>| #[trigger]
            keys_after(Map::empty(), entries).contains_key(k) implies exists|i: int|
            0 <= i < entries.len() && (#[trigger] entries[i]).kid == k by {
            if k == entries[last].kid {
                assert(entries[last].kid == k);
            } else {
                assert(keys_after(Map::empty(), front).contains_key(k));
                let i = choose|i: int| 0 <= i < front.len() && (#[trigger] front[i]).kid == k;
                assert(front[i] == entries[i]);
                assert(entries[i].kid == k);
            }
        }
    }
}

/// Replacing the key of one entry writes that key under the entry's
/// identifier.
proof fn lemma_replace_key(entries: Seq<KeyWrite>, at: int, entry: KeyWrite)
    requires
        distinct_kids(entries),
        0 <= at < entries.len(),
        entry.kid == entries[at].kid,
    ensures
        distinct_kids(entries.update(at, entry)),
        keys_after(Map::empty(), entries.update(at, entry)) == keys_after(
            Map::empty(),
            entries,
        ).insert(entry.kid, entry.key),
{
    let updated = entries.update(at, entry);
    assert(distinct_kids(updated)) by {
        assert forall|i: int, j: int| 0 <= i < j < updated.len() implies (#[trigger] updated[i]).kid
            != (#[trigger] updated[j]).kid by {
            assert(entries[i].kid != entries[j].kid);
        }
    }
    lemma_keys_of_distinct(entries);
    lemma_keys_of_distinct(updated);
    let a = keys_after(Map::empty(), updated);
    let b = keys_after(Map::empty(), entries).insert(entry.kid, entry.key);
    assert forall|k: Seq<char>| a.contains_key(k) <==> b.contains_key(k) by {
        if a.contains_key(k) {
            let i = choose|i: int| 0 <= i < updated.len() && (#[trigger] updated[i]).kid == k;
            assert(entries[i].kid == k);
        }
        if b.contains_key(k) && k != entry.kid {
            let i = choose|i: int| 0 <= i < entries.len() && (#[trigger] entries[i]).kid == k;
            assert(updated[i].kid == k);
        }
        if k == entry.kid {
            assert(updated[at].kid == k);
        }
    }
    assert forall|k: Seq<char>| a.contains_key(k) implies a[k] == b[k] by {
        let i = choose|i: int| 0 <= i < updated.len() && (#[trigger] updated[i]).kid == k;
        assert(a[updated[i].kid] == updated[i].key);
        if i == at {
        } else {
            assert(entries[i].kid == k);
            assert(k != entry.kid);
            assert(keys_after(Map::empty(), entries)[entries[i].kid] == entries[i].key);
        }
    }
    assert(a =~= b);
}

impl KeyStore {
    /// No two stored keys share an identifier. Every store that this module
    /// hands out is well formed.
    pub closed spec fn well_formed(&self) -> bool {
        distinct_kids(entry_writes(self.entries@))
    }

    /// A store without keys.
    pub fn new() -> (store: KeyStore)
        ensures
            store.well_formed(),
            store@ == Map::<Seq<char>, RsaComponents>::empty(),
    {
        let store = KeyStore { entries: Vec::new() };
        assert(entry_writes(store.entries@) =~= Seq::<KeyWrite>::empty());
        store
    }

    /// Where the entry of `kid` stands, if the store has one.
    fn position(&self, kid: &str) -> (at: Option<usize>)
        requires
            self.well_formed(),
        ensures
            at is Some <==> self@.contains_key(kid@),
            at matches Some(i) ==> i < self.entries@.len() && self.entries@[i as int].kid@ == kid@
                && self.entries@[i as int].key@ == self@[kid@],
    {
        let ghost writes = entry_writes(self.entries@);
        let mut i: usize = 0;
        while i < self.entries.len()
            invariant
                self.well_formed(),
                writes == entry_writes(self.entries@),
                i <= self.entries@.len(),
                forall|j: int| 0 <= j < i ==> (#[trigger] writes[j]).kid != kid@,
            decreases self.entries@.len() - i,
        {
            if crate::text::str_eq(self.entries[i].kid.as_str(), kid) {
                proof {
                    lemma_keys_of_distinct(writes);
                    assert(writes[i as int].kid == kid@);
                }
                return Some(i);
            }
            assert(writes[i as int].kid != kid@);
            i = i + 1;
        }
        proof {
            lemma_keys_of_distinct(writes);
        }
        None
    }

    /// The key that is stored under `kid`, if any.
    pub fn lookup(&self, kid: &str) -> (key: Option<&VerificationKey>)
        requires
            self.well_formed(),
        ensures
            key is Some <==> self@.contains_key(kid@),
            key matches Some(k) ==> k@ == self@[kid@],
    {
        match self.position(kid) {
            Some(i) => Some(&self.entries[i].key),
            None => None,
        }
    }

    /// Whether a key is stored under `kid`.
    pub fn contains(&self, kid: &str) -> (present: bool)
        requires
            self.well_formed(),
        ensures
            present == self@.contains_key(kid@),
    {
        self.position(kid).is_some()
    }

    /// Stores `key` under `kid`, in place of the key that was there.
    pub fn upsert(&mut self, kid: String, key: VerificationKey)
        requires
            old(self).well_formed(),
        ensures
            final(self).well_formed(),
            final(self)@ == old(self)@.insert(kid@, key@),
    {
        let ghost writes = entry_writes(self.entries@);
        proof {
            lemma_keys_of_distinct(writes);
        }
        let at = self.position(kid.as_str());
        let entry = KeyEntry { kid, key };
        match at {
            Some(i) => {
                proof {
                    lemma_replace_key(writes, i as int, entry@);
                }
                self.entries.set(i, entry);
                assert(entry_writes(self.entries@) =~= writes.update(i as int, entry@));
            },
            None => {
                proof {
                    let pushed = writes.push(entry@);
                    assert(pushed.drop_last() =~= writes);
                    assert forall|a: int, b: int| 0 <= a < b < pushed.len() implies (
                    #[trigger] pushed[a]).kid != (#[trigger] pushed[b]).kid by {
                        if b == pushed.len() - 1 {
                            assert(pushed[a] == writes[a]);
                            assert(self@.contains_key(writes[a].kid));
                        } else {
                            assert(pushed[a] == writes[a]);
                            assert(pushed[b] == writes[b]);
                        }
                    }
                }
                self.entries.push(entry);
                assert(entry_writes(self.entries@) =~= writes.push(entry@));
            },
        }
    }

    /// Stores every entry in turn: of two with one identifier the later one
    /// stays, and a key that was stored under an identifier gives way.
    pub fn upsert_all(&mut self, entries: Vec<KeyEntry>)
        requires
            old(self).well_formed(),
        ensures
            final(self).well_formed(),
            final(self)@ == keys_after(old(self)@, entry_writes(entries@)),
    {
        let ghost all = entry_writes(entries@);
        let mut rest = entries;
        // Entries leave `rest` from its back, so they are first turned round.
        let mut turned: Vec<KeyEntry> = Vec::new();
        while rest.len() > 0
            invariant
                rest@.len() + turned@.len() == all.len(),
                entry_writes(rest@) == all.take(rest@.len() as int),
                forall|j: int|
                    0 <= j < turned@.len() ==> (#[trigger] turned@[j])@ == all[all.len() - 1 - j],
            decreases rest@.len(),
        {
            let ghost before = rest@;
            let entry = rest.pop().unwrap();
            proof {
                assert(entry@ == entry_writes(before)[before.len() - 1]);
                assert(entry_writes(rest@) =~= all.take(rest@.len() as int)) by {
                    assert forall|j: int| 0 <= j < rest@.len() implies entry_writes(rest@)[j]
                        == all.take(rest@.len() as int)[j] by {
                        assert(rest@[j] == before[j]);
                        assert(entry_writes(before)[j] == all[j]);
                    }
                }
            }
            turned.push(entry);
        }
        while turned.len() > 0
            invariant
                turned@.len() <= all.len(),
                forall|j: int|
                    0 <= j < turned@.len() ==> (#[trigger] turned@[j])@ == all[all.len() - 1 - j],
                self.well_formed(),
                self@ == keys_after(old(self)@, all.take(all.len() - turned@.len())),
            decreases turned@.len(),
        {
            let ghost n = all.len() - turned@.len();
            let entry = turned.pop().unwrap();
            proof {
                assert(entry@ == all[n]);
                assert(all.take(n + 1).drop_last() =~= all.take(n));
                assert(all.take(n + 1).last() == all[n]);
            }
            self.upsert(entry.kid, entry.key);
        }
        assert(all.take(all.len() as int) =~= all);
    }

    /// The number of stored keys.
    pub fn len(&self) -> (n: usize)
        requires
            self.well_formed(),
        ensures
            n == self@.len(),
            self@.dom().finite(),
    {
        proof {
            lemma_len_of_distinct(entry_writes(self.entries@));
        }
        self.entries.len()
    }
}

/// Entries without a shared identifier build up a map with one key for each.
proof fn lemma_len_of_distinct(entries: Seq<KeyWrite>)
    requires
        distinct_kids(entries),
    ensures
        keys_after(Map::empty(), entries).dom().finite(),
        keys_after(Map::empty(), entries).len() == entries.len(),
    decreases entries.len(),
{
    if entries.len() > 0 {
        let front = entries.drop_last();
        assert(distinct_kids(front)) by {
            assert forall|i: int, j: int| 0 <= i < j < front.len() implies (#[trigger] front[i]).kid
                != (#[trigger] front[j]).kid by {
                assert(front[i] == entries[i]);
                assert(front[j] == entries[j]);
            }
        }
        lemma_len_of_distinct(front);
        lemma_keys_of_distinct(front);
        let last = entries.last();
        if keys_after(Map::empty(), front).contains_key(last.kid) {
            let i = choose|i: int| 0 <= i < front.len() && (#[trigger] front[i]).kid == last.kid;
            assert(front[i] == entries[i]);
            assert(entries[i].kid != entries[entries.len() - 1].kid);
        }
    }
}

/// A key that is written last under an identifier is the one that is found
/// there, whatever the store held and whatever was written before.
pub proof fn lemma_last_writer_wins(
    before: Map<Seq<char>, RsaComponents>,
    entries: Seq<KeyWrite>,
    at: int,
)
    requires
        0 <= at < entries.len(),
        forall|j: int| at < j < entries.len() ==> (#[trigger] entries[j]).kid != entries[at].kid,
    ensures
        keys_after(before, entries).contains_key(entries[at].kid),
        keys_after(before, entries)[entries[at].kid] == entries[at].key,
    decreases entries.len(),
{
    if at < entries.len() - 1 {
        let front = entries.drop_last();
        assert(front[at] == entries[at]);
        assert forall|j: int| at < j < front.len() implies (#[trigger] front[j]).kid
            != front[at].kid by {
            assert(front[j] == entries[j]);
        }
        lemma_last_writer_wins(before, front, at);
        assert(entries[entries.len() - 1].kid != entries[at].kid);
    }
}

/// A key stays in the store, unchanged, while no entry is written under its
/// identifier: stale keys linger.
pub proof fn lemma_unwritten_keys_stay(
    before: Map<Seq<char>, RsaComponents>,
    entries: Seq<KeyWrite>,
    kid: Seq<char>,
)
    requires
        forall|j: int| 0 <= j < entries.len() ==> (#[trigger] entries[j]).kid != kid,
    ensures
        keys_after(before, entries).contains_key(kid) <==> before.contains_key(kid),
        before.contains_key(kid) ==> keys_after(before, entries)[kid] == before[kid],
    decreases entries.len(),
{
    if entries.len() > 0 {
        let front = entries.drop_last();
        assert forall|j: int| 0 <= j < front.len() implies (#[trigger] front[j]).kid != kid by {
            assert(front[j] == entries[j]);
        }
        lemma_unwritten_keys_stay(before, front, kid);
        assert(entries[entries.len() - 1].kid != kid);
    }
}

} // verus!
