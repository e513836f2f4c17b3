//! One round of refreshing the key store from an issuer's key document: how
//! long the keys may be cached, which keys are written, and when the next
//! round is due.

use vstd::prelude::*;
use crate::key_store::{
    keys_after, rsa_components_decode, Jwk, KeyEntry, KeyStore, KeyWrite, RefreshError,
    RsaComponents, VerificationKey, RETRY_DELAY_SECS, entry_writes,
};

verus! {

/// The ASCII bytes of `max-age=`.
pub open spec fn max_age_prefix() -> Seq<u8> {
    seq![0x6du8, 0x61u8, 0x78u8, 0x2du8, 0x61u8, 0x67u8, 0x65u8, 0x3du8]
}

/// Whether a byte is an ASCII decimal digit.
pub open spec fn is_digit(b: u8) -> bool {
    0x30 <= b <= 0x39
}

/// Whether a `max-age=` followed by at least one digit starts at `i`.
pub open spec fn directive_at(header: Seq<u8>, i: int) -> bool {
    &&& 0 <= i
    &&& i + 8 < header.len()
    &&& header.subrange(i, i + 8) == max_age_prefix()
    &&& is_digit(header[i + 8])
}

/// Whether `i` is the first place at which a `max-age` directive starts.
pub open spec fn first_directive_at(header: Seq<u8>, i: int) -> bool {
    directive_at(header, i) && forall|j: int| 0 <= j < i ==> !directive_at(header, j)
}

/// Where the digits that start at `from` end.
pub open spec fn digits_end(header: Seq<u8>, from: int) -> int
    decreases header.len() - from,
{
    if 0 <= from < header.len() && is_digit(header[from]) {
        digits_end(header, from + 1)
    } else {
        from
    }
}

/// The number that a string of decimal digits denotes.
pub open spec fn decimal_value(digits: Seq<u8>) -> nat
    decreases digits.len(),
{
    if digits.len() == 0 {
        0
    } else {
        decimal_value(digits.drop_last()) * 10 + (digits.last() - 0x30) as nat
    }
}

/// The number written in the directive that starts at `i`.
pub open spec fn directive_value(header: Seq<u8>, i: int) -> nat {
    decimal_value(header.subrange(i + 8, digits_end(header, i + 8)))
}

/// The `max-age` of a `Cache-Control` header: the number written after the
/// first `max-age=` that digits follow, all its digits taken. A header
/// without such a directive has none, and a number beyond 64 bits is
/// refused.
pub open spec fn max_age_of(header: Seq<u8>) -> Result<u64, RefreshError> {
    if exists|i: int| first_directive_at(header, i) {
        let i = choose|i: int| first_directive_at(header, i);
        if directive_value(header, i) <= u64::MAX {
            Ok(directive_value(header, i) as u64)
        } else {
            Err(RefreshError::MaxAgeTooLarge)
        }
    } else {
        Err(RefreshError::MissingMaxAge)
    }
}

/// A longer run of digits denotes no smaller a number.
proof fn lemma_decimal_grows(header: Seq<u8>, from: int, mid: int, to: int)
    requires
        0 <= from <= mid <= to <= header.len(),
    ensures
        decimal_value(header.subrange(from, mid)) <= decimal_value(header.subrange(from, to)),
    decreases to - mid,
{
    if mid < to {
        lemma_decimal_grows(header, from, mid, to - 1);
        assert(header.subrange(from, to).drop_last() =~= header.subrange(from, to - 1));
    }
}

/// Whether a `max-age` directive starts at `i`.
fn directive_starts(header: &[u8], i: usize) -> (starts: bool)
    requires
        i <= header@.len(),
    ensures
        starts == directive_at(header@, i as int),
{
    if header.len() - i <= 8 {
        return false;
    }
    let starts = header[i] == 0x6d && header[i + 1] == 0x61 && header[i + 2] == 0x78 && header[i
        + 3] == 0x2d && header[i + 4] == 0x61 && header[i + 5] == 0x67 && header[i + 6] == 0x65
        && header[i + 7] == 0x3d && 0x30 <= header[i + 8] && header[i + 8] <= 0x39;
    proof {
        let part = header@.subrange(i as int, i + 8);
        if starts {
            assert(part =~= max_age_prefix());
        } else if part == max_age_prefix() {
            assert(part[0] == header@[i as int]);
            assert(part[1] == header@[i + 1]);
            assert(part[2] == header@[i + 2]);
            assert(part[3] == header@[i + 3]);
            assert(part[4] == header@[i + 4]);
            assert(part[5] == header@[i + 5]);
            assert(part[6] == header@[i + 6]);
            assert(part[7] == header@[i + 7]);
        }
    }
    starts
}

/// Reads the digits that start at `from` as one number, or `None` where it
/// does not fit in 64 bits.
fn read_digits(header: &[u8], from: usize) -> (value: Option<u64>)
    requires
        from <= header@.len(),
    ensures
        value is Some <==> decimal_value(header@.subrange(from as int, digits_end(header@, from as int)))
            <= u64::MAX,
        value matches Some(v) ==> v == decimal_value(
            header@.subrange(from as int, digits_end(header@, from as int)),
        ),
{
    let mut acc: u64 = 0;
    let mut i: usize = from;
    assert(header@.subrange(from as int, from as int) =~= Seq::<u8>::empty());
    while i < header.len() && 0x30 <= header[i] && header[i] <= 0x39
        invariant
            from <= i <= header@.len(),
            digits_end(header@, from as int) == digits_end(header@, i as int),
            acc == decimal_value(header@.subrange(from as int, i as int)),
        decreases header@.len() - i,
    {
        let d: u64 = (header[i] - 0x30) as u64;
        proof {
            let next = header@.subrange(from as int, i + 1);
            assert(next.drop_last() =~= header@.subrange(from as int, i as int));
            assert(next.last() == header@[i as int]);
            assert(decimal_value(next) == acc * 10 + d);
            assert(0 <= from <= i + 1 <= digits_end(header@, i + 1) <= header@.len()) by {
                lemma_digits_end_bounds(header@, i + 1);
            }
            lemma_decimal_grows(header@, from as int, i + 1, digits_end(header@, from as int));
        }
        if acc > (u64::MAX - d) / 10 {
            return None;
        }
        acc = acc * 10 + d;
        i = i + 1;
    }
    Some(acc)
}

/// The digits that start at `from` end at or after `from`, within the header.
proof fn lemma_digits_end_bounds(header: Seq<u8>, from: int)
    requires
        0 <= from <= header.len(),
    ensures
        from <= digits_end(header, from) <= header.len(),
    decreases header.len() - from,
{
    if from < header.len() && is_digit(header[from]) {
        lemma_digits_end_bounds(header, from + 1);
    }
}

/// Reads the `max-age` of a `Cache-Control` header.
pub fn parse_max_age(header: &[u8]) -> (secs: Result<u64, RefreshError>)
    ensures
        secs == max_age_of(header@),
{
    let mut i: usize = 0;
    while i < header.len()
        invariant
            i <= header@.len(),
            forall|j: int| 0 <= j < i ==> !directive_at(header@, j),
        decreases header@.len() - i,
    {
        if directive_starts(header, i) {
            proof {
                assert(first_directive_at(header@, i as int));
                let k = choose|k: int| first_directive_at(header@, k);
                assert(k == i) by {
                    if k < i {
                        assert(!directive_at(header@, k));
                    }
                    if i < k {
                        assert(!directive_at(header@, i as int));
                    }
                }
            }
            return match read_digits(header, i + 8) {
                Some(v) => Ok(v),
                None => Err(RefreshError::MaxAgeTooLarge),
            };
        }
        i = i + 1;
    }
    proof {
        assert forall|k: int| !first_directive_at(header@, k) by {
            if directive_at(header@, k) {
                assert(k < header@.len());
                assert(!directive_at(header@, k));
            }
        }
    }
    Err(RefreshError::MissingMaxAge)
}

/// What fetching an issuer's key document brought: the `Cache-Control`
/// header of the response, if it had one, and the keys of the document.
pub struct KeyDocument {
    pub cache_control: Option<Vec<u8>>,
    pub keys: Vec<Jwk>,
}

/// What a round of refreshing ends with.
#[derive(Clone, Copy, Debug, PartialEq, Eq, Structural)]
pub struct RefreshOutcome {
    /// Seconds until the next round.
    pub delay_secs: u64,
    /// Why nothing was written, if nothing was.
    pub error: Option<RefreshError>,
}

/// The writes that the keys of a document stand for.
pub open spec fn jwk_writes(keys: Seq<Jwk>) -> Seq<KeyWrite> {
    keys.map_values(|k: Jwk| k@)
}

/// Whether the components of every key of a document can be read.
pub open spec fn all_keys_decode(keys: Seq<Jwk>) -> bool {
    forall|i: int| 0 <= i < keys.len() ==> rsa_components_decode((#[trigger] keys[i]).n@, keys[i].e@)
}

/// How long the keys of a document may be cached, or why it is refused: the
/// header must be there and name a `max-age`, and every key must be readable.
pub open spec fn document_max_age(cache_control: Option<Seq<u8>>, keys: Seq<Jwk>) -> Result<
    u64,
    RefreshError,
> {
    match cache_control {
        None => Err(RefreshError::MissingCacheControl),
        Some(header) => match max_age_of(header) {
            Err(e) => Err(e),
            Ok(secs) => if all_keys_decode(keys) {
                Ok(secs)
            } else {
                Err(RefreshError::BadKey)
            },
        },
    }
}

/// The bytes of an optional header.
pub open spec fn header_bytes(header: Option<Vec<u8>>) -> Option<Seq<u8>> {
    match header {
        Some(h) => Some(h@),
        None => None,
    }
}

/// How long a fetched document may be cached, or why the round failed.
pub open spec fn round_max_age(fetched: Result<KeyDocument, RefreshError>) -> Result<
    u64,
    RefreshError,
> {
    match fetched {
        Err(e) => Err(e),
        Ok(doc) => document_max_age(header_bytes(doc.cache_control), doc.keys@),
    }
}

/// The store after a round: the keys of an accepted document are written in
/// turn, and a round that failed leaves the store as it was.
pub open spec fn store_after_round(
    before: Map<Seq<char>, RsaComponents>,
    fetched: Result<KeyDocument, RefreshError>,
) -> Map<Seq<char>, RsaComponents> {
    match fetched {
        Ok(doc) => if round_max_age(fetched) is Ok {
            keys_after(before, jwk_writes(doc.keys@))
        } else {
            before
        },
        Err(_) => before,
    }
}

/// The outcome of a round: the next one is due when the cached keys expire,
/// or ten seconds after a failure.
pub open spec fn outcome_of_round(fetched: Result<KeyDocument, RefreshError>) -> RefreshOutcome {
    match round_max_age(fetched) {
        Ok(secs) => RefreshOutcome { delay_secs: secs, error: None },
        Err(e) => RefreshOutcome { delay_secs: RETRY_DELAY_SECS, error: Some(e) },
    }
}

/// Builds the verification keys of a document. One key whose components
/// cannot be read spoils the whole document.
pub fn build_keys(keys: &Vec<Jwk>) -> (entries: Result<Vec<KeyEntry>, RefreshError>)
    ensures
        entries is Ok <==> all_keys_decode(keys@),
        entries matches Ok(es) ==> entry_writes(es@) == jwk_writes(keys@),
        entries matches Err(e) ==> e == RefreshError::BadKey,
{
    let mut entries: Vec<KeyEntry> = Vec::new();
    let mut i: usize = 0;
    while i < keys.len()
        invariant
            i <= keys@.len(),
            entries@.len() == i,
            forall|j: int| 0 <= j < i ==> rsa_components_decode((#[trigger] keys@[j]).n@, keys@[j].e@),
            forall|j: int| 0 <= j < i ==> (#[trigger] entries@[j])@ == keys@[j]@,
        decreases keys@.len() - i,
    {
        let jwk = &keys[i];
        match VerificationKey::from_components(jwk.n.as_str(), jwk.e.as_str()) {
            Ok(key) => {
                entries.push(KeyEntry { kid: jwk.kid.clone(), key });
            },
            Err(_) => {
                assert(!rsa_components_decode(keys@[i as int].n@, keys@[i as int].e@));
                return Err(RefreshError::BadKey);
            },
        }
        i = i + 1;
    }
    assert(entry_writes(entries@) =~= jwk_writes(keys@));
    Ok(entries)
}

/// Ends a round of refreshing: writes the keys of an accepted document to
/// the store and says when the next round is due.
pub fn refresh(store: &mut KeyStore, fetched: Result<KeyDocument, RefreshError>) -> (outcome:
    RefreshOutcome)
    requires
        old(store).well_formed(),
    ensures
        final(store).well_formed(),
        outcome == outcome_of_round(fetched),
        final(store)@ == store_after_round(old(store)@, fetched),
{
    let doc = match fetched {
        Ok(doc) => doc,
        Err(e) => {
            return RefreshOutcome { delay_secs: RETRY_DELAY_SECS, error: Some(e) };
        },
    };
    let header = match &doc.cache_control {
        Some(h) => h,
        None => {
            return RefreshOutcome {
                delay_secs: RETRY_DELAY_SECS,
                error: Some(RefreshError::MissingCacheControl),
            };
        },
    };
    let secs = match parse_max_age(header.as_slice()) {
        Ok(secs) => secs,
        Err(e) => {
            return RefreshOutcome { delay_secs: RETRY_DELAY_SECS, error: Some(e) };
        },
    };
    match build_keys(&doc.keys) {
        Ok(entries) => {
            store.upsert_all(entries);
            RefreshOutcome { delay_secs: secs, error: None }
        },
        Err(e) => RefreshOutcome { delay_secs: RETRY_DELAY_SECS, error: Some(e) },
    }
}

} // verus!
