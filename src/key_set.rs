//! Turns an ordered list of verify keys into the index-keyed map that
//! threshold-signature logic consumes: the key at position `i` gets index `i`.
use std::collections::BTreeMap;
use vstd::prelude::*;

verus! {

/// The index of a key within an account's key set.
pub type KeyIndex = u8;

/// The number of distinct key indices.
pub const KEY_INDEX_COUNT: usize = 256;

/// A public key that verifies signatures of an account or credential holder.
#[derive(Clone, Copy, Debug, PartialEq, Eq)]
pub enum VerifyKey {
    Ed25519VerifyKey([u8; 32]),
}

/// Why a key list could not be indexed.
#[derive(Clone, Copy, Debug, PartialEq, Eq, Structural)]
pub enum KeyMapError {
    /// The list holds more keys than there are indices.
    IndexOverflow,
}

/// The map that gives each key of `keys` its position as index.
pub open spec fn key_map_spec(keys: Seq<VerifyKey>) -> Map<KeyIndex, VerifyKey> {
    Map::new(|i: KeyIndex| (i as int) < keys.len(), |i: KeyIndex| keys[i as int])
}

/// Assigns index `i` to the `i`-th key, keeping every key as it is, also
/// where the same key stands more than once. A list longer than the number
/// of indices is refused.
pub fn build_key_map(keys: &Vec<VerifyKey>) -> (r: Result<BTreeMap<KeyIndex, VerifyKey>, KeyMapError>)
    ensures
        keys@.len() > KEY_INDEX_COUNT <==> r == Err::<BTreeMap<KeyIndex, VerifyKey>, KeyMapError>(
            KeyMapError::IndexOverflow,
        ),
        r matches Ok(m) ==> m@ == key_map_spec(keys@),
{
    if keys.len() > KEY_INDEX_COUNT {
        return Err(KeyMapError::IndexOverflow);
    }
    let mut m: BTreeMap<KeyIndex, VerifyKey> = BTreeMap::new();
    let mut i: usize = 0;
    while i < keys.len()
        invariant
            i <= keys@.len() <= KEY_INDEX_COUNT,
            m@ == key_map_spec(keys@.subrange(0, i as int)),
        decreases keys@.len() - i,
    {
        let index = i as u8;
        m.insert(index, keys[i]);
        i = i + 1;
        assert(m@ =~= key_map_spec(keys@.subrange(0, i as int)));
    }
    assert(keys@.subrange(0, i as int) =~= keys@);
    Ok(m)
}

/// The indices below `n`.
pub open spec fn indices_below(n: nat) -> Set<KeyIndex> {
    Set::new(|i: KeyIndex| (i as int) < n)
}

proof fn lemma_indices_below_len(n: nat)
    requires
        n <= KEY_INDEX_COUNT,
    ensures
        indices_below(n).finite(),
        indices_below(n).len() == n,
    decreases n,
{
    if n == 0 {
        assert(indices_below(n) =~= Set::empty());
    } else {
        lemma_indices_below_len((n - 1) as nat);
        assert(indices_below(n) =~= indices_below((n - 1) as nat).insert((n - 1) as KeyIndex));
    }
}

/// A list of `n` keys, `n` no more than the number of indices, is indexed
/// by exactly `n` entries: the indices `0` to `n - 1`, the `i`-th holding the
/// `i`-th key of the list.
pub proof fn lemma_key_map_is_positional(keys: Seq<VerifyKey>)
    requires
        keys.len() <= KEY_INDEX_COUNT,
    ensures
        key_map_spec(keys).dom() == indices_below(keys.len()),
        key_map_spec(keys).len() == keys.len(),
        forall|i: KeyIndex| (i as int) < keys.len() ==> #[trigger] key_map_spec(keys)[i] == keys[i as int],
{
    assert(key_map_spec(keys).dom() =~= indices_below(keys.len()));
    lemma_indices_below_len(keys.len());
}

} // verus!
