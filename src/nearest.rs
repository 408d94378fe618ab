use vstd::prelude::*;

verus! {

/// Key of a 32-bit IEEE 754 pattern under which patterns of ordered
/// numbers are ordered: a pattern with the sign bit set is flipped whole,
/// any other gets the sign bit set.
pub open spec fn key_of_bits(bits: u32) -> u32 {
    if bits >= 0x8000_0000 {
        (0xFFFF_FFFF - bits) as u32
    } else {
        (bits + 0x8000_0000) as u32
    }
}

/// Key of the bit pattern of a hit distance, for `nearest_hit`. Patterns
/// of non-negative numbers keep their order and lie above all patterns of
/// negative ones, which come in reverse order of their magnitude.
pub fn distance_key(bits: u32) -> (k: u32)
    ensures
        k == key_of_bits(bits),
{
    if bits >= 0x8000_0000 {
        0xFFFF_FFFF - bits
    } else {
        bits + 0x8000_0000
    }
}

/// Keys order bit patterns of numbers: among non-negative ones as their
/// patterns, among negative ones against their patterns, and every
/// non-negative above every negative.
pub proof fn lemma_key_order(a: u32, b: u32)
    ensures
        a < 0x8000_0000 && b < 0x8000_0000 ==> (key_of_bits(a) < key_of_bits(b) <==> a < b),
        a >= 0x8000_0000 && b >= 0x8000_0000 ==> (key_of_bits(a) < key_of_bits(b) <==> b < a),
        a >= 0x8000_0000 && b < 0x8000_0000 ==> key_of_bits(a) < key_of_bits(b),
{
}

/// Whether `i` holds the first of the smallest keys among the hits of `keys`
/// (an entry `None` is a primitive that the ray missed).
pub open spec fn is_nearest(keys: Seq<Option<u32>>, i: int) -> bool {
    &&& 0 <= i < keys.len()
    &&& keys[i] is Some
    &&& forall|j: int| 0 <= j < keys.len() && keys[j] is Some ==> keys[i]->0 <= keys[j]->0
    &&& forall|j: int| 0 <= j < i && keys[j] is Some ==> keys[i]->0 < keys[j]->0
}

/// Whether no entry of `keys` is a hit.
pub open spec fn all_missed(keys: Seq<Option<u32>>) -> bool {
    forall|j: int| 0 <= j < keys.len() ==> keys[j] is None
}

/// Picks the primitive that a ray meets first. `keys[i]` is `None` where
/// the ray misses primitive `i`, and otherwise an order-preserving key of
/// its hit distance. Every entry is looked at; a hit replaces the one held
/// only when its key is strictly smaller, so among equal keys the first in
/// order wins. `None` when the ray hits nothing.
pub fn nearest_hit(keys: &Vec<Option<u32>>) -> (r: Option<usize>)
    ensures
        r is None <==> all_missed(keys@),
        r matches Some(i) ==> is_nearest(keys@, i as int),
{
    let mut best: Option<usize> = None;
    let mut best_key: u32 = 0;
    let mut i: usize = 0;
    while i < keys.len()
        invariant
            i <= keys.len(),
            best is None <==> all_missed(keys@.take(i as int)),
            best matches Some(b) ==> {
                &&& is_nearest(keys@.take(i as int), b as int)
                &&& keys@[b as int] == Some(best_key)
            },
        decreases keys.len() - i,
    {
        if let Some(k) = keys[i] {
            let better = match best {
                None => true,
                Some(_) => k < best_key,
            };
            if better {
                best = Some(i);
                best_key = k;
            }
        }
        i += 1;
    }
    assert(keys@.take(i as int) =~= keys@);
    best
}

/// Of two primitives hit along one ray, the one at the strictly smaller
/// distance is chosen, and on equal distances the first of the two.
pub proof fn lemma_nearer_of_two_wins(keys: Seq<Option<u32>>, i: int, j: int, r: int)
    requires
        0 <= i < j < keys.len(),
        keys[i] is Some,
        keys[j] is Some,
        forall|k: int| 0 <= k < keys.len() && k != i && k != j ==> keys[k] is None,
        is_nearest(keys, r),
    ensures
        r == if keys[j]->0 < keys[i]->0 { j } else { i },
{
}

} // verus!
