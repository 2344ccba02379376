//! Account addresses, and searches in lists of them.

use vstd::prelude::*;

verus! {

/// A 256-bit account address, held as four 64-bit words. Two addresses are
/// the same where all four words are.
#[derive(Clone, Copy, Debug, PartialEq, Eq, Hash, Structural)]
pub struct Pubkey {
    pub w0: u64,
    pub w1: u64,
    pub w2: u64,
    pub w3: u64,
}

impl Pubkey {
    /// The address whose words are all zero. As the identifier of an asset
    /// it stands for the ledger's native asset.
    pub open spec fn zero() -> Pubkey {
        Pubkey { w0: 0, w1: 0, w2: 0, w3: 0 }
    }

    /// The address made of the four given words.
    pub fn new(w0: u64, w1: u64, w2: u64, w3: u64) -> (r: Pubkey)
        ensures
            r == (Pubkey { w0, w1, w2, w3 }),
    {
        Pubkey { w0, w1, w2, w3 }
    }

    /// Whether this is the all-zero address.
    pub fn is_default(&self) -> (r: bool)
        ensures
            r == (*self == Pubkey::zero()),
    {
        self.w0 == 0 && self.w1 == 0 && self.w2 == 0 && self.w3 == 0
    }
}

impl Default for Pubkey {
    /// The all-zero address.
    fn default() -> (r: Pubkey)
        ensures
            r == Pubkey::zero(),
    {
        Pubkey { w0: 0, w1: 0, w2: 0, w3: 0 }
    }
}

/// The place of the first occurrence of `key` in `keys`, if it occurs.
pub fn position(keys: &Vec<Pubkey>, key: Pubkey) -> (r: Option<usize>)
    ensures
        match r {
            Some(i) => keys@.index_of_first(key) == Some(i as int),
            None => keys@.index_of_first(key) is None,
        },
{
    let mut i: usize = 0;
    while i < keys.len()
        invariant
            i <= keys.len(),
            forall|j: int| 0 <= j < i ==> keys@[j] != key,
        decreases keys.len() - i,
    {
        if keys[i] == key {
            proof {
                assert(keys@[i as int] == key);
                keys@.index_of_first_ensures(key);
            }
            return Some(i);
        }
        i = i + 1;
    }
    proof {
        keys@.index_of_first_ensures(key);
    }
    None
}

/// Whether `key` occurs in `keys`.
pub fn contains(keys: &Vec<Pubkey>, key: Pubkey) -> (r: bool)
    ensures
        r == keys@.contains(key),
{
    proof {
        keys@.index_of_first_ensures(key);
    }
    position(keys, key).is_some()
}

/// Whether no address occurs twice in `keys`.
pub fn all_unique(keys: &Vec<Pubkey>) -> (r: bool)
    ensures
        r == keys@.no_duplicates(),
{
    let mut i: usize = 0;
    while i < keys.len()
        invariant
            i <= keys.len(),
            forall|a: int, b: int| 0 <= a < i && a < b < keys.len() ==> keys@[a] != keys@[b],
        decreases keys.len() - i,
    {
        let mut j: usize = i + 1;
        while j < keys.len()
            invariant
                i < j <= keys.len(),
                forall|b: int| i < b < j ==> keys@[i as int] != keys@[b],
            decreases keys.len() - j,
        {
            if keys[j] == keys[i] {
                return false;
            }
            j = j + 1;
        }
        i = i + 1;
    }
    true
}

/// A copy of `keys`.
pub fn copy_keys(keys: &Vec<Pubkey>) -> (r: Vec<Pubkey>)
    ensures
        r@ == keys@,
{
    let mut out: Vec<Pubkey> = Vec::new();
    let mut i: usize = 0;
    while i < keys.len()
        invariant
            i <= keys.len(),
            out@ == keys@.subrange(0, i as int),
        decreases keys.len() - i,
    {
        out.push(keys[i]);
        assert(keys@.subrange(0, i as int).push(keys@[i as int]) =~= keys@.subrange(0, i + 1));
        i = i + 1;
    }
    assert(keys@.subrange(0, keys@.len() as int) =~= keys@);
    out
}

} // verus!
