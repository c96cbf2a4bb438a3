//! Randomness from ORAO's VRF and the numbers a ticket draws from it.
use vstd::prelude::*;
use anchor_lang::AccountDeserialize;
use orao_solana_vrf::state::Randomness;

verus! {

/// Whether ORAO's `Randomness::try_deserialize` accepts the bytes of an account
/// (an 8-byte discriminator of ORAO's `Randomness` account, then its fields in Borsh).
pub uninterp spec fn vrf_randomness_account_parses(data: Seq<u8>) -> bool;

/// The 64 randomness bytes that a randomness account holds, where it can be read.
/// They follow the discriminator (8 bytes) and the seed (32 bytes).
pub open spec fn account_randomness(data: Seq<u8>) -> Option<Seq<u8>> {
    if vrf_randomness_account_parses(data) {
        Some(data.subrange(40, 104))
    } else {
        None
    }
}

/// Reads a randomness account with ORAO's `Randomness::try_deserialize` and keeps its
/// `randomness` field. Which bytes it accepts is named, not stated; the contract states
/// that it refuses fewer than 8 bytes, and that what it accepts is at least 104 bytes long
/// with the field at bytes 40..104 (Borsh lays out the discriminator, `seed: [u8; 32]`
/// and `randomness: [u8; 64]` in that order). Which Anchor error comes back is not stated.
#[verifier::external_body]
pub(crate) fn read_randomness_account(data: &[u8]) -> (r: Result<[u8; 64], anchor_lang::error::Error>)
    ensures
        r is Ok <==> vrf_randomness_account_parses(data@),
        data@.len() < 8 ==> r is Err,
        r is Ok ==> data@.len() >= 104,
        r matches Ok(v) ==> v@ == data@.subrange(40, 104),
{
    let mut buf: &[u8] = data;
    Randomness::try_deserialize(&mut buf).map(|account| account.randomness)
}

/// Whether the randomness has been fulfilled: it is not all zero.
pub open spec fn is_fulfilled(randomness: Seq<u8>) -> bool {
    exists|i: int| 0 <= i < randomness.len() && randomness[i] != 0
}

/// The fulfilled randomness, or `None` while it is all zero.
pub fn fulfilled(randomness: &[u8; 64]) -> (r: Option<[u8; 64]>)
    ensures
        is_fulfilled(randomness@) ==> r == Some(*randomness),
        !is_fulfilled(randomness@) ==> r is None,
{
    let mut i: usize = 0;
    while i < 64
        invariant
            0 <= i <= 64,
            randomness@.len() == 64,
            forall|j: int| 0 <= j < i ==> randomness@[j] == 0,
        decreases 64 - i,
    {
        if randomness[i] != 0 {
            return Some(*randomness);
        }
        i = i + 1;
    }
    None
}

/// The number that little-endian bytes stand for.
pub open spec fn le_value(bytes: Seq<u8>) -> nat
    decreases bytes.len(),
{
    if bytes.len() == 0 {
        0
    } else {
        bytes[0] as nat + 256 * le_value(bytes.drop_first())
    }
}

/// `u64::from_le_bytes`: the number that eight little-endian bytes stand for.
#[verifier::external_body]
fn u64_from_le_bytes(bytes: [u8; 8]) -> (r: u64)
    ensures
        r == le_value(bytes@),
{
    u64::from_le_bytes(bytes)
}

/// The digit that a randomness draws at a position: its `index`-th 8-byte word,
/// read little-endian, modulo 10.
pub open spec fn digit(randomness: Seq<u8>, index: int) -> int {
    (le_value(randomness.subrange(8 * index, 8 * index + 8)) % 10) as int
}

/// The digit at `index` (0 to 7) of a randomness.
pub fn get_value(randomness: &[u8; 64], index: u8) -> (r: u8)
    requires
        index < 8,
    ensures
        r == digit(randomness@, index as int),
        r < 10,
{
    let s: usize = index as usize * 8;
    let word: [u8; 8] = [
        randomness[s],
        randomness[s + 1],
        randomness[s + 2],
        randomness[s + 3],
        randomness[s + 4],
        randomness[s + 5],
        randomness[s + 6],
        randomness[s + 7],
    ];
    assert(word@ =~= randomness@.subrange(8 * index as int, 8 * index as int + 8));
    let v = u64_from_le_bytes(word);
    (v % 10) as u8
}

/// Whether `k` is the number of leading digits, of six, that two randomness values share:
/// the first `k` agree and, below six, the next one differs.
pub open spec fn is_leading_count(ticket: Seq<u8>, lottery: Seq<u8>, k: int) -> bool {
    &&& 0 <= k <= 6
    &&& forall|j: int| 0 <= j < k ==> digit(ticket, j) == digit(lottery, j)
    &&& k < 6 ==> digit(ticket, k) != digit(lottery, k)
}

/// How many of the six digits, from the first on, a ticket's randomness shares with the
/// lottery's before the first that differs.
pub open spec fn leading_matches(ticket: Seq<u8>, lottery: Seq<u8>) -> int {
    choose|k: int| is_leading_count(ticket, lottery, k)
}

/// Counts the leading digits that two randomness values share, at most six.
pub fn count_leading_matches(ticket: &[u8; 64], lottery: &[u8; 64]) -> (r: u8)
    ensures
        r <= 6,
        forall|j: int| 0 <= j < r ==> digit(ticket@, j) == digit(lottery@, j),
        r < 6 ==> digit(ticket@, r as int) != digit(lottery@, r as int),
        r == leading_matches(ticket@, lottery@),
{
    let mut n: u8 = 0;
    while n < 6
        invariant
            n <= 6,
            forall|j: int| 0 <= j < n ==> digit(ticket@, j) == digit(lottery@, j),
        ensures
            n <= 6,
            forall|j: int| 0 <= j < n ==> digit(ticket@, j) == digit(lottery@, j),
            n < 6 ==> digit(ticket@, n as int) != digit(lottery@, n as int),
        decreases 6 - n,
    {
        if get_value(ticket, n) != get_value(lottery, n) {
            break;
        }
        n = n + 1;
    }
    proof {
        assert(is_leading_count(ticket@, lottery@, n as int));
        let k = leading_matches(ticket@, lottery@);
        assert(is_leading_count(ticket@, lottery@, k));
        if k < n {
            assert(digit(ticket@, k) == digit(lottery@, k));
        } else if k > n {
            assert(digit(ticket@, n as int) == digit(lottery@, n as int));
        }
    }
    n
}

} // verus!
