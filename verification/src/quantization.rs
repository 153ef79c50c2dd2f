//! Vector quantization: the quantization strategy and binary (sign-bit)
//! quantization packed into `u64` words, compared by Hamming distance.

use vstd::prelude::*;

verus! {

/// Quantization strategy for stored vectors.
#[derive(Debug, Clone, Copy, PartialEq, Eq, Structural)]
pub enum Quantization {
    /// Vectors are stored unquantized.
    Unquantized,
    Scalar,
    Binary,
}

impl Default for Quantization {
    fn default() -> (r: Self)
        ensures
            r == Quantization::Unquantized,
    {
        Quantization::Unquantized
    }
}

/// Scalar quantizer: maps each dimension to a byte.
pub struct ScalarQuantizer;

/// Binary quantizer: sign-bit quantization packed into u64 words.
pub struct BinaryQuantizer;

/// Number of set bits of `x`.
pub open spec fn popcount(x: nat) -> nat
    decreases x,
{
    if x == 0 {
        0
    } else {
        (x % 2) + popcount(x / 2)
    }
}

pub open spec fn two_pow(k: nat) -> nat
    decreases k,
{
    if k == 0 {
        1
    } else {
        2 * two_pow((k - 1) as nat)
    }
}

proof fn lemma_popcount_bound(x: nat, k: nat)
    requires
        x < two_pow(k),
    ensures
        popcount(x) <= k,
    decreases k,
{
    if k > 0 && x > 0 {
        lemma_popcount_bound(x / 2, (k - 1) as nat);
    }
}

proof fn lemma_popcount_u64(x: u64)
    ensures
        popcount(x as nat) <= 64,
{
    assert(two_pow(64) == 0x1_0000_0000_0000_0000) by {
        reveal_with_fuel(two_pow, 65);
    }
    lemma_popcount_bound(x as nat, 64);
}

/// The word at index `i`, or 0 past the end: a shorter vector behaves as if
/// padded with zero words.
pub open spec fn word_at(a: Seq<u64>, i: int) -> u64 {
    if 0 <= i < a.len() {
        a[i]
    } else {
        0
    }
}

/// Number of differing bits in the first `n` words of the zero-padded vectors.
pub open spec fn hamming_prefix(a: Seq<u64>, b: Seq<u64>, n: nat) -> nat
    decreases n,
{
    if n == 0 {
        0
    } else {
        hamming_prefix(a, b, (n - 1) as nat)
            + popcount((word_at(a, n - 1) ^ word_at(b, n - 1)) as nat)
    }
}

pub open spec fn padded_len(a: Seq<u64>, b: Seq<u64>) -> nat {
    if a.len() >= b.len() {
        a.len()
    } else {
        b.len()
    }
}

/// Hamming distance between two packed vectors: the number of differing
/// bits, the shorter vector padded with zero words.
pub open spec fn hamming_spec(a: Seq<u64>, b: Seq<u64>) -> nat {
    hamming_prefix(a, b, padded_len(a, b))
}

proof fn lemma_hamming_prefix_bound(a: Seq<u64>, b: Seq<u64>, n: nat)
    ensures
        hamming_prefix(a, b, n) <= 64 * n,
    decreases n,
{
    if n > 0 {
        lemma_hamming_prefix_bound(a, b, (n - 1) as nat);
        lemma_popcount_u64(word_at(a, n - 1) ^ word_at(b, n - 1));
    }
}

/// The number of set bits of `x`, counted bit by bit.
fn count_ones(x: u64) -> (r: u32)
    ensures
        r as nat == popcount(x as nat),
{
    proof {
        lemma_popcount_u64(x);
    }
    let mut y: u64 = x;
    let mut c: u32 = 0;
    while y > 0
        invariant
            c as nat + popcount(y as nat) == popcount(x as nat),
            popcount(x as nat) <= 64,
        decreases y,
    {
        let bit: u32 = (y % 2) as u32;
        c = c + bit;
        y = y / 2;
    }
    c
}

/// Bit `k` (0 = least significant) of `x`, as 0 or 1.
pub open spec fn bit_of(x: u64, k: int) -> u64 {
    (x >> (k as u64)) & 1
}

impl BinaryQuantizer {
    /// Sign-bit packing: bit `i` of the result (bit `i % 64` of word `i / 64`)
    /// is set exactly when `positive[i]` holds; unused high bits of the last
    /// word are 0. The float comparison that produces `positive` happens at
    /// the caller.
    pub fn pack_sign_bits(positive: &[bool]) -> (r: Vec<u64>)
        ensures
            r@.len() == (positive@.len() + 63) / 64,
            forall|i: int| 0 <= i < positive@.len() ==>
                (#[trigger] bit_of(r@[i / 64], i % 64) == 1) == positive@[i],
            forall|w: int, j: int| 0 <= w < r@.len() && 0 <= j < 64 && w * 64 + j >= positive@.len()
                ==> #[trigger] bit_of(r@[w], j) == 0,
    {
        let n = positive.len();
        let num_words = n / 64 + if n % 64 == 0 { 0 } else { 1 };
        let mut result: Vec<u64> = Vec::new();
        let mut w: usize = 0;
        while w < num_words
            invariant
                n == positive@.len(),
                num_words == (n + 63) / 64,
                w <= num_words,
                result@.len() == w,
                forall|v: int, j: int| 0 <= v < w && 0 <= j < 64 ==>
                    (#[trigger] bit_of(result@[v], j) == 1) == (v * 64 + j < n && positive@[v * 64 + j]),
            decreases num_words - w,
        {
            let mut word: u64 = 0;
            let mut j: usize = 0;
            proof {
                assert forall|k: int| 0 <= k < 64 implies #[trigger] bit_of(word, k) == 0 by {
                    let kk = k as u64;
                    assert((0u64 >> kk) & 1 == 0) by (bit_vector);
                }
            }
            while j < 64
                invariant
                    n == positive@.len(),
                    w < num_words,
                    num_words == (n + 63) / 64,
                    j <= 64,
                    forall|k: int| 0 <= k < j ==>
                        (#[trigger] bit_of(word, k) == 1) == (w * 64 + k < n && positive@[w * 64 + k]),
                    forall|k: int| j <= k < 64 ==> #[trigger] bit_of(word, k) == 0,
                decreases 64 - j,
            {
                let idx = w * 64 + j;
                let bit = idx < n && positive[idx];
                let ghost old_word = word;
                if bit {
                    word = word | (1u64 << (j as u64));
                }
                proof {
                    let jj = j as u64;
                    assert forall|k: int| 0 <= k < 64 implies
                        #[trigger] bit_of(word, k) == (if k == j { if bit { 1u64 } else { 0u64 } } else {
                            bit_of(old_word, k)
                        }) by {
                        let kk = k as u64;
                        let ow = old_word;
                        if bit {
                            assert(((ow | (1u64 << jj)) >> kk) & 1 == (if kk == jj { 1u64 } else {
                                (ow >> kk) & 1
                            })) by (bit_vector)
                                requires
                                    jj < 64,
                                    kk < 64,
                            ;
                        } else {
                            assert(k != j ==> bit_of(word, k) == bit_of(old_word, k));
                        }
                    }
                }
                j = j + 1;
            }
            result.push(word);
            w = w + 1;
        }
        proof {
            assert forall|i: int| 0 <= i < n implies
                (#[trigger] bit_of(result@[i / 64], i % 64) == 1) == positive@[i] by {
                assert(0 <= i / 64 < num_words);
                assert((i / 64) * 64 + i % 64 == i);
            }
            assert forall|v: int, j: int| 0 <= v < result@.len() && 0 <= j < 64 && v * 64 + j >= n
                implies #[trigger] bit_of(result@[v], j) == 0 by {
                let x = result@[v];
                let kk = j as u64;
                assert((x >> kk) & 1 <= 1) by (bit_vector);
            }
        }
        result
    }

    /// Hamming distance between two binary-quantized vectors: the number of
    /// differing bits; extra words of the longer slice count all their set
    /// bits.
    pub fn hamming_distance(a: &[u64], b: &[u64]) -> (r: u32)
        requires
            64 * padded_len(a@, b@) <= u32::MAX,
        ensures
            r as nat == hamming_spec(a@, b@),
    {
        let min_len = if a.len() < b.len() { a.len() } else { b.len() };
        let max_len = if a.len() < b.len() { b.len() } else { a.len() };
        let mut dist: u32 = 0;
        let mut i: usize = 0;
        while i < min_len
            invariant
                min_len <= a@.len(),
                min_len <= b@.len(),
                max_len == padded_len(a@, b@),
                min_len <= max_len,
                64 * max_len <= u32::MAX,
                i <= min_len,
                dist as nat == hamming_prefix(a@, b@, i as nat),
            decreases min_len - i,
        {
            proof {
                lemma_hamming_prefix_bound(a@, b@, (i + 1) as nat);
            }
            dist = dist + count_ones(a[i] ^ b[i]);
            i = i + 1;
        }
        let longer = if a.len() > b.len() { a } else { b };
        proof {
            assert forall|k: int| min_len <= k < max_len implies
                #[trigger] longer@[k] == (word_at(a@, k) ^ word_at(b@, k)) by {
                lemma_xor_zero(longer@[k]);
            }
        }
        while i < max_len
            invariant
                longer@.len() == max_len,
                max_len == padded_len(a@, b@),
                min_len <= i <= max_len,
                64 * max_len <= u32::MAX,
                forall|k: int| min_len <= k < max_len ==>
                    #[trigger] longer@[k] == (word_at(a@, k) ^ word_at(b@, k)),
                dist as nat == hamming_prefix(a@, b@, i as nat),
            decreases max_len - i,
        {
            proof {
                lemma_hamming_prefix_bound(a@, b@, (i + 1) as nat);
            }
            dist = dist + count_ones(longer[i]);
            i = i + 1;
        }
        dist
    }
}

proof fn lemma_xor_zero(x: u64)
    ensures
        x ^ 0 == x,
        0 ^ x == x,
        x ^ x == 0,
{
    assert(x ^ 0 == x && 0 ^ x == x && x ^ x == 0) by (bit_vector);
}

/// Law: a vector is at Hamming distance 0 from itself.
pub proof fn law_hamming_identity(a: Seq<u64>)
    ensures
        hamming_spec(a, a) == 0,
{
    lemma_hamming_identity_prefix(a, a.len());
}

proof fn lemma_hamming_identity_prefix(a: Seq<u64>, n: nat)
    ensures
        hamming_prefix(a, a, n) == 0,
    decreases n,
{
    if n > 0 {
        lemma_hamming_identity_prefix(a, (n - 1) as nat);
        lemma_xor_zero(word_at(a, n - 1));
    }
}

/// Law: Hamming distance is symmetric.
pub proof fn law_hamming_symmetric(a: Seq<u64>, b: Seq<u64>)
    ensures
        hamming_spec(a, b) == hamming_spec(b, a),
{
    lemma_hamming_symmetric_prefix(a, b, padded_len(a, b));
}

proof fn lemma_hamming_symmetric_prefix(a: Seq<u64>, b: Seq<u64>, n: nat)
    ensures
        hamming_prefix(a, b, n) == hamming_prefix(b, a, n),
    decreases n,
{
    if n > 0 {
        lemma_hamming_symmetric_prefix(a, b, (n - 1) as nat);
        let x = word_at(a, n - 1);
        let y = word_at(b, n - 1);
        assert(x ^ y == y ^ x) by (bit_vector);
    }
}

} // verus!
