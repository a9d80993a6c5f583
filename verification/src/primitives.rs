use vstd::prelude::*;

verus! {

/// The first `n` bytes of `data`, copied.
fn slice_prefix(data: &[u8], n: usize) -> (res: Vec<u8>)
    requires
        n <= data@.len(),
    ensures
        res@ == data@.subrange(0, n as int),
{
    let mut res: Vec<u8> = Vec::new();
    let mut i: usize = 0;
    while i < n
        invariant
            i <= n,
            n <= data@.len(),
            res@ == data@.subrange(0, i as int),
        decreases n - i,
    {
        res.push(data[i]);
        i = i + 1;
    }
    res
}

/// A 20-byte Ethereum account or contract address.
pub type Address = [u8; 20];

/// A 32-byte transaction hash.
pub type TxHash = [u8; 32];

/// 2^64, the weight of one limb of a [`Uint256`].
pub open spec fn limb_base() -> nat {
    0x1_0000_0000_0000_0000nat
}

/// The number that the bytes `s` stand for, most significant byte first.
pub open spec fn be_value(s: Seq<u8>) -> nat
    decreases s.len(),
{
    if s.len() == 0 {
        0
    } else {
        be_value(s.drop_last()) * 256 + s.last() as nat
    }
}

/// 256 to the power `n`.
pub open spec fn pow256(n: nat) -> nat
    decreases n,
{
    if n == 0 {
        1
    } else {
        256 * pow256((n - 1) as nat)
    }
}

/// Bytes followed by more bytes: the first part is shifted by the length of
/// the second.
pub proof fn lemma_be_value_append(a: Seq<u8>, b: Seq<u8>)
    ensures
        be_value(a + b) == be_value(a) * pow256(b.len()) + be_value(b),
    decreases b.len(),
{
    if b.len() == 0 {
        assert(a + b =~= a);
        assert(pow256(0) == 1);
        assert(be_value(b) == 0);
        assert(be_value(a) * 1 == be_value(a)) by (nonlinear_arith);
    } else {
        let b0 = b.drop_last();
        assert((a + b).drop_last() =~= a + b0);
        assert((a + b).last() == b.last());
        lemma_be_value_append(a, b0);
        let x = be_value(a);
        let p = pow256(b0.len());
        assert(pow256(b.len()) == 256 * p);
        assert((x * p + be_value(b0)) * 256 + b.last() as nat == x * (256 * p) + (be_value(b0)
            * 256 + b.last() as nat)) by (nonlinear_arith);
    }
}

/// Powers of 256 grow with the exponent.
pub proof fn lemma_pow256_monotone(i: nat, j: nat)
    requires
        i <= j,
    ensures
        pow256(i) <= pow256(j),
    decreases j,
{
    if i < j {
        lemma_pow256_monotone(i, (j - 1) as nat);
    }
}

/// A number written in `n` bytes is below 256 to the power `n`.
pub proof fn lemma_be_value_bound(s: Seq<u8>)
    ensures
        be_value(s) < pow256(s.len()),
    decreases s.len(),
{
    if s.len() > 0 {
        lemma_be_value_bound(s.drop_last());
        let x = be_value(s.drop_last());
        let p = pow256(s.drop_last().len());
        assert(x + 1 <= p);
        assert(x * 256 + (s.last() as nat) < 256 * p) by (nonlinear_arith)
            requires
                x + 1 <= p,
                s.last() < 256,
        ;
    }
}

/// Reads eight bytes from `start` as a big-endian 64-bit number.
fn be_u64(bytes: &[u8], start: usize) -> (res: u64)
    requires
        start + 8 <= bytes@.len(),
    ensures
        res as nat == be_value(bytes@.subrange(start as int, start + 8)),
{
    let mut acc: u64 = 0;
    let mut i: usize = 0;
    while i < 8
        invariant
            i <= 8,
            start + 8 <= bytes@.len(),
            bytes@.len() == bytes.len(),
            acc as nat == be_value(bytes@.subrange(start as int, start + i)),
        decreases 8 - i,
    {
        let ghost prefix = bytes@.subrange(start as int, start + i);
        let ghost next = bytes@.subrange(start as int, start + i + 1);
        proof {
            lemma_be_value_bound(prefix);
            lemma_pow256_monotone(i as nat, 7);
            assert(pow256(7) == 72057594037927936) by {
                reveal_with_fuel(pow256, 8);
            }
            assert(next.drop_last() =~= prefix);
            assert(acc < 72057594037927936);
        }
        acc = acc * 256 + bytes[start + i] as u64;
        i = i + 1;
    }
    acc
}

/// An unsigned 256-bit integer stored as four 64-bit limbs, least significant
/// limb first (the layout of `ruint::Uint<256, 4>`).
#[derive(Clone, Copy, Debug)]
pub struct Uint256 {
    pub limbs: [u64; 4],
}

impl Uint256 {
    /// The number that the limbs stand for.
    pub open spec fn value(self) -> nat {
        self.limbs[0] as nat + limb_base() * (self.limbs[1] as nat + limb_base() * (
        self.limbs[2] as nat + limb_base() * self.limbs[3] as nat))
    }

    /// Widens a `u128`, as `U256::from(u128)` does: the low 64 bits become the
    /// first limb and the high 64 bits the second.
    pub fn from_u128(v: u128) -> (res: Uint256)
        ensures
            res.value() == v as nat,
    {
        let low: u64 = v as u64;
        let high: u64 = (v >> 64u32) as u64;
        assert(low == v % 0x1_0000_0000_0000_0000) by (bit_vector)
            requires
                low == v as u64,
        ;
        assert(high == v / 0x1_0000_0000_0000_0000) by (bit_vector)
            requires
                high == (v >> 64u32) as u64,
        ;
        let res = Uint256 { limbs: [low, high, 0, 0] };
        assert(res.value() == low + limb_base() * high);
        res
    }

    /// Reads a 32-byte big-endian word, as `U256::from_be_slice` does.
    pub fn from_be_word(word: &[u8]) -> (res: Uint256)
        requires
            word@.len() == 32,
        ensures
            res.value() == be_value(word@),
    {
        let l3 = be_u64(word, 0);
        let l2 = be_u64(word, 8);
        let l1 = be_u64(word, 16);
        let l0 = be_u64(word, 24);
        let res = Uint256 { limbs: [l0, l1, l2, l3] };
        proof {
            let w = word@;
            let a3 = w.subrange(0, 8);
            let a2 = w.subrange(8, 16);
            let a1 = w.subrange(16, 24);
            let a0 = w.subrange(24, 32);
            assert(w =~= ((a3 + a2) + a1) + a0);
            lemma_be_value_append(a3, a2);
            lemma_be_value_append(a3 + a2, a1);
            lemma_be_value_append((a3 + a2) + a1, a0);
            assert(pow256(8) == limb_base()) by {
                reveal_with_fuel(pow256, 9);
            }
            let b = limb_base();
            assert(res.value() == l0 + b * (l1 + b * (l2 + b * l3)));
            assert(((l3 * b + l2) * b + l1) * b + l0 == l0 + b * (l1 + b * (l2 + b * l3)))
                by (nonlinear_arith);
        }
        res
    }

    /// Decodes a `uint256` from ABI-encoded data: the first 32-byte word, or
    /// nothing where the data is shorter.
    pub fn decode_abi_word(data: &[u8]) -> (res: Option<Uint256>)
        ensures
            data@.len() < 32 <==> res is None,
            res matches Some(v) ==> v.value() == be_value(data@.subrange(0, 32)),
    {
        if data.len() < 32 {
            None
        } else {
            let word = slice_prefix(data, 32);
            Some(Self::from_be_word(word.as_slice()))
        }
    }

    /// Decodes an indexed `uint256` event topic: exactly 32 bytes.
    pub fn decode_topic(topic: &[u8]) -> (res: Option<Uint256>)
        ensures
            topic@.len() != 32 <==> res is None,
            res matches Some(v) ==> v.value() == be_value(topic@),
    {
        if topic.len() != 32 {
            None
        } else {
            Some(Self::from_be_word(topic))
        }
    }

    /// Compares two numbers limb by limb.
    pub fn equals(&self, other: &Uint256) -> (res: bool)
        ensures
            res == (self.limbs@ == other.limbs@),
    {
        let eq = self.limbs[0] == other.limbs[0] && self.limbs[1] == other.limbs[1]
            && self.limbs[2] == other.limbs[2] && self.limbs[3] == other.limbs[3];
        proof {
            if eq {
                assert(self.limbs@ =~= other.limbs@);
            }
        }
        eq
    }
}

} // verus!
