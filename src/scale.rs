//! Cross-chain decimal rescaling of token amounts.
//!
//! Amounts are rescaled in 128-bit arithmetic and written into the 32-byte
//! big-endian field in which the remote chain keeps its 256-bit integers.
use vstd::prelude::*;

verus! {

/// `10` raised to `d`.
pub open spec fn pow10(d: nat) -> nat
    decreases d,
{
    if d == 0 {
        1
    } else {
        10 * pow10((d - 1) as nat)
    }
}

/// `256` raised to `d`.
pub open spec fn pow256(d: nat) -> nat
    decreases d,
{
    if d == 0 {
        1
    } else {
        256 * pow256((d - 1) as nat)
    }
}

/// The number that a byte string denotes when read big-endian.
pub open spec fn be_value(b: Seq<u8>) -> nat
    decreases b.len(),
{
    if b.len() == 0 {
        0
    } else {
        (b[0] as nat) * pow256((b.len() - 1) as nat) + be_value(b.drop_first())
    }
}

/// What `amount`, held with `from_decimals` decimals, stands for with
/// `to_decimals` decimals: multiplied by the power of ten when the target has
/// more decimals, divided (truncating, dust is lost) when it has fewer.
pub open spec fn scaled_value(amount: u64, from_decimals: u8, to_decimals: u8) -> nat {
    if to_decimals >= from_decimals {
        amount as nat * pow10((to_decimals - from_decimals) as nat)
    } else {
        amount as nat / pow10((from_decimals - to_decimals) as nat)
    }
}

/// Whether the rescaled amount fits the 128-bit width in which it is computed.
pub open spec fn scale_fits(amount: u64, from_decimals: u8, to_decimals: u8) -> bool {
    scaled_value(amount, from_decimals, to_decimals) <= u128::MAX
}

proof fn lemma_pow10_positive(d: nat)
    ensures
        pow10(d) >= 1,
    decreases d,
{
    if d > 0 {
        lemma_pow10_positive((d - 1) as nat);
    }
}

proof fn lemma_pow10_monotonic(a: nat, b: nat)
    requires
        a <= b,
    ensures
        pow10(a) <= pow10(b),
    decreases b,
{
    if a < b {
        lemma_pow10_monotonic(a, (b - 1) as nat);
        lemma_pow10_positive((b - 1) as nat);
    }
}

proof fn lemma_pow256_16()
    ensures
        pow256(16) == 0x1_0000_0000_0000_0000_0000_0000_0000_0000,
{
    reveal_with_fuel(pow256, 17);
}

/// Rescales in 128-bit arithmetic, one decimal at a time; `None` exactly when
/// the result does not fit 128 bits.
fn rescale(num: u64, from_decimals: u8, to_decimals: u8) -> (r: Option<u128>)
    ensures
        r is Some <==> scale_fits(num, from_decimals, to_decimals),
        r matches Some(v) ==> v == scaled_value(num, from_decimals, to_decimals),
{
    let mut lo: u128 = num as u128;
    if to_decimals >= from_decimals {
        let d: u8 = to_decimals - from_decimals;
        let mut k: u8 = 0;
        proof {
            assert(pow10(0) == 1);
        }
        while k < d
            invariant
                k <= d,
                d == to_decimals - from_decimals,
                lo == num as nat * pow10(k as nat),
            decreases d - k,
        {
            let ghost p = pow10(k as nat);
            proof {
                lemma_pow10_monotonic((k + 1) as nat, d as nat);
                assert(pow10((k + 1) as nat) == 10 * p);
                assert(lo * 10 == num as nat * pow10((k + 1) as nat)) by (nonlinear_arith)
                    requires
                        lo == num as nat * p,
                        pow10((k + 1) as nat) == 10 * p,
                ;
                assert(num as nat * pow10((k + 1) as nat) <= num as nat * pow10(d as nat))
                    by (nonlinear_arith)
                    requires
                        pow10((k + 1) as nat) <= pow10(d as nat),
                ;
            }
            match lo.checked_mul(10) {
                Some(v) => {
                    lo = v;
                },
                None => {
                    return None;
                },
            }
            k = k + 1;
        }
        Some(lo)
    } else {
        let d: u8 = from_decimals - to_decimals;
        let mut k: u8 = 0;
        proof {
            assert(pow10(0) == 1);
        }
        while k < d
            invariant
                k <= d,
                d == from_decimals - to_decimals,
                lo == num as nat / pow10(k as nat),
            decreases d - k,
        {
            proof {
                lemma_pow10_positive(k as nat);
                let p = pow10(k as nat);
                assert(pow10((k + 1) as nat) == p * 10);
                vstd::arithmetic::div_mod::lemma_div_denominator(num as int, p as int, 10);
            }
            lo = lo / 10;
            k = k + 1;
        }
        proof {
            lemma_pow10_positive(d as nat);
            assert(lo <= num) by {
                vstd::arithmetic::div_mod::lemma_div_is_ordered_by_denominator(
                    num as int,
                    1,
                    pow10(d as nat) as int,
                );
            }
        }
        Some(lo)
    }
}

proof fn lemma_be_value_step(s: Seq<u8>, b: u8, t: Seq<u8>)
    requires
        s.len() == t.len() + 1,
        s[0] == b,
        s.drop_first() == t,
    ensures
        be_value(s) == (b as nat) * pow256(t.len()) + be_value(t),
{
}

/// `v` in 32 bytes, big-endian, padded with zeros on the left.
pub fn u128_to_be32(v: u128) -> (r: [u8; 32])
    ensures
        be_value(r@) == v,
{
    let mut bytes: [u8; 32] = [0u8; 32];
    let mut rest: u128 = v;
    let mut i: usize = 32;
    let ghost mut p: nat = 1;
    proof {
        assert(bytes@.subrange(32, 32).len() == 0);
    }
    while i > 0
        invariant
            i <= 32,
            p == pow256((32 - i) as nat),
            v == rest * p + be_value(bytes@.subrange(i as int, 32)),
            i <= 16 ==> rest == 0,
        decreases i,
    {
        let b: u8 = (rest % 256) as u8;
        let q: u128 = rest / 256;
        let ghost old_tail = bytes@.subrange(i as int, 32);
        bytes[i - 1] = b;
        let ghost new_tail = bytes@.subrange(i - 1, 32);
        proof {
            assert(new_tail.drop_first() =~= old_tail);
            lemma_be_value_step(new_tail, b, old_tail);
            assert(rest * p == q * (p * 256) + b * p) by (nonlinear_arith)
                requires
                    rest == q * 256 + b,
            ;
            assert(pow256((33 - i) as nat) == 256 * p);
            if i == 17 {
                lemma_pow256_16();
                assert(q * (p * 256) <= v);
                assert(q == 0) by (nonlinear_arith)
                    requires
                        q * (p * 256) <= v,
                        v <= u128::MAX,
                        p * 256 == 0x1_0000_0000_0000_0000_0000_0000_0000_0000,
                ;
            }
        }
        rest = q;
        i = i - 1;
        proof {
            p = p * 256;
        }
    }
    proof {
        assert(bytes@.subrange(0, 32) =~= bytes@);
    }
    bytes
}

/// Rescales `num` from `from_decimals` to `to_decimals` decimals into a
/// 32-byte big-endian field; `None` when the rescaled amount overflows the
/// 128-bit computation, which must abort the transfer rather than wrap.
pub fn checked_scale_amount(num: u64, from_decimals: u8, to_decimals: u8) -> (r: Option<[u8; 32]>)
    ensures
        r is Some <==> scale_fits(num, from_decimals, to_decimals),
        r matches Some(b) ==> be_value(b@) == scaled_value(num, from_decimals, to_decimals),
{
    match rescale(num, from_decimals, to_decimals) {
        Some(v) => Some(u128_to_be32(v)),
        None => None,
    }
}

/// Rescales `num` from `from_decimals` to `to_decimals` decimals into a
/// 32-byte big-endian field: multiplied by `10^(to - from)` when scaling up,
/// divided by `10^(from - to)` with truncation when scaling down.
pub fn scale_amount(num: u64, from_decimals: u8, to_decimals: u8) -> (r: [u8; 32])
    requires
        scale_fits(num, from_decimals, to_decimals),
    ensures
        to_decimals >= from_decimals ==> be_value(r@) == num as nat * pow10(
            (to_decimals - from_decimals) as nat,
        ),
        to_decimals < from_decimals ==> be_value(r@) == num as nat / pow10(
            (from_decimals - to_decimals) as nat,
        ),
{
    match checked_scale_amount(num, from_decimals, to_decimals) {
        Some(b) => b,
        None => [0u8; 32],
    }
}

} // verus!
