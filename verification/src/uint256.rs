//! A 256-bit unsigned integer held as four 64-bit limbs, with exact
//! natural-number contracts on every operation the pipeline performs:
//! comparison, checked addition and subtraction, multiplication by a small
//! factor, division by a small divisor, and a big-endian byte codec for
//! 32-byte calldata words.

use vstd::prelude::*;
use vstd::arithmetic::div_mod::{lemma_fundamental_div_mod, lemma_fundamental_div_mod_converse};
use vstd::arithmetic::mul::{
    lemma_mul_inequality, lemma_mul_is_distributive_add_other_way, lemma_mul_is_associative,
    lemma_mul_is_commutative,
};

verus! {

/// 2^64, the weight of one limb.
pub open spec fn b64() -> nat {
    0x1_0000_0000_0000_0000
}

/// 2^128.
pub open spec fn b128() -> nat {
    0x1_0000_0000_0000_0000_0000_0000_0000_0000nat
}

/// 2^192.
pub open spec fn b192() -> nat {
    0x1_0000_0000_0000_0000_0000_0000_0000_0000_0000_0000_0000_0000nat
}

/// 2^256, one past the largest representable value.
pub open spec fn b256() -> nat {
    0x1_0000_0000_0000_0000_0000_0000_0000_0000_0000_0000_0000_0000_0000_0000_0000_0000nat
}

/// A 256-bit unsigned amount: `w0` is the least significant limb.
#[derive(Clone, Copy, Debug, PartialEq, Eq, Structural)]
pub struct U256 {
    pub w0: u64,
    pub w1: u64,
    pub w2: u64,
    pub w3: u64,
}

/// The natural number a sequence of bytes denotes in big-endian order.
pub open spec fn be_bytes_nat(s: Seq<u8>) -> nat
    decreases s.len(),
{
    if s.len() == 0 {
        0
    } else {
        be_bytes_nat(s.drop_last()) * 256 + s.last() as nat
    }
}

/// 256^n.
pub open spec fn pow256(n: nat) -> nat
    decreases n,
{
    if n == 0 {
        1
    } else {
        256 * pow256((n - 1) as nat)
    }
}

pub proof fn lemma_pow256_32_is_b256()
    ensures
        pow256(32) == b256(),
{
    reveal_with_fuel(pow256, 33);
}

/// A big-endian value is bounded by 256 to the power of its length.
pub proof fn lemma_be_bytes_nat_bound(s: Seq<u8>)
    ensures
        be_bytes_nat(s) < pow256(s.len()),
    decreases s.len(),
{
    if s.len() == 0 {
    } else {
        lemma_be_bytes_nat_bound(s.drop_last());
        let prefix = be_bytes_nat(s.drop_last());
        assert(prefix <= pow256((s.len() - 1) as nat) - 1);
        lemma_mul_inequality(prefix as int, pow256((s.len() - 1) as nat) - 1, 256);
        assert(prefix * 256 <= (pow256((s.len() - 1) as nat) - 1) * 256);
    }
}

/// Prepending a byte adds its value at the weight of the suffix length.
pub proof fn lemma_be_bytes_nat_prepend(x: u8, s: Seq<u8>)
    ensures
        be_bytes_nat(seq![x] + s) == x * pow256(s.len()) + be_bytes_nat(s),
    decreases s.len(),
{
    if s.len() == 0 {
        assert(seq![x] + s =~= seq![x]);
        assert((seq![x]).drop_last() =~= Seq::<u8>::empty());
        assert(be_bytes_nat(seq![x]) == be_bytes_nat(Seq::<u8>::empty()) * 256 + x);
        assert(be_bytes_nat(seq![x]) == x);
        assert(pow256(0) == 1);
        assert(x * pow256(s.len()) == x * 1);
        assert(be_bytes_nat(seq![x] + s) == x * pow256(s.len()) + be_bytes_nat(s));
    } else {
        let t = seq![x] + s;
        assert(t.len() == s.len() + 1);
        assert(t.drop_last() =~= seq![x] + s.drop_last());
        lemma_be_bytes_nat_prepend(x, s.drop_last());
        let p = pow256((s.len() - 1) as nat);
        assert(be_bytes_nat(t.drop_last()) == x * p + be_bytes_nat(s.drop_last()));
        assert(t.last() == s.last());
        assert(be_bytes_nat(t) == be_bytes_nat(t.drop_last()) * 256 + t.last());
        assert(be_bytes_nat(t) == (x * p + be_bytes_nat(s.drop_last())) * 256 + s.last());
        assert((x * p + be_bytes_nat(s.drop_last())) * 256 == (x * p) * 256 + be_bytes_nat(
            s.drop_last(),
        ) * 256) by {
            lemma_mul_is_distributive_add_other_way(
                256,
                (x * p) as int,
                be_bytes_nat(s.drop_last()) as int,
            );
        }
        assert((x * p) * 256 == x * (p * 256)) by {
            lemma_mul_is_associative(x as int, p as int, 256);
        }
        assert(p * 256 == 256 * p);
        assert(256 * p == pow256(s.len()));
        assert(be_bytes_nat(s) == be_bytes_nat(s.drop_last()) * 256 + s.last());
        assert(be_bytes_nat(t) == x * pow256(s.len()) + be_bytes_nat(s));
    }
}

impl U256 {
    /// The value this quadruple of limbs stands for.
    pub open spec fn as_nat(self) -> nat {
        self.w0 as nat + self.w1 as nat * b64() + self.w2 as nat * b128() + self.w3 as nat
            * b192()
    }

    /// The canonical limbs of a value below 2^256.
    pub open spec fn spec_from_nat(n: nat) -> U256 {
        U256 {
            w0: (n % b64()) as u64,
            w1: ((n / b64()) % b64()) as u64,
            w2: ((n / b128()) % b64()) as u64,
            w3: ((n / b192()) % b64()) as u64,
        }
    }

    pub fn zero() -> (r: U256)
        ensures
            r.as_nat() == 0,
    {
        U256 { w0: 0, w1: 0, w2: 0, w3: 0 }
    }

    pub fn from_u64(x: u64) -> (r: U256)
        ensures
            r.as_nat() == x,
    {
        U256 { w0: x, w1: 0, w2: 0, w3: 0 }
    }

    pub fn from_u128(x: u128) -> (r: U256)
        ensures
            r.as_nat() == x,
    {
        let lo: u64 = (x % 0x1_0000_0000_0000_0000) as u64;
        let hi: u64 = (x / 0x1_0000_0000_0000_0000) as u64;
        proof {
            lemma_fundamental_div_mod(x as int, b64() as int);
        }
        U256 { w0: lo, w1: hi, w2: 0, w3: 0 }
    }

    pub fn is_zero(&self) -> (r: bool)
        ensures
            r == (self.as_nat() == 0),
    {
        self.w0 == 0 && self.w1 == 0 && self.w2 == 0 && self.w3 == 0
    }

    /// Strict comparison, most significant limb first.
    pub fn lt(&self, other: &U256) -> (r: bool)
        ensures
            r == (self.as_nat() < other.as_nat()),
    {
        if self.w3 != other.w3 {
            self.w3 < other.w3
        } else if self.w2 != other.w2 {
            self.w2 < other.w2
        } else if self.w1 != other.w1 {
            self.w1 < other.w1
        } else {
            self.w0 < other.w0
        }
    }

    pub fn le(&self, other: &U256) -> (r: bool)
        ensures
            r == (self.as_nat() <= other.as_nat()),
    {
        !other.lt(self)
    }

    pub fn gt(&self, other: &U256) -> (r: bool)
        ensures
            r == (self.as_nat() > other.as_nat()),
    {
        other.lt(self)
    }

    pub fn checked_add(&self, other: &U256) -> (r: Option<U256>)
        ensures
            self.as_nat() + other.as_nat() < b256() ==> r is Some && r.unwrap().as_nat()
                == self.as_nat() + other.as_nat(),
            self.as_nat() + other.as_nat() >= b256() ==> r is None,
    {
        let s0: u128 = self.w0 as u128 + other.w0 as u128;
        let r0: u64 = (s0 % 0x1_0000_0000_0000_0000) as u64;
        let c0: u64 = (s0 / 0x1_0000_0000_0000_0000) as u64;
        let s1: u128 = self.w1 as u128 + other.w1 as u128 + c0 as u128;
        let r1: u64 = (s1 % 0x1_0000_0000_0000_0000) as u64;
        let c1: u64 = (s1 / 0x1_0000_0000_0000_0000) as u64;
        let s2: u128 = self.w2 as u128 + other.w2 as u128 + c1 as u128;
        let r2: u64 = (s2 % 0x1_0000_0000_0000_0000) as u64;
        let c2: u64 = (s2 / 0x1_0000_0000_0000_0000) as u64;
        let s3: u128 = self.w3 as u128 + other.w3 as u128 + c2 as u128;
        let r3: u64 = (s3 % 0x1_0000_0000_0000_0000) as u64;
        let c3: u64 = (s3 / 0x1_0000_0000_0000_0000) as u64;
        proof {
            lemma_fundamental_div_mod(s0 as int, b64() as int);
            lemma_fundamental_div_mod(s1 as int, b64() as int);
            lemma_fundamental_div_mod(s2 as int, b64() as int);
            lemma_fundamental_div_mod(s3 as int, b64() as int);
        }
        if c3 != 0 {
            None
        } else {
            Some(U256 { w0: r0, w1: r1, w2: r2, w3: r3 })
        }
    }

    /// Subtraction; `None` when the subtrahend is larger.
    pub fn checked_sub(&self, other: &U256) -> (r: Option<U256>)
        ensures
            self.as_nat() >= other.as_nat() ==> r is Some && r.unwrap().as_nat() == self.as_nat()
                - other.as_nat(),
            self.as_nat() < other.as_nat() ==> r is None,
    {
        if self.lt(other) {
            return None;
        }
        let (d0, b0) = if self.w0 >= other.w0 {
            (self.w0 - other.w0, 0u64)
        } else {
            (((self.w0 as u128 + 0x1_0000_0000_0000_0000) - other.w0 as u128) as u64, 1u64)
        };
        let (d1, b1) = if self.w1 as u128 >= other.w1 as u128 + b0 as u128 {
            ((self.w1 as u128 - other.w1 as u128 - b0 as u128) as u64, 0u64)
        } else {
            (
                ((self.w1 as u128 + 0x1_0000_0000_0000_0000) - other.w1 as u128
                    - b0 as u128) as u64,
                1u64,
            )
        };
        let (d2, b2) = if self.w2 as u128 >= other.w2 as u128 + b1 as u128 {
            ((self.w2 as u128 - other.w2 as u128 - b1 as u128) as u64, 0u64)
        } else {
            (
                ((self.w2 as u128 + 0x1_0000_0000_0000_0000) - other.w2 as u128
                    - b1 as u128) as u64,
                1u64,
            )
        };
        let d3: u64 = ((self.w3 as u128 - other.w3 as u128 - b2 as u128) as u64);
        Some(U256 { w0: d0, w1: d1, w2: d2, w3: d3 })
    }

    /// `self * m + a`, or `None` past 2^256.
    pub fn mul_small_add(&self, m: u64, a: u64) -> (r: Option<U256>)
        ensures
            self.as_nat() * m + a < b256() ==> r is Some && r.unwrap().as_nat() == self.as_nat()
                * m + a,
            self.as_nat() * m + a >= b256() ==> r is None,
    {
        proof {
            lemma_u64_product_bound(self.w0, m);
            lemma_u64_product_bound(self.w1, m);
            lemma_u64_product_bound(self.w2, m);
            lemma_u64_product_bound(self.w3, m);
        }
        let p0: u128 = self.w0 as u128 * m as u128 + a as u128;
        let r0: u64 = (p0 % 0x1_0000_0000_0000_0000) as u64;
        let c0: u64 = (p0 / 0x1_0000_0000_0000_0000) as u64;
        let p1: u128 = self.w1 as u128 * m as u128 + c0 as u128;
        let r1: u64 = (p1 % 0x1_0000_0000_0000_0000) as u64;
        let c1: u64 = (p1 / 0x1_0000_0000_0000_0000) as u64;
        let p2: u128 = self.w2 as u128 * m as u128 + c1 as u128;
        let r2: u64 = (p2 % 0x1_0000_0000_0000_0000) as u64;
        let c2: u64 = (p2 / 0x1_0000_0000_0000_0000) as u64;
        let p3: u128 = self.w3 as u128 * m as u128 + c2 as u128;
        let r3: u64 = (p3 % 0x1_0000_0000_0000_0000) as u64;
        let c3: u64 = (p3 / 0x1_0000_0000_0000_0000) as u64;
        proof {
            lemma_fundamental_div_mod(p0 as int, b64() as int);
            lemma_fundamental_div_mod(p1 as int, b64() as int);
            lemma_fundamental_div_mod(p2 as int, b64() as int);
            lemma_fundamental_div_mod(p3 as int, b64() as int);
            let sn = self.as_nat() as int;
            let mi = m as int;
            assert(sn * mi == self.w0 * mi + (self.w1 * b64()) * mi + (self.w2 * b128()) * mi + (
            self.w3 * b192()) * mi) by {
                lemma_mul_is_distributive_add_other_way(
                    mi,
                    (self.w0 + self.w1 * b64()) as int + (self.w2 * b128()) as int,
                    (self.w3 * b192()) as int,
                );
                lemma_mul_is_distributive_add_other_way(
                    mi,
                    (self.w0 + self.w1 * b64()) as int,
                    (self.w2 * b128()) as int,
                );
                lemma_mul_is_distributive_add_other_way(
                    mi,
                    self.w0 as int,
                    (self.w1 * b64()) as int,
                );
            }
            assert((self.w1 * b64()) * mi == (self.w1 * mi) * b64() as int) by {
                lemma_mul_is_associative(self.w1 as int, b64() as int, mi);
                lemma_mul_is_commutative(b64() as int, mi);
                lemma_mul_is_associative(self.w1 as int, mi, b64() as int);
            }
            assert((self.w2 * b128()) * mi == (self.w2 * mi) * b128() as int) by {
                lemma_mul_is_associative(self.w2 as int, b128() as int, mi);
                lemma_mul_is_commutative(b128() as int, mi);
                lemma_mul_is_associative(self.w2 as int, mi, b128() as int);
            }
            assert((self.w3 * b192()) * mi == (self.w3 * mi) * b192() as int) by {
                lemma_mul_is_associative(self.w3 as int, b192() as int, mi);
                lemma_mul_is_commutative(b192() as int, mi);
                lemma_mul_is_associative(self.w3 as int, mi, b192() as int);
            }
        }
        if c3 != 0 {
            None
        } else {
            Some(U256 { w0: r0, w1: r1, w2: r2, w3: r3 })
        }
    }

    /// `self * m`, or `None` past 2^256.
    pub fn mul_small(&self, m: u64) -> (r: Option<U256>)
        ensures
            self.as_nat() * m < b256() ==> r is Some && r.unwrap().as_nat() == self.as_nat() * m,
            self.as_nat() * m >= b256() ==> r is None,
    {
        self.mul_small_add(m, 0)
    }

    /// Quotient and remainder of division by a small nonzero divisor.
    pub fn div_rem_small(&self, d: u64) -> (r: (U256, u64))
        requires
            d > 0,
        ensures
            r.0.as_nat() == self.as_nat() / d as nat,
            r.1 == self.as_nat() % d as nat,
            r.1 < d,
    {
        let q3: u64 = self.w3 / d;
        let r3: u64 = self.w3 % d;
        let acc2: u128 = r3 as u128 * 0x1_0000_0000_0000_0000 + self.w2 as u128;
        let q2w: u128 = acc2 / d as u128;
        let r2: u64 = (acc2 % d as u128) as u64;
        proof {
            assert(acc2 < d as u128 * 0x1_0000_0000_0000_0000) by (nonlinear_arith)
                requires
                    r3 < d,
                    acc2 == r3 as u128 * 0x1_0000_0000_0000_0000 + self.w2 as u128,
                    self.w2 < 0x1_0000_0000_0000_0000u128,
            ;
            assert(q2w < 0x1_0000_0000_0000_0000) by (nonlinear_arith)
                requires
                    d > 0,
                    acc2 < d as u128 * 0x1_0000_0000_0000_0000,
                    q2w == acc2 / d as u128,
            ;
        }
        let q2: u64 = q2w as u64;
        let acc1: u128 = r2 as u128 * 0x1_0000_0000_0000_0000 + self.w1 as u128;
        let q1w: u128 = acc1 / d as u128;
        let r1: u64 = (acc1 % d as u128) as u64;
        proof {
            assert(acc1 < d as u128 * 0x1_0000_0000_0000_0000 && q1w < 0x1_0000_0000_0000_0000)
                by (nonlinear_arith)
                requires
                    d > 0,
                    r2 < d,
                    acc1 == r2 as u128 * 0x1_0000_0000_0000_0000 + self.w1 as u128,
                    self.w1 < 0x1_0000_0000_0000_0000u128,
                    q1w == acc1 / d as u128,
            ;
        }
        let q1: u64 = q1w as u64;
        let acc0: u128 = r1 as u128 * 0x1_0000_0000_0000_0000 + self.w0 as u128;
        let q0w: u128 = acc0 / d as u128;
        let r0: u64 = (acc0 % d as u128) as u64;
        proof {
            assert(acc0 < d as u128 * 0x1_0000_0000_0000_0000 && q0w < 0x1_0000_0000_0000_0000)
                by (nonlinear_arith)
                requires
                    d > 0,
                    r1 < d,
                    acc0 == r1 as u128 * 0x1_0000_0000_0000_0000 + self.w0 as u128,
                    self.w0 < 0x1_0000_0000_0000_0000u128,
                    q0w == acc0 / d as u128,
            ;
        }
        let q0: u64 = q0w as u64;
        let q = U256 { w0: q0, w1: q1, w2: q2, w3: q3 };
        proof {
            let di = d as int;
            lemma_fundamental_div_mod(self.w3 as int, di);
            lemma_fundamental_div_mod(acc2 as int, di);
            lemma_fundamental_div_mod(acc1 as int, di);
            lemma_fundamental_div_mod(acc0 as int, di);
            let qn = q.as_nat() as int;
            // Expand the limb-by-limb long division into one linear identity.
            assert(self.as_nat() as int == qn * di + r0) by {
                assert(self.w3 == q3 * di + r3) by {
                    lemma_mul_is_commutative(di, q3 as int);
                }
                assert(acc2 == q2 * di + r2) by {
                    lemma_mul_is_commutative(di, q2 as int);
                }
                assert(acc1 == q1 * di + r1) by {
                    lemma_mul_is_commutative(di, q1 as int);
                }
                assert(acc0 == q0 * di + r0) by {
                    lemma_mul_is_commutative(di, q0 as int);
                }
                assert(qn * di == (q0 as int) * di + (q1 * b64()) * di + (q2 * b128()) * di + (q3
                    * b192()) * di) by {
                    lemma_mul_is_distributive_add_other_way(
                        di,
                        (q0 + q1 * b64()) as int + (q2 * b128()) as int,
                        (q3 * b192()) as int,
                    );
                    lemma_mul_is_distributive_add_other_way(
                        di,
                        (q0 + q1 * b64()) as int,
                        (q2 * b128()) as int,
                    );
                    lemma_mul_is_distributive_add_other_way(di, q0 as int, (q1 * b64()) as int);
                }
                assert((q1 * b64()) * di == (q1 * di) * b64() as int) by {
                    lemma_mul_is_associative(q1 as int, b64() as int, di);
                    lemma_mul_is_commutative(b64() as int, di);
                    lemma_mul_is_associative(q1 as int, di, b64() as int);
                }
                assert((q2 * b128()) * di == (q2 * di) * b128() as int) by {
                    lemma_mul_is_associative(q2 as int, b128() as int, di);
                    lemma_mul_is_commutative(b128() as int, di);
                    lemma_mul_is_associative(q2 as int, di, b128() as int);
                }
                assert((q3 * b192()) * di == (q3 * di) * b192() as int) by {
                    lemma_mul_is_associative(q3 as int, b192() as int, di);
                    lemma_mul_is_commutative(b192() as int, di);
                    lemma_mul_is_associative(q3 as int, di, b192() as int);
                }
            }
            lemma_fundamental_div_mod_converse(self.as_nat() as int, di, qn, r0 as int);
        }
        (q, r0)
    }

    /// Quotient of division by a small nonzero divisor.
    pub fn div_small(&self, d: u64) -> (r: U256)
        requires
            d > 0,
        ensures
            r.as_nat() == self.as_nat() / d as nat,
    {
        self.div_rem_small(d).0
    }

    /// Reads the 32-byte big-endian word starting at `offset`.
    pub fn from_be_slice(bytes: &Vec<u8>, offset: usize) -> (r: U256)
        requires
            offset + 32 <= bytes.len(),
        ensures
            r.as_nat() == be_bytes_nat(bytes@.subrange(offset as int, offset as int + 32)),
    {
        let mut acc = U256::zero();
        let mut i: usize = 0;
        proof {
            assert(bytes@.subrange(offset as int, offset as int) =~= Seq::<u8>::empty());
        }
        while i < 32
            invariant
                i <= 32,
                offset + 32 <= bytes.len(),
                acc.as_nat() == be_bytes_nat(bytes@.subrange(offset as int, offset as int + i)),
            decreases 32 - i,
        {
            let b = bytes[offset + i];
            proof {
                lemma_pow256_32_is_b256();
                lemma_be_bytes_nat_bound(bytes@.subrange(offset as int, offset as int + i));
                assert(pow256(i as nat) * 256 == pow256((i + 1) as nat));
                lemma_mul_inequality(acc.as_nat() as int, pow256(i as nat) as int - 1, 256);
                assert(acc.as_nat() * 256 + b < pow256((i + 1) as nat));
                lemma_pow256_mono((i + 1) as nat, 32);
            }
            let next = acc.mul_small_add(256, b as u64);
            proof {
                let sub_next = bytes@.subrange(offset as int, offset as int + i + 1);
                assert(sub_next.drop_last() =~= bytes@.subrange(offset as int, offset as int + i));
                assert(sub_next.last() == bytes@[offset + i]);
            }
            acc = match next {
                Some(v) => v,
                None => {
                    proof {
                        assert(false);
                    }
                    U256::zero()
                },
            };
            i = i + 1;
        }
        acc
    }

    /// The 32-byte big-endian encoding of this value.
    pub fn to_be_bytes(&self) -> (r: Vec<u8>)
        ensures
            r@.len() == 32,
            be_bytes_nat(r@) == self.as_nat(),
    {
        let mut acc = *self;
        let mut out: Vec<u8> = Vec::new();
        let mut i: usize = 0;
        proof {
            lemma_pow256_32_is_b256();
            assert(out@ =~= Seq::<u8>::empty());
            assert(pow256(0) == 1);
        }
        while i < 32
            invariant
                i <= 32,
                out@.len() == i,
                self.as_nat() == acc.as_nat() * pow256(i as nat) + be_bytes_nat(out@),
                acc.as_nat() < b256(),
            decreases 32 - i,
        {
            let (q, rem) = acc.div_rem_small(256);
            proof {
                lemma_fundamental_div_mod(acc.as_nat() as int, 256);
                lemma_be_bytes_nat_prepend(rem as u8, out@);
                assert(acc.as_nat() == q.as_nat() * 256 + rem) by {
                    assert(acc.as_nat() == 256 * (acc.as_nat() / 256) + acc.as_nat() % 256);
                }
                // self == (q * 256 + rem) * pow256(i) + be(out)
                //      == q * pow256(i + 1) + rem * pow256(i) + be(out)
                assert((q.as_nat() * 256 + rem) * pow256(i as nat) == (q.as_nat() * 256) * pow256(
                    i as nat,
                ) + rem * pow256(i as nat)) by {
                    lemma_mul_is_distributive_add_other_way(
                        pow256(i as nat) as int,
                        (q.as_nat() * 256) as int,
                        rem as int,
                    );
                }
                assert((q.as_nat() * 256) * pow256(i as nat) == q.as_nat() * (256 * pow256(
                    i as nat,
                ))) by {
                    lemma_mul_is_associative(q.as_nat() as int, 256, pow256(i as nat) as int);
                }
                assert(256 * pow256(i as nat) == pow256((i + 1) as nat));
                assert(self.as_nat() == q.as_nat() * pow256((i + 1) as nat) + rem * pow256(
                    i as nat,
                ) + be_bytes_nat(out@));
            }
            let ghost prev_out = out@;
            out.insert(0, rem as u8);
            proof {
                assert(out@ =~= seq![rem as u8] + prev_out);
            }
            acc = q;
            i = i + 1;
        }
        proof {
            // The accumulator is exhausted: anything left would put the value
            // at or above 256^32.
            if acc.as_nat() > 0 {
                lemma_mul_inequality(1, acc.as_nat() as int, pow256(32) as int);
                assert(false);
            }
        }
        out
    }
}


/// Equal-length byte strings with the same big-endian value are equal:
/// the 32-byte word in a payload is pinned by the value it encodes.
pub proof fn lemma_be_bytes_nat_injective(a: Seq<u8>, b: Seq<u8>)
    requires
        a.len() == b.len(),
        be_bytes_nat(a) == be_bytes_nat(b),
    ensures
        a == b,
    decreases a.len(),
{
    if a.len() > 0 {
        lemma_fundamental_div_mod_converse(
            be_bytes_nat(a) as int,
            256,
            be_bytes_nat(a.drop_last()) as int,
            a.last() as int,
        );
        lemma_fundamental_div_mod_converse(
            be_bytes_nat(b) as int,
            256,
            be_bytes_nat(b.drop_last()) as int,
            b.last() as int,
        );
        assert(a.last() == b.last());
        lemma_be_bytes_nat_injective(a.drop_last(), b.drop_last());
        assert(a =~= a.drop_last().push(a.last()));
        assert(b =~= b.drop_last().push(b.last()));
    } else {
        assert(a =~= b);
    }
}

/// Limb decomposition is unique: every `U256` equals the canonical limbs of
/// its own value, so an exact bound on `as_nat` pins the whole struct.
pub proof fn lemma_canonical_limbs(u: U256)
    ensures
        u == U256::spec_from_nat(u.as_nat()),
{
    let n = u.as_nat() as int;
    let b = b64() as int;
    let q1 = u.w1 + u.w2 * b64() + u.w3 * b128();
    assert(n == q1 * b + u.w0) by {
        lemma_mul_is_distributive_add_other_way(b, (u.w1 + u.w2 * b64()) as int, (u.w3
            * b128()) as int);
        lemma_mul_is_distributive_add_other_way(b, u.w1 as int, (u.w2 * b64()) as int);
        assert((u.w2 as int * b64() as int) * b == u.w2 as int * b128());
        assert((u.w3 as int * b128() as int) * b == u.w3 as int * b192());
    }
    lemma_fundamental_div_mod_converse(n, b, q1 as int, u.w0 as int);
    assert(n % b == u.w0 as int);
    assert(n / b == q1 as int);
    let q2 = u.w2 + u.w3 * b64();
    assert(q1 == q2 * b + u.w1) by {
        lemma_mul_is_distributive_add_other_way(b, u.w2 as int, (u.w3 * b64()) as int);
        assert((u.w3 as int * b64() as int) * b == u.w3 as int * b128());
    }
    lemma_fundamental_div_mod_converse(q1 as int, b, q2 as int, u.w1 as int);
    lemma_fundamental_div_mod_converse(q2 as int, b, u.w3 as int, u.w2 as int);
    // Rewrite the nested quotients as divisions by the larger powers.
    vstd::arithmetic::div_mod::lemma_div_denominator(n, b, b);
    assert(b * b == b128() as int) by (nonlinear_arith)
        requires
            b == 0x1_0000_0000_0000_0000,
    ;
    assert(n / b128() as int == q2 as int);
    vstd::arithmetic::div_mod::lemma_div_denominator(n, b128() as int, b);
    assert(b128() as int * b == b192() as int) by (nonlinear_arith)
        requires
            b == 0x1_0000_0000_0000_0000,
    ;
    assert(n / b192() as int == u.w3 as int);
    vstd::arithmetic::div_mod::lemma_small_mod(u.w3 as nat, b64());
}

/// The canonical limbs of a value below 2^256 denote that value again.
pub proof fn lemma_from_nat_as_nat(n: nat)
    requires
        n < b256(),
    ensures
        U256::spec_from_nat(n).as_nat() == n,
{
    let b = b64() as int;
    let ni = n as int;
    let q1 = ni / b;
    let q2 = ni / b128() as int;
    let q3 = ni / b192() as int;
    lemma_fundamental_div_mod(ni, b);
    vstd::arithmetic::div_mod::lemma_div_denominator(ni, b, b);
    assert(b * b == b128() as int) by (nonlinear_arith)
        requires
            b == 0x1_0000_0000_0000_0000,
    ;
    lemma_fundamental_div_mod(q1, b);
    vstd::arithmetic::div_mod::lemma_div_denominator(ni, b128() as int, b);
    assert(b128() as int * b == b192() as int) by (nonlinear_arith)
        requires
            b == 0x1_0000_0000_0000_0000,
    ;
    lemma_fundamental_div_mod(q2, b);
    assert(b * b192() as int == b256() as int) by (nonlinear_arith)
        requires
            b == 0x1_0000_0000_0000_0000,
    ;
    vstd::arithmetic::div_mod::lemma_multiply_divide_lt(ni, b, b192() as int);
    vstd::arithmetic::div_mod::lemma_small_mod(q3 as nat, b64());
    let w0 = ni % b;
    let w1 = q1 % b;
    let w2 = q2 % b;
    assert(ni == b * q1 + w0);
    assert(q1 == b * q2 + w1);
    assert(q2 == b * q3 + w2);
    assert(b * (b * q2) == b128() as int * q2) by (nonlinear_arith)
        requires
            b == 0x1_0000_0000_0000_0000,
    ;
    assert(b128() as int * (b * q3) == b192() as int * q3) by (nonlinear_arith)
        requires
            b == 0x1_0000_0000_0000_0000,
    ;
    assert(ni == w0 + b * w1 + b128() as int * w2 + b192() as int * q3);
}

/// The product of two 64-bit values never reaches 2^128 minus one limb.
proof fn lemma_u64_product_bound(x: u64, y: u64)
    ensures
        x as u128 * y as u128 <= 0xffff_ffff_ffff_fffe_0000_0000_0000_0001u128,
{
    assert(x as u128 * y as u128 <= 0xffff_ffff_ffff_fffe_0000_0000_0000_0001u128)
        by (nonlinear_arith)
        requires
            x as u128 <= 0xffff_ffff_ffff_ffffu128,
            y as u128 <= 0xffff_ffff_ffff_ffffu128,
    ;
}

/// 256^n grows with n.
pub proof fn lemma_pow256_mono(a: nat, b: nat)
    requires
        a <= b,
    ensures
        pow256(a) <= pow256(b),
    decreases b,
{
    if a < b {
        lemma_pow256_mono(a, (b - 1) as nat);
        lemma_mul_inequality(1, 256, pow256((b - 1) as nat) as int);
        assert(pow256(b) == 256 * pow256((b - 1) as nat));
        assert(1 * pow256((b - 1) as nat) == pow256((b - 1) as nat));
    }
}

} // verus!
