//! Small arithmetic helpers shared by the kernel generators.

use vstd::prelude::*;

verus! {

/// Euclid's greatest common divisor; `spec_gcd(a, 0) == a`.
pub open spec fn spec_gcd(a: int, b: int) -> int
    decreases b,
{
    if b <= 0 {
        a
    } else {
        spec_gcd(b, a % b)
    }
}

/// The least common multiple of a list, ignoring zeros, folded left to
/// right from 1.
pub open spec fn spec_lcm_step(res: int, x: int) -> int {
    if x == 0 {
        res
    } else {
        res / spec_gcd(res, x) * x
    }
}

/// The running least common multiple, or `None` as soon as a step leaves
/// the 8-bit range.
pub open spec fn spec_lcm_partial(numbers: Seq<u8>) -> Option<int>
    decreases numbers.len(),
{
    if numbers.len() == 0 {
        Some(1int)
    } else {
        match spec_lcm_partial(numbers.drop_last()) {
            None => None,
            Some(res) => {
                let nxt = spec_lcm_step(res, numbers.last() as int);
                if nxt <= 255 {
                    Some(nxt)
                } else {
                    None
                }
            },
        }
    }
}

proof fn lemma_gcd_pos(a: int, b: int)
    requires
        a > 0 || b > 0,
        a >= 0,
        b >= 0,
    ensures
        spec_gcd(a, b) > 0,
    decreases b,
{
    if b > 0 {
        lemma_gcd_pos(b, a % b);
    }
}

proof fn lemma_lcm_partial_prefix(s: Seq<u8>, i: int)
    requires
        spec_lcm_partial(s) is Some,
        0 <= i <= s.len(),
    ensures
        spec_lcm_partial(s.take(i)) is Some,
    decreases s.len(),
{
    if i < s.len() {
        assert(s.drop_last().take(i) =~= s.take(i));
        lemma_lcm_partial_prefix(s.drop_last(), i);
    } else {
        assert(s.take(i) =~= s);
    }
}

/// The greatest common divisor of two numbers.
pub fn gcd(a: u8, b: u8) -> (r: u8)
    ensures
        r as int == spec_gcd(a as int, b as int),
{
    let mut x = a;
    let mut y = b;
    while y > 0
        invariant
            spec_gcd(x as int, y as int) == spec_gcd(a as int, b as int),
        decreases y,
    {
        let tmp = y;
        y = x % y;
        x = tmp;
    }
    x
}

/// The least common multiple of a list, ignoring zeros, or `None` when it
/// does not fit in 8 bits.
pub fn lcm_checked(numbers: &[u8]) -> (r: Option<u8>)
    ensures
        match r {
            Some(v) => spec_lcm_partial(numbers@) == Some(v as int),
            None => spec_lcm_partial(numbers@) is None,
        },
{
    let mut res: u8 = 1;
    let mut i: usize = 0;
    while i < numbers.len()
        invariant
            i <= numbers@.len(),
            spec_lcm_partial(numbers@.take(i as int)) == Some(res as int),
        decreases numbers@.len() - i,
    {
        let x = numbers[i];
        proof {
            assert(numbers@.take(i + 1 as int).drop_last() =~= numbers@.take(i as int));
            assert(numbers@.take(i + 1 as int).last() == numbers@[i as int]);
        }
        if x != 0 {
            let g = gcd(res, x);
            proof {
                lemma_gcd_pos(res as int, x as int);
            }
            let q: u16 = (res / g) as u16;
            proof {
                assert(q * (x as u16) <= 255 * 255) by (nonlinear_arith)
                    requires
                        q <= 255,
                        x as u16 <= 255,
                ;
            }
            let nxt: u16 = q * x as u16;
            if nxt > 255 {
                proof {
                    assert(spec_lcm_partial(numbers@.take(i + 1 as int)) is None);
                    if spec_lcm_partial(numbers@) is Some {
                        lemma_lcm_partial_prefix(numbers@, i + 1 as int);
                    }
                }
                return None;
            }
            res = nxt as u8;
        }
        i += 1;
    }
    proof {
        assert(numbers@.take(numbers@.len() as int) =~= numbers@);
    }
    Some(res)
}

/// The least common multiple of a list, ignoring zeros.  The result must
/// fit in 8 bits.
pub fn lcm(numbers: &[u8]) -> (r: u8)
    requires
        spec_lcm_partial(numbers@) is Some,
    ensures
        Some(r as int) == spec_lcm_partial(numbers@),
{
    match lcm_checked(numbers) {
        Some(v) => v,
        None => vstd::pervasive::unreached(),
    }
}

} // verus!
