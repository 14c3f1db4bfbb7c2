use vstd::prelude::*;

verus! {

/// The ASCII decimal digits of `n`, most significant first, without leading
/// zeros (`0` is the single digit `0`).
pub open spec fn decimal(n: nat) -> Seq<u8>
    decreases n,
{
    if n < 10 {
        seq![(48 + n) as u8]
    } else {
        decimal(n / 10).push((48 + n % 10) as u8)
    }
}

/// The bytes of `input-`, which open every seed.
pub open spec fn seed_prefix() -> Seq<u8> {
    seq![105u8, 110u8, 112u8, 117u8, 116u8, 45u8]
}

/// The text that the hash chain starts from: `input-` followed by the
/// nanosecond timestamp in decimal.
pub open spec fn seed_of(nanos: nat) -> Seq<u8> {
    seed_prefix() + decimal(nanos)
}

/// Appends the decimal digits of `n` to `out`.
fn push_decimal(n: u128, out: &mut Vec<u8>)
    ensures
        final(out)@ == old(out)@ + decimal(n as nat),
    decreases n,
{
    if n >= 10 {
        push_decimal(n / 10, out);
    }
    out.push((48 + n % 10) as u8);
    proof {
        if n < 10 {
            assert(decimal(n as nat) == seq![(48 + n) as u8]);
        }
    }
    assert(out@ =~= old(out)@ + decimal(n as nat));
}

/// Builds the seed text `input-<nanos>` as bytes.
pub fn seed_input(nanos: u128) -> (r: Vec<u8>)
    ensures
        r@ == seed_of(nanos as nat),
{
    let mut out: Vec<u8> = Vec::new();
    out.push(105u8);
    out.push(110u8);
    out.push(112u8);
    out.push(117u8);
    out.push(116u8);
    out.push(45u8);
    assert(out@ =~= seed_prefix());
    push_decimal(nanos, &mut out);
    out
}

/// Every decimal rendering has at least one digit, and two or more from ten on.
pub proof fn lemma_decimal_len(n: nat)
    ensures
        decimal(n).len() >= 1,
        n >= 10 ==> decimal(n).len() >= 2,
    decreases n,
{
    if n >= 10 {
        lemma_decimal_len(n / 10);
    }
}

/// Distinct numbers have distinct decimal renderings.
pub proof fn lemma_decimal_injective(a: nat, b: nat)
    requires
        decimal(a) == decimal(b),
    ensures
        a == b,
    decreases a,
{
    lemma_decimal_len(a);
    lemma_decimal_len(b);
    if a < 10 && b < 10 {
        assert(decimal(a)[0] == (48 + a) as u8);
        assert(decimal(b)[0] == (48 + b) as u8);
        assert(decimal(a)[0] == decimal(b)[0]);
    } else if a >= 10 && b >= 10 {
        let da = decimal(a);
        let db = decimal(b);
        assert(da.last() == db.last());
        assert(da.drop_last() =~= decimal(a / 10));
        assert(db.drop_last() =~= decimal(b / 10));
        lemma_decimal_injective(a / 10, b / 10);
        assert(da.last() == (48 + a % 10) as u8);
        assert(db.last() == (48 + b % 10) as u8);
        assert(a % 10 == b % 10);
        assert(a == 10 * (a / 10) + a % 10) by (nonlinear_arith);
        assert(b == 10 * (b / 10) + b % 10) by (nonlinear_arith);
    } else if a < 10 {
        lemma_decimal_len(b);
        assert(decimal(a).len() == 1);
    } else {
        assert(decimal(b).len() == 1);
    }
}

/// Distinct timestamps give distinct seeds, so the hash chain starts from a
/// different text whenever the clock has moved.
pub proof fn lemma_seed_injective(a: nat, b: nat)
    requires
        a != b,
    ensures
        seed_of(a) != seed_of(b),
{
    if seed_of(a) == seed_of(b) {
        assert(seed_of(a).subrange(6, seed_of(a).len() as int) =~= decimal(a));
        assert(seed_of(b).subrange(6, seed_of(b).len() as int) =~= decimal(b));
        lemma_decimal_injective(a, b);
    }
}

} // verus!
