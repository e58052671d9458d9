use vstd::prelude::*;

verus! {

/// Worth of each full coin that a defeated enemy drops.
pub const COIN_SPLIT: i32 = 5;

/// `a / b` as Rust computes it on integers: rounded towards zero.
pub open spec fn trunc_div(a: int, b: int) -> int
    recommends
        b > 0,
{
    if a >= 0 { a / b } else { -((-a) / b) }
}

/// `a % b` as Rust computes it on integers: it takes the sign of `a`.
pub open spec fn trunc_rem(a: int, b: int) -> int
    recommends
        b > 0,
{
    a - b * trunc_div(a, b)
}

/// The worths of the coins dropped for a purse of `total`: one full coin for
/// each whole share `total / COIN_SPLIT`, then one coin for the remainder
/// `total % COIN_SPLIT` unless it is zero.
pub open spec fn spec_coin_drop(total: int) -> Seq<i32> {
    let q = trunc_div(total, COIN_SPLIT as int);
    let rem = trunc_rem(total, COIN_SPLIT as int);
    let fulls = Seq::new(if q > 0 { q as nat } else { 0nat }, |_i: int| COIN_SPLIT);
    if rem != 0 { fulls.push(rem as i32) } else { fulls }
}

/// The worths of the coins a defeated enemy holding `total` drops.
pub fn coin_drop_values(total: i32) -> (r: Vec<i32>)
    ensures
        r@ == spec_coin_drop(total as int),
{
    let (q, rem): (i32, i32) = if total >= 0 {
        (total / COIN_SPLIT, total % COIN_SPLIT)
    } else {
        let n: i64 = -(total as i64);
        ((-(n / 5)) as i32, (-(n % 5)) as i32)
    };
    assert(q == trunc_div(total as int, 5));
    assert(rem == trunc_rem(total as int, 5));
    let mut r: Vec<i32> = Vec::new();
    let mut i: i32 = 0;
    while i < q
        invariant
            0 <= i,
            q > 0 ==> i <= q,
            q <= 0 ==> i == 0,
            r@ =~= Seq::new(i as nat, |_j: int| COIN_SPLIT),
        decreases q - i,
    {
        r.push(COIN_SPLIT);
        i = i + 1;
    }
    if rem != 0 {
        r.push(rem);
    }
    r
}

/// Sum of a sequence of worths.
pub open spec fn total_worth(s: Seq<i32>) -> int
    decreases s.len(),
{
    if s.len() == 0 { 0 } else { total_worth(s.drop_last()) + s.last() }
}

proof fn lemma_full_coins_worth(n: nat)
    ensures
        total_worth(Seq::new(n, |_i: int| COIN_SPLIT)) == n * COIN_SPLIT,
    decreases n,
{
    if n > 0 {
        let s = Seq::new(n, |_i: int| COIN_SPLIT);
        assert(s.drop_last() =~= Seq::new((n - 1) as nat, |_i: int| COIN_SPLIT));
        lemma_full_coins_worth((n - 1) as nat);
    }
}

/// Dropping a purse of non-negative worth neither creates nor loses money:
/// the coins add up to the purse, and each is worth between 1 and `COIN_SPLIT`.
pub proof fn lemma_coin_drop_conserves_worth(total: int)
    requires
        0 <= total <= i32::MAX,
    ensures
        total_worth(spec_coin_drop(total)) == total,
        forall|i: int| 0 <= i < spec_coin_drop(total).len()
            ==> 1 <= #[trigger] spec_coin_drop(total)[i] <= COIN_SPLIT,
{
    let q = trunc_div(total, 5);
    let fulls = Seq::new(q as nat, |_i: int| COIN_SPLIT);
    lemma_full_coins_worth(q as nat);
    let rem = trunc_rem(total, 5);
    assert(0 <= rem < 5);
    assert(q >= 0);
    assert(total_worth(fulls) == q * 5);
    assert(q * 5 + rem == total);
    assert(fulls =~= Seq::new(if q > 0 { q as nat } else { 0nat }, |_i: int| COIN_SPLIT));
    if rem != 0 {
        let s = fulls.push(rem as i32);
        assert(s.drop_last() =~= fulls);
        assert(total_worth(s) == total_worth(fulls) + rem);
        assert(spec_coin_drop(total) == s);
    } else {
        assert(spec_coin_drop(total) == fulls);
    }
}

/// Coins a collector has picked up.
#[derive(Clone, Copy, Debug, PartialEq, Eq, Structural)]
pub struct CoinHolder {
    pub total_value: i32,
}

impl Default for CoinHolder {
    fn default() -> (r: Self)
        ensures
            r.total_value == 0,
    {
        CoinHolder { total_value: 0 }
    }
}

impl CoinHolder {
    /// Adds a picked-up coin's worth to the purse.
    pub fn collect(&mut self, worth: i32)
        requires
            i32::MIN <= old(self).total_value + worth <= i32::MAX,
        ensures
            final(self).total_value == old(self).total_value + worth,
    {
        self.total_value = self.total_value + worth;
    }
}

/// A coin heads for a collector once it has a target and has landed.
pub fn collector_in_range(has_target: bool, grounded: bool) -> (r: bool)
    ensures
        r == (has_target && grounded),
{
    has_target && grounded
}

} // verus!
