//! Position aggregator.
//!
//! A user's candidate denoms are the union of every denom they hold
//! collateral in and every denom they owe debt in. For each denom the
//! collaborators report the stored entries, the real (underlying) amounts
//! behind the scaled ones, the market's risk parameters and the oracle
//! price; aggregation reduces that to one [`Position`] per denom.

use vstd::prelude::*;

use crate::error::Error;
use crate::math::Decimal;

verus! {

/// Market configuration of one denom, as the market collaborator reports
/// it.
#[derive(Clone, Debug, PartialEq, Eq)]
pub struct Market {
    /// The denom this market trades.
    pub denom: String,
    /// Maximum borrowing power a unit of this collateral grants.
    pub max_loan_to_value: Decimal,
    /// Collateral ratio below which a position becomes liquidatable.
    pub liquidation_threshold: Decimal,
    /// Total scaled supply of the denom across all users.
    pub collateral_total_scaled: u128,
}

/// A user's stored collateral entry for one denom.
#[derive(Clone, Copy, Debug, PartialEq, Eq, Structural)]
pub struct Collateral {
    /// Scaled collateral amount.
    pub amount_scaled: u128,
    /// Whether the user enabled this asset as collateral. A disabled
    /// asset is neither liquidatable nor counted towards health.
    pub enabled: bool,
}

/// A user's stored debt entry for one denom.
#[derive(Clone, Copy, Debug, PartialEq, Eq, Structural)]
pub struct Debt {
    /// Scaled debt amount.
    pub amount_scaled: u128,
    /// Marker for uncollateralized debt, which does not count towards
    /// collateralized totals.
    pub uncollateralized: bool,
}

/// A user's position in one denom: real amounts, risk parameters and the
/// current price. Constructed fresh on every health evaluation, never
/// stored.
#[verifier::ext_equal]
#[derive(Clone, Debug, PartialEq, Eq)]
pub struct Position {
    /// The denom of this position.
    pub denom: String,
    /// Real collateral amount; zero unless an enabled entry exists.
    pub collateral_amount: u128,
    /// Real debt amount net of any uncollateralized loan limit, floored
    /// at zero.
    pub debt_amount: u128,
    /// Whether the debt entry is marked uncollateralized.
    pub uncollateralized_debt: bool,
    /// Maximum borrowing power a unit of this collateral grants.
    pub max_ltv: Decimal,
    /// Collateral ratio below which the position becomes liquidatable.
    pub liquidation_threshold: Decimal,
    /// Current oracle price of the denom.
    pub asset_price: Decimal,
}

/// Everything the collaborators report about one denom of a user's
/// position set: the stored entries, the real amounts behind the scaled
/// ones at the current block time, the loan limit, the market and the
/// price.
#[derive(Clone, Debug, PartialEq, Eq)]
pub struct DenomState {
    /// The denom.
    pub denom: String,
    /// The denom's market configuration; its absence is an invariant
    /// violation, since a tracked denom must have been onboarded.
    pub market: Option<Market>,
    /// The user's stored collateral entry, if any.
    pub collateral: Option<Collateral>,
    /// Real amount behind the user's scaled collateral balance at the
    /// current block time.
    pub collateral_underlying: u128,
    /// The user's stored debt entry, if any.
    pub debt: Option<Debt>,
    /// Real amount behind the user's scaled debt at the current block
    /// time.
    pub debt_underlying: u128,
    /// The user's uncollateralized loan limit in this denom.
    pub uncollateralized_loan_limit: u128,
    /// Current oracle price of the denom.
    pub price: Decimal,
}

/// The position one denom's reported state reduces to: collateral counts
/// only when an enabled entry exists; debt counts net of the loan limit,
/// floored at zero; parameters come from the market (which must exist).
pub open spec fn spec_position(s: DenomState) -> Position {
    let market = match s.market {
        Some(m) => m,
        None => Market {
            denom: s.denom,
            max_loan_to_value: Decimal { atomics: 0 },
            liquidation_threshold: Decimal { atomics: 0 },
            collateral_total_scaled: 0,
        },
    };
    Position {
        denom: s.denom,
        collateral_amount: match s.collateral {
            Some(c) => if c.enabled {
                s.collateral_underlying
            } else {
                0
            },
            None => 0,
        },
        debt_amount: match s.debt {
            Some(_) => if s.debt_underlying >= s.uncollateralized_loan_limit {
                (s.debt_underlying - s.uncollateralized_loan_limit) as u128
            } else {
                0
            },
            None => 0,
        },
        uncollateralized_debt: match s.debt {
            Some(d) => d.uncollateralized,
            None => false,
        },
        max_ltv: market.max_loan_to_value,
        liquidation_threshold: market.liquidation_threshold,
        asset_price: s.price,
    }
}

/// Whether some denom in the sequence views equal to `d`.
pub open spec fn contains_denom(denoms: Seq<String>, d: Seq<char>) -> bool {
    exists|i: int| 0 <= i < denoms.len() && denoms[i]@ == d
}

/// True iff some denom in the vector views equal to `d`.
fn vec_contains_denom(denoms: &Vec<String>, d: &String) -> (r: bool)
    ensures
        r == contains_denom(denoms@, d@),
{
    let mut i: usize = 0;
    while i < denoms.len()
        invariant
            i <= denoms@.len(),
            forall|j: int| 0 <= j < i ==> denoms@[j]@ != d@,
        decreases denoms@.len() - i,
    {
        if denoms[i] == *d {
            return true;
        }
        i = i + 1;
    }
    false
}

/// Appending one denom adds exactly its view to the contained set.
proof fn lemma_contains_push(s: Seq<String>, v: String, x: Seq<char>)
    ensures
        contains_denom(s.push(v), x) <==> (contains_denom(s, x) || v@ == x),
{
    if contains_denom(s.push(v), x) {
        let k = choose|k: int| 0 <= k < s.push(v).len() && s.push(v)[k]@ == x;
        if k < s.len() {
            assert(s[k]@ == x);
        }
    }
    if contains_denom(s, x) {
        let k = choose|k: int| 0 <= k < s.len() && s[k]@ == x;
        assert(s.push(v)[k]@ == x);
    }
    if v@ == x {
        assert(s.push(v)[s.len() as int]@ == x);
    }
}

/// Extending a prefix by one element adds exactly its view to the
/// contained set.
proof fn lemma_contains_take_succ(s: Seq<String>, i: int, x: Seq<char>)
    requires
        0 <= i < s.len(),
    ensures
        contains_denom(s.take(i + 1), x) <==> (contains_denom(s.take(i), x) || s[i]@ == x),
{
    assert(s.take(i + 1) =~= s.take(i).push(s[i]));
    lemma_contains_push(s.take(i), s[i], x);
}

/// The deduplicated union of the denoms a user holds collateral in and
/// the denoms they owe debt in: every denom of either input appears, each
/// at most once, in first-occurrence order.
pub fn denom_union(collateral_denoms: &Vec<String>, debt_denoms: &Vec<String>) -> (r: Vec<String>)
    ensures
        forall|d: Seq<char>|
            #[trigger] contains_denom(r@, d) <==> (contains_denom(collateral_denoms@, d)
                || contains_denom(debt_denoms@, d)),
        forall|i: int, j: int| 0 <= i < j < r@.len() ==> r@[i]@ != r@[j]@,
{
    let mut denoms: Vec<String> = Vec::new();
    let mut i: usize = 0;
    while i < collateral_denoms.len()
        invariant
            i <= collateral_denoms@.len(),
            forall|d: Seq<char>|
                #[trigger] contains_denom(denoms@, d) <==> contains_denom(
                    collateral_denoms@.take(i as int),
                    d,
                ),
            forall|a: int, b: int| 0 <= a < b < denoms@.len() ==> denoms@[a]@ != denoms@[b]@,
        decreases collateral_denoms@.len() - i,
    {
        let d = &collateral_denoms[i];
        let ghost pre = denoms@;
        if !vec_contains_denom(&denoms, d) {
            denoms.push(d.clone());
        }
        proof {
            assert forall|x: Seq<char>|
                #[trigger] contains_denom(denoms@, x) <==> contains_denom(
                    collateral_denoms@.take(i as int + 1),
                    x,
                ) by {
                lemma_contains_take_succ(collateral_denoms@, i as int, x);
                if denoms@ != pre {
                    lemma_contains_push(pre, collateral_denoms@[i as int], x);
                }
            }
        }
        i = i + 1;
    }
    proof {
        assert(collateral_denoms@.take(collateral_denoms@.len() as int) =~= collateral_denoms@);
    }
    let mut i: usize = 0;
    while i < debt_denoms.len()
        invariant
            i <= debt_denoms@.len(),
            forall|d: Seq<char>|
                #[trigger] contains_denom(denoms@, d) <==> (contains_denom(collateral_denoms@, d)
                    || contains_denom(debt_denoms@.take(i as int), d)),
            forall|a: int, b: int| 0 <= a < b < denoms@.len() ==> denoms@[a]@ != denoms@[b]@,
        decreases debt_denoms@.len() - i,
    {
        let d = &debt_denoms[i];
        let ghost pre = denoms@;
        if !vec_contains_denom(&denoms, d) {
            denoms.push(d.clone());
        }
        proof {
            assert forall|x: Seq<char>|
                #[trigger] contains_denom(denoms@, x) <==> (contains_denom(collateral_denoms@, x)
                    || contains_denom(debt_denoms@.take(i as int + 1), x)) by {
                lemma_contains_take_succ(debt_denoms@, i as int, x);
                if denoms@ != pre {
                    lemma_contains_push(pre, debt_denoms@[i as int], x);
                }
            }
        }
        i = i + 1;
    }
    proof {
        assert(debt_denoms@.take(debt_denoms@.len() as int) =~= debt_denoms@);
    }
    denoms
}

/// Reduces each denom's reported state to its position. Fails with a
/// storage error naming the denom when a denom in the set has no market
/// configuration — an invariant violation, since every tracked denom must
/// have been onboarded with market parameters before a position could
/// exist.
pub fn get_user_positions_map(states: &Vec<DenomState>) -> (r: Result<Vec<Position>, Error>)
    ensures
        r is Ok <==> (forall|i: int| 0 <= i < states@.len() ==> states@[i].market is Some),
        r matches Ok(ps) ==> ps@.len() == states@.len() && (forall|i: int|
            0 <= i < states@.len() ==> ps@[i] == spec_position(states@[i])),
        r matches Err(e) ==> exists|i: int|
            0 <= i < states@.len() && states@[i].market is None && e == (Error::MarketNotFound {
                denom: states@[i].denom,
            }),
{
    let mut positions: Vec<Position> = Vec::new();
    let mut i: usize = 0;
    while i < states.len()
        invariant
            i <= states@.len(),
            positions@.len() == i,
            forall|j: int| 0 <= j < i ==> states@[j].market is Some,
            forall|j: int| 0 <= j < i ==> positions@[j] == spec_position(states@[j]),
        decreases states@.len() - i,
    {
        let s = &states[i];
        let market = match &s.market {
            Some(m) => m,
            None => {
                return Err(Error::MarketNotFound { denom: s.denom.clone() });
            },
        };
        let collateral_amount = match &s.collateral {
            Some(c) => if c.enabled {
                s.collateral_underlying
            } else {
                0
            },
            None => 0,
        };
        let debt_amount = match &s.debt {
            Some(_) => if s.debt_underlying >= s.uncollateralized_loan_limit {
                s.debt_underlying - s.uncollateralized_loan_limit
            } else {
                0
            },
            None => 0,
        };
        let uncollateralized_debt = match &s.debt {
            Some(d) => d.uncollateralized,
            None => false,
        };
        positions.push(
            Position {
                denom: s.denom.clone(),
                collateral_amount,
                debt_amount,
                uncollateralized_debt,
                max_ltv: market.max_loan_to_value,
                liquidation_threshold: market.liquidation_threshold,
                asset_price: s.price,
            },
        );
        i = i + 1;
    }
    Ok(positions)
}

} // verus!
