use vstd::prelude::*;
use crate::data_types::{GameState, PlayerState};
use crate::market::{in_i32, prices_of, lemma_product_of_i32s};

verus! {

/// What a player is worth at the prices (bank, bond, insurance): cash plus
/// every holding at its price.
pub open spec fn net_worth_of(p: PlayerState, prices: (int, int, int)) -> int {
    p.cash + p.banks * prices.0 + p.bonds * prices.1 + p.insurance * prices.2
}

/// Every amount on the way to the net worth fits an `i32`, summed in the
/// order cash, banks, bonds, insurance.
pub open spec fn net_worth_fits(p: PlayerState, prices: (int, int, int)) -> bool {
    &&& in_i32(p.banks * prices.0)
    &&& in_i32(p.cash + p.banks * prices.0)
    &&& in_i32(p.bonds * prices.1)
    &&& in_i32(p.cash + p.banks * prices.0 + p.bonds * prices.1)
    &&& in_i32(p.insurance * prices.2)
    &&& in_i32(net_worth_of(p, prices))
}

/// A player's net worth at the market's prices.
pub fn net_worth(state: &GameState, player: &PlayerState) -> (w: i32)
    requires
        net_worth_fits(*player, prices_of(*state)),
    ensures
        w == net_worth_of(*player, prices_of(*state)),
{
    player.cash + player.banks * state.bank_price + player.bonds * state.bond_price
        + player.insurance * state.insurance_price
}

/// Whether a player's net worth can be computed in an `i32`.
pub fn net_worth_computable(state: &GameState, player: &PlayerState) -> (ok: bool)
    ensures
        ok == net_worth_fits(*player, prices_of(*state)),
{
    proof {
        lemma_product_of_i32s(player.banks, state.bank_price);
        lemma_product_of_i32s(player.bonds, state.bond_price);
        lemma_product_of_i32s(player.insurance, state.insurance_price);
    }
    let lo: i64 = i32::MIN as i64;
    let hi: i64 = i32::MAX as i64;
    let banks: i64 = player.banks as i64 * state.bank_price as i64;
    let bonds: i64 = player.bonds as i64 * state.bond_price as i64;
    let insurance: i64 = player.insurance as i64 * state.insurance_price as i64;
    if banks < lo || banks > hi || bonds < lo || bonds > hi || insurance < lo || insurance > hi {
        return false;
    }
    let first: i64 = player.cash as i64 + banks;
    if first < lo || first > hi {
        return false;
    }
    let second: i64 = first + bonds;
    if second < lo || second > hi {
        return false;
    }
    let total: i64 = second + insurance;
    total >= lo && total <= hi
}

/// How many players are worth strictly more than `w`.
pub open spec fn count_richer(ps: Seq<PlayerState>, w: int, prices: (int, int, int)) -> nat
    decreases ps.len(),
{
    if ps.len() == 0 {
        0
    } else {
        count_richer(ps.drop_last(), w, prices) + if net_worth_of(ps.last(), prices) > w { 1nat } else { 0nat }
    }
}

/// A player's place in the final results: one more than the number of players
/// worth strictly more, so that players worth the same share a place.
pub open spec fn rank_of(ps: Seq<PlayerState>, k: int, prices: (int, int, int)) -> int {
    1 + count_richer(ps, net_worth_of(ps[k], prices), prices) as int
}

/// A player's line in the final results.
#[derive(Debug, Clone, Copy, PartialEq, Eq, Structural)]
pub struct Standing {
    pub net_worth: i32,
    pub rank: usize,
}

/// The final results: each player's net worth and place, in turn order.
pub fn standings(state: &GameState, players: &Vec<PlayerState>) -> (table: Vec<Standing>)
    requires
        forall|k: int| 0 <= k < players@.len() ==> net_worth_fits(#[trigger] players@[k], prices_of(*state)),
    ensures
        table@.len() == players@.len(),
        forall|k: int| 0 <= k < players@.len() ==> {
            &&& (#[trigger] table@[k]).net_worth == net_worth_of(players@[k], prices_of(*state))
            &&& table@[k].rank == rank_of(players@, k, prices_of(*state))
        },
{
    let n = players.len();
    let mut table: Vec<Standing> = Vec::new();
    let mut i: usize = 0;
    while i < n
        invariant
            n == players@.len(),
            i <= n,
            forall|k: int| 0 <= k < n ==> net_worth_fits(#[trigger] players@[k], prices_of(*state)),
            table@.len() == i,
            forall|k: int| 0 <= k < i ==> {
                &&& (#[trigger] table@[k]).net_worth == net_worth_of(players@[k], prices_of(*state))
                &&& table@[k].rank == rank_of(players@, k, prices_of(*state))
            },
        decreases n - i,
    {
        let w = net_worth(state, &players[i]);
        let mut richer: usize = 0;
        let mut j: usize = 0;
        while j < n
            invariant
                n == players@.len(),
                j <= n,
                i < n,
                w == net_worth_of(players@[i as int], prices_of(*state)),
                forall|k: int| 0 <= k < n ==> net_worth_fits(#[trigger] players@[k], prices_of(*state)),
                richer == count_richer(players@.take(j as int), w as int, prices_of(*state)),
                richer <= j,
                j > i ==> richer < j,
            decreases n - j,
        {
            assert(players@.take(j + 1).drop_last() =~= players@.take(j as int));
            if net_worth(state, &players[j]) > w {
                richer = richer + 1;
            }
            j = j + 1;
        }
        assert(players@.take(n as int) =~= players@);
        table.push(Standing { net_worth: w, rank: richer + 1 });
        i = i + 1;
    }
    table
}

} // verus!
