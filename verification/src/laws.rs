use vstd::prelude::*;
use vstd::arithmetic::mul::{lemma_mul_is_commutative, lemma_mul_is_distributive_add_other_way, lemma_mul_is_distributive_sub_other_way};
use crate::data_types::{PlayerState, GameState, Round, MarketForce, is_market_close, same_round};
use crate::market::{
    settled, trade_fits, is_buy, is_sell, lemma_security_names_distinct, wrap_price,
    round_prices, round_can_close, round_bubble_can_pop, follows, last_round, forced_influences,
    traded_total, round_influences,
};
use crate::results::{net_worth_of, count_richer, rank_of};
use crate::setup::{is_starting_roster, is_character, roster_row, in_roster};
use crate::phases::{
    trade_check, TradeCheck, holding_of, action_of_order, same_holdings, holding_limit,
    influence_check, influence_shift, InfluenceCheck, security_of_code, direction_name, top_cash, count_with_cash, last_with_cash,
};

verus! {

/// "Buy" and "Sell" differ.
proof fn lemma_actions_distinct()
    ensures
        "Buy"@ != "Sell"@,
{
    reveal_strlit("Buy");
    reveal_strlit("Sell");
    assert("Buy"@.len() != "Sell"@.len());
}

/// Carrying out an order does not change what a player is worth at the
/// prices it was carried out at: what leaves as cash arrives as holding, and
/// the other way round.
pub proof fn lemma_settling_keeps_net_worth(before: PlayerState, after: PlayerState, prices: (int, int, int))
    requires
        trade_fits(before, prices),
        settled(before, after, prices),
    ensures
        net_worth_of(after, prices) == net_worth_of(before, prices),
{
    lemma_security_names_distinct();
    lemma_actions_distinct();
    let q = before.quantity as int;
    if is_buy(before) || is_sell(before) {
        lemma_mul_is_commutative(prices.0, q);
        lemma_mul_is_commutative(prices.1, q);
        lemma_mul_is_commutative(prices.2, q);
        lemma_mul_is_distributive_add_other_way(prices.0, before.banks as int, q);
        lemma_mul_is_distributive_add_other_way(prices.1, before.bonds as int, q);
        lemma_mul_is_distributive_add_other_way(prices.2, before.insurance as int, q);
        lemma_mul_is_distributive_sub_other_way(prices.0, before.banks as int, q);
        lemma_mul_is_distributive_sub_other_way(prices.1, before.bonds as int, q);
        lemma_mul_is_distributive_sub_other_way(prices.2, before.insurance as int, q);
    }
}

/// An accepted order keeps the holding it trades within 0 to 24: a buy of
/// at most what fits under 24, a sell of at most what is held.
pub proof fn lemma_accepted_order_keeps_holding_in_bounds(
    p: PlayerState,
    order: Seq<char>,
    quantity: Option<i32>,
    recorded: PlayerState,
    prices: (int, int, int),
    after: PlayerState,
)
    requires
        trade_check(p, order, quantity) == TradeCheck::Accepted,
        0 <= holding_of(p, p.security@)->0 <= holding_limit(),
        recorded.action@ == action_of_order(order),
        recorded.quantity == quantity->0,
        recorded.security == p.security,
        same_holdings(recorded, p),
        settled(recorded, after, prices),
    ensures
        holding_of(after, after.security@) is Some,
        0 <= holding_of(after, after.security@)->0 <= holding_limit(),
{
    lemma_security_names_distinct();
    lemma_actions_distinct();
    reveal_strlit("b");
    reveal_strlit("s");
    assert("b"@[0] != "s"@[0]);
}

/// While the bubble cannot pop, every price ends within 10 to 90.
pub proof fn lemma_held_price_in_band(p: int)
    ensures
        10 <= wrap_price(p, false) <= 90,
{
}

/// A price within 10 to 90 stays where it is.
pub proof fn lemma_price_in_band_stays(p: int, bubble_can_pop: bool)
    requires
        10 <= p <= 90,
    ensures
        wrap_price(p, bubble_can_pop) == p,
{
}

/// A popping bubble moves a price by 90, so the price keeps its remainder
/// modulo 90.
pub proof fn lemma_popped_price_keeps_remainder(p: int)
    ensures
        wrap_price(p, true) % 90 == p % 90,
{
    if p < 10 {
        assert((90 + p) % 90 == p % 90) by (nonlinear_arith);
    } else if p > 90 {
        assert((p - 90) % 90 == p % 90) by (nonlinear_arith);
    }
}

/// In a round whose card is "FED INTERVENTION" the bubble cannot pop, and
/// every price ends the round within 10 to 90.
pub proof fn lemma_fed_intervention_holds_prices(s: GameState, ps: Seq<PlayerState>, deck: Seq<MarketForce>)
    requires
        round_can_close(s, ps, deck),
        !is_market_close(s.round),
        deck[0].title@ == "FED INTERVENTION"@,
    ensures
        !round_bubble_can_pop(s, deck),
        10 <= round_prices(s, ps, deck).0 <= 90,
        10 <= round_prices(s, ps, deck).1 <= 90,
        10 <= round_prices(s, ps, deck).2 <= 90,
{
}

/// The numbered rounds count up by one to the last round; after the last
/// round comes "Market Close", which then stays.
pub proof fn lemma_round_order(r: Round, next: Round)
    requires
        follows(r, next),
    ensures
        r is Integer && r->Integer_0 < last_round() ==> next == Round::Integer((r->Integer_0 + 1) as i32),
        r is Integer && r->Integer_0 >= last_round() ==> is_market_close(next),
        is_market_close(r) ==> is_market_close(next),
{
}

/// Starting from round 1, the game passes rounds 1 to 5 and then reaches
/// "Market Close": five rounds are closed before the market closes.
pub proof fn lemma_five_rounds(r1: Round, r2: Round, r3: Round, r4: Round, r5: Round, r6: Round)
    requires
        r1 == Round::Integer(1),
        follows(r1, r2),
        follows(r2, r3),
        follows(r3, r4),
        follows(r4, r5),
        follows(r5, r6),
    ensures
        r5 == Round::Integer(5),
        is_market_close(r6),
        !is_market_close(r5),
{
}

/// An accepted influence choice moves exactly one security's influence, by
/// exactly one; a refused one moves none.
pub proof fn lemma_influence_moves_one_security_by_one(code: Seq<char>, direction: Seq<char>)
    ensures
        influence_check(code, direction) == InfluenceCheck::Accepted ==> {
            let b = influence_shift(code, direction, "Bank"@);
            let o = influence_shift(code, direction, "Bond"@);
            let i = influence_shift(code, direction, "Insurance"@);
            &&& b == 0 || o == 0
            &&& b == 0 || i == 0
            &&& o == 0 || i == 0
            &&& b + o + i == 1 || b + o + i == -1
        },
        influence_check(code, direction) != InfluenceCheck::Accepted ==> {
            &&& influence_shift(code, direction, "Bank"@) == 0
            &&& influence_shift(code, direction, "Bond"@) == 0
            &&& influence_shift(code, direction, "Insurance"@) == 0
        },
{
    lemma_security_names_distinct();
}

/// Comparing rounds is an equivalence: every round equals itself, and
/// equality reads the same both ways and chains.
pub proof fn lemma_round_equality_is_equivalence(a: Round, b: Round, c: Round)
    ensures
        same_round(a, a),
        same_round(a, b) == same_round(b, a),
        same_round(a, b) && same_round(b, c) ==> same_round(a, c),
{
}

proof fn lemma_count_richer_bound(ps: Seq<PlayerState>, w: int, prices: (int, int, int))
    ensures
        count_richer(ps, w, prices) <= ps.len(),
        count_richer(ps, w, prices) == 0 <==> forall|m: int| 0 <= m < ps.len() ==> net_worth_of(#[trigger] ps[m], prices) <= w,
    decreases ps.len(),
{
    if ps.len() > 0 {
        lemma_count_richer_bound(ps.drop_last(), w, prices);
        assert forall|m: int| 0 <= m < ps.len() - 1 implies #[trigger] ps.drop_last()[m] == ps[m] by {}
        if count_richer(ps, w, prices) == 0 {
            assert forall|m: int| 0 <= m < ps.len() implies net_worth_of(#[trigger] ps[m], prices) <= w by {
                if m < ps.len() - 1 {
                    assert(ps.drop_last()[m] == ps[m]);
                }
            }
        }
    }
}

proof fn lemma_count_richer_excludes(ps: Seq<PlayerState>, k: int, w: int, prices: (int, int, int))
    requires
        0 <= k < ps.len(),
        net_worth_of(ps[k], prices) <= w,
    ensures
        count_richer(ps, w, prices) < ps.len(),
    decreases ps.len(),
{
    lemma_count_richer_bound(ps.drop_last(), w, prices);
    if k < ps.len() - 1 {
        assert(ps.drop_last()[k] == ps[k]);
        lemma_count_richer_excludes(ps.drop_last(), k, w, prices);
    }
}

proof fn lemma_count_richer_monotone(ps: Seq<PlayerState>, k: int, hi: int, lo: int, prices: (int, int, int))
    requires
        0 <= k < ps.len(),
        lo < hi,
        net_worth_of(ps[k], prices) == hi,
    ensures
        count_richer(ps, hi, prices) < count_richer(ps, lo, prices),
    decreases ps.len(),
{
    if k < ps.len() - 1 {
        assert(ps.drop_last()[k] == ps[k]);
        lemma_count_richer_monotone(ps.drop_last(), k, hi, lo, prices);
    } else {
        lemma_count_richer_weakly_monotone(ps.drop_last(), hi, lo, prices);
    }
}

proof fn lemma_count_richer_weakly_monotone(ps: Seq<PlayerState>, hi: int, lo: int, prices: (int, int, int))
    requires
        lo <= hi,
    ensures
        count_richer(ps, hi, prices) <= count_richer(ps, lo, prices),
    decreases ps.len(),
{
    if ps.len() > 0 {
        lemma_count_richer_weakly_monotone(ps.drop_last(), hi, lo, prices);
    }
}

/// Every player's place lies between 1 and the number of players.
pub proof fn lemma_rank_bounds(ps: Seq<PlayerState>, k: int, prices: (int, int, int))
    requires
        0 <= k < ps.len(),
    ensures
        1 <= rank_of(ps, k, prices) <= ps.len(),
{
    lemma_count_richer_excludes(ps, k, net_worth_of(ps[k], prices), prices);
}

/// A player worth more than another is placed strictly ahead of it.
pub proof fn lemma_richer_player_ranks_ahead(ps: Seq<PlayerState>, i: int, j: int, prices: (int, int, int))
    requires
        0 <= i < ps.len(),
        0 <= j < ps.len(),
        net_worth_of(ps[i], prices) > net_worth_of(ps[j], prices),
    ensures
        rank_of(ps, i, prices) < rank_of(ps, j, prices),
{
    lemma_count_richer_monotone(ps, i, net_worth_of(ps[i], prices), net_worth_of(ps[j], prices), prices);
}

/// A player takes first place exactly when nobody is worth more.
pub proof fn lemma_first_place(ps: Seq<PlayerState>, k: int, prices: (int, int, int))
    requires
        0 <= k < ps.len(),
    ensures
        rank_of(ps, k, prices) == 1 <==> forall|m: int|
            0 <= m < ps.len() ==> net_worth_of(#[trigger] ps[m], prices) <= net_worth_of(ps[k], prices),
{
    lemma_count_richer_bound(ps, net_worth_of(ps[k], prices), prices);
}

proof fn lemma_top_cash_bounds(ps: Seq<PlayerState>)
    ensures
        top_cash(ps) >= 0,
        forall|j: int| 0 <= j < ps.len() ==> (#[trigger] ps[j]).cash <= top_cash(ps),
    decreases ps.len(),
{
    if ps.len() > 0 {
        lemma_top_cash_bounds(ps.drop_last());
        assert forall|j: int| 0 <= j < ps.len() implies (#[trigger] ps[j]).cash <= top_cash(ps) by {
            if j < ps.len() - 1 {
                assert(ps.drop_last()[j] == ps[j]);
            }
        }
    }
}

proof fn lemma_last_with_cash(ps: Seq<PlayerState>, c: int)
    ensures
        count_with_cash(ps, c) > 0 ==> {
            let i = last_with_cash(ps, c);
            &&& 0 <= i < ps.len()
            &&& ps[i].cash == c
        },
        count_with_cash(ps, c) == 1 ==> forall|j: int|
            0 <= j < ps.len() && j != last_with_cash(ps, c) ==> (#[trigger] ps[j]).cash != c,
        count_with_cash(ps, c) == 0 ==> forall|j: int| 0 <= j < ps.len() ==> (#[trigger] ps[j]).cash != c,
    decreases ps.len(),
{
    if ps.len() > 0 {
        let init = ps.drop_last();
        lemma_last_with_cash(init, c);
        assert forall|j: int| 0 <= j < ps.len() - 1 implies #[trigger] init[j] == ps[j] by {}
        if ps.last().cash == c {
            if count_with_cash(ps, c) == 1 {
                assert(count_with_cash(init, c) == 0);
                assert forall|j: int| 0 <= j < ps.len() && j != last_with_cash(ps, c) implies (#[trigger] ps[j]).cash != c by {
                    assert(init[j] == ps[j]);
                }
            }
        } else {
            assert forall|j: int| 0 <= j < ps.len() && j != last_with_cash(ps, c) && count_with_cash(ps, c) == 1
                implies (#[trigger] ps[j]).cash != c by {
                if j < ps.len() - 1 {
                    assert(init[j] == ps[j]);
                }
            }
            assert forall|j: int| 0 <= j < ps.len() && count_with_cash(ps, c) == 0
                implies (#[trigger] ps[j]).cash != c by {
                if j < ps.len() - 1 {
                    assert(init[j] == ps[j]);
                }
            }
        }
    }
}

/// The lobbyist that phase 3 names, where one is named, holds at least as much
/// cash as every player; where one player alone holds the most cash (at least
/// 0), that player is the lobbyist and every other player holds strictly less.
pub proof fn lemma_lobbyist_holds_most_cash(ps: Seq<PlayerState>)
    ensures
        count_with_cash(ps, top_cash(ps)) > 0 ==> {
            let i = last_with_cash(ps, top_cash(ps));
            &&& 0 <= i < ps.len()
            &&& forall|j: int| 0 <= j < ps.len() ==> (#[trigger] ps[j]).cash <= ps[i].cash
        },
        count_with_cash(ps, top_cash(ps)) == 1 ==> {
            let i = last_with_cash(ps, top_cash(ps));
            forall|j: int| 0 <= j < ps.len() && j != i ==> (#[trigger] ps[j]).cash < ps[i].cash
        },
{
    lemma_top_cash_bounds(ps);
    lemma_last_with_cash(ps, top_cash(ps));
}

/// Where nobody holds the most cash counted from 0 (every player's cash is
/// below 0), no player is named and the last lobbyist stays.
pub proof fn lemma_no_lobbyist_when_all_in_debt(ps: Seq<PlayerState>)
    requires
        forall|j: int| 0 <= j < ps.len() ==> (#[trigger] ps[j]).cash < 0,
    ensures
        count_with_cash(ps, top_cash(ps)) == 0,
    decreases ps.len(),
{
    if ps.len() > 0 {
        let init = ps.drop_last();
        assert forall|j: int| 0 <= j < init.len() implies (#[trigger] init[j]).cash < 0 by {
            assert(init[j] == ps[j]);
        }
        lemma_no_lobbyist_when_all_in_debt(init);
        lemma_top_cash_bounds(init);
        assert(top_cash(init) == 0) by {
            lemma_top_cash_zero_when_all_in_debt(init);
        }
    }
}

proof fn lemma_top_cash_zero_when_all_in_debt(ps: Seq<PlayerState>)
    requires
        forall|j: int| 0 <= j < ps.len() ==> (#[trigger] ps[j]).cash < 0,
    ensures
        top_cash(ps) == 0,
    decreases ps.len(),
{
    if ps.len() > 0 {
        let init = ps.drop_last();
        assert forall|j: int| 0 <= j < init.len() implies (#[trigger] init[j]).cash < 0 by {
            assert(init[j] == ps[j]);
        }
        lemma_top_cash_zero_when_all_in_debt(init);
    }
}

} // verus!

verus! {

/// The characters of the roster differ from one another.
proof fn lemma_roster_has_no_duplicates(roster: Seq<PlayerState>)
    requires
        is_starting_roster(roster),
    ensures
        roster.no_duplicates(),
{
    assert forall|i: int, j: int| 0 <= i < roster.len() && 0 <= j < roster.len() && i != j
        implies roster[i] != roster[j] by {
        assert(is_character(roster[i], roster_row(i)));
        assert(is_character(roster[j], roster_row(j)));
    }
}

/// A new game deals each character at most once, and every player dealt is a
/// character of the roster, fresh, with no choice made: the order that the
/// shuffle gives is a rearrangement of the roster, and the players are its
/// first entries.
pub proof fn lemma_dealt_players_are_distinct_characters(
    roster: Seq<PlayerState>,
    order: Seq<PlayerState>,
    num_players: int,
)
    requires
        is_starting_roster(roster),
        order.to_multiset() == roster.to_multiset(),
        order.len() == roster.len(),
        0 <= num_players <= order.len(),
    ensures
        forall|i: int, k: int| 0 <= i < k < num_players ==> order.take(num_players)[i] != order.take(num_players)[k],
        forall|i: int| 0 <= i < num_players ==> in_roster(#[trigger] order.take(num_players)[i]),
{
    broadcast use vstd::seq_lib::group_to_multiset_ensures;
    lemma_roster_has_no_duplicates(roster);
    roster.lemma_multiset_has_no_duplicates();
    order.lemma_multiset_has_no_duplicates_conv();
    assert forall|i: int| 0 <= i < num_players implies in_roster(#[trigger] order.take(num_players)[i]) by {
        let p = order[i];
        assert(order.contains(p));
        assert(order.to_multiset().count(p) > 0);
        assert(roster.contains(p));
        let j = choose|j: int| 0 <= j < roster.len() && roster[j] == p;
        assert(is_character(roster[j], roster_row(j)));
        assert(order.take(num_players)[i] == p);
    }
}

} // verus!

verus! {

/// Two market states one influence answer apart: each influence moved by the
/// answer's shift, as `place_influence` states.
pub open spec fn influence_step(before: GameState, after: GameState, answer: (Seq<char>, Seq<char>)) -> bool {
    &&& after.bank_influence == before.bank_influence + influence_shift(answer.0, answer.1, "Bank"@)
    &&& after.bond_influence == before.bond_influence + influence_shift(answer.0, answer.1, "Bond"@)
    &&& after.insurance_influence == before.insurance_influence + influence_shift(answer.0, answer.1, "Insurance"@)
}

/// How many of the answers are accepted choices to move `security` in
/// `direction` ("i" or "d").
pub open spec fn count_choices(answers: Seq<(Seq<char>, Seq<char>)>, security: Seq<char>, direction: Seq<char>) -> nat
    decreases answers.len(),
{
    if answers.len() == 0 {
        0
    } else {
        let a = answers.last();
        count_choices(answers.drop_last(), security, direction) + if influence_check(a.0, a.1)
            == InfluenceCheck::Accepted && security_of_code(a.0) == Some(security) && a.1 == direction {
            1nat
        } else {
            0nat
        }
    }
}

/// How many of the answers are accepted.
pub open spec fn count_accepted(answers: Seq<(Seq<char>, Seq<char>)>) -> nat
    decreases answers.len(),
{
    if answers.len() == 0 {
        0
    } else {
        count_accepted(answers.drop_last()) + if influence_check(answers.last().0, answers.last().1)
            == InfluenceCheck::Accepted {
            1nat
        } else {
            0nat
        }
    }
}

/// The size of an integer.
pub open spec fn abs(x: int) -> int {
    if x < 0 { -x } else { x }
}

proof fn lemma_shift_counts(code: Seq<char>, direction: Seq<char>, target: Seq<char>)
    ensures
        influence_shift(code, direction, target) == (if influence_check(code, direction) == InfluenceCheck::Accepted
            && security_of_code(code) == Some(target) && direction == "i"@ { 1int } else { 0int }) - (
        if influence_check(code, direction) == InfluenceCheck::Accepted && security_of_code(code) == Some(target)
            && direction == "d"@ { 1int } else { 0int }),
{
    reveal_strlit("i");
    reveal_strlit("d");
    assert("i"@[0] != "d"@[0]);
}

/// Over a whole third phase (the answers in the order given, refused ones
/// included), each security's influence moves by the number of accepted
/// increases of it minus the number of accepted decreases; and the three
/// moves together are at most the number of accepted answers, which is at
/// most the number of answers.
pub proof fn lemma_influence_phase_totals(states: Seq<GameState>, answers: Seq<(Seq<char>, Seq<char>)>)
    requires
        states.len() == answers.len() + 1,
        forall|j: int| 0 <= j < answers.len() ==> influence_step(#[trigger] states[j], states[j + 1], answers[j]),
    ensures
        states.last().bank_influence - states[0].bank_influence
            == count_choices(answers, "Bank"@, "i"@) - count_choices(answers, "Bank"@, "d"@),
        states.last().bond_influence - states[0].bond_influence
            == count_choices(answers, "Bond"@, "i"@) - count_choices(answers, "Bond"@, "d"@),
        states.last().insurance_influence - states[0].insurance_influence
            == count_choices(answers, "Insurance"@, "i"@) - count_choices(answers, "Insurance"@, "d"@),
        abs(states.last().bank_influence - states[0].bank_influence)
            + abs(states.last().bond_influence - states[0].bond_influence)
            + abs(states.last().insurance_influence - states[0].insurance_influence) <= count_accepted(answers),
        count_accepted(answers) <= answers.len(),
    decreases answers.len(),
{
    if answers.len() > 0 {
        let k = answers.len() - 1;
        let prefix = states.take(states.len() - 1);
        assert forall|j: int| 0 <= j < answers.drop_last().len() implies influence_step(
            #[trigger] prefix[j],
            prefix[j + 1],
            answers.drop_last()[j],
        ) by {
            assert(influence_step(states[j], states[j + 1], answers[j]));
        }
        lemma_influence_phase_totals(prefix, answers.drop_last());
        assert(prefix.last() == states[k]);
        assert(influence_step(states[k], states[k + 1], answers[k]));
        let a = answers[k];
        lemma_shift_counts(a.0, a.1, "Bank"@);
        lemma_shift_counts(a.0, a.1, "Bond"@);
        lemma_shift_counts(a.0, a.1, "Insurance"@);
        lemma_influence_moves_one_security_by_one(a.0, a.1);
    }
}

} // verus!

verus! {

proof fn lemma_reveal_titles()
    ensures
        "HOUSING BOOM"@.len() == 12,
        "GAINING INFLUENCE"@.len() == 17,
        "OIL BUST"@.len() == 8,
        "POLICY CHANGE"@.len() == 13,
        "LACK OF INTEREST"@.len() == 16,
        "STABLE MARKET"@.len() == 13,
        "SMALL BUSINESS BOOM"@.len() == 19,
        "FED INTERVENTION"@.len() == 16,
        "HIGH DEMAND"@.len() == 11,
{
    reveal_strlit("HOUSING BOOM");
    reveal_strlit("GAINING INFLUENCE");
    reveal_strlit("OIL BUST");
    reveal_strlit("POLICY CHANGE");
    reveal_strlit("LACK OF INTEREST");
    reveal_strlit("STABLE MARKET");
    reveal_strlit("SMALL BUSINESS BOOM");
    reveal_strlit("FED INTERVENTION");
    reveal_strlit("HIGH DEMAND");
}

/// Under "HIGH DEMAND" (the most bought security +1): at most one influence
/// moves, by exactly +1; the one that moves has the greatest total bought
/// quantity of all three securities; none moves only when the greatest total
/// is 0; and a security whose total is strictly the greatest (and not 0)
/// always rises.
pub proof fn lemma_high_demand_raises_most_bought(bi: int, oi: int, ii: int, ps: Seq<PlayerState>)
    ensures
        ({
            let r = forced_influences("HIGH DEMAND"@, bi, oi, ii, ps);
            let b = traded_total(ps, "Buy"@, "Bank"@);
            let o = traded_total(ps, "Buy"@, "Bond"@);
            let n = traded_total(ps, "Buy"@, "Insurance"@);
            &&& 0 <= r.0 - bi <= 1
            &&& 0 <= r.1 - oi <= 1
            &&& 0 <= r.2 - ii <= 1
            &&& (r.0 - bi) + (r.1 - oi) + (r.2 - ii) <= 1
            &&& r.0 - bi == 1 ==> b >= o && b >= n
            &&& r.1 - oi == 1 ==> o >= b && o >= n
            &&& r.2 - ii == 1 ==> n >= b && n >= o
            &&& ((r.0 - bi) + (r.1 - oi) + (r.2 - ii) == 0 <==> (b <= 0 && o <= 0 && n <= 0 && (b == 0 || o == 0 || n == 0)))
            &&& b > o && b > n && b != 0 ==> r == (bi + 1, oi, ii)
            &&& o > b && o > n && o != 0 ==> r == (bi, oi + 1, ii)
            &&& n > b && n > o && n != 0 ==> r == (bi, oi, ii + 1)
        }),
{
    lemma_reveal_titles();
}

/// Under "LACK OF INTEREST" (the most sold security -1): at most one
/// influence moves, by exactly -1; the one that moves has the greatest total
/// sold quantity of all three securities; none moves only when the greatest
/// total is 0; and a security whose total is strictly the greatest (and not
/// 0) always falls.
pub proof fn lemma_lack_of_interest_lowers_most_sold(bi: int, oi: int, ii: int, ps: Seq<PlayerState>)
    ensures
        ({
            let r = forced_influences("LACK OF INTEREST"@, bi, oi, ii, ps);
            let b = traded_total(ps, "Sell"@, "Bank"@);
            let o = traded_total(ps, "Sell"@, "Bond"@);
            let n = traded_total(ps, "Sell"@, "Insurance"@);
            &&& 0 <= bi - r.0 <= 1
            &&& 0 <= oi - r.1 <= 1
            &&& 0 <= ii - r.2 <= 1
            &&& (bi - r.0) + (oi - r.1) + (ii - r.2) <= 1
            &&& bi - r.0 == 1 ==> b >= o && b >= n
            &&& oi - r.1 == 1 ==> o >= b && o >= n
            &&& ii - r.2 == 1 ==> n >= b && n >= o
            &&& ((bi - r.0) + (oi - r.1) + (ii - r.2) == 0 <==> (b <= 0 && o <= 0 && n <= 0 && (b == 0 || o == 0 || n == 0)))
            &&& b > o && b > n && b != 0 ==> r == (bi - 1, oi, ii)
            &&& o > b && o > n && o != 0 ==> r == (bi, oi - 1, ii)
            &&& n > b && n > o && n != 0 ==> r == (bi, oi, ii - 1)
        }),
{
    lemma_reveal_titles();
}

/// Where a moved price lands when the bubble can pop: above 90 it drops by
/// 90, below 10 it rises by 90, else it stays.
pub open spec fn popped(p: int) -> int {
    if p > 90 { p - 90 } else if p < 10 { p + 90 } else { p }
}

/// Unless the drawn card is "FED INTERVENTION", the bubble can pop: every
/// price moves by ten times its influence and then wraps by 90 when it left 10
/// to 90. At "Market Close" no card is drawn, the influences are those the
/// players placed, and the bubble can pop.
pub proof fn lemma_bubble_pops_unless_fed(s: GameState, ps: Seq<PlayerState>, deck: Seq<MarketForce>)
    requires
        is_market_close(s.round) || deck[0].title@ != "FED INTERVENTION"@,
    ensures
        round_bubble_can_pop(s, deck),
        is_market_close(s.round) ==> round_influences(s, ps, deck)
            == (s.bank_influence as int, s.bond_influence as int, s.insurance_influence as int),
        ({
            let i = round_influences(s, ps, deck);
            let r = round_prices(s, ps, deck);
            &&& r.0 == popped(s.bank_price + i.0 * 10)
            &&& r.1 == popped(s.bond_price + i.1 * 10)
            &&& r.2 == popped(s.insurance_price + i.2 * 10)
        }),
{
}

/// A carried-out order, for each of the three securities: a buy of q at
/// price p lowers cash by p * q and raises that holding by q, a sell does the
/// reverse, the other holdings stay; a player who neither buys nor sells
/// keeps cash and holdings.
pub proof fn lemma_settled_order_moves_cash_and_holding(before: PlayerState, after: PlayerState, prices: (int, int, int))
    requires
        trade_fits(before, prices),
        settled(before, after, prices),
    ensures
        ({
            let q = before.quantity as int;
            let buy = before.action@ == "Buy"@;
            let sell = before.action@ == "Sell"@;
            &&& buy && before.security@ == "Bank"@ ==> after.cash == before.cash - prices.0 * q
                && after.banks == before.banks + q && after.bonds == before.bonds && after.insurance == before.insurance
            &&& buy && before.security@ == "Bond"@ ==> after.cash == before.cash - prices.1 * q
                && after.banks == before.banks && after.bonds == before.bonds + q && after.insurance == before.insurance
            &&& buy && before.security@ == "Insurance"@ ==> after.cash == before.cash - prices.2 * q
                && after.banks == before.banks && after.bonds == before.bonds && after.insurance == before.insurance + q
            &&& sell && before.security@ == "Bank"@ ==> after.cash == before.cash + prices.0 * q
                && after.banks == before.banks - q && after.bonds == before.bonds && after.insurance == before.insurance
            &&& sell && before.security@ == "Bond"@ ==> after.cash == before.cash + prices.1 * q
                && after.banks == before.banks && after.bonds == before.bonds - q && after.insurance == before.insurance
            &&& sell && before.security@ == "Insurance"@ ==> after.cash == before.cash + prices.2 * q
                && after.banks == before.banks && after.bonds == before.bonds && after.insurance == before.insurance - q
            &&& !buy && !sell ==> after.cash == before.cash && after.banks == before.banks
                && after.bonds == before.bonds && after.insurance == before.insurance
        }),
{
    lemma_security_names_distinct();
    lemma_actions_distinct();
    lemma_mul_is_commutative(prices.0, before.quantity as int);
    lemma_mul_is_commutative(prices.1, before.quantity as int);
    lemma_mul_is_commutative(prices.2, before.quantity as int);
}

/// A phase-2 order for each of the three securities: with a quantity q in 1
/// to 9, a buy ("b") stands exactly when q plus the holding of that very
/// security is at most 24, and a sell ("s") exactly when q is at most that
/// holding; an accepted buy is recorded as "Buy", a sell as "Sell". A player
/// whose security is none of the three never trades.
pub proof fn lemma_trade_acceptance(p: PlayerState, order: Seq<char>, q: i32)
    ensures
        ({
            let h: int = if p.security@ == "Bank"@ {
                p.banks as int
            } else if p.security@ == "Bond"@ {
                p.bonds as int
            } else {
                p.insurance as int
            };
            let known = p.security@ == "Bank"@ || p.security@ == "Bond"@ || p.security@ == "Insurance"@;
            &&& known && (order == "b"@ || order == "s"@) && 1 <= q <= 9 ==> (trade_check(p, order, Some(q))
                == TradeCheck::Accepted <==> (order == "b"@ && q + h <= 24) || (order == "s"@ && q <= h))
            &&& !known ==> trade_check(p, order, Some(q)) != TradeCheck::Accepted
        }),
        action_of_order("b"@) == "Buy"@,
        action_of_order("s"@) == "Sell"@,
{
    lemma_security_names_distinct();
    reveal_strlit("b");
    reveal_strlit("s");
    assert("b"@[0] != "s"@[0]);
}

/// Every pair of a known security code ("ba", "bo", "i") and a known
/// direction ("i", "d") is accepted, and moves that security's influence by
/// +1 for "i" and -1 for "d", the others by 0; a choice is refused exactly
/// when the code or the direction is unknown. The choice is recorded under
/// the security's name and "Increase" or "Decrease".
pub proof fn lemma_influence_choices(code: Seq<char>, direction: Seq<char>)
    ensures
        ({
            let known_code = code == "ba"@ || code == "bo"@ || code == "i"@;
            let known_direction = direction == "i"@ || direction == "d"@;
            let step: int = if direction == "i"@ { 1 } else { -1 };
            &&& (influence_check(code, direction) == InfluenceCheck::Accepted <==> known_code && known_direction)
            &&& known_code && known_direction ==> {
                &&& influence_shift(code, direction, "Bank"@) == if code == "ba"@ { step } else { 0 }
                &&& influence_shift(code, direction, "Bond"@) == if code == "bo"@ { step } else { 0 }
                &&& influence_shift(code, direction, "Insurance"@) == if code == "i"@ { step } else { 0 }
            }
        }),
        security_of_code("ba"@) == Some("Bank"@),
        security_of_code("bo"@) == Some("Bond"@),
        security_of_code("i"@) == Some("Insurance"@),
        direction_name("i"@) == "Increase"@,
        direction_name("d"@) == "Decrease"@,
{
    lemma_security_names_distinct();
    reveal_strlit("ba");
    reveal_strlit("bo");
    reveal_strlit("i");
    reveal_strlit("d");
    assert("i"@[0] != "d"@[0]);
    assert("ba"@[1] != "bo"@[1]);
    assert("ba"@.len() != "i"@.len());
    assert("bo"@.len() != "i"@.len());
}

/// The total traded of a security counts every player's quantity whose
/// order and security match, whatever the security: no players count 0, and
/// one more player adds exactly their quantity when both match, else 0.
pub proof fn lemma_traded_total_counts(ps: Seq<PlayerState>, p: PlayerState, action: Seq<char>, security: Seq<char>)
    ensures
        traded_total(Seq::<PlayerState>::empty(), action, security) == 0,
        traded_total(ps.push(p), action, security) == traded_total(ps, action, security) + if p.action@ == action
            && p.security@ == security {
            p.quantity as int
        } else {
            0
        },
{
    assert(ps.push(p).drop_last() =~= ps);
}

} // verus!
