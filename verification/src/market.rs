use vstd::prelude::*;
use std::collections::VecDeque;
use crate::data_types::{GameState, PlayerState, MarketForce, Round, f, is_market_close, game_state_text};
use crate::text::text_is;

verus! {

/// Whether an integer fits an `i32`.
pub open spec fn in_i32(x: int) -> bool {
    i32::MIN <= x <= i32::MAX
}

/// The product of two `i32`s fits an `i64`.
pub(crate) proof fn lemma_product_of_i32s(a: i32, b: i32)
    ensures
        -0x4000_0000_0000_0000 <= (a as int) * (b as int) <= 0x4000_0000_0000_0000,
{
    assert(-0x8000_0000 <= a <= 0x8000_0000);
    assert(-0x8000_0000 <= b <= 0x8000_0000);
    assert((a as int) * (b as int) <= 0x4000_0000_0000_0000 && (a as int) * (b as int) >= -0x4000_0000_0000_0000)
        by (nonlinear_arith)
        requires
            -0x8000_0000 <= a <= 0x8000_0000,
            -0x8000_0000 <= b <= 0x8000_0000,
    ;
}

/// Whether a name is one of the three securities.
pub open spec fn known_security(security: Seq<char>) -> bool {
    security == "Bank"@ || security == "Bond"@ || security == "Insurance"@
}

/// Whether a title is one of the market force cards that the game knows.
pub open spec fn force_known(title: Seq<char>) -> bool {
    ||| title == "HOUSING BOOM"@
    ||| title == "GAINING INFLUENCE"@
    ||| title == "OIL BUST"@
    ||| title == "POLICY CHANGE"@
    ||| title == "LACK OF INTEREST"@
    ||| title == "STABLE MARKET"@
    ||| title == "SMALL BUSINESS BOOM"@
    ||| title == "FED INTERVENTION"@
    ||| title == "HIGH DEMAND"@
    ||| title == "NATIONAL DEBT"@
    ||| title == "CURE ALL"@
    ||| title == "TRADE DEAL"@
    ||| title == "NATURAL DISASTER"@
}

/// The total quantity of a security that the players order with an action
/// ("Buy" or "Sell") this round.
pub open spec fn traded_total(ps: Seq<PlayerState>, action: Seq<char>, security: Seq<char>) -> int
    decreases ps.len(),
{
    if ps.len() == 0 {
        0
    } else {
        traded_total(ps.drop_last(), action, security) + if ps.last().action@ == action
            && ps.last().security@ == security {
            ps.last().quantity as int
        } else {
            0int
        }
    }
}

/// Every player who orders the action trades one of the three securities.
pub open spec fn traders_known(ps: Seq<PlayerState>, action: Seq<char>) -> bool {
    forall|i: int| 0 <= i < ps.len() && (#[trigger] ps[i]).action@ == action ==> known_security(ps[i].security@)
}

/// The three totals of the quantities ordered with the action fit an `i32`.
pub open spec fn totals_fit(ps: Seq<PlayerState>, action: Seq<char>) -> bool {
    &&& in_i32(traded_total(ps, action, "Bank"@))
    &&& in_i32(traded_total(ps, action, "Bond"@))
    &&& in_i32(traded_total(ps, action, "Insurance"@))
}

/// Every running total of the quantities ordered with the action fits an `i32`.
pub open spec fn tally_fits(ps: Seq<PlayerState>, action: Seq<char>) -> bool {
    forall|k: int| 0 <= k <= ps.len() ==> #[trigger] totals_fit(ps.take(k), action)
}

/// The greatest of three totals.
pub open spec fn top3(b: int, o: int, n: int) -> int {
    let m = if b > o { b } else { o };
    if m > n { m } else { n }
}

/// Which security leads three totals (bank, bond, insurance): a 1 at the first
/// one that holds the greatest total, or nothing when that total is 0.
pub open spec fn leader_step(b: int, o: int, n: int) -> (int, int, int) {
    let m = top3(b, o, n);
    if m == 0 {
        (0, 0, 0)
    } else if m == b {
        (1, 0, 0)
    } else if m == o {
        (0, 1, 0)
    } else {
        (0, 0, 1)
    }
}

/// The influences (bank, bond, insurance) after a market force card acts on
/// the influences that the players placed.
pub open spec fn forced_influences(title: Seq<char>, bi: int, oi: int, ii: int, ps: Seq<PlayerState>) -> (int, int, int) {
    if title == "HOUSING BOOM"@ {
        (bi, oi + 2, ii)
    } else if title == "GAINING INFLUENCE"@ {
        (bi * 2, oi * 2, ii * 2)
    } else if title == "OIL BUST"@ {
        (bi - 2, oi, ii)
    } else if title == "POLICY CHANGE"@ {
        (bi, oi, ii - 2)
    } else if title == "LACK OF INTEREST"@ {
        let d = leader_step(
            traded_total(ps, "Sell"@, "Bank"@),
            traded_total(ps, "Sell"@, "Bond"@),
            traded_total(ps, "Sell"@, "Insurance"@),
        );
        (bi - d.0, oi - d.1, ii - d.2)
    } else if title == "STABLE MARKET"@ {
        (bi, oi, ii)
    } else if title == "SMALL BUSINESS BOOM"@ {
        (bi + 2, oi, ii)
    } else if title == "FED INTERVENTION"@ {
        (bi, oi, ii)
    } else if title == "HIGH DEMAND"@ {
        let d = leader_step(
            traded_total(ps, "Buy"@, "Bank"@),
            traded_total(ps, "Buy"@, "Bond"@),
            traded_total(ps, "Buy"@, "Insurance"@),
        );
        (bi + d.0, oi + d.1, ii + d.2)
    } else if title == "NATIONAL DEBT"@ {
        (bi, oi - 2, ii)
    } else if title == "CURE ALL"@ {
        (bi, oi, ii + 2)
    } else if title == "TRADE DEAL"@ {
        (bi + 1, oi + 1, ii + 1)
    } else if title == "NATURAL DISASTER"@ {
        (bi - 1, oi - 1, ii - 1)
    } else {
        (bi, oi, ii)
    }
}

/// What a card needs of the players' orders: for the cards that count the
/// orders, every trader of that kind trades a known security and the running
/// totals fit an `i32`.
pub open spec fn force_tallies_ok(title: Seq<char>, ps: Seq<PlayerState>) -> bool {
    &&& title == "LACK OF INTEREST"@ ==> traders_known(ps, "Sell"@) && tally_fits(ps, "Sell"@)
    &&& title == "HIGH DEMAND"@ ==> traders_known(ps, "Buy"@) && tally_fits(ps, "Buy"@)
}

/// A card can act on a market: the game knows it, its counts can be taken,
/// and the influences it leaves fit an `i32`.
pub open spec fn force_applies(title: Seq<char>, s: GameState, ps: Seq<PlayerState>) -> bool {
    let r = forced_influences(title, s.bank_influence as int, s.bond_influence as int, s.insurance_influence as int, ps);
    &&& force_known(title)
    &&& force_tallies_ok(title, ps)
    &&& in_i32(r.0)
    &&& in_i32(r.1)
    &&& in_i32(r.2)
}

/// The three security names differ.
pub proof fn lemma_security_names_distinct()
    ensures
        "Bank"@ != "Bond"@,
        "Bank"@ != "Insurance"@,
        "Bond"@ != "Insurance"@,
{
    reveal_strlit("Bank");
    reveal_strlit("Bond");
    reveal_strlit("Insurance");
    assert("Bank"@[1] != "Bond"@[1]);
    assert("Bank"@.len() != "Insurance"@.len());
    assert("Bond"@.len() != "Insurance"@.len());
}

/// Counts the quantities ordered with an action, by security.
pub fn tally(players: &Vec<PlayerState>, action: &str) -> (totals: (i32, i32, i32))
    requires
        traders_known(players@, action@),
        tally_fits(players@, action@),
    ensures
        totals.0 == traded_total(players@, action@, "Bank"@),
        totals.1 == traded_total(players@, action@, "Bond"@),
        totals.2 == traded_total(players@, action@, "Insurance"@),
{
    let n = players.len();
    let mut bank: i32 = 0;
    let mut bond: i32 = 0;
    let mut insurance: i32 = 0;
    let mut i: usize = 0;
    while i < n
        invariant
            n == players@.len(),
            i <= n,
            traders_known(players@, action@),
            tally_fits(players@, action@),
            bank == traded_total(players@.take(i as int), action@, "Bank"@),
            bond == traded_total(players@.take(i as int), action@, "Bond"@),
            insurance == traded_total(players@.take(i as int), action@, "Insurance"@),
        decreases n - i,
    {
        let ghost next = players@.take(i + 1);
        assert(next.drop_last() =~= players@.take(i as int));
        assert(totals_fit(next, action@));
        proof { lemma_security_names_distinct(); }
        let p = &players[i];
        assert(p == next.last());
        if text_is(&p.action, action) {
            if text_is(&p.security, "Bank") {
                bank = bank + p.quantity;
            } else if text_is(&p.security, "Bond") {
                bond = bond + p.quantity;
            } else {
                insurance = insurance + p.quantity;
            }
        }
        i = i + 1;
    }
    assert(players@.take(n as int) =~= players@);
    (bank, bond, insurance)
}

} // verus!

verus! {

/// The titles of the cards differ from "FED INTERVENTION".
pub proof fn lemma_titles_not_fed()
    ensures
        "HOUSING BOOM"@ != "FED INTERVENTION"@,
        "GAINING INFLUENCE"@ != "FED INTERVENTION"@,
        "OIL BUST"@ != "FED INTERVENTION"@,
        "POLICY CHANGE"@ != "FED INTERVENTION"@,
        "LACK OF INTEREST"@ != "FED INTERVENTION"@,
        "STABLE MARKET"@ != "FED INTERVENTION"@,
        "SMALL BUSINESS BOOM"@ != "FED INTERVENTION"@,
        "HIGH DEMAND"@ != "FED INTERVENTION"@,
        "NATIONAL DEBT"@ != "FED INTERVENTION"@,
        "CURE ALL"@ != "FED INTERVENTION"@,
        "TRADE DEAL"@ != "FED INTERVENTION"@,
        "NATURAL DISASTER"@ != "FED INTERVENTION"@,
{
    reveal_strlit("FED INTERVENTION");
    reveal_strlit("HOUSING BOOM");
    reveal_strlit("GAINING INFLUENCE");
    reveal_strlit("OIL BUST");
    reveal_strlit("POLICY CHANGE");
    reveal_strlit("LACK OF INTEREST");
    reveal_strlit("STABLE MARKET");
    reveal_strlit("SMALL BUSINESS BOOM");
    reveal_strlit("HIGH DEMAND");
    reveal_strlit("NATIONAL DEBT");
    reveal_strlit("CURE ALL");
    reveal_strlit("TRADE DEAL");
    reveal_strlit("NATURAL DISASTER");
    assert("LACK OF INTEREST"@[0] != "FED INTERVENTION"@[0]);
    assert("NATURAL DISASTER"@[0] != "FED INTERVENTION"@[0]);
}

/// A card's effect on the market: the influences move as `forced_influences`
/// says. The answer is whether the price bubble can pop this round, which
/// only "FED INTERVENTION" prevents.
pub fn apply_market_force(state: &mut GameState, players: &Vec<PlayerState>, title: &String) -> (bubble_can_pop: bool)
    requires
        force_applies(title@, *old(state), players@),
    ensures
        ({
            let r = forced_influences(
                title@,
                old(state).bank_influence as int,
                old(state).bond_influence as int,
                old(state).insurance_influence as int,
                players@,
            );
            &&& final(state).bank_influence == r.0
            &&& final(state).bond_influence == r.1
            &&& final(state).insurance_influence == r.2
        }),
        bubble_can_pop == (title@ != "FED INTERVENTION"@),
        final(state).round == old(state).round,
        final(state).phase == old(state).phase,
        final(state).lobbyist == old(state).lobbyist,
        final(state).bank_price == old(state).bank_price,
        final(state).bond_price == old(state).bond_price,
        final(state).insurance_price == old(state).insurance_price,
{
    proof { lemma_titles_not_fed(); }
    let mut bubble_can_pop = true;
    if text_is(title, "HOUSING BOOM") {
        state.bond_influence = state.bond_influence + 2;
    } else if text_is(title, "GAINING INFLUENCE") {
        state.bank_influence = state.bank_influence * 2;
        state.bond_influence = state.bond_influence * 2;
        state.insurance_influence = state.insurance_influence * 2;
    } else if text_is(title, "OIL BUST") {
        state.bank_influence = state.bank_influence - 2;
    } else if text_is(title, "POLICY CHANGE") {
        state.insurance_influence = state.insurance_influence - 2;
    } else if text_is(title, "LACK OF INTEREST") {
        let (bank_sold, bond_sold, insurance_sold) = tally(players, "Sell");
        let top = if bank_sold > bond_sold { bank_sold } else { bond_sold };
        let max_sold = if top > insurance_sold { top } else { insurance_sold };
        if max_sold != 0 {
            if max_sold == bank_sold {
                state.bank_influence = state.bank_influence - 1;
            } else if max_sold == bond_sold {
                state.bond_influence = state.bond_influence - 1;
            } else {
                state.insurance_influence = state.insurance_influence - 1;
            }
        }
    } else if text_is(title, "STABLE MARKET") {
    } else if text_is(title, "SMALL BUSINESS BOOM") {
        state.bank_influence = state.bank_influence + 2;
    } else if text_is(title, "FED INTERVENTION") {
        bubble_can_pop = false;
    } else if text_is(title, "HIGH DEMAND") {
        let (bank_bought, bond_bought, insurance_bought) = tally(players, "Buy");
        let top = if bank_bought > bond_bought { bank_bought } else { bond_bought };
        let max_bought = if top > insurance_bought { top } else { insurance_bought };
        if max_bought != 0 {
            if max_bought == bank_bought {
                state.bank_influence = state.bank_influence + 1;
            } else if max_bought == bond_bought {
                state.bond_influence = state.bond_influence + 1;
            } else {
                state.insurance_influence = state.insurance_influence + 1;
            }
        }
    } else if text_is(title, "NATIONAL DEBT") {
        state.bond_influence = state.bond_influence - 2;
    } else if text_is(title, "CURE ALL") {
        state.insurance_influence = state.insurance_influence + 2;
    } else if text_is(title, "TRADE DEAL") {
        state.bank_influence = state.bank_influence + 1;
        state.bond_influence = state.bond_influence + 1;
        state.insurance_influence = state.insurance_influence + 1;
    } else {
        state.bank_influence = state.bank_influence - 1;
        state.bond_influence = state.bond_influence - 1;
        state.insurance_influence = state.insurance_influence - 1;
    }
    bubble_can_pop
}

} // verus!

verus! {

/// Where a price lands after the influence moved it: below 10 the bubble pops
/// and the price wraps up by 90, above 90 it pops and wraps down by 90; while
/// the bubble cannot pop the price is held at 10 or 90 instead.
pub open spec fn wrap_price(p: int, bubble_can_pop: bool) -> int {
    if p < 10 {
        if bubble_can_pop { 90 + p } else { 10 }
    } else if p > 90 {
        if bubble_can_pop { p - 90 } else { 90 }
    } else {
        p
    }
}

/// Each unit of influence moves a price by 10.
pub open spec fn moved_price(price: int, influence: int, bubble_can_pop: bool) -> int {
    wrap_price(price + influence * 10, bubble_can_pop)
}

/// The price move fits an `i32`.
pub open spec fn price_move_fits(price: int, influence: int) -> bool {
    in_i32(influence * 10) && in_i32(price + influence * 10)
}

fn move_price(price: i32, influence: i32, bubble_can_pop: bool) -> (p: i32)
    requires
        price_move_fits(price as int, influence as int),
    ensures
        p == moved_price(price as int, influence as int, bubble_can_pop),
{
    let mut p = price + influence * 10;
    if p < 10 {
        if bubble_can_pop {
            p = 90 + p;
        } else {
            p = 10;
        }
    } else if p > 90 {
        if bubble_can_pop {
            p = p - 90;
        } else {
            p = 90;
        }
    }
    p
}

/// Every price moves by ten times its influence, then wraps or is held.
pub fn update_prices(state: &mut GameState, bubble_can_pop: bool)
    requires
        price_move_fits(old(state).bank_price as int, old(state).bank_influence as int),
        price_move_fits(old(state).bond_price as int, old(state).bond_influence as int),
        price_move_fits(old(state).insurance_price as int, old(state).insurance_influence as int),
    ensures
        final(state).bank_price
            == moved_price(old(state).bank_price as int, old(state).bank_influence as int, bubble_can_pop),
        final(state).bond_price
            == moved_price(old(state).bond_price as int, old(state).bond_influence as int, bubble_can_pop),
        final(state).insurance_price
            == moved_price(old(state).insurance_price as int, old(state).insurance_influence as int, bubble_can_pop),
        final(state).round == old(state).round,
        final(state).phase == old(state).phase,
        final(state).lobbyist == old(state).lobbyist,
        final(state).bank_influence == old(state).bank_influence,
        final(state).bond_influence == old(state).bond_influence,
        final(state).insurance_influence == old(state).insurance_influence,
{
    state.bank_price = move_price(state.bank_price, state.bank_influence, bubble_can_pop);
    state.bond_price = move_price(state.bond_price, state.bond_influence, bubble_can_pop);
    state.insurance_price = move_price(state.insurance_price, state.insurance_influence, bubble_can_pop);
}

/// The price of a security among the three prices (bank, bond, insurance).
pub open spec fn price_of(security: Seq<char>, prices: (int, int, int)) -> int {
    if security == "Bank"@ {
        prices.0
    } else if security == "Bond"@ {
        prices.1
    } else {
        prices.2
    }
}

/// Whether a player's order is a buy.
pub open spec fn is_buy(p: PlayerState) -> bool {
    p.action@ == "Buy"@
}

/// Whether a player's order is a sell.
pub open spec fn is_sell(p: PlayerState) -> bool {
    p.action@ == "Sell"@
}

/// What the player's order is worth at the prices.
pub open spec fn order_value(p: PlayerState, prices: (int, int, int)) -> int {
    price_of(p.security@, prices) * p.quantity
}

/// A player's cash once the order is paid (a buy) or paid out (a sell).
pub open spec fn settled_cash(p: PlayerState, prices: (int, int, int)) -> int {
    if is_buy(p) {
        p.cash - order_value(p, prices)
    } else if is_sell(p) {
        p.cash + order_value(p, prices)
    } else {
        p.cash as int
    }
}

/// A player's holding `h` of a security once the order is carried out.
pub open spec fn settled_holding(p: PlayerState, security: Seq<char>, h: int) -> int {
    if p.security@ == security {
        if is_buy(p) {
            h + p.quantity
        } else if is_sell(p) {
            h - p.quantity
        } else {
            h
        }
    } else {
        h
    }
}

/// A player's order can be carried out: a trader trades one of the three
/// securities, and every amount it computes fits an `i32`.
pub open spec fn trade_fits(p: PlayerState, prices: (int, int, int)) -> bool {
    (is_buy(p) || is_sell(p)) ==> {
        &&& known_security(p.security@)
        &&& in_i32(order_value(p, prices))
        &&& in_i32(settled_cash(p, prices))
        &&& in_i32(settled_holding(p, "Bank"@, p.banks as int))
        &&& in_i32(settled_holding(p, "Bond"@, p.bonds as int))
        &&& in_i32(settled_holding(p, "Insurance"@, p.insurance as int))
    }
}

/// `after` is `before` once the order was carried out at the prices.
pub open spec fn settled(before: PlayerState, after: PlayerState, prices: (int, int, int)) -> bool {
    &&& after.cash == settled_cash(before, prices)
    &&& after.banks == settled_holding(before, "Bank"@, before.banks as int)
    &&& after.bonds == settled_holding(before, "Bond"@, before.bonds as int)
    &&& after.insurance == settled_holding(before, "Insurance"@, before.insurance as int)
    &&& after.name == before.name
    &&& after.security == before.security
    &&& after.action == before.action
    &&& after.quantity == before.quantity
    &&& after.influence == before.influence
}

/// The prices of a market state.
pub open spec fn prices_of(s: GameState) -> (int, int, int) {
    (s.bank_price as int, s.bond_price as int, s.insurance_price as int)
}

/// Carries out one player's order at the market's prices.
pub fn settle_player(state: &GameState, player: &mut PlayerState)
    requires
        trade_fits(*old(player), prices_of(*state)),
    ensures
        settled(*old(player), *final(player), prices_of(*state)),
{
    proof { lemma_security_names_distinct(); }
    let buy = text_is(&player.action, "Buy");
    let sell = text_is(&player.action, "Sell");
    if !buy && !sell {
        return;
    }
    let bank = text_is(&player.security, "Bank");
    let bond = text_is(&player.security, "Bond");
    let price = if bank {
        state.bank_price
    } else if bond {
        state.bond_price
    } else {
        state.insurance_price
    };
    let value = price * player.quantity;
    if buy {
        player.cash = player.cash - value;
        if bank {
            player.banks = player.banks + player.quantity;
        } else if bond {
            player.bonds = player.bonds + player.quantity;
        } else {
            player.insurance = player.insurance + player.quantity;
        }
    } else {
        player.cash = player.cash + value;
        if bank {
            player.banks = player.banks - player.quantity;
        } else if bond {
            player.bonds = player.bonds - player.quantity;
        } else {
            player.insurance = player.insurance - player.quantity;
        }
    }
}

/// Carries out every player's order at the market's prices.
pub fn settle_trades(state: &GameState, players: &mut Vec<PlayerState>)
    requires
        forall|k: int| 0 <= k < old(players)@.len() ==> trade_fits(#[trigger] old(players)@[k], prices_of(*state)),
    ensures
        final(players)@.len() == old(players)@.len(),
        forall|k: int| 0 <= k < old(players)@.len()
            ==> settled(#[trigger] old(players)@[k], final(players)@[k], prices_of(*state)),
{
    let n = players.len();
    let mut i: usize = 0;
    while i < n
        invariant
            n == players@.len(),
            n == old(players)@.len(),
            i <= n,
            forall|k: int| 0 <= k < n ==> trade_fits(#[trigger] old(players)@[k], prices_of(*state)),
            forall|k: int| 0 <= k < i ==> settled(#[trigger] old(players)@[k], players@[k], prices_of(*state)),
            forall|k: int| i <= k < n ==> #[trigger] players@[k] == old(players)@[k],
        decreases n - i,
    {
        let mut p = players[i].clone();
        settle_player(state, &mut p);
        players.set(i, p);
        i = i + 1;
    }
}

} // verus!

verus! {

/// The number of the last numbered round; after it comes "Market Close".
pub open spec fn last_round() -> int {
    5
}

/// The round that follows `r`: the next number up to the last round, and
/// after that (and after "Market Close") the "Market Close" stage.
pub open spec fn follows(r: Round, next: Round) -> bool {
    if !is_market_close(r) && r->Integer_0 < last_round() {
        next == Round::Integer((r->Integer_0 + 1) as i32)
    } else {
        is_market_close(next)
    }
}

/// Whether the numbered rounds are over: the game has reached "Market Close",
/// after the last round.
pub fn game_over(state: &GameState) -> (over: bool)
    ensures
        over == is_market_close(state.round),
{
    state.round.is_market_close()
}

/// Ends a round's phase 3: the game returns to phase 1 of the next round.
pub fn advance_round(state: &mut GameState)
    requires
        old(state).phase == 3,
        !is_market_close(old(state).round) ==> old(state).round is Integer,
    ensures
        final(state).phase == 1,
        follows(old(state).round, final(state).round),
        final(state).lobbyist == old(state).lobbyist,
        final(state).bank_price == old(state).bank_price,
        final(state).bond_price == old(state).bond_price,
        final(state).insurance_price == old(state).insurance_price,
        final(state).bank_influence == old(state).bank_influence,
        final(state).bond_influence == old(state).bond_influence,
        final(state).insurance_influence == old(state).insurance_influence,
{
    state.phase = 1;
    if !state.round.is_market_close() && f(&state.round) < 5 {
        let next_round = f(&state.round) + 1;
        state.round = Round::Integer(next_round);
    } else {
        state.round = Round::market_close();
    }
}

/// The influences once the round's card acted, where one is drawn (none is
/// drawn at "Market Close").
pub open spec fn round_influences(s: GameState, ps: Seq<PlayerState>, deck: Seq<MarketForce>) -> (int, int, int) {
    if is_market_close(s.round) {
        (s.bank_influence as int, s.bond_influence as int, s.insurance_influence as int)
    } else {
        forced_influences(
            deck[0].title@,
            s.bank_influence as int,
            s.bond_influence as int,
            s.insurance_influence as int,
            ps,
        )
    }
}

/// Whether the price bubble can pop in the round.
pub open spec fn round_bubble_can_pop(s: GameState, deck: Seq<MarketForce>) -> bool {
    is_market_close(s.round) || deck[0].title@ != "FED INTERVENTION"@
}

/// The prices at the end of the round.
pub open spec fn round_prices(s: GameState, ps: Seq<PlayerState>, deck: Seq<MarketForce>) -> (int, int, int) {
    let i = round_influences(s, ps, deck);
    let pop = round_bubble_can_pop(s, deck);
    (
        moved_price(s.bank_price as int, i.0, pop),
        moved_price(s.bond_price as int, i.1, pop),
        moved_price(s.insurance_price as int, i.2, pop),
    )
}

/// A round can be closed: phase 3 of a numbered round or of "Market Close";
/// in a numbered round the deck holds a card that can act; the prices can
/// move; and in a numbered round every order can be carried out.
pub open spec fn round_can_close(s: GameState, ps: Seq<PlayerState>, deck: Seq<MarketForce>) -> bool {
    let i = round_influences(s, ps, deck);
    let prices = round_prices(s, ps, deck);
    &&& s.phase == 3
    &&& is_market_close(s.round) || s.round is Integer
    &&& !is_market_close(s.round) ==> deck.len() > 0 && force_applies(deck[0].title@, s, ps)
    &&& price_move_fits(s.bank_price as int, i.0)
    &&& price_move_fits(s.bond_price as int, i.1)
    &&& price_move_fits(s.insurance_price as int, i.2)
    &&& !is_market_close(s.round) ==> forall|k: int| 0 <= k < ps.len() ==> trade_fits(#[trigger] ps[k], prices)
}

/// What the closing of a round reports: the card drawn, if any, and the market
/// as it stood once the prices moved.
pub struct RoundReport {
    pub market_force: Option<MarketForce>,
    pub updated_state: String,
}

/// Closes a round. In a numbered round the first card of the deck is drawn
/// and acts on the influences. The prices then move. In a numbered round every
/// player's order is carried out at the new prices. Last, the game moves on to
/// phase 1 of the next round.
pub fn calculate_states(
    current_state: &mut GameState,
    players: &mut Vec<PlayerState>,
    market_forces: &mut VecDeque<MarketForce>,
) -> (report: RoundReport)
    requires
        round_can_close(*old(current_state), old(players)@, old(market_forces)@),
    ensures
        ({
            let s = *old(current_state);
            let t = *final(current_state);
            let i = round_influences(s, old(players)@, old(market_forces)@);
            let prices = round_prices(s, old(players)@, old(market_forces)@);
            &&& t.bank_influence == i.0
            &&& t.bond_influence == i.1
            &&& t.insurance_influence == i.2
            &&& prices_of(t) == prices
            &&& t.lobbyist == s.lobbyist
            &&& t.phase == 1
            &&& follows(s.round, t.round)
            &&& report.updated_state@ == game_state_text(GameState {
                round: s.round,
                phase: s.phase,
                lobbyist: s.lobbyist,
                bank_price: t.bank_price,
                bond_price: t.bond_price,
                insurance_price: t.insurance_price,
                bank_influence: t.bank_influence,
                bond_influence: t.bond_influence,
                insurance_influence: t.insurance_influence,
            })
            &&& is_market_close(s.round) ==> {
                &&& report.market_force is None
                &&& final(market_forces)@ == old(market_forces)@
                &&& final(players)@ == old(players)@
            }
            &&& !is_market_close(s.round) ==> {
                &&& report.market_force == Some(old(market_forces)@[0])
                &&& final(market_forces)@ == old(market_forces)@.subrange(1, old(market_forces)@.len() as int)
                &&& final(players)@.len() == old(players)@.len()
                &&& forall|k: int| 0 <= k < old(players)@.len()
                    ==> settled(#[trigger] old(players)@[k], final(players)@[k], prices)
            }
        }),
{
    let closing = current_state.round.is_market_close();
    let mut bubble_can_pop = true;
    let mut drawn: Option<MarketForce> = None;
    if !closing {
        let card = market_forces.pop_front();
        match card {
            Some(card) => {
                bubble_can_pop = apply_market_force(current_state, players, &card.title);
                drawn = Some(card);
            },
            None => {},
        }
    }
    update_prices(current_state, bubble_can_pop);
    let updated_state = current_state.to_string();
    if !closing {
        settle_trades(current_state, players);
    }
    advance_round(current_state);
    RoundReport { market_force: drawn, updated_state }
}

} // verus!

verus! {

/// Whether the game knows a card's title.
pub fn force_title_known(title: &String) -> (b: bool)
    ensures
        b == force_known(title@),
{
    text_is(title, "HOUSING BOOM") || text_is(title, "GAINING INFLUENCE") || text_is(title, "OIL BUST")
        || text_is(title, "POLICY CHANGE") || text_is(title, "LACK OF INTEREST")
        || text_is(title, "STABLE MARKET") || text_is(title, "SMALL BUSINESS BOOM")
        || text_is(title, "FED INTERVENTION") || text_is(title, "HIGH DEMAND")
        || text_is(title, "NATIONAL DEBT") || text_is(title, "CURE ALL") || text_is(title, "TRADE DEAL")
        || text_is(title, "NATURAL DISASTER")
}

/// The totals of `tally`, where they can be taken: `None` where a trader of
/// that kind trades an unknown security or a running total leaves the `i32`
/// range.
pub fn tally_checked(players: &Vec<PlayerState>, action: &str) -> (totals: Option<(i32, i32, i32)>)
    ensures
        totals is Some <==> traders_known(players@, action@) && tally_fits(players@, action@),
        totals matches Some(t) ==> {
            &&& t.0 == traded_total(players@, action@, "Bank"@)
            &&& t.1 == traded_total(players@, action@, "Bond"@)
            &&& t.2 == traded_total(players@, action@, "Insurance"@)
        },
{
    proof { lemma_security_names_distinct(); }
    let n = players.len();
    let mut bank: i64 = 0;
    let mut bond: i64 = 0;
    let mut insurance: i64 = 0;
    let mut i: usize = 0;
    assert(players@.take(0) =~= Seq::<PlayerState>::empty());
    while i < n
        invariant
            n == players@.len(),
            i <= n,
            bank == traded_total(players@.take(i as int), action@, "Bank"@),
            bond == traded_total(players@.take(i as int), action@, "Bond"@),
            insurance == traded_total(players@.take(i as int), action@, "Insurance"@),
            forall|k: int| 0 <= k <= i ==> #[trigger] totals_fit(players@.take(k), action@),
            forall|k: int| 0 <= k < i && (#[trigger] players@[k]).action@ == action@
                ==> known_security(players@[k].security@),
        decreases n - i,
    {
        proof { lemma_security_names_distinct(); }
        assert(totals_fit(players@.take(i as int), action@));
        let ghost next = players@.take(i + 1);
        assert(next.drop_last() =~= players@.take(i as int));
        let p = &players[i];
        assert(p == next.last());
        if text_is(&p.action, action) {
            if text_is(&p.security, "Bank") {
                bank = bank + p.quantity as i64;
            } else if text_is(&p.security, "Bond") {
                bond = bond + p.quantity as i64;
            } else if text_is(&p.security, "Insurance") {
                insurance = insurance + p.quantity as i64;
            } else {
                assert(!traders_known(players@, action@));
                return None;
            }
        }
        if bank < i32::MIN as i64 || bank > i32::MAX as i64 || bond < i32::MIN as i64 || bond > i32::MAX as i64
            || insurance < i32::MIN as i64 || insurance > i32::MAX as i64 {
            assert(!totals_fit(next, action@));
            return None;
        }
        assert(totals_fit(next, action@));
        i = i + 1;
    }
    assert(players@.take(n as int) =~= players@);
    assert(totals_fit(players@.take(n as int), action@));
    Some((bank as i32, bond as i32, insurance as i32))
}

} // verus!

verus! {

fn leader(b: i32, o: i32, n: i32) -> (d: (i64, i64, i64))
    ensures
        (d.0 as int, d.1 as int, d.2 as int) == leader_step(b as int, o as int, n as int),
{
    let top = if b > o { b } else { o };
    let m = if top > n { top } else { n };
    if m == 0 {
        (0, 0, 0)
    } else if m == b {
        (1, 0, 0)
    } else if m == o {
        (0, 1, 0)
    } else {
        (0, 0, 1)
    }
}

/// The influences that a card leaves, where it can act on the market (see
/// `force_applies`); `None` where it cannot.
pub fn forced_influences_checked(state: &GameState, players: &Vec<PlayerState>, title: &String) -> (r: Option<(i32, i32, i32)>)
    ensures
        r is Some <==> force_applies(title@, *state, players@),
        r matches Some(t) ==> (t.0 as int, t.1 as int, t.2 as int) == forced_influences(
            title@,
            state.bank_influence as int,
            state.bond_influence as int,
            state.insurance_influence as int,
            players@,
        ),
{
    if !force_title_known(title) {
        return None;
    }
    let lack = text_is(title, "LACK OF INTEREST");
    let high = text_is(title, "HIGH DEMAND");
    let mut sold: (i32, i32, i32) = (0, 0, 0);
    let mut bought: (i32, i32, i32) = (0, 0, 0);
    if lack {
        match tally_checked(players, "Sell") {
            None => { return None; },
            Some(t) => { sold = t; },
        }
    }
    if high {
        match tally_checked(players, "Buy") {
            None => { return None; },
            Some(t) => { bought = t; },
        }
    }
    let bi = state.bank_influence as i64;
    let oi = state.bond_influence as i64;
    let ii = state.insurance_influence as i64;
    let r: (i64, i64, i64) = if text_is(title, "HOUSING BOOM") {
        (bi, oi + 2, ii)
    } else if text_is(title, "GAINING INFLUENCE") {
        (bi * 2, oi * 2, ii * 2)
    } else if text_is(title, "OIL BUST") {
        (bi - 2, oi, ii)
    } else if text_is(title, "POLICY CHANGE") {
        (bi, oi, ii - 2)
    } else if lack {
        let d = leader(sold.0, sold.1, sold.2);
        (bi - d.0, oi - d.1, ii - d.2)
    } else if text_is(title, "STABLE MARKET") {
        (bi, oi, ii)
    } else if text_is(title, "SMALL BUSINESS BOOM") {
        (bi + 2, oi, ii)
    } else if text_is(title, "FED INTERVENTION") {
        (bi, oi, ii)
    } else if high {
        let d = leader(bought.0, bought.1, bought.2);
        (bi + d.0, oi + d.1, ii + d.2)
    } else if text_is(title, "NATIONAL DEBT") {
        (bi, oi - 2, ii)
    } else if text_is(title, "CURE ALL") {
        (bi, oi, ii + 2)
    } else if text_is(title, "TRADE DEAL") {
        (bi + 1, oi + 1, ii + 1)
    } else {
        (bi - 1, oi - 1, ii - 1)
    };
    let lo = i32::MIN as i64;
    let hi = i32::MAX as i64;
    if r.0 < lo || r.0 > hi || r.1 < lo || r.1 > hi || r.2 < lo || r.2 > hi {
        return None;
    }
    Some((r.0 as i32, r.1 as i32, r.2 as i32))
}

/// The price after the move, where the move fits an `i32`.
pub fn moved_price_checked(price: i32, influence: i32, bubble_can_pop: bool) -> (r: Option<i32>)
    ensures
        r is Some <==> price_move_fits(price as int, influence as int),
        r matches Some(p) ==> p == moved_price(price as int, influence as int, bubble_can_pop),
{
    let shift: i64 = influence as i64 * 10;
    if shift < i32::MIN as i64 || shift > i32::MAX as i64 {
        return None;
    }
    let sum: i64 = price as i64 + shift;
    if sum < i32::MIN as i64 || sum > i32::MAX as i64 {
        return None;
    }
    Some(move_price(price, influence, bubble_can_pop))
}

/// Whether a player's order can be carried out at the prices.
pub fn trade_fits_check(player: &PlayerState, prices: (i32, i32, i32)) -> (ok: bool)
    ensures
        ok == trade_fits(*player, (prices.0 as int, prices.1 as int, prices.2 as int)),
{
    proof {
        lemma_security_names_distinct();
    }
    let buy = text_is(&player.action, "Buy");
    let sell = text_is(&player.action, "Sell");
    if !buy && !sell {
        return true;
    }
    let bank = text_is(&player.security, "Bank");
    let bond = text_is(&player.security, "Bond");
    let ins = text_is(&player.security, "Insurance");
    if !bank && !bond && !ins {
        return false;
    }
    let price: i32 = if bank { prices.0 } else if bond { prices.1 } else { prices.2 };
    proof { lemma_product_of_i32s(price, player.quantity); }
    let lo = i32::MIN as i64;
    let hi = i32::MAX as i64;
    let value: i64 = price as i64 * player.quantity as i64;
    if value < lo || value > hi {
        return false;
    }
    let cash: i64 = if buy { player.cash as i64 - value } else { player.cash as i64 + value };
    if cash < lo || cash > hi {
        return false;
    }
    let q = player.quantity as i64;
    let delta: i64 = if buy { q } else { -q };
    let b: i64 = if bank { player.banks as i64 + delta } else { player.banks as i64 };
    let o: i64 = if bond { player.bonds as i64 + delta } else { player.bonds as i64 };
    let n: i64 = if ins { player.insurance as i64 + delta } else { player.insurance as i64 };
    !(b < lo || b > hi || o < lo || o > hi || n < lo || n > hi)
}

/// Whether `calculate_states` can close the round (see `round_can_close`):
/// where it cannot, the round's rules would meet an unknown card or security,
/// an empty deck, or an amount beyond the `i32` range.
pub fn round_closable(
    state: &GameState,
    players: &Vec<PlayerState>,
    market_forces: &VecDeque<MarketForce>,
) -> (ok: bool)
    ensures
        ok == round_can_close(*state, players@, market_forces@),
{
    if state.phase != 3 {
        return false;
    }
    let closing = state.round.is_market_close();
    if !closing {
        match &state.round {
            Round::Integer(_) => {},
            Round::String(_) => { return false; },
        }
    }
    let mut influences = (state.bank_influence, state.bond_influence, state.insurance_influence);
    let mut bubble_can_pop = true;
    if !closing {
        if market_forces.len() == 0 {
            return false;
        }
        let title = &market_forces[0].title;
        match forced_influences_checked(state, players, title) {
            None => { return false; },
            Some(t) => { influences = t; },
        }
        bubble_can_pop = !text_is(title, "FED INTERVENTION");
    }
    let bank = match moved_price_checked(state.bank_price, influences.0, bubble_can_pop) {
        None => { return false; },
        Some(p) => p,
    };
    let bond = match moved_price_checked(state.bond_price, influences.1, bubble_can_pop) {
        None => { return false; },
        Some(p) => p,
    };
    let insurance = match moved_price_checked(state.insurance_price, influences.2, bubble_can_pop) {
        None => { return false; },
        Some(p) => p,
    };
    assert((bank as int, bond as int, insurance as int) == round_prices(*state, players@, market_forces@));
    if !closing {
        let n = players.len();
        let mut i: usize = 0;
        while i < n
            invariant
                n == players@.len(),
                i <= n,
                (bank as int, bond as int, insurance as int) == round_prices(*state, players@, market_forces@),
                !is_market_close(state.round),
                forall|k: int| 0 <= k < i ==> trade_fits(#[trigger] players@[k], (bank as int, bond as int, insurance as int)),
            decreases n - i,
        {
            if !trade_fits_check(&players[i], (bank, bond, insurance)) {
                return false;
            }
            i = i + 1;
        }
    }
    true
}

} // verus!
