use vstd::prelude::*;
use vstd::string::StringExecFns;
use crate::data_types::{GameState, PlayerState, is_market_close};
use crate::text::text_is;
use crate::market::lemma_security_names_distinct;

verus! {

/// The security that a trading code names: "ba" a bank, "bo" a bond, "i"
/// insurance; any other code names none.
pub open spec fn security_of_code(code: Seq<char>) -> Option<Seq<char>> {
    if code == "ba"@ {
        Some("Bank"@)
    } else if code == "bo"@ {
        Some("Bond"@)
    } else if code == "i"@ {
        Some("Insurance"@)
    } else {
        None
    }
}

/// How many of a security a player holds, where the name is one of the three.
pub open spec fn holding_of(p: PlayerState, security: Seq<char>) -> Option<int> {
    if security == "Bank"@ {
        Some(p.banks as int)
    } else if security == "Bond"@ {
        Some(p.bonds as int)
    } else if security == "Insurance"@ {
        Some(p.insurance as int)
    } else {
        None
    }
}

/// Two players with the same name, cash and holdings (they may differ in the
/// choices of the round: security, action, quantity, influence).
pub open spec fn same_holdings(a: PlayerState, b: PlayerState) -> bool {
    &&& a.name == b.name
    &&& a.cash == b.cash
    &&& a.banks == b.banks
    &&& a.bonds == b.bonds
    &&& a.insurance == b.insurance
}

/// Two market states with the same round, phase, lobbyist and prices (they
/// may differ in their influences).
pub open spec fn same_except_influence(a: GameState, b: GameState) -> bool {
    &&& a.round == b.round
    &&& a.phase == b.phase
    &&& a.lobbyist == b.lobbyist
    &&& a.bank_price == b.bank_price
    &&& a.bond_price == b.bond_price
    &&& a.insurance_price == b.insurance_price
}

/// The preconditions of the first phase: a numbered round's phase 1.
pub open spec fn in_phase1(s: GameState) -> bool {
    !is_market_close(s.round) && s.phase == 1
}

/// The preconditions of the second phase.
pub open spec fn in_phase2(s: GameState) -> bool {
    s.round is Integer && s.phase == 2
}

/// Phase 1, one answer: a player picks the security to trade this round by its
/// code. An unknown code is refused and changes nothing.
pub fn choose_security(state: &GameState, player: &mut PlayerState, code: &String) -> (accepted: bool)
    requires
        in_phase1(*state),
    ensures
        accepted == (security_of_code(code@) is Some),
        accepted ==> final(player).security@ == security_of_code(code@)->0,
        accepted ==> same_holdings(*final(player), *old(player)),
        accepted ==> final(player).action == old(player).action,
        accepted ==> final(player).quantity == old(player).quantity,
        accepted ==> final(player).influence == old(player).influence,
        !accepted ==> *final(player) == *old(player),
{
    if text_is(code, "ba") {
        player.security = String::from_str("Bank");
        true
    } else if text_is(code, "bo") {
        player.security = String::from_str("Bond");
        true
    } else if text_is(code, "i") {
        player.security = String::from_str("Insurance");
        true
    } else {
        false
    }
}

/// Ends phase 1: the game moves on to phase 2.
pub fn end_phase1(state: &mut GameState)
    requires
        in_phase1(*old(state)),
    ensures
        final(state).phase == 2,
        final(state).round == old(state).round,
        final(state).lobbyist == old(state).lobbyist,
        final(state).bank_price == old(state).bank_price,
        final(state).bond_price == old(state).bond_price,
        final(state).insurance_price == old(state).insurance_price,
        final(state).bank_influence == old(state).bank_influence,
        final(state).bond_influence == old(state).bond_influence,
        final(state).insurance_influence == old(state).insurance_influence,
{
    state.phase = 2;
}

/// The answer to a trade order in phase 2.
#[derive(Debug, Clone, Copy, PartialEq, Eq, Structural)]
pub enum TradeCheck {
    /// The quantity given is not an integer.
    NotAnInteger,
    /// The quantity is outside 1 to 9.
    OutOfRange,
    /// The order is neither "b" (buy) nor "s" (sell).
    NotBuyOrSell,
    /// Buying would take the holding above 24, selling would sell more than is
    /// held, or the player's security is none of the three.
    BeyondHoldings,
    /// The order stands.
    Accepted,
}

/// Most of one security that a player may hold.
pub open spec fn holding_limit() -> int {
    24
}

/// How a trade order is judged: first the quantity must be an integer, then
/// the order must be a buy or a sell, then the quantity must lie in 1 to 9,
/// and last the holding must allow it.
pub open spec fn trade_check(p: PlayerState, order: Seq<char>, quantity: Option<i32>) -> TradeCheck {
    match quantity {
        None => TradeCheck::NotAnInteger,
        Some(q) => {
            if order != "b"@ && order != "s"@ {
                TradeCheck::NotBuyOrSell
            } else if q < 1 || q > 9 {
                TradeCheck::OutOfRange
            } else {
                match holding_of(p, p.security@) {
                    Some(h) => {
                        if (order == "b"@ && q + h <= holding_limit()) || (order == "s"@ && q <= h) {
                            TradeCheck::Accepted
                        } else {
                            TradeCheck::BeyondHoldings
                        }
                    },
                    None => TradeCheck::BeyondHoldings,
                }
            }
        },
    }
}

/// A buy order's sum of quantity and holding fits an `i32`.
pub open spec fn trade_check_fits(p: PlayerState, order: Seq<char>, quantity: Option<i32>) -> bool {
    (order == "b"@ && quantity is Some && 1 <= quantity->0 <= 9 && holding_of(p, p.security@) is Some)
        ==> quantity->0 + holding_of(p, p.security@)->0 <= i32::MAX
}

/// The action that an accepted order records.
pub open spec fn action_of_order(order: Seq<char>) -> Seq<char> {
    if order == "b"@ { "Buy"@ } else { "Sell"@ }
}

/// Phase 2, one answer: a player orders to buy ("b") or sell ("s") a
/// quantity (`None` where the answer was not an integer) of the security
/// chosen in phase 1. An accepted order is recorded as the player's action and
/// quantity; any other answer changes nothing.
pub fn record_trade(
    state: &GameState,
    player: &mut PlayerState,
    order: &String,
    quantity: Option<i32>,
) -> (check: TradeCheck)
    requires
        in_phase2(*state),
        trade_check_fits(*old(player), order@, quantity),
    ensures
        check == trade_check(*old(player), order@, quantity),
        check == TradeCheck::Accepted ==> {
            &&& final(player).action@ == action_of_order(order@)
            &&& final(player).quantity == quantity->0
            &&& same_holdings(*final(player), *old(player))
            &&& final(player).security == old(player).security
            &&& final(player).influence == old(player).influence
        },
        check != TradeCheck::Accepted ==> *final(player) == *old(player),
{
    let q: i32 = match quantity {
        None => { return TradeCheck::NotAnInteger; },
        Some(q) => q,
    };
    proof {
        reveal_strlit("b");
        reveal_strlit("s");
        assert("b"@[0] != "s"@[0]);
    }
    let buy = text_is(order, "b");
    let sell = text_is(order, "s");
    if !buy && !sell {
        return TradeCheck::NotBuyOrSell;
    }
    if q < 1 || q > 9 {
        return TradeCheck::OutOfRange;
    }
    let holding: Option<i32> = if text_is(&player.security, "Bank") {
        Some(player.banks)
    } else if text_is(&player.security, "Bond") {
        Some(player.bonds)
    } else if text_is(&player.security, "Insurance") {
        Some(player.insurance)
    } else {
        None
    };
    let allowed = match holding {
        None => false,
        Some(h) => {
            if buy {
                q + h <= 24
            } else {
                q <= h
            }
        },
    };
    if !allowed {
        return TradeCheck::BeyondHoldings;
    }
    if buy {
        player.action = String::from_str("Buy");
    } else {
        player.action = String::from_str("Sell");
    }
    player.quantity = q;
    TradeCheck::Accepted
}

/// Ends phase 2: the game moves on to phase 3.
pub fn end_phase2(state: &mut GameState)
    requires
        in_phase2(*old(state)),
    ensures
        final(state).phase == 3,
        final(state).round == old(state).round,
        final(state).lobbyist == old(state).lobbyist,
        final(state).bank_price == old(state).bank_price,
        final(state).bond_price == old(state).bond_price,
        final(state).insurance_price == old(state).insurance_price,
        final(state).bank_influence == old(state).bank_influence,
        final(state).bond_influence == old(state).bond_influence,
        final(state).insurance_influence == old(state).insurance_influence,
{
    state.phase = 3;
}

} // verus!

verus! {

/// The preconditions of the third phase.
pub open spec fn in_phase3(s: GameState) -> bool {
    s.phase == 3
}

/// The most cash that any player holds, and at least 0.
pub open spec fn top_cash(ps: Seq<PlayerState>) -> int
    decreases ps.len(),
{
    if ps.len() == 0 {
        0
    } else {
        let m = top_cash(ps.drop_last());
        if ps.last().cash > m { ps.last().cash as int } else { m }
    }
}

/// How many players hold exactly `c` in cash.
pub open spec fn count_with_cash(ps: Seq<PlayerState>, c: int) -> nat
    decreases ps.len(),
{
    if ps.len() == 0 {
        0
    } else {
        count_with_cash(ps.drop_last(), c) + if ps.last().cash == c { 1nat } else { 0nat }
    }
}

/// The position of the last player who holds exactly `c` in cash, or -1.
pub open spec fn last_with_cash(ps: Seq<PlayerState>, c: int) -> int
    decreases ps.len(),
{
    if ps.len() == 0 {
        -1
    } else if ps.last().cash == c {
        ps.len() - 1
    } else {
        last_with_cash(ps.drop_last(), c)
    }
}

/// Phase 3 begins by naming the lobbyist: the player with the most cash (at
/// least 0). Where several players share that amount there is no lobbyist
/// (the empty name); where nobody has it (all cash below 0) the lobbyist of
/// the last round stays. The answer is how many players hold that amount.
pub fn select_lobbyist(state: &mut GameState, players: &Vec<PlayerState>) -> (num_lobbyists: usize)
    requires
        in_phase3(*old(state)),
    ensures
        num_lobbyists == count_with_cash(players@, top_cash(players@)),
        ({
            let m = top_cash(players@);
            let k = count_with_cash(players@, m);
            &&& k == 0 ==> final(state).lobbyist == old(state).lobbyist
            &&& k == 1 ==> final(state).lobbyist == players@[last_with_cash(players@, m)].name
            &&& k > 1 ==> final(state).lobbyist@ == Seq::<char>::empty()
        }),
        final(state).round == old(state).round,
        final(state).phase == old(state).phase,
        final(state).bank_price == old(state).bank_price,
        final(state).bond_price == old(state).bond_price,
        final(state).insurance_price == old(state).insurance_price,
        final(state).bank_influence == old(state).bank_influence,
        final(state).bond_influence == old(state).bond_influence,
        final(state).insurance_influence == old(state).insurance_influence,
{
    let n = players.len();
    let mut max_cash: i32 = 0;
    let mut i: usize = 0;
    while i < n
        invariant
            n == players@.len(),
            i <= n,
            max_cash == top_cash(players@.take(i as int)),
        decreases n - i,
    {
        assert(players@.take(i + 1).drop_last() =~= players@.take(i as int));
        if players[i].cash > max_cash {
            max_cash = players[i].cash;
        }
        i = i + 1;
    }
    assert(players@.take(n as int) =~= players@);

    let ghost first_lobbyist = state.lobbyist;
    let mut num_lobbyists: usize = 0;
    let mut j: usize = 0;
    while j < n
        invariant
            n == players@.len(),
            j <= n,
            max_cash == top_cash(players@),
            num_lobbyists == count_with_cash(players@.take(j as int), max_cash as int),
            num_lobbyists <= j,
            num_lobbyists == 0 ==> state.lobbyist == first_lobbyist,
            num_lobbyists > 0 ==> state.lobbyist
                == players@[last_with_cash(players@.take(j as int), max_cash as int)].name,
            last_with_cash(players@.take(j as int), max_cash as int) < j,
            num_lobbyists > 0 ==> last_with_cash(players@.take(j as int), max_cash as int) >= 0,
            state.round == old(state).round,
            state.phase == old(state).phase,
            state.bank_price == old(state).bank_price,
            state.bond_price == old(state).bond_price,
            state.insurance_price == old(state).insurance_price,
            state.bank_influence == old(state).bank_influence,
            state.bond_influence == old(state).bond_influence,
            state.insurance_influence == old(state).insurance_influence,
        decreases n - j,
    {
        assert(players@.take(j + 1).drop_last() =~= players@.take(j as int));
        if players[j].cash == max_cash {
            state.lobbyist = players[j].name.clone();
            num_lobbyists = num_lobbyists + 1;
        }
        j = j + 1;
    }
    assert(players@.take(n as int) =~= players@);
    if num_lobbyists > 1 {
        state.lobbyist = String::new();
    }
    num_lobbyists
}

/// The answer to an influence choice in phase 3.
#[derive(Debug, Clone, Copy, PartialEq, Eq, Structural)]
pub enum InfluenceCheck {
    /// The code names none of the three securities.
    UnknownSecurity,
    /// The direction is neither "i" (increase) nor "d" (decrease).
    UnknownDirection,
    /// The choice stands.
    Accepted,
}

/// The step of a direction code: "i" raises by 1, "d" lowers by 1.
pub open spec fn step_of_direction(direction: Seq<char>) -> Option<int> {
    if direction == "i"@ {
        Some(1)
    } else if direction == "d"@ {
        Some(-1)
    } else {
        None
    }
}

/// The name that the players' record gives a direction code.
pub open spec fn direction_name(direction: Seq<char>) -> Seq<char> {
    if direction == "i"@ { "Increase"@ } else { "Decrease"@ }
}

/// How an influence choice is judged: the security first, then the direction.
pub open spec fn influence_check(code: Seq<char>, direction: Seq<char>) -> InfluenceCheck {
    if security_of_code(code) is None {
        InfluenceCheck::UnknownSecurity
    } else if step_of_direction(direction) is None {
        InfluenceCheck::UnknownDirection
    } else {
        InfluenceCheck::Accepted
    }
}

/// How much an accepted choice moves the influence on the security `target`.
pub open spec fn influence_shift(code: Seq<char>, direction: Seq<char>, target: Seq<char>) -> int {
    if influence_check(code, direction) == InfluenceCheck::Accepted
        && security_of_code(code)->0 == target {
        step_of_direction(direction)->0
    } else {
        0
    }
}

/// The moved influence fits an `i32`.
pub open spec fn influence_fits(s: GameState, code: Seq<char>, direction: Seq<char>) -> bool {
    &&& i32::MIN <= s.bank_influence + influence_shift(code, direction, "Bank"@) <= i32::MAX
    &&& i32::MIN <= s.bond_influence + influence_shift(code, direction, "Bond"@) <= i32::MAX
    &&& i32::MIN <= s.insurance_influence + influence_shift(code, direction, "Insurance"@) <= i32::MAX
}

/// Phase 3, one answer: a player moves the influence on one security by 1 up
/// ("i") or down ("d"), and the choice is recorded as the player's influence.
/// A refused answer changes nothing.
pub fn place_influence(
    state: &mut GameState,
    player: &mut PlayerState,
    code: &String,
    direction: &String,
) -> (check: InfluenceCheck)
    requires
        in_phase3(*old(state)),
        influence_fits(*old(state), code@, direction@),
    ensures
        check == influence_check(code@, direction@),
        final(state).bank_influence == old(state).bank_influence + influence_shift(code@, direction@, "Bank"@),
        final(state).bond_influence == old(state).bond_influence + influence_shift(code@, direction@, "Bond"@),
        final(state).insurance_influence
            == old(state).insurance_influence + influence_shift(code@, direction@, "Insurance"@),
        same_except_influence(*final(state), *old(state)),
        check == InfluenceCheck::Accepted ==> {
            &&& final(player).influence.0@ == security_of_code(code@)->0
            &&& final(player).influence.1@ == direction_name(direction@)
            &&& same_holdings(*final(player), *old(player))
            &&& final(player).security == old(player).security
            &&& final(player).action == old(player).action
            &&& final(player).quantity == old(player).quantity
        },
        check != InfluenceCheck::Accepted ==> *final(player) == *old(player),
{
    proof {
        lemma_security_names_distinct();
        reveal_strlit("i");
        reveal_strlit("d");
        assert("i"@[0] != "d"@[0]);
    }
    let bank = text_is(code, "ba");
    let bond = text_is(code, "bo");
    let ins = text_is(code, "i");
    if !bank && !bond && !ins {
        return InfluenceCheck::UnknownSecurity;
    }
    let up = text_is(direction, "i");
    let down = text_is(direction, "d");
    if !up && !down {
        return InfluenceCheck::UnknownDirection;
    }
    let security = if bank {
        if up { state.bank_influence = state.bank_influence + 1; } else { state.bank_influence = state.bank_influence - 1; }
        String::from_str("Bank")
    } else if bond {
        if up { state.bond_influence = state.bond_influence + 1; } else { state.bond_influence = state.bond_influence - 1; }
        String::from_str("Bond")
    } else {
        if up { state.insurance_influence = state.insurance_influence + 1; } else { state.insurance_influence = state.insurance_influence - 1; }
        String::from_str("Insurance")
    };
    let way = if up { String::from_str("Increase") } else { String::from_str("Decrease") };
    player.influence = (security, way);
    InfluenceCheck::Accepted
}

/// The player who holds a name: `Some(i)` for the first such position.
pub open spec fn first_named(ps: Seq<PlayerState>, name: Seq<char>, found: Option<usize>) -> bool {
    match found {
        Some(i) => {
            &&& i < ps.len()
            &&& ps[i as int].name@ == name
            &&& forall|j: int| 0 <= j < i ==> ps[j].name@ != name
        },
        None => forall|j: int| 0 <= j < ps.len() ==> ps[j].name@ != name,
    }
}

/// Where the lobbyist sits among the players, who then places one more
/// influence in phase 3: none while there is no lobbyist (the empty name),
/// else the first player of that name, if any.
pub fn lobbyist_index(state: &GameState, players: &Vec<PlayerState>) -> (found: Option<usize>)
    ensures
        state.lobbyist@.len() == 0 ==> found is None,
        state.lobbyist@.len() != 0 ==> first_named(players@, state.lobbyist@, found),
{
    if crate::text::text_is_empty(&state.lobbyist) {
        return None;
    }
    let n = players.len();
    let mut i: usize = 0;
    while i < n
        invariant
            n == players@.len(),
            i <= n,
            state.lobbyist@.len() != 0,
            forall|j: int| 0 <= j < i ==> players@[j].name@ != state.lobbyist@,
        decreases n - i,
    {
        if players[i].name == state.lobbyist {
            return Some(i);
        }
        i = i + 1;
    }
    None
}

/// Whose influence answer phase 3 takes at a turn: turns `0` to `n - 1` go to
/// the players in order (each answers until the answer stands), turn `n` to
/// the lobbyist (see `lobbyist_index`), and after that the phase is over
/// (`None`).
pub fn next_influence_turn(state: &GameState, players: &Vec<PlayerState>, turn: usize) -> (next: Option<usize>)
    ensures
        turn < players@.len() ==> next == Some(turn),
        turn == players@.len() && state.lobbyist@.len() == 0 ==> next is None,
        turn == players@.len() && state.lobbyist@.len() != 0 ==> first_named(players@, state.lobbyist@, next),
        turn > players@.len() ==> next is None,
{
    if turn < players.len() {
        Some(turn)
    } else if turn == players.len() {
        lobbyist_index(state, players)
    } else {
        None
    }
}

} // verus!

verus! {

/// A round starts with no influence on any security.
pub fn reset_influences(state: &mut GameState)
    ensures
        final(state).bank_influence == 0,
        final(state).bond_influence == 0,
        final(state).insurance_influence == 0,
        same_except_influence(*final(state), *old(state)),
{
    state.bank_influence = 0;
    state.bond_influence = 0;
    state.insurance_influence = 0;
}

/// The market closes with a last phase 3 in which nobody trades: every
/// player's quantity drops to 0, the influences are reset and the game moves
/// to phase 3.
pub fn begin_market_close(state: &mut GameState, players: &mut Vec<PlayerState>)
    ensures
        final(state).phase == 3,
        final(state).bank_influence == 0,
        final(state).bond_influence == 0,
        final(state).insurance_influence == 0,
        final(state).round == old(state).round,
        final(state).lobbyist == old(state).lobbyist,
        final(state).bank_price == old(state).bank_price,
        final(state).bond_price == old(state).bond_price,
        final(state).insurance_price == old(state).insurance_price,
        final(players)@.len() == old(players)@.len(),
        forall|k: int| 0 <= k < old(players)@.len() ==> {
            &&& (#[trigger] final(players)@[k]).quantity == 0
            &&& same_holdings(final(players)@[k], old(players)@[k])
            &&& final(players)@[k].security == old(players)@[k].security
            &&& final(players)@[k].action == old(players)@[k].action
            &&& final(players)@[k].influence == old(players)@[k].influence
        },
{
    state.phase = 3;
    let n = players.len();
    let mut i: usize = 0;
    while i < n
        invariant
            n == players@.len(),
            n == old(players)@.len(),
            i <= n,
            forall|k: int| 0 <= k < i ==> {
                &&& (#[trigger] players@[k]).quantity == 0
                &&& same_holdings(players@[k], old(players)@[k])
                &&& players@[k].security == old(players)@[k].security
                &&& players@[k].action == old(players)@[k].action
                &&& players@[k].influence == old(players)@[k].influence
            },
            forall|k: int| i <= k < n ==> #[trigger] players@[k] == old(players)@[k],
        decreases n - i,
    {
        let mut p = players[i].clone();
        p.quantity = 0;
        players.set(i, p);
        i = i + 1;
    }
    reset_influences(state);
}

} // verus!

verus! {

/// Whether `record_trade` can judge this order without an overflow.
pub fn trade_order_fits(player: &PlayerState, order: &String, quantity: Option<i32>) -> (ok: bool)
    ensures
        ok == trade_check_fits(*player, order@, quantity),
{
    match quantity {
        None => true,
        Some(q) => {
            if !text_is(order, "b") || q < 1 || q > 9 {
                return true;
            }
            let h: i32 = if text_is(&player.security, "Bank") {
                player.banks
            } else if text_is(&player.security, "Bond") {
                player.bonds
            } else if text_is(&player.security, "Insurance") {
                player.insurance
            } else {
                return true;
            };
            h <= i32::MAX - q
        },
    }
}

/// Whether `place_influence` can move the influence without an overflow.
pub fn influence_choice_fits(state: &GameState, code: &String, direction: &String) -> (ok: bool)
    ensures
        ok == influence_fits(*state, code@, direction@),
{
    proof {
        lemma_security_names_distinct();
    }
    let bank = text_is(code, "ba");
    let bond = text_is(code, "bo");
    let ins = text_is(code, "i");
    let up = text_is(direction, "i");
    let down = text_is(direction, "d");
    if !(bank || bond || ins) || !(up || down) {
        return true;
    }
    let current: i32 = if bank {
        state.bank_influence
    } else if bond {
        state.bond_influence
    } else {
        state.insurance_influence
    };
    if up {
        current < i32::MAX
    } else {
        current > i32::MIN
    }
}

} // verus!
