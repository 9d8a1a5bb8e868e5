use vstd::prelude::*;
use std::collections::VecDeque;
use rand::seq::SliceRandom;
use vstd::string::StringExecFns;
use crate::data_types::{GameState, PlayerState, MarketForce, Round};

verus! {

/// Whether a number of players can play: from 2 to 6.
pub fn valid_player_count(num_players: u32) -> (ok: bool)
    ensures
        ok == (2 <= num_players <= 6),
{
    !(num_players < 2 || num_players > 6)
}

/// The characters that players can be dealt: name, cash, banks, bonds,
/// insurance.
pub open spec fn roster_row(i: int) -> (Seq<char>, int, int, int, int) {
    if i == 0 { ("David Reedy"@, 150, 0, 6, 11) }
    else if i == 1 { ("Andrew Barclay"@, 300, 4, 4, 6) }
    else if i == 2 { ("Benjamin Wintrop"@, 400, 6, 2, 4) }
    else if i == 3 { ("Peter Auspach"@, 400, 2, 6, 4) }
    else if i == 4 { ("Hugh Smith"@, 350, 5, 6, 2) }
    else if i == 5 { ("Leonard Bleecker"@, 100, 8, 4, 6) }
    else if i == 6 { ("Gideon McEvers"@, 300, 10, 4, 0) }
    else if i == 7 { ("Augustine Lawrence"@, 100, 4, 8, 6) }
    else if i == 8 { ("Samuel Beebe"@, 250, 5, 5, 5) }
    else if i == 9 { ("Isaac M. Gomez"@, 200, 3, 10, 3) }
    else if i == 10 { ("Alexander Zuntz"@, 200, 10, 3, 3) }
    else { ("Ephraim Hart"@, 200, 3, 3, 10) }
}

/// The number of characters in the roster.
pub open spec fn roster_size() -> int {
    12
}

/// A player fresh from the roster: no choice made yet.
pub open spec fn fresh_player(p: PlayerState) -> bool {
    &&& p.security@ == Seq::<char>::empty()
    &&& p.action@ == Seq::<char>::empty()
    &&& p.quantity == 0
    &&& p.influence.0@ == Seq::<char>::empty()
    &&& p.influence.1@ == Seq::<char>::empty()
}

/// A player is the character of a roster row.
pub open spec fn is_character(p: PlayerState, row: (Seq<char>, int, int, int, int)) -> bool {
    &&& p.name@ == row.0
    &&& p.cash == row.1
    &&& p.banks == row.2
    &&& p.bonds == row.3
    &&& p.insurance == row.4
    &&& fresh_player(p)
}

/// A player is one of the roster's characters, fresh.
pub open spec fn in_roster(p: PlayerState) -> bool {
    exists|j: int| 0 <= j < roster_size() && is_character(p, #[trigger] roster_row(j))
}

/// The roster in its written order.
pub open spec fn is_starting_roster(r: Seq<PlayerState>) -> bool {
    &&& r.len() == roster_size()
    &&& forall|i: int| 0 <= i < roster_size() ==> is_character(#[trigger] r[i], roster_row(i))
}

/// The market force cards: title, description, impact.
pub open spec fn deck_row(i: int) -> (Seq<char>, Seq<char>, Seq<char>) {
    if i == 0 {
        ("HOUSING BOOM"@,
         "Lowered interest rates trigger a housing boom and cause bond values to rise."@,
         "BONDS +2"@)
    } else if i == 1 || i == 6 {
        ("GAINING INFLUENCE"@,
         "The Street is abuzz with activity and the world is watching. Your economic influence is continuing to grow"@,
         "ALL PLAYERS' MARKET INFLUENCE CHANGES FROM +/- 1 TO +/- 2"@)
    } else if i == 2 {
        ("OIL BUST"@,
         "An oil bust is causing banks to take a steep loss in the oil industry."@,
         "BANKS -2"@)
    } else if i == 3 {
        ("POLICY CHANGE"@,
         "Big moves in national healthcare leave insurance companies flailing."@,
         "INSURANCE -2"@)
    } else if i == 4 {
        ("LACK OF INTEREST"@,
         "Everyone seems to be selling. The low demand causes the price to drop. Add up the total quantity (from Phase 2) of each security being sold."@,
         "MOST SOLD SECURITY -1"@)
    } else if i == 5 || i == 9 {
        ("STABLE MARKET"@,
         "They say no news is good news. The market is performing as planned."@,
         "NO EFFECT THIS ROUND"@)
    } else if i == 7 {
        ("SMALL BUSINESS BOOM"@,
         "The Federal Reserve lowers interest rates resulting in an increase in loans to small businesses."@,
         "BANKS +2"@)
    } else if i == 8 {
        ("FED INTERVENTION"@,
         "In an attempt to prevent another financial crisis, the Fed works to keep the market bubble from popping"@,
         "DURING THIS ROUND THE BUBBLE CANNOT POP"@)
    } else if i == 10 {
        ("HIGH DEMAND"@,
         "High demand is creating a bidding war, driving security prices up. Add up the total quantity (from Phase 2) of each security being bought."@,
         "MOST BOUGHT SECURITY +1"@)
    } else if i == 11 {
        ("NATIONAL DEBT"@,
         "Increased tax revenue lowers the value of bonds."@,
         "BONDS -2"@)
    } else if i == 12 {
        ("CURE ALL"@,
         "Huge medical breakthroughs have been made in the treatment of deadly diseases."@,
         "INSURANCE +2"@)
    } else if i == 13 {
        ("TRADE DEAL"@,
         "Foreign trade relations are improved by revised trade agreements."@,
         "ALL SECURITIES +1"@)
    } else {
        ("NATURAL DISASTER"@,
         "News of hurricanes and wild fires sends securities down."@,
         "ALL SECURITIES -1"@)
    }
}

/// The number of cards in the deck.
pub open spec fn deck_size() -> int {
    15
}

/// A card is the card of a deck row.
pub open spec fn is_card(m: MarketForce, row: (Seq<char>, Seq<char>, Seq<char>)) -> bool {
    m.title@ == row.0 && m.description@ == row.1 && m.impact@ == row.2
}

/// The deck in its written order.
pub open spec fn is_starting_deck(d: Seq<MarketForce>) -> bool {
    &&& d.len() == deck_size()
    &&& forall|i: int| 0 <= i < deck_size() ==> is_card(#[trigger] d[i], deck_row(i))
}

fn character(name: &str, cash: i32, banks: i32, bonds: i32, insurance: i32) -> (p: PlayerState)
    ensures
        p.name@ == name@,
        p.cash == cash,
        p.banks == banks,
        p.bonds == bonds,
        p.insurance == insurance,
        fresh_player(p),
{
    PlayerState::new(
        String::from_str(name),
        cash,
        banks,
        bonds,
        insurance,
        String::new(),
        String::new(),
        0,
        (String::new(), String::new()),
    )
}

/// The roster of characters, in its written order.
pub fn starting_roster() -> (r: Vec<PlayerState>)
    ensures
        is_starting_roster(r@),
{
    let mut r: Vec<PlayerState> = Vec::new();
    r.push(character("David Reedy", 150, 0, 6, 11));
    r.push(character("Andrew Barclay", 300, 4, 4, 6));
    r.push(character("Benjamin Wintrop", 400, 6, 2, 4));
    r.push(character("Peter Auspach", 400, 2, 6, 4));
    r.push(character("Hugh Smith", 350, 5, 6, 2));
    r.push(character("Leonard Bleecker", 100, 8, 4, 6));
    r.push(character("Gideon McEvers", 300, 10, 4, 0));
    r.push(character("Augustine Lawrence", 100, 4, 8, 6));
    r.push(character("Samuel Beebe", 250, 5, 5, 5));
    r.push(character("Isaac M. Gomez", 200, 3, 10, 3));
    r.push(character("Alexander Zuntz", 200, 10, 3, 3));
    r.push(character("Ephraim Hart", 200, 3, 3, 10));
    r
}

fn card(title: &str, description: &str, impact: &str) -> (m: MarketForce)
    ensures
        m.title@ == title@,
        m.description@ == description@,
        m.impact@ == impact@,
{
    MarketForce::new(String::from_str(title), String::from_str(description), String::from_str(impact))
}

/// The deck of market force cards, in its written order.
pub fn market_force_deck() -> (d: Vec<MarketForce>)
    ensures
        is_starting_deck(d@),
{
    let mut d: Vec<MarketForce> = Vec::new();
    d.push(card(
        "HOUSING BOOM",
        "Lowered interest rates trigger a housing boom and cause bond values to rise.",
        "BONDS +2",
    ));
    d.push(card(
        "GAINING INFLUENCE",
        "The Street is abuzz with activity and the world is watching. Your economic influence is continuing to grow",
        "ALL PLAYERS' MARKET INFLUENCE CHANGES FROM +/- 1 TO +/- 2",
    ));
    d.push(card(
        "OIL BUST",
        "An oil bust is causing banks to take a steep loss in the oil industry.",
        "BANKS -2",
    ));
    d.push(card(
        "POLICY CHANGE",
        "Big moves in national healthcare leave insurance companies flailing.",
        "INSURANCE -2",
    ));
    d.push(card(
        "LACK OF INTEREST",
        "Everyone seems to be selling. The low demand causes the price to drop. Add up the total quantity (from Phase 2) of each security being sold.",
        "MOST SOLD SECURITY -1",
    ));
    d.push(card(
        "STABLE MARKET",
        "They say no news is good news. The market is performing as planned.",
        "NO EFFECT THIS ROUND",
    ));
    d.push(card(
        "GAINING INFLUENCE",
        "The Street is abuzz with activity and the world is watching. Your economic influence is continuing to grow",
        "ALL PLAYERS' MARKET INFLUENCE CHANGES FROM +/- 1 TO +/- 2",
    ));
    d.push(card(
        "SMALL BUSINESS BOOM",
        "The Federal Reserve lowers interest rates resulting in an increase in loans to small businesses.",
        "BANKS +2",
    ));
    d.push(card(
        "FED INTERVENTION",
        "In an attempt to prevent another financial crisis, the Fed works to keep the market bubble from popping",
        "DURING THIS ROUND THE BUBBLE CANNOT POP",
    ));
    d.push(card(
        "STABLE MARKET",
        "They say no news is good news. The market is performing as planned.",
        "NO EFFECT THIS ROUND",
    ));
    d.push(card(
        "HIGH DEMAND",
        "High demand is creating a bidding war, driving security prices up. Add up the total quantity (from Phase 2) of each security being bought.",
        "MOST BOUGHT SECURITY +1",
    ));
    d.push(card(
        "NATIONAL DEBT",
        "Increased tax revenue lowers the value of bonds.",
        "BONDS -2",
    ));
    d.push(card(
        "CURE ALL",
        "Huge medical breakthroughs have been made in the treatment of deadly diseases.",
        "INSURANCE +2",
    ));
    d.push(card(
        "TRADE DEAL",
        "Foreign trade relations are improved by revised trade agreements.",
        "ALL SECURITIES +1",
    ));
    d.push(card(
        "NATURAL DISASTER",
        "News of hurricanes and wild fires sends securities down.",
        "ALL SECURITIES -1",
    ));
    d
}

} // verus!

verus! {

/// Puts the items of a vector in a random order, with rand's
/// `SliceRandom::shuffle` driven by `rand::thread_rng()`. The order that comes
/// out rests on chance: the contract claims only that it is a rearrangement,
/// the same items each as often as before (the source swaps items in place).
#[verifier::external_body]
fn shuffle<T>(items: &mut Vec<T>)
    ensures
        final(items)@.len() == old(items)@.len(),
        final(items)@.to_multiset() == old(items)@.to_multiset(),
{
    items.shuffle(&mut rand::thread_rng());
}

/// A game: the market, the players in turn order, and the deck of market
/// force cards still to draw, the top card first.
pub struct Game {
    pub state: GameState,
    pub players: Vec<PlayerState>,
    pub market_forces: VecDeque<MarketForce>,
}

/// The market at the start: round 1, phase 1, no lobbyist, every price at 50
/// and no influence.
pub open spec fn is_initial_state(s: GameState) -> bool {
    &&& s.round == Round::Integer(1)
    &&& s.phase == 1
    &&& s.lobbyist@ == Seq::<char>::empty()
    &&& s.bank_price == 50
    &&& s.bond_price == 50
    &&& s.insurance_price == 50
    &&& s.bank_influence == 0
    &&& s.bond_influence == 0
    &&& s.insurance_influence == 0
}

/// The market at the start of a game.
pub fn initial_state() -> (s: GameState)
    ensures
        is_initial_state(s),
{
    GameState::new(Round::Integer(1), 1, String::new(), 50, 50, 50, 0, 0, 0)
}

/// Deals a game from a roster and a deck in the order given: the first
/// `num_players` characters play, in that order, and the deck keeps its
/// order.
pub fn deal(num_players: usize, roster: Vec<PlayerState>, deck: Vec<MarketForce>) -> (game: Game)
    requires
        num_players <= roster@.len(),
    ensures
        game.players@ == roster@.take(num_players as int),
        game.market_forces@ == deck@,
        is_initial_state(game.state),
{
    let mut players: Vec<PlayerState> = Vec::new();
    let mut i: usize = 0;
    while i < num_players
        invariant
            num_players <= roster@.len(),
            i <= num_players,
            players@ == roster@.take(i as int),
        decreases num_players - i,
    {
        players.push(roster[i].clone());
        assert(players@ =~= roster@.take(i + 1));
        i = i + 1;
    }
    let mut market_forces: VecDeque<MarketForce> = VecDeque::new();
    let n = deck.len();
    let mut j: usize = 0;
    while j < n
        invariant
            n == deck@.len(),
            j <= n,
            market_forces@ == deck@.take(j as int),
        decreases n - j,
    {
        market_forces.push_back(deck[j].clone_card());
        assert(market_forces@ =~= deck@.take(j + 1));
        j = j + 1;
    }
    assert(deck@.take(n as int) =~= deck@);
    Game { state: initial_state(), players, market_forces }
}

/// Starts a game for `num_players` players: the roster and the deck are
/// shuffled, the first `num_players` characters of the shuffled roster play
/// in that order, and the shuffled deck is drawn from the top.
pub fn new_game(num_players: usize) -> (game: Game)
    requires
        num_players <= roster_size(),
    ensures
        is_initial_state(game.state),
        exists|roster: Seq<PlayerState>, order: Seq<PlayerState>|
            #[trigger] is_starting_roster(roster)
            && order.to_multiset() == roster.to_multiset()
            && order.len() == roster.len()
            && game.players@ == #[trigger] order.take(num_players as int),
        exists|deck: Seq<MarketForce>|
            #[trigger] is_starting_deck(deck)
            && game.market_forces@.to_multiset() == deck.to_multiset(),
        game.players@.len() == num_players,
        game.market_forces@.len() == deck_size(),
        forall|i: int, k: int| 0 <= i < k < num_players ==> game.players@[i] != game.players@[k],
        forall|i: int| 0 <= i < num_players ==> in_roster(#[trigger] game.players@[i]),
{
    let mut roster = starting_roster();
    let ghost roster0 = roster@;
    shuffle(&mut roster);
    let ghost order = roster@;
    let mut deck = market_force_deck();
    let ghost deck0 = deck@;
    shuffle(&mut deck);
    let game = deal(num_players, roster, deck);
    assert(is_starting_roster(roster0) && order.to_multiset() == roster0.to_multiset()
        && order.len() == roster0.len() && game.players@ == order.take(num_players as int));
    assert(is_starting_deck(deck0) && game.market_forces@.to_multiset() == deck0.to_multiset());
    proof {
        crate::laws::lemma_dealt_players_are_distinct_characters(roster0, order, num_players as int);
    }
    game
}

} // verus!
