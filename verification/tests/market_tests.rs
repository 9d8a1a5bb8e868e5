use std::collections::VecDeque;

use exchange::data_types::{GameState, MarketForce, PlayerState, Round};
use exchange::market::{
    apply_market_force, calculate_states, game_over, round_closable, settle_trades, tally, tally_checked, update_prices,
};

fn trader(name: &str, cash: i32, security: &str, action: &str, quantity: i32) -> PlayerState {
    PlayerState::new(
        name.to_string(),
        cash,
        10,
        10,
        10,
        security.to_string(),
        action.to_string(),
        quantity,
        (String::new(), String::new()),
    )
}

fn state3(round: Round, influences: (i32, i32, i32)) -> GameState {
    GameState::new(round, 3, "L".to_string(), 50, 50, 50, influences.0, influences.1, influences.2)
}

fn card(title: &str) -> MarketForce {
    MarketForce::new(title.to_string(), "d".to_string(), "i".to_string())
}

fn effect(title: &str, influences: (i32, i32, i32), players: &Vec<PlayerState>) -> ((i32, i32, i32), bool) {
    let mut st = state3(Round::Integer(1), influences);
    let pop = apply_market_force(&mut st, players, &title.to_string());
    ((st.bank_influence, st.bond_influence, st.insurance_influence), pop)
}

#[test]
fn card_effects() {
    let none: Vec<PlayerState> = Vec::new();
    assert_eq!(effect("HOUSING BOOM", (1, 1, 1), &none), ((1, 3, 1), true));
    assert_eq!(effect("GAINING INFLUENCE", (1, -2, 3), &none), ((2, -4, 6), true));
    assert_eq!(effect("OIL BUST", (1, 1, 1), &none), ((-1, 1, 1), true));
    assert_eq!(effect("POLICY CHANGE", (1, 1, 1), &none), ((1, 1, -1), true));
    assert_eq!(effect("STABLE MARKET", (1, 1, 1), &none), ((1, 1, 1), true));
    assert_eq!(effect("SMALL BUSINESS BOOM", (1, 1, 1), &none), ((3, 1, 1), true));
    assert_eq!(effect("FED INTERVENTION", (1, 1, 1), &none), ((1, 1, 1), false));
    assert_eq!(effect("NATIONAL DEBT", (1, 1, 1), &none), ((1, -1, 1), true));
    assert_eq!(effect("CURE ALL", (1, 1, 1), &none), ((1, 1, 3), true));
    assert_eq!(effect("TRADE DEAL", (1, 1, 1), &none), ((2, 2, 2), true));
    assert_eq!(effect("NATURAL DISASTER", (1, 1, 1), &none), ((0, 0, 0), true));
}

#[test]
fn lack_of_interest_lowers_the_most_sold() {
    let players = vec![
        trader("A", 0, "Bond", "Sell", 3),
        trader("B", 0, "Insurance", "Sell", 3),
        trader("C", 0, "Bank", "Buy", 9),
        trader("D", 0, "Insurance", "Sell", 1),
    ];
    assert_eq!(tally(&players, "Sell"), (0, 3, 4));
    assert_eq!(effect("LACK OF INTEREST", (0, 0, 0), &players), ((0, 0, -1), true));
    // A tie goes to the first of bank, bond, insurance.
    let tied = vec![trader("A", 0, "Bond", "Sell", 2), trader("B", 0, "Insurance", "Sell", 2)];
    assert_eq!(effect("LACK OF INTEREST", (0, 0, 0), &tied), ((0, -1, 0), true));
    // Nothing sold: no effect.
    let buyers = vec![trader("A", 0, "Bond", "Buy", 2)];
    assert_eq!(effect("LACK OF INTEREST", (0, 0, 0), &buyers), ((0, 0, 0), true));
}

#[test]
fn high_demand_raises_the_most_bought() {
    let players = vec![
        trader("A", 0, "Bank", "Buy", 5),
        trader("B", 0, "Bond", "Buy", 4),
        trader("C", 0, "Insurance", "Sell", 9),
    ];
    assert_eq!(tally(&players, "Buy"), (5, 4, 0));
    assert_eq!(effect("HIGH DEMAND", (0, 0, 0), &players), ((1, 0, 0), true));
}

#[test]
fn tally_refuses_unknown_securities_and_overflow() {
    let bad = vec![trader("A", 0, "Gold", "Sell", 1)];
    assert_eq!(tally_checked(&bad, "Sell"), None);
    assert_eq!(tally_checked(&bad, "Buy"), Some((0, 0, 0)));
    let big = vec![trader("A", 0, "Bank", "Buy", i32::MAX), trader("B", 0, "Bank", "Buy", 1)];
    assert_eq!(tally_checked(&big, "Buy"), None);
}

#[test]
fn prices_move_and_wrap() {
    let mut st = state3(Round::Integer(1), (4, -5, 1));
    update_prices(&mut st, true);
    // 50 + 40 = 90 stays; 50 - 50 = 0 pops up to 90; 50 + 10 = 60.
    assert_eq!((st.bank_price, st.bond_price, st.insurance_price), (90, 90, 60));

    let mut st = state3(Round::Integer(1), (5, -6, 0));
    update_prices(&mut st, true);
    // 100 pops down to 10; -10 pops up to 80.
    assert_eq!((st.bank_price, st.bond_price, st.insurance_price), (10, 80, 50));

    let mut st = state3(Round::Integer(1), (5, -6, 0));
    update_prices(&mut st, false);
    // While the bubble cannot pop prices are held at 90 and 10.
    assert_eq!((st.bank_price, st.bond_price, st.insurance_price), (90, 10, 50));

    let mut st = GameState::new(Round::Integer(1), 3, String::new(), 95, 50, 50, 0, 0, 0);
    update_prices(&mut st, true);
    // A price just above 90 pops to below 10.
    assert_eq!(st.bank_price, 5);
}

#[test]
fn trades_settle_at_the_prices() {
    let st = GameState::new(Round::Integer(1), 3, String::new(), 30, 40, 70, 0, 0, 0);
    let mut players = vec![
        trader("A", 100, "Bank", "Buy", 2),
        trader("B", 100, "Bond", "Sell", 3),
        trader("C", 100, "Insurance", "", 5),
        trader("D", 100, "Gold", "", 5),
    ];
    settle_trades(&st, &mut players);
    assert_eq!((players[0].cash, players[0].banks, players[0].bonds), (40, 12, 10));
    assert_eq!((players[1].cash, players[1].bonds, players[1].banks), (220, 7, 10));
    assert_eq!((players[2].cash, players[2].insurance), (100, 10));
    assert_eq!((players[3].cash, players[3].insurance), (100, 10));
    assert_eq!(players[0].action, "Buy");
    assert_eq!(players[1].quantity, 3);
}

#[test]
fn a_numbered_round_draws_a_card_and_settles() {
    let mut st = GameState::new(Round::Integer(2), 3, "L".to_string(), 50, 50, 50, 1, 0, -1);
    let mut players = vec![trader("A", 500, "Bank", "Buy", 2), trader("B", 500, "Insurance", "Sell", 1)];
    let mut deck: VecDeque<MarketForce> = VecDeque::new();
    deck.push_back(card("TRADE DEAL"));
    deck.push_back(card("OIL BUST"));
    assert!(round_closable(&st, &players, &deck));
    let report = calculate_states(&mut st, &mut players, &mut deck);
    assert_eq!(report.market_force.unwrap().title, "TRADE DEAL");
    assert_eq!(deck.len(), 1);
    assert_eq!(deck[0].title, "OIL BUST");
    // Influences 2, 1, 0 move the prices to 70, 60, 50.
    assert_eq!((st.bank_price, st.bond_price, st.insurance_price), (70, 60, 50));
    assert_eq!((st.bank_influence, st.bond_influence, st.insurance_influence), (2, 1, 0));
    assert_eq!(
        report.updated_state,
        "  Round: 2\n  Phase: 3\n  Lobbyist: L\n  Bank Price: $70\n  Bond Price: $60\n  Insurance Price: $50"
    );
    assert_eq!((players[0].cash, players[0].banks), (360, 12));
    assert_eq!((players[1].cash, players[1].insurance), (550, 9));
    assert!(st.round == Round::Integer(3));
    assert_eq!(st.phase, 1);
    assert_eq!(st.lobbyist, "L");
}

#[test]
fn the_fifth_round_leads_to_market_close() {
    let mut st = GameState::new(Round::Integer(5), 3, String::new(), 50, 50, 50, 0, 0, 0);
    let mut players: Vec<PlayerState> = Vec::new();
    let mut deck: VecDeque<MarketForce> = VecDeque::new();
    deck.push_back(card("STABLE MARKET"));
    let _ = calculate_states(&mut st, &mut players, &mut deck);
    assert!(st.round.is_market_close());
    assert_eq!(st.phase, 1);
}

#[test]
fn market_close_draws_nothing_and_trades_nothing() {
    let mut st = GameState::new(Round::market_close(), 3, String::new(), 50, 50, 50, 2, 0, 0);
    let mut players = vec![trader("A", 500, "Bank", "Buy", 2)];
    let mut deck: VecDeque<MarketForce> = VecDeque::new();
    assert!(round_closable(&st, &players, &deck));
    let report = calculate_states(&mut st, &mut players, &mut deck);
    assert!(report.market_force.is_none());
    assert_eq!(st.bank_price, 70);
    assert_eq!((players[0].cash, players[0].banks), (500, 10));
    assert!(st.round.is_market_close());
}

#[test]
fn fed_intervention_keeps_prices_in_band() {
    let mut st = GameState::new(Round::Integer(1), 3, String::new(), 80, 20, 50, 3, -3, 0);
    let mut players: Vec<PlayerState> = Vec::new();
    let mut deck: VecDeque<MarketForce> = VecDeque::new();
    deck.push_back(card("FED INTERVENTION"));
    let _ = calculate_states(&mut st, &mut players, &mut deck);
    assert_eq!((st.bank_price, st.bond_price, st.insurance_price), (90, 10, 50));
}

#[test]
fn rounds_that_cannot_close() {
    let players: Vec<PlayerState> = Vec::new();
    let empty: VecDeque<MarketForce> = VecDeque::new();
    let st = state3(Round::Integer(1), (0, 0, 0));
    assert!(!round_closable(&st, &players, &empty));
    let mut unknown: VecDeque<MarketForce> = VecDeque::new();
    unknown.push_back(card("BULL RUN"));
    assert!(!round_closable(&st, &players, &unknown));
    let mut deck: VecDeque<MarketForce> = VecDeque::new();
    deck.push_back(card("CURE ALL"));
    assert!(round_closable(&st, &players, &deck));
    let wrong_phase = GameState::new(Round::Integer(1), 2, String::new(), 50, 50, 50, 0, 0, 0);
    assert!(!round_closable(&wrong_phase, &players, &deck));
    let named = state3(Round::String("Opening".to_string()), (0, 0, 0));
    assert!(!round_closable(&named, &players, &deck));
    let bad_trader = vec![trader("A", 0, "Gold", "Buy", 1)];
    assert!(!round_closable(&st, &bad_trader, &deck));
    let rich = vec![trader("A", i32::MAX, "Bank", "Sell", 9)];
    assert!(!round_closable(&st, &rich, &deck));
    let huge = state3(Round::Integer(1), (i32::MAX / 5, 0, 0));
    assert!(!round_closable(&huge, &players, &deck));
}

#[test]
fn the_game_is_over_at_market_close() {
    assert!(!game_over(&state3(Round::Integer(5), (0, 0, 0))));
    assert!(game_over(&state3(Round::market_close(), (0, 0, 0))));
    let mut st = GameState::new(Round::Integer(1), 3, String::new(), 50, 50, 50, 0, 0, 0);
    let mut players: Vec<PlayerState> = Vec::new();
    let mut deck: VecDeque<MarketForce> = VecDeque::new();
    for _ in 0..6 {
        deck.push_back(card("STABLE MARKET"));
    }
    let mut rounds = 0;
    while !game_over(&st) {
        st.phase = 3;
        let _ = calculate_states(&mut st, &mut players, &mut deck);
        rounds += 1;
    }
    assert_eq!(rounds, 5);
    assert_eq!(deck.len(), 1);
}
