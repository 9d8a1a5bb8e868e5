use exchange::data_types::{GameState, PlayerState, Round};
use exchange::results::{net_worth, net_worth_computable, standings};
use exchange::setup::{deal, initial_state, market_force_deck, new_game, starting_roster, valid_player_count};

fn player(name: &str, cash: i32, banks: i32, bonds: i32, insurance: i32) -> PlayerState {
    PlayerState::new(
        name.to_string(),
        cash,
        banks,
        bonds,
        insurance,
        String::new(),
        String::new(),
        0,
        (String::new(), String::new()),
    )
}

fn market(bank: i32, bond: i32, insurance: i32) -> GameState {
    GameState::new(Round::market_close(), 1, String::new(), bank, bond, insurance, 0, 0, 0)
}

#[test]
fn net_worth_counts_cash_and_holdings() {
    let st = market(30, 40, 70);
    let p = player("A", 100, 2, 3, 1);
    assert!(net_worth_computable(&st, &p));
    assert_eq!(net_worth(&st, &p), 100 + 60 + 120 + 70);
    let rich = player("B", i32::MAX, 1, 0, 0);
    assert!(!net_worth_computable(&st, &rich));
    let heavy = player("C", 0, i32::MAX, 0, 0);
    assert!(!net_worth_computable(&st, &heavy));
}

#[test]
fn standings_rank_by_net_worth_with_shared_places() {
    let st = market(10, 10, 10);
    let players = vec![player("A", 100, 0, 0, 0), player("B", 300, 0, 0, 0), player("C", 100, 0, 0, 0), player("D", 50, 5, 0, 0)];
    let table = standings(&st, &players);
    let worth: Vec<i32> = table.iter().map(|s| s.net_worth).collect();
    let ranks: Vec<usize> = table.iter().map(|s| s.rank).collect();
    assert_eq!(worth, vec![100, 300, 100, 100]);
    assert_eq!(ranks, vec![2, 1, 2, 2]);
}

#[test]
fn player_counts() {
    assert!(!valid_player_count(0));
    assert!(!valid_player_count(1));
    assert!(valid_player_count(2));
    assert!(valid_player_count(6));
    assert!(!valid_player_count(7));
}

#[test]
fn roster_and_deck_in_written_order() {
    let roster = starting_roster();
    assert_eq!(roster.len(), 12);
    assert_eq!(roster[0].name, "David Reedy");
    assert_eq!((roster[0].cash, roster[0].banks, roster[0].bonds, roster[0].insurance), (150, 0, 6, 11));
    assert_eq!(roster[11].name, "Ephraim Hart");
    assert_eq!((roster[6].cash, roster[6].banks, roster[6].bonds, roster[6].insurance), (300, 10, 4, 0));
    assert_eq!(roster[3].security, "");
    let deck = market_force_deck();
    assert_eq!(deck.len(), 15);
    assert_eq!(deck[0].title, "HOUSING BOOM");
    assert_eq!(deck[8].title, "FED INTERVENTION");
    assert_eq!(deck[8].impact, "DURING THIS ROUND THE BUBBLE CANNOT POP");
    assert_eq!(deck[14].title, "NATURAL DISASTER");
}

#[test]
fn dealing_keeps_the_order_given() {
    let game = deal(3, starting_roster(), market_force_deck());
    assert_eq!(game.players.len(), 3);
    assert_eq!(game.players[2].name, "Benjamin Wintrop");
    assert_eq!(game.market_forces.len(), 15);
    assert_eq!(game.market_forces[1].title, "GAINING INFLUENCE");
    let st = initial_state();
    assert!(st.round == Round::Integer(1));
    assert_eq!((st.phase, st.bank_price, st.bond_price, st.insurance_price), (1, 50, 50, 50));
    assert!(game.state.round == Round::Integer(1));
    assert_eq!(game.state.lobbyist, "");
}

#[test]
fn a_new_game_deals_distinct_characters_and_a_full_deck() {
    let game = new_game(6);
    assert_eq!(game.players.len(), 6);
    let roster = starting_roster();
    for (i, p) in game.players.iter().enumerate() {
        assert!(roster.iter().any(|r| r.name == p.name && r.cash == p.cash && r.banks == p.banks));
        for q in game.players.iter().skip(i + 1) {
            assert_ne!(p.name, q.name);
        }
    }
    let mut titles: Vec<String> = game.market_forces.iter().map(|m| m.title.clone()).collect();
    let mut expected: Vec<String> = market_force_deck().iter().map(|m| m.title.clone()).collect();
    titles.sort();
    expected.sort();
    assert_eq!(titles, expected);
    assert_eq!(game.state.bank_price, 50);
}

#[test]
fn new_games_are_shuffled() {
    let written: Vec<String> = market_force_deck().iter().map(|m| m.title.clone()).collect();
    let names: Vec<String> = starting_roster().iter().take(6).map(|p| p.name.clone()).collect();
    let mut deck_moved = false;
    let mut roster_moved = false;
    for _ in 0..8 {
        let game = new_game(6);
        let titles: Vec<String> = game.market_forces.iter().map(|m| m.title.clone()).collect();
        let dealt: Vec<String> = game.players.iter().map(|p| p.name.clone()).collect();
        deck_moved = deck_moved || titles != written;
        roster_moved = roster_moved || dealt != names;
    }
    assert!(deck_moved);
    assert!(roster_moved);
}
