use exchange::data_types::{GameState, PlayerState, Round};
use exchange::phases::{
    begin_market_close, choose_security, end_phase1, end_phase2, influence_choice_fits, lobbyist_index,
    next_influence_turn,
    place_influence, record_trade, reset_influences, select_lobbyist, trade_order_fits, InfluenceCheck,
    TradeCheck,
};

fn player(name: &str, cash: i32, banks: i32, bonds: i32, insurance: i32) -> PlayerState {
    PlayerState::new(
        name.to_string(),
        cash,
        banks,
        bonds,
        insurance,
        String::new(),
        String::new(),
        0,
        (String::new(), String::new()),
    )
}

fn state(phase: i32) -> GameState {
    GameState::new(Round::Integer(1), phase, String::new(), 50, 50, 50, 0, 0, 0)
}

fn s(text: &str) -> String {
    text.to_string()
}

#[test]
fn phase1_codes_pick_a_security() {
    let st = state(1);
    let mut p = player("A", 100, 1, 2, 3);
    assert!(choose_security(&st, &mut p, &s("ba")));
    assert_eq!(p.security, "Bank");
    assert!(choose_security(&st, &mut p, &s("bo")));
    assert_eq!(p.security, "Bond");
    assert!(choose_security(&st, &mut p, &s("i")));
    assert_eq!(p.security, "Insurance");
    assert!(!choose_security(&st, &mut p, &s("bank")));
    assert!(!choose_security(&st, &mut p, &s("")));
    assert_eq!(p.security, "Insurance");
    assert_eq!((p.cash, p.banks, p.bonds, p.insurance), (100, 1, 2, 3));
}

#[test]
fn phases_advance() {
    let mut st = state(1);
    end_phase1(&mut st);
    assert_eq!(st.phase, 2);
    end_phase2(&mut st);
    assert_eq!(st.phase, 3);
    assert!(st.round == Round::Integer(1));
}

fn trader(security: &str, banks: i32, bonds: i32, insurance: i32) -> PlayerState {
    let mut p = player("T", 300, banks, bonds, insurance);
    p.security = security.to_string();
    p
}

#[test]
fn phase2_order_checks() {
    let st = state(2);
    let mut p = trader("Bank", 5, 0, 0);
    assert_eq!(record_trade(&st, &mut p, &s("b"), None), TradeCheck::NotAnInteger);
    assert_eq!(record_trade(&st, &mut p, &s("x"), None), TradeCheck::NotAnInteger);
    assert_eq!(record_trade(&st, &mut p, &s("x"), Some(3)), TradeCheck::NotBuyOrSell);
    assert_eq!(record_trade(&st, &mut p, &s("b"), Some(0)), TradeCheck::OutOfRange);
    assert_eq!(record_trade(&st, &mut p, &s("s"), Some(10)), TradeCheck::OutOfRange);
    assert_eq!(record_trade(&st, &mut p, &s("s"), Some(6)), TradeCheck::BeyondHoldings);
    assert_eq!(p.action, "");
    assert_eq!(p.quantity, 0);
    assert_eq!(record_trade(&st, &mut p, &s("s"), Some(5)), TradeCheck::Accepted);
    assert_eq!(p.action, "Sell");
    assert_eq!(p.quantity, 5);
}

#[test]
fn phase2_buy_limit_is_24() {
    let st = state(2);
    let mut p = trader("Bond", 0, 20, 0);
    assert_eq!(record_trade(&st, &mut p, &s("b"), Some(5)), TradeCheck::BeyondHoldings);
    assert_eq!(record_trade(&st, &mut p, &s("b"), Some(4)), TradeCheck::Accepted);
    assert_eq!(p.action, "Buy");
    assert_eq!(p.quantity, 4);
    assert_eq!((p.cash, p.bonds), (300, 20));
}

#[test]
fn phase2_unknown_security_never_trades() {
    let st = state(2);
    let mut p = trader("Gold", 9, 9, 9);
    assert_eq!(record_trade(&st, &mut p, &s("b"), Some(1)), TradeCheck::BeyondHoldings);
    assert_eq!(record_trade(&st, &mut p, &s("s"), Some(1)), TradeCheck::BeyondHoldings);
}

#[test]
fn phase2_overflow_check() {
    let p = trader("Insurance", 0, 0, i32::MAX - 3);
    assert!(!trade_order_fits(&p, &s("b"), Some(4)));
    assert!(trade_order_fits(&p, &s("b"), Some(3)));
    assert!(trade_order_fits(&p, &s("s"), Some(9)));
    assert!(trade_order_fits(&p, &s("b"), None));
}

#[test]
fn lobbyist_is_the_sole_richest_player() {
    let mut st = state(3);
    let players = vec![player("A", 100, 0, 0, 0), player("B", 400, 0, 0, 0), player("C", 300, 0, 0, 0)];
    assert_eq!(select_lobbyist(&mut st, &players), 1);
    assert_eq!(st.lobbyist, "B");
    assert_eq!(lobbyist_index(&st, &players), Some(1));
}

#[test]
fn tied_richest_players_mean_no_lobbyist() {
    let mut st = state(3);
    st.lobbyist = "Old".to_string();
    let players = vec![player("A", 400, 0, 0, 0), player("B", 400, 0, 0, 0), player("C", 300, 0, 0, 0)];
    assert_eq!(select_lobbyist(&mut st, &players), 2);
    assert_eq!(st.lobbyist, "");
    assert_eq!(lobbyist_index(&st, &players), None);
}

#[test]
fn players_all_in_debt_keep_the_last_lobbyist() {
    let mut st = state(3);
    st.lobbyist = "Old".to_string();
    let players = vec![player("A", -10, 0, 0, 0), player("B", -1, 0, 0, 0)];
    assert_eq!(select_lobbyist(&mut st, &players), 0);
    assert_eq!(st.lobbyist, "Old");
    assert_eq!(lobbyist_index(&st, &players), None);
}

#[test]
fn zero_cash_can_be_the_most() {
    let mut st = state(3);
    let players = vec![player("A", -10, 0, 0, 0), player("B", 0, 0, 0, 0)];
    assert_eq!(select_lobbyist(&mut st, &players), 1);
    assert_eq!(st.lobbyist, "B");
}

#[test]
fn lobbyist_index_finds_the_first_of_a_name() {
    let mut st = state(3);
    st.lobbyist = "B".to_string();
    let players = vec![player("A", 1, 0, 0, 0), player("B", 2, 0, 0, 0), player("B", 3, 0, 0, 0)];
    assert_eq!(lobbyist_index(&st, &players), Some(1));
}

#[test]
fn influence_choices() {
    let mut st = state(3);
    let mut p = player("A", 100, 0, 0, 0);
    assert_eq!(place_influence(&mut st, &mut p, &s("x"), &s("i")), InfluenceCheck::UnknownSecurity);
    assert_eq!(place_influence(&mut st, &mut p, &s("x"), &s("q")), InfluenceCheck::UnknownSecurity);
    assert_eq!(place_influence(&mut st, &mut p, &s("ba"), &s("q")), InfluenceCheck::UnknownDirection);
    assert_eq!((st.bank_influence, st.bond_influence, st.insurance_influence), (0, 0, 0));
    assert_eq!(p.influence, (String::new(), String::new()));
    assert_eq!(place_influence(&mut st, &mut p, &s("ba"), &s("i")), InfluenceCheck::Accepted);
    assert_eq!(p.influence, (s("Bank"), s("Increase")));
    assert_eq!(place_influence(&mut st, &mut p, &s("bo"), &s("d")), InfluenceCheck::Accepted);
    assert_eq!(p.influence, (s("Bond"), s("Decrease")));
    assert_eq!(place_influence(&mut st, &mut p, &s("i"), &s("d")), InfluenceCheck::Accepted);
    assert_eq!(place_influence(&mut st, &mut p, &s("i"), &s("d")), InfluenceCheck::Accepted);
    assert_eq!(p.influence, (s("Insurance"), s("Decrease")));
    assert_eq!((st.bank_influence, st.bond_influence, st.insurance_influence), (1, -1, -2));
    assert_eq!((st.bank_price, st.bond_price, st.insurance_price), (50, 50, 50));
}

#[test]
fn influence_overflow_check() {
    let mut st = state(3);
    st.bond_influence = i32::MIN;
    assert!(!influence_choice_fits(&st, &s("bo"), &s("d")));
    assert!(influence_choice_fits(&st, &s("bo"), &s("i")));
    assert!(influence_choice_fits(&st, &s("ba"), &s("d")));
    assert!(influence_choice_fits(&st, &s("zz"), &s("d")));
}

#[test]
fn round_start_and_market_close() {
    let mut st = GameState::new(Round::market_close(), 1, String::new(), 50, 50, 50, 3, -2, 1);
    reset_influences(&mut st);
    assert_eq!((st.bank_influence, st.bond_influence, st.insurance_influence), (0, 0, 0));
    st.bank_influence = 4;
    let mut players = vec![trader("Bank", 1, 2, 3)];
    players[0].quantity = 7;
    players[0].action = "Buy".to_string();
    begin_market_close(&mut st, &mut players);
    assert_eq!(st.phase, 3);
    assert_eq!(st.bank_influence, 0);
    assert_eq!(players[0].quantity, 0);
    assert_eq!(players[0].action, "Buy");
    assert_eq!((players[0].banks, players[0].bonds, players[0].insurance), (1, 2, 3));
}

#[test]
fn influence_turns_go_to_players_then_the_lobbyist() {
    let mut st = state(3);
    let players = vec![player("A", 1, 0, 0, 0), player("B", 2, 0, 0, 0), player("C", 3, 0, 0, 0)];
    assert_eq!(next_influence_turn(&st, &players, 0), Some(0));
    assert_eq!(next_influence_turn(&st, &players, 2), Some(2));
    assert_eq!(next_influence_turn(&st, &players, 3), None);
    st.lobbyist = "B".to_string();
    assert_eq!(next_influence_turn(&st, &players, 3), Some(1));
    assert_eq!(next_influence_turn(&st, &players, 4), None);
    st.lobbyist = "Z".to_string();
    assert_eq!(next_influence_turn(&st, &players, 3), None);
}

#[test]
fn a_whole_third_phase_moves_influence_by_increases_minus_decreases() {
    let mut st = state(3);
    let mut players = vec![player("A", 1, 0, 0, 0), player("B", 2, 0, 0, 0)];
    let answers = [("ba", "i"), ("x", "i"), ("ba", "i"), ("bo", "q"), ("bo", "d"), ("ba", "d")];
    let mut accepted = 0;
    for (k, (code, dir)) in answers.iter().enumerate() {
        if place_influence(&mut st, &mut players[k % 2], &s(code), &s(dir)) == InfluenceCheck::Accepted {
            accepted += 1;
        }
    }
    assert_eq!(accepted, 4);
    assert_eq!((st.bank_influence, st.bond_influence, st.insurance_influence), (1, -1, 0));
    assert!(st.bank_influence.abs() + st.bond_influence.abs() + st.insurance_influence.abs() <= accepted);
}
