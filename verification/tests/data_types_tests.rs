use exchange::data_types::{f, GameState, MarketForce, PlayerState, Round};

fn player(name: &str, cash: i32, banks: i32, bonds: i32, insurance: i32) -> PlayerState {
    PlayerState::new(
        name.to_string(),
        cash,
        banks,
        bonds,
        insurance,
        String::new(),
        String::new(),
        0,
        (String::new(), String::new()),
    )
}

#[test]
fn f_gives_the_round_number() {
    assert_eq!(f(&Round::Integer(3)), 3);
    assert_eq!(f(&Round::Integer(-7)), -7);
}

#[test]
fn round_text_shows_number_or_name() {
    assert_eq!(Round::Integer(4).to_string(), "4");
    assert_eq!(Round::Integer(0).to_string(), "0");
    assert_eq!(Round::Integer(-12).to_string(), "-12");
    assert_eq!(Round::Integer(i32::MIN).to_string(), "-2147483648");
    assert_eq!(Round::Integer(i32::MAX).to_string(), "2147483647");
    assert_eq!(Round::String("Market Close".to_string()).to_string(), "Market Close");
}

#[test]
fn round_equality() {
    assert!(Round::Integer(2) == Round::Integer(2));
    assert!(Round::Integer(2) != Round::Integer(3));
    assert!(Round::String("Market Close".to_string()) == Round::String("Market Close".to_string()));
    assert!(Round::String("Market Close".to_string()) != Round::String("Open".to_string()));
    assert!(Round::Integer(1) != Round::String("1".to_string()));
}

#[test]
fn market_close_round() {
    assert!(Round::market_close().is_market_close());
    assert!(Round::String("Market Close".to_string()).is_market_close());
    assert!(!Round::String("Market close".to_string()).is_market_close());
    assert!(!Round::Integer(5).is_market_close());
}

#[test]
fn game_state_new_keeps_fields_and_text() {
    let s = GameState::new(Round::Integer(1), 1, "Hugh Smith".to_string(), 50, 40, -30, 1, 2, 3);
    assert!(s.round == Round::Integer(1));
    assert_eq!(s.phase, 1);
    assert_eq!(s.lobbyist, "Hugh Smith");
    assert_eq!((s.bank_price, s.bond_price, s.insurance_price), (50, 40, -30));
    assert_eq!((s.bank_influence, s.bond_influence, s.insurance_influence), (1, 2, 3));
    assert_eq!(
        s.to_string(),
        "  Round: 1\n  Phase: 1\n  Lobbyist: Hugh Smith\n  Bank Price: $50\n  Bond Price: $40\n  Insurance Price: $-30"
    );
}

#[test]
fn player_state_new_clone_and_text() {
    let p = PlayerState::new(
        "David Reedy".to_string(),
        150,
        0,
        6,
        11,
        "Bank".to_string(),
        "Buy".to_string(),
        3,
        ("Bond".to_string(), "Increase".to_string()),
    );
    let q = p.clone();
    assert_eq!(q.name, "David Reedy");
    assert_eq!((q.cash, q.banks, q.bonds, q.insurance), (150, 0, 6, 11));
    assert_eq!(q.security, "Bank");
    assert_eq!(q.action, "Buy");
    assert_eq!(q.quantity, 3);
    assert_eq!(q.influence, ("Bond".to_string(), "Increase".to_string()));
    assert_eq!(p.to_string(), "  Name: David Reedy\n  Cash: $150\n  Banks: 0\n  Bonds: 6\n  Insurance: 11");
    assert_eq!(player("X", -5, 1, 2, 3).to_string(), "  Name: X\n  Cash: $-5\n  Banks: 1\n  Bonds: 2\n  Insurance: 3");
}

#[test]
fn market_force_new_and_text() {
    let m = MarketForce::new("OIL BUST".to_string(), "Banks lose.".to_string(), "BANKS -2".to_string());
    assert_eq!(m.title, "OIL BUST");
    assert_eq!(m.description, "Banks lose.");
    assert_eq!(m.impact, "BANKS -2");
    assert_eq!(m.to_string(), "  OIL BUST\n  Banks lose.\n  BANKS -2");
}
