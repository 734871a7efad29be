use slots::game::{CenterLine, GameState, GameStatus, TickAction, TickEvent};
use slots::reel::symbol_at_row;
use slots::symbol::{reel_pool, Symbol};

fn line(left: Symbol, middle: Symbol, right: Symbol) -> CenterLine {
    CenterLine { left, middle, right }
}

fn time_up() -> TickEvent {
    TickEvent { spin_time_up: true, all_reels_stopped: false, center_line: None }
}

fn stopped(center: Option<CenterLine>) -> TickEvent {
    TickEvent { spin_time_up: false, all_reels_stopped: true, center_line: center }
}

#[test]
fn to_char_draws_each_picture() {
    assert_eq!(Symbol::Seven.to_char(), "7");
    assert_eq!(Symbol::Cherry.to_char(), "🍒");
    assert_eq!(Symbol::Bell.to_char(), "🔔");
    assert_eq!(Symbol::Diamond.to_char(), "💎");
    assert_eq!(Symbol::Watermelon.to_char(), "🍉");
}

#[test]
fn multipliers_follow_the_pay_table() {
    assert_eq!(Symbol::Seven.payout_multiplier(), 100);
    assert_eq!(Symbol::Diamond.payout_multiplier(), 50);
    assert_eq!(Symbol::Bell.payout_multiplier(), 20);
    assert_eq!(Symbol::Watermelon.payout_multiplier(), 15);
    assert_eq!(Symbol::Cherry.payout_multiplier(), 10);
}

#[test]
fn reel_pool_is_the_six_picture_strip() {
    assert_eq!(
        reel_pool(),
        vec![
            Symbol::Seven,
            Symbol::Cherry,
            Symbol::Bell,
            Symbol::Diamond,
            Symbol::Watermelon,
            Symbol::Cherry
        ]
    );
}

#[test]
fn symbol_at_row_wraps_forward() {
    let pool = reel_pool();
    assert_eq!(symbol_at_row(&pool, 0, 0), Symbol::Seven);
    assert_eq!(symbol_at_row(&pool, 0, 1), Symbol::Cherry);
    assert_eq!(symbol_at_row(&pool, 4, 1), Symbol::Cherry);
    assert_eq!(symbol_at_row(&pool, 5, 1), Symbol::Seven);
    assert_eq!(symbol_at_row(&pool, 6, 2), Symbol::Bell);
    assert_eq!(symbol_at_row(&pool, 100, 4), Symbol::Bell);
}

#[test]
fn symbol_at_row_wraps_backward() {
    let pool = reel_pool();
    assert_eq!(symbol_at_row(&pool, -1, 0), Symbol::Cherry);
    assert_eq!(symbol_at_row(&pool, -2, 0), Symbol::Watermelon);
    assert_eq!(symbol_at_row(&pool, -6, 1), Symbol::Cherry);
    assert_eq!(symbol_at_row(&pool, -7, 0), Symbol::Cherry);
    assert_eq!(symbol_at_row(&pool, i32::MIN, 0), symbol_at_row(&pool, 4, 0));
}

#[test]
fn symbol_at_row_of_an_empty_strip_is_a_cherry() {
    assert_eq!(symbol_at_row(&Vec::new(), 3, 1), Symbol::Cherry);
}

#[test]
fn symbol_at_row_repeats_every_strip_length() {
    let pool = reel_pool();
    for base in -20..20 {
        for row in 0..5usize {
            assert_eq!(symbol_at_row(&pool, base, row), symbol_at_row(&pool, base, row + 6));
            assert_eq!(symbol_at_row(&pool, base + 1, row), symbol_at_row(&pool, base, row + 1));
        }
    }
}

#[test]
fn new_machine_starts_with_a_thousand() {
    let s = GameState::new();
    assert_eq!(s, GameState { balance: 1000, bet: 10, status: GameStatus::Idle, win_amount: 0 });
}

#[test]
fn start_spin_takes_the_bet() {
    let mut s = GameState { balance: 1000, bet: 10, status: GameStatus::Idle, win_amount: 30 };
    assert!(s.start_spin());
    assert_eq!(s, GameState { balance: 990, bet: 10, status: GameStatus::Spinning, win_amount: 0 });
}

#[test]
fn start_spin_with_exactly_the_bet() {
    let mut s = GameState { balance: 10, bet: 10, status: GameStatus::Idle, win_amount: 0 };
    assert!(s.start_spin());
    assert_eq!(s.balance, 0);
}

#[test]
fn start_spin_refused_when_poor() {
    let before = GameState { balance: 9, bet: 10, status: GameStatus::Idle, win_amount: 5 };
    let mut s = before;
    assert!(!s.start_spin());
    assert_eq!(s, before);
}

#[test]
fn start_spin_refused_while_turning() {
    for status in [GameStatus::Spinning, GameStatus::Stopping] {
        let before = GameState { balance: 500, bet: 10, status, win_amount: 0 };
        let mut s = before;
        assert!(!s.start_spin());
        assert_eq!(s, before);
    }
}

#[test]
fn check_win_pays_three_alike() {
    let cases = [
        (Symbol::Seven, 1000u32),
        (Symbol::Diamond, 500),
        (Symbol::Bell, 200),
        (Symbol::Watermelon, 150),
        (Symbol::Cherry, 100),
    ];
    for (sym, win) in cases {
        let mut s = GameState { balance: 990, bet: 10, status: GameStatus::Idle, win_amount: 0 };
        s.check_win(sym, sym, sym);
        assert_eq!(s.win_amount, win);
        assert_eq!(s.balance, 990 + win);
    }
}

#[test]
fn check_win_pays_any_pair_the_bet() {
    let pairs = [
        (Symbol::Bell, Symbol::Bell, Symbol::Seven),
        (Symbol::Seven, Symbol::Bell, Symbol::Bell),
        (Symbol::Bell, Symbol::Seven, Symbol::Bell),
    ];
    for (a, b, c) in pairs {
        let mut s = GameState { balance: 990, bet: 10, status: GameStatus::Idle, win_amount: 0 };
        s.check_win(a, b, c);
        assert_eq!(s.win_amount, 10);
        assert_eq!(s.balance, 1000);
    }
}

#[test]
fn check_win_pays_nothing_without_a_pair() {
    let before = GameState { balance: 990, bet: 10, status: GameStatus::Idle, win_amount: 7 };
    let mut s = before;
    s.check_win(Symbol::Seven, Symbol::Bell, Symbol::Cherry);
    assert_eq!(s, before);
}

#[test]
fn tick_leaves_idle_alone() {
    let before = GameState::new();
    let mut s = before;
    let action = s.tick(stopped(Some(line(Symbol::Seven, Symbol::Seven, Symbol::Seven))));
    assert_eq!(s, before);
    assert_eq!(action, TickAction { reset_timer: false, release_reels: false });
}

#[test]
fn tick_moves_spinning_to_stopping_when_time_is_up() {
    let mut s = GameState::new();
    assert!(s.start_spin());
    let early = s.tick(TickEvent { spin_time_up: false, all_reels_stopped: true, center_line: None });
    assert_eq!(s.status, GameStatus::Spinning);
    assert_eq!(early, TickAction { reset_timer: false, release_reels: false });
    let action = s.tick(time_up());
    assert_eq!(s.status, GameStatus::Stopping);
    assert_eq!(action, TickAction { reset_timer: true, release_reels: false });
    assert_eq!(s.balance, 990);
}

#[test]
fn tick_waits_for_all_reels() {
    let mut s = GameState { balance: 990, bet: 10, status: GameStatus::Stopping, win_amount: 0 };
    let action = s.tick(time_up());
    assert_eq!(s.status, GameStatus::Stopping);
    assert_eq!(action, TickAction { reset_timer: false, release_reels: false });
}

#[test]
fn full_round_with_three_sevens() {
    let mut s = GameState::new();
    assert!(s.start_spin());
    s.tick(time_up());
    let action = s.tick(stopped(Some(line(Symbol::Seven, Symbol::Seven, Symbol::Seven))));
    assert_eq!(action, TickAction { reset_timer: true, release_reels: true });
    assert_eq!(s, GameState { balance: 1990, bet: 10, status: GameStatus::Idle, win_amount: 1000 });
}

#[test]
fn full_round_without_a_pair_loses_the_bet() {
    let mut s = GameState::new();
    assert!(s.start_spin());
    s.tick(time_up());
    s.tick(stopped(Some(line(Symbol::Diamond, Symbol::Bell, Symbol::Cherry))));
    assert_eq!(s, GameState { balance: 990, bet: 10, status: GameStatus::Idle, win_amount: 0 });
}

#[test]
fn round_without_a_readable_line_pays_nothing() {
    let mut s = GameState::new();
    assert!(s.start_spin());
    s.tick(time_up());
    let action = s.tick(stopped(None));
    assert_eq!(action, TickAction { reset_timer: true, release_reels: true });
    assert_eq!(s, GameState { balance: 990, bet: 10, status: GameStatus::Idle, win_amount: 0 });
}

#[test]
fn round_accounting_over_every_line() {
    let all = [Symbol::Seven, Symbol::Cherry, Symbol::Bell, Symbol::Diamond, Symbol::Watermelon];
    for a in all {
        for b in all {
            for c in all {
                let mut s = GameState::new();
                assert!(s.start_spin());
                s.tick(time_up());
                s.tick(stopped(Some(line(a, b, c))));
                assert_eq!(s.status, GameStatus::Idle);
                assert_eq!(s.balance, 1000 - 10 + s.win_amount);
                let mut t = GameState::new();
                assert!(t.start_spin());
                t.tick(time_up());
                t.tick(stopped(Some(line(c, b, a))));
                assert_eq!(s, t);
            }
        }
    }
}
