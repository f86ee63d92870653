use rust_basics::fibonacci::generate_nth_fibonacci_number;
use rust_basics::match_control_flow::{plus_one, rerolls, turn_action, value_in_cents, Coin, TurnAction};

#[test]
fn twentieth_fibonacci_number() {
    assert_eq!(generate_nth_fibonacci_number(20), 6765);
}

#[test]
fn first_fibonacci_numbers() {
    let expected = [0, 1, 1, 2, 3, 5, 8, 13, 21, 34, 55];
    for (n, want) in expected.iter().enumerate() {
        assert_eq!(generate_nth_fibonacci_number(n as i32), *want);
    }
}

#[test]
fn fibonacci_of_negative_position_is_zero() {
    assert_eq!(generate_nth_fibonacci_number(-7), 0);
    assert_eq!(generate_nth_fibonacci_number(i32::MIN), 0);
}

#[test]
fn largest_fibonacci_number_in_i32() {
    assert_eq!(generate_nth_fibonacci_number(46), 1836311903);
}

#[test]
fn coin_values() {
    assert_eq!(value_in_cents(Coin::Penny), 1);
    assert_eq!(value_in_cents(Coin::Nickel), 5);
    assert_eq!(value_in_cents(Coin::Dime), 10);
    assert_eq!(value_in_cents(Coin::Quarter), 25);
}

#[test]
fn plus_one_on_some_and_none() {
    assert_eq!(plus_one(Some(5)), Some(6));
    assert_eq!(plus_one(Some(-1)), Some(0));
    assert_eq!(plus_one(Some(i32::MAX - 1)), Some(i32::MAX));
    assert_eq!(plus_one(None), None);
}

#[test]
fn dice_roll_actions() {
    assert_eq!(turn_action(3), TurnAction::AddFancyHat);
    assert_eq!(turn_action(7), TurnAction::RemoveFancyHat);
    assert_eq!(turn_action(9), TurnAction::MovePlayer(9));
    assert_eq!(turn_action(0), TurnAction::MovePlayer(0));
}

#[test]
fn dice_roll_rerolls() {
    assert!(!rerolls(3));
    assert!(rerolls(9));
    assert!(rerolls(7));
}
