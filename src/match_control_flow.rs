use vstd::prelude::*;

verus! {

/// A coin of the United States.
#[derive(Clone, Copy, Debug, PartialEq, Eq, Structural)]
pub enum Coin {
    Penny,
    Nickel,
    Dime,
    Quarter,
}

/// The worth of a coin in cents.
pub open spec fn cents(coin: Coin) -> u8 {
    match coin {
        Coin::Penny => 1,
        Coin::Nickel => 5,
        Coin::Dime => 10,
        Coin::Quarter => 25,
    }
}

/// Returns the worth of `coin` in cents.
pub fn value_in_cents(coin: Coin) -> (r: u8)
    ensures
        r == cents(coin),
{
    match coin {
        Coin::Penny => 1,
        Coin::Nickel => 5,
        Coin::Dime => 10,
        Coin::Quarter => 25,
    }
}

/// Adds one to the number inside `x`, if there is one.
pub fn plus_one(x: Option<i32>) -> (r: Option<i32>)
    requires
        x matches Some(i) ==> i < i32::MAX,
    ensures
        x is None ==> r is None,
        x matches Some(i) ==> r == Some((i + 1) as i32),
{
    match x {
        None => None,
        Some(i) => Some(i + 1),
    }
}

/// What a player does on a turn of the board game, by the roll of the dice.
#[derive(Clone, Copy, Debug, PartialEq, Eq, Structural)]
pub enum TurnAction {
    AddFancyHat,
    RemoveFancyHat,
    MovePlayer(u8),
}

/// The action that a roll of `dice_roll` calls for.
pub open spec fn action_for(dice_roll: u8) -> TurnAction {
    if dice_roll == 3 {
        TurnAction::AddFancyHat
    } else if dice_roll == 7 {
        TurnAction::RemoveFancyHat
    } else {
        TurnAction::MovePlayer(dice_roll)
    }
}

/// Returns the action for a roll: a three gives a fancy hat, a seven takes
/// it away, and any other roll moves the player that many spaces.
pub fn turn_action(dice_roll: u8) -> (r: TurnAction)
    ensures
        r == action_for(dice_roll),
{
    match dice_roll {
        3 => TurnAction::AddFancyHat,
        7 => TurnAction::RemoveFancyHat,
        other => TurnAction::MovePlayer(other),
    }
}

/// Tells whether the player rolls again: on every roll but a three.
pub fn rerolls(dice_roll: u8) -> (r: bool)
    ensures
        r == (dice_roll != 3),
{
    match dice_roll {
        3 => false,
        _ => true,
    }
}

} // verus!
