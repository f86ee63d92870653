use rust_basics::ownership::{calculate_length, five, gives_ownership, takes_and_gives_back};
use rust_basics::references_and_borrowing;
use rust_basics::references_and_borrowing::change;
use rust_basics::slices::{first_word, first_word_final, first_word_without_slice, second_word};
use rust_basics::strings::join_with_hyphens;

#[test]
fn first_word_of_two() {
    assert_eq!(first_word_final("hello world"), "hello");
    assert_eq!(first_word(&String::from("hello world")), "hello");
}

#[test]
fn first_word_of_part_and_whole() {
    let my_string = String::from("hello world");
    assert_eq!(first_word_final(&my_string[0..6]), "hello");
    assert_eq!(first_word_final(&my_string[..]), "hello");
    assert_eq!(first_word_final("hello"), "hello");
}

#[test]
fn first_word_edge_cases() {
    assert_eq!(first_word_final(""), "");
    assert_eq!(first_word_final(" leading"), "");
    assert_eq!(first_word(&String::from("Здравствуй мир")), "Здравствуй");
}

#[test]
fn second_word_cases() {
    assert_eq!(second_word(&String::from("hello world")), "world");
    assert_eq!(second_word(&String::from("one two three")), "two");
    assert_eq!(second_word(&String::from("hello")), "");
    assert_eq!(second_word(&String::from("hello ")), "");
    assert_eq!(second_word(&String::from(" lead")), "lead");
    assert_eq!(second_word(&String::from("a  b")), "");
    assert_eq!(second_word(&String::from("Зд мир да")), "мир");
}

#[test]
fn first_word_end_in_bytes() {
    assert_eq!(first_word_without_slice(&String::from("hello world")), 5);
    assert_eq!(first_word_without_slice(&String::from("hello")), 5);
    assert_eq!(first_word_without_slice(&String::new()), 0);
    assert_eq!(first_word_without_slice(&String::from("Зд x")), 4);
}

#[test]
fn ownership_round_trips() {
    assert_eq!(five(), 5);
    assert_eq!(gives_ownership(), "yours");
    assert_eq!(takes_and_gives_back(String::from("hello")), "hello");
    let (s, len) = calculate_length(String::from("hello"));
    assert_eq!(s, "hello");
    assert_eq!(len, 5);
}

#[test]
fn length_counts_bytes() {
    assert_eq!(references_and_borrowing::calculate_length(&String::from("hello")), 5);
    assert_eq!(references_and_borrowing::calculate_length(&String::from("Зд")), 4);
    assert_eq!(references_and_borrowing::calculate_length(&String::new()), 0);
}

#[test]
fn change_appends_greeting() {
    let mut s = String::from("hello");
    change(&mut s);
    assert_eq!(s, "hello, world!");
}

#[test]
fn joins_with_hyphens() {
    assert_eq!(join_with_hyphens("tic", "tac", "toe"), "tic-tac-toe");
    assert_eq!(join_with_hyphens("", "", ""), "--");
}
