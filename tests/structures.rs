use rust_basics::back_of_house::{Appetizer, Breakfast};
use rust_basics::rectangles::{area_v1, area_v2_tuple, area_v3_struct, Rectangle};
use rust_basics::structs::{build_user, decimal_string, User};

#[test]
fn areas_of_each_form() {
    assert_eq!(area_v1(30, 50), 1500);
    assert_eq!(area_v2_tuple((30, 50)), 1500);
    assert_eq!(area_v3_struct(&Rectangle { width: 32, height: 50 }), 1600);
    assert_eq!(area_v1(0, 50), 0);
}

#[test]
fn rectangle_grows() {
    let mut rect = Rectangle { width: 30, height: 50 };
    assert_eq!(rect.area(), 1500);
    rect.increase();
    assert_eq!(rect, Rectangle { width: 31, height: 51 });
    assert_eq!(rect.area(), 1581);
}

#[test]
fn rectangle_width_check() {
    assert!(Rectangle { width: 30, height: 50 }.width());
    assert!(!Rectangle { width: 0, height: 50 }.width());
}

#[test]
fn rectangle_holds() {
    let rect1 = Rectangle { width: 30, height: 50 };
    let rect2 = Rectangle { width: 10, height: 40 };
    let rect3 = Rectangle::square(32);
    assert_eq!(rect3, Rectangle { width: 32, height: 32 });
    assert!(rect1.can_hold(&rect2));
    assert!(!rect1.can_hold(&rect3));
    assert!(!rect1.can_hold(&rect1));
}

#[test]
fn summer_breakfast() {
    let mut meal = Breakfast::summer("Rye");
    assert_eq!(meal.toast, "Rye");
    meal.toast = String::from("Wheat");
    assert_eq!(meal.toast, "Wheat");
    assert_ne!(Appetizer::Soup, Appetizer::Salad);
}

#[test]
fn new_user() {
    let user = build_user(String::from("someone@example.com"), String::from("someusername123"));
    assert!(user.active);
    assert_eq!(user.email, "someone@example.com");
    assert_eq!(user.username, "someusername123");
    assert_eq!(user.sign_in_count, 1);
}

#[test]
fn user_text() {
    let user1 = build_user(String::from("someone@example.com"), String::from("someusername123"));
    let user2 = User { email: String::from("another@example.com"), ..user1 };
    assert_eq!(
        user2.describe(),
        "(is_active: true, username: someusername123, email: another@example.com, sign_in_count: 1)"
    );
    let idle = User {
        active: false,
        username: String::from("x"),
        email: String::new(),
        sign_in_count: 40213,
    };
    assert_eq!(idle.describe(), "(is_active: false, username: x, email: , sign_in_count: 40213)");
}

#[test]
fn decimal_numbers() {
    assert_eq!(decimal_string(0), "0");
    assert_eq!(decimal_string(7), "7");
    assert_eq!(decimal_string(10), "10");
    assert_eq!(decimal_string(1234567890), "1234567890");
    assert_eq!(decimal_string(u64::MAX), u64::MAX.to_string());
}
