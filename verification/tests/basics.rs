use rust_concepts::advanced_types::{generic, generic_unsized};
use rust_concepts::common_concepts::{
    array_type, boolean_type, char_type, if_example, loop_ex, plus_one, shadowing,
};
use rust_concepts::enums::{
    if_let, match_same, option_ex, plus_one as plus_one_if_any, value_in_cents, Coin, Message,
    UsState,
};
use rust_concepts::reference::CycList;
use rust_concepts::smart_pointers::{deref_use, MyBox};
use rust_concepts::structs::{area as area_of, new_user, Rectangle};
use std::rc::Rc;

#[test]
fn shadowed_value_is_twelve() {
    assert_eq!(shadowing(), 12);
}

#[test]
fn type_demos_run() {
    boolean_type();
    char_type();
    array_type();
    option_ex();
    generic(5);
    generic_unsized("text");
}

#[test]
fn plus_one_adds_one() {
    assert_eq!(plus_one(3), 4);
    assert_eq!(plus_one(-1), 0);
    assert_eq!(plus_one(i32::MAX - 1), i32::MAX);
}

#[test]
fn if_example_chooses() {
    assert_eq!(if_example(true), 5);
    assert_eq!(if_example(false), 6);
}

#[test]
fn loop_leaves_with_twenty() {
    assert_eq!(loop_ex(), 20);
}

#[test]
fn message_call_announces() {
    assert_eq!(Message::Write(String::from("Hello")).call(), "Call Message");
    assert_eq!(Message::Quit.call(), "Call Message");
}

#[test]
fn coins_in_cents() {
    assert_eq!(value_in_cents(Coin::Penny), 0);
    assert_eq!(value_in_cents(Coin::Nickel), 3);
    assert_eq!(value_in_cents(Coin::Dime), 5);
    assert_eq!(value_in_cents(Coin::Quarter(UsState::Alabama)), 24);
    assert_eq!(value_in_cents(Coin::Quarter(UsState::Alaska)), 24);
}

#[test]
fn plus_one_inside_an_option() {
    assert_eq!(plus_one_if_any(Some(5)), Some(6));
    assert_eq!(plus_one_if_any(None), None);
    assert_eq!(plus_one_if_any(Some(-1)), Some(0));
}

#[test]
fn only_quarters_are_not_counted() {
    assert_eq!(match_same(Coin::Quarter(UsState::Alaska)), 0);
    assert_eq!(match_same(Coin::Penny), 1);
    assert_eq!(match_same(Coin::Dime), 1);
    assert_eq!(if_let(Coin::Quarter(UsState::Alabama)), 0);
    assert_eq!(if_let(Coin::Nickel), 1);
}

#[test]
fn tail_of_a_list() {
    let end = Rc::new(CycList::Nil);
    let list = CycList::Cons(5, Rc::clone(&end));
    assert!(end.tail().is_none());
    let rest = list.tail();
    assert!(rest.is_some());
    assert!(Rc::ptr_eq(rest.unwrap(), &end));
}

#[test]
fn my_box_gives_its_value() {
    let boxed = MyBox::new(5);
    assert_eq!(5, *boxed);
    assert_eq!(*MyBox::new(String::from("x")), "x");
    assert_eq!(deref_use(), (5, 5, 5));
}

#[test]
fn new_user_has_the_corrected_account() {
    let user = new_user();
    assert_eq!(user.name, "Alex");
    assert_eq!(user.email, "ddd@gmail.com");
    assert_eq!(user.account, 3434);
    assert!(user.active);
}

#[test]
fn rectangle_measures() {
    let rect1 = Rectangle {
        width: 30,
        height: 50,
    };
    assert_eq!(rect1.area(), 1500);
    assert_eq!(area_of(&rect1), 1500);
    assert_eq!(rect1.cycle(), 160);
    let square = Rectangle::square(40);
    assert_eq!(square.width, 40);
    assert_eq!(square.height, 40);
}

#[test]
fn rectangle_holds_only_the_strictly_smaller() {
    let big = Rectangle {
        width: 30,
        height: 50,
    };
    assert!(big.can_hold(&Rectangle {
        width: 29,
        height: 49
    }));
    assert!(!big.can_hold(&Rectangle {
        width: 30,
        height: 49
    }));
    assert!(!big.can_hold(&Rectangle {
        width: 10,
        height: 50
    }));
    assert!(!big.can_hold(&Rectangle {
        width: 31,
        height: 1
    }));
}
