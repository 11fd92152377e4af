use rust_concepts::pattern_matching::{
    describe_letter, describe_measures, describe_number, describe_point, if_let_cases,
    match_cases, match_lines, message_content, print_coordinates, sum_of_squares, Color, Message,
    Point,
};

#[test]
fn numbers_fall_into_their_groups() {
    assert_eq!(describe_number(1), "one");
    assert_eq!(describe_number(2), "two to five");
    assert_eq!(describe_number(5), "two to five");
    assert_eq!(describe_number(6), "six to seven");
    assert_eq!(describe_number(7), "six to seven");
    assert_eq!(describe_number(0), "large than 5");
    assert_eq!(describe_number(8), "large than 5");
    assert_eq!(describe_number(-3), "large than 5");
}

#[test]
fn letters_fall_into_their_groups() {
    assert_eq!(describe_letter('a'), "early ASCII letter");
    assert_eq!(describe_letter('c'), "early ASCII letter");
    assert_eq!(describe_letter('j'), "early ASCII letter");
    assert_eq!(describe_letter('k'), "late ASCII letter");
    assert_eq!(describe_letter('z'), "late ASCII letter");
    assert_eq!(describe_letter('A'), "something else");
    assert_eq!(describe_letter('{'), "something else");
}

#[test]
fn points_are_told_by_their_x() {
    assert_eq!(describe_point(Point { x: 4, y: 5 }), "on the y axis at 5");
    assert_eq!(describe_point(Point { x: 3, y: -5 }), "on either axis (3 -5)");
}

#[test]
fn messages_are_spelled_out() {
    assert_eq!(
        message_content(Message::Quit),
        "Quit variant has not data to use"
    );
    assert_eq!(message_content(Message::Move { x: 4, y: 7 }), "Move to (4 7)");
    assert_eq!(
        message_content(Message::Write(String::from("nothing"))),
        "Write nothing"
    );
    assert_eq!(
        message_content(Message::ChangeColor(Color::Rgb(233, 33, 255))),
        "RGB Color red 233, green 33, blue 255"
    );
    assert_eq!(
        message_content(Message::ChangeColor(Color::Hsv(10, 33, 255))),
        "HSV Color red 10, green 33, blue 255"
    );
}

#[test]
fn squares_are_added_up() {
    assert_eq!(sum_of_squares(&vec![]), 0);
    assert_eq!(
        sum_of_squares(&vec![
            Point { x: 0, y: 0 },
            Point { x: 10, y: 10 },
            Point { x: 8, y: 23 }
        ]),
        793
    );
    assert_eq!(sum_of_squares(&vec![Point { x: -3, y: 4 }]), 25);
    assert_eq!(sum_of_squares(&vec![Point { x: 46340, y: 0 }]), 2147395600);
}

#[test]
fn nested_pairs_are_taken_apart() {
    assert_eq!(
        describe_measures(((2, 12), Point { x: 4, y: 5 })),
        "feet: 2, inches: 12, Point: (4, 5)"
    );
}

#[test]
fn coordinates_are_reported() {
    assert_eq!(print_coordinates(&(3, 5)), "Current location (3,5)");
}

#[test]
fn background_goes_by_colour_day_and_age() {
    let age: Result<u8, std::num::ParseIntError> = "34".parse();
    assert_eq!(
        if_let_cases(Some("yellow"), true, age.clone()),
        "Using your favorite color, yellow, as bg color"
    );
    assert_eq!(
        if_let_cases(None, true, age.clone()),
        "Tuesday is green day"
    );
    assert_eq!(
        if_let_cases(None, false, age),
        "Using purple as the background color"
    );
    let young: Result<u8, ()> = Ok(30);
    assert_eq!(
        if_let_cases(None, false, young),
        "Using orange as the background color"
    );
    let unread: Result<u8, std::num::ParseIntError> = "many".parse();
    assert_eq!(if_let_cases(None, false, unread), "Using blue as the bg color");
}

fn report(first: &str) -> Vec<String> {
    vec![
        first,
        "early ASCII letter",
        "on the y axis at 5",
        "\n",
        "HSV Color red 10, green 33, blue 255",
        "RGB Color red 233, green 33, blue 255",
        "Write nothing",
        "Move to (4 7)",
        "Quit variant has not data to use",
        "sum of squares: 793",
        "feet: 2, inches: 12, Point: (4, 5)",
    ]
    .into_iter()
    .map(String::from)
    .collect()
}

#[test]
fn report_for_each_number() {
    assert_eq!(match_lines(0), report("large than 5"));
    assert_eq!(match_lines(1), report("one"));
    assert_eq!(match_lines(3), report("two to five"));
    assert_eq!(match_lines(7), report("six to seven"));
    assert_eq!(match_lines(9), report("large than 5"));
}

#[test]
fn drawn_report_is_one_of_the_ten() {
    for _ in 0..50 {
        let lines = match_cases();
        assert!((0..10).any(|x| match_lines(x) == lines));
    }
}

#[test]
fn draws_are_not_all_the_lower_bound() {
    let mut seen_other = false;
    for _ in 0..400 {
        if match_cases()[0] != "large than 5" {
            seen_other = true;
        }
    }
    assert!(seen_other);
}
