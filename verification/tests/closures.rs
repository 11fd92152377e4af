use rust_concepts::closures::{capture_var, generate_workout, Cacher, Workout};
use std::cell::Cell;

#[test]
fn call_with_different_values() {
    let mut c = Cacher::new(|a| a);

    let v1 = c.value(1);
    let v2 = c.value(2);
    let v3 = c.value(344);

    assert_eq!(v1, 1);
    assert_eq!(v2, 2);
    assert_eq!(v3, 344);
}

#[test]
fn distinct_inputs_invoke_the_computation_once_each() {
    let calls = Cell::new(0u32);
    let mut c = Cacher::new(|a| {
        calls.set(calls.get() + 1);
        a
    });
    assert_eq!(c.value(1), 1);
    assert_eq!(c.value(2), 2);
    assert_eq!(c.value(344), 344);
    assert_eq!(calls.get(), 3);
}

#[test]
fn repeated_input_invokes_the_computation_once() {
    let calls = Cell::new(0u32);
    let mut c = Cacher::new(|a| {
        calls.set(calls.get() + 1);
        a
    });
    assert_eq!(c.value(5), 5);
    assert_eq!(c.value(5), 5);
    assert_eq!(c.value(5), 5);
    assert_eq!(calls.get(), 1);
}

#[test]
fn doubling_is_replayed_from_the_table() {
    let calls = Cell::new(0u32);
    let mut c = Cacher::new(|x| {
        calls.set(calls.get() + 1);
        x * 2
    });
    assert_eq!(c.value(10), 20);
    assert_eq!(c.value(10), 20);
    assert_eq!(calls.get(), 1);
}

#[test]
fn first_output_is_authoritative() {
    let calls = Cell::new(0u32);
    let mut c = Cacher::new(|x| {
        calls.set(calls.get() + 1);
        x + calls.get()
    });
    assert_eq!(c.value(7), 8);
    assert_eq!(c.value(7), 8);
    assert_eq!(c.value(9), 11);
    assert_eq!(c.value(7), 8);
}

#[test]
fn other_inputs_do_not_disturb_an_answer() {
    let mut plain = Cacher::new(|x| x * 3);
    let direct = plain.value(4);
    let mut busy = Cacher::new(|x| x * 3);
    busy.value(1);
    busy.value(100);
    assert_eq!(busy.value(4), direct);
    assert_eq!(busy.value(4), 12);
}

#[test]
fn invocations_equal_distinct_inputs() {
    let calls = Cell::new(0u32);
    let mut c = Cacher::new(|x| {
        calls.set(calls.get() + 1);
        x
    });
    let inputs = [3u32, 1, 3, 3, 2, 1, 0, 2, 3];
    for x in inputs {
        assert_eq!(c.value(x), x);
    }
    assert_eq!(calls.get(), 4);
}

#[test]
fn workout_follows_intensity_and_draw() {
    assert_eq!(generate_workout(|n| n, 20, 5), Workout::Pushups(20));
    assert_eq!(generate_workout(|n| n, 26, 3), Workout::Break);
    assert_eq!(generate_workout(|n| n, 28, 1), Workout::Run(28));
    assert_eq!(generate_workout(|n| n, 24, 3), Workout::Pushups(24));
    assert_eq!(generate_workout(|n| n, 25, 3), Workout::Break);
}

#[test]
fn break_does_not_consult_the_computation() {
    let calls = Cell::new(0u32);
    let plan = generate_workout(
        |n| {
            calls.set(calls.get() + 1);
            n
        },
        30,
        3,
    );
    assert_eq!(plan, Workout::Break);
    assert_eq!(calls.get(), 0);
}

#[test]
fn workout_messages() {
    assert_eq!(Workout::Pushups(20).message(), "Today, do 20 pushups");
    assert_eq!(Workout::Break.message(), "Take a break today");
    assert_eq!(Workout::Run(28).message(), "Today, run for 28 minutes");
}

#[test]
fn captured_variable_is_added() {
    assert_eq!(capture_var(), 4);
}
