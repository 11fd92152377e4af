use rust_concepts::advanced_fn_closure::{
    add_one, do_twice, list_of_statuses, list_of_strings_closure, list_of_strings_fn,
    return_closure, to_string, Status,
};

#[test]
fn fn_pointer_as_parameter() {
    let a = do_twice(add_one, 2);
    assert_eq!(a, 6);
}

#[test]
fn using_closure_or_named_fn() {
    let list_of_numbers = &vec![1, 2, 3];
    let list_of_strings = vec!["1", "2", "3"];

    assert_eq!(list_of_strings_closure(list_of_numbers), list_of_strings);
    assert_eq!(list_of_strings_fn(list_of_numbers), list_of_strings);
}

#[test]
fn test_list_of_statuses() {
    let t = 0u32..20;
    let v: Vec<Status> = (0u32..20).map(|i| Status::Value(i)).collect();
    assert_eq!(list_of_statuses(t), v);
}

#[test]
fn test_return_closure() {
    let c = return_closure();
    assert_eq!(c(1), 2);
}

#[test]
fn add_one_at_the_edges() {
    assert_eq!(add_one(0), 1);
    assert_eq!(add_one(-1), 0);
    assert_eq!(add_one(i32::MIN), i32::MIN + 1);
    assert_eq!(add_one(i32::MAX - 1), i32::MAX);
}

#[test]
fn do_twice_with_a_closure() {
    assert_eq!(do_twice(|x| x * 10, 4), 80);
    assert_eq!(do_twice(|x| -x, 7), -14);
}

#[test]
fn numbers_are_written_as_std_writes_them() {
    let numbers = vec![0, -1, 10, 99, 100, -2147483648, 2147483647, 1000000];
    let expected: Vec<String> = numbers.iter().map(|n| n.to_string()).collect();
    assert_eq!(list_of_strings_closure(&numbers), expected);
    assert_eq!(list_of_strings_fn(&numbers), expected);
    assert_eq!(to_string(-305), "-305");
}

#[test]
fn empty_list_of_strings() {
    let none: Vec<String> = vec![];
    assert_eq!(list_of_strings_closure(&vec![]), none);
    assert_eq!(list_of_strings_fn(&vec![]), none);
}

#[test]
fn statuses_of_empty_and_reversed_ranges() {
    assert_eq!(list_of_statuses(5..5), vec![]);
    assert_eq!(list_of_statuses(7..3), vec![]);
    assert_eq!(
        list_of_statuses(3..6),
        vec![Status::Value(3), Status::Value(4), Status::Value(5)]
    );
    assert_ne!(list_of_statuses(0..1), vec![Status::Stop]);
}

#[test]
fn returned_closure_adds_one() {
    let c = return_closure();
    assert_eq!(c(-1), 0);
    assert_eq!(c(i32::MAX - 1), i32::MAX);
}
