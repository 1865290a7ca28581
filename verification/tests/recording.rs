use pseudo::Mock;

#[test]
fn new_mock_has_recorded_nothing() {
    let mock = Mock::<i64, i64>::new(0);
    assert!(!mock.called());
    assert_eq!(mock.num_calls(), 0);
    assert!(mock.calls().is_empty());
    assert!(!mock.called_with(0));
}

#[test]
fn default_bool_mock_records_unit_call() {
    let mut mock = Mock::<(), bool>::default();
    assert!(!mock.called());
    mock.call(());
    assert!(mock.called());
    assert_eq!(mock.num_calls(), 1);
}

#[test]
fn num_calls_counts_each_call() {
    let mut mock = Mock::<i64, i64>::new(0);
    assert_eq!(mock.num_calls(), 0);
    mock.call(5);
    assert_eq!(mock.num_calls(), 1);
    mock.call(10);
    assert_eq!(mock.num_calls(), 2);
}

#[test]
fn called_is_false_exactly_when_count_is_zero() {
    let mut mock = Mock::<u8, ()>::new(());
    assert_eq!(mock.called(), mock.num_calls() != 0);
    mock.call(1);
    assert_eq!(mock.called(), mock.num_calls() != 0);
    mock.call(2);
    assert_eq!(mock.called(), mock.num_calls() != 0);
    mock.reset_calls();
    assert_eq!(mock.called(), mock.num_calls() != 0);
    assert!(!mock.called());
}

#[test]
fn calls_are_returned_first_to_last() {
    let mut mock = Mock::<&str, &str>::new("");
    mock.call("first");
    mock.call("second");
    mock.call("third");
    assert_eq!(mock.calls().as_slice(), ["first", "second", "third"]);
}

#[test]
fn history_keeps_duplicates_in_order() {
    let mut mock = Mock::<i32, ()>::new(());
    mock.call(7);
    mock.call(3);
    mock.call(7);
    mock.call(7);
    mock.call(3);
    assert_eq!(mock.calls(), vec![7, 3, 7, 7, 3]);
    assert_eq!(mock.num_calls(), 5);
}

#[test]
fn snapshot_is_independent_of_the_mock() {
    let mut mock = Mock::<i32, ()>::new(());
    mock.call(1);
    mock.call(2);
    let mut snapshot = mock.calls();
    snapshot.push(3);
    snapshot[0] = 100;
    assert_eq!(snapshot, vec![100, 2, 3]);
    assert_eq!(mock.calls(), vec![1, 2]);
    assert_eq!(mock.num_calls(), 2);
    assert!(!mock.called_with(100));
    assert!(!mock.called_with(3));
}

#[test]
fn called_with_finds_recorded_arguments_only() {
    let mut mock = Mock::<&str, ()>::new(());
    mock.call("foo");
    mock.call("bar");
    assert!(mock.called_with("foo"));
    assert!(mock.called_with("bar"));
    assert!(!mock.called_with("baz"));
}

#[test]
fn called_with_finds_first_middle_and_last() {
    let mut mock = Mock::<u32, ()>::new(());
    for n in 0..50u32 {
        mock.call(n * 2);
    }
    assert!(mock.called_with(0));
    assert!(mock.called_with(48));
    assert!(mock.called_with(98));
    assert!(!mock.called_with(1));
    assert!(!mock.called_with(100));
}

#[test]
fn called_with_compares_whole_tuples() {
    let mut mock = Mock::<(i64, i64), i64>::default();
    mock.call((11, 2));
    assert_eq!(mock.num_calls(), 1);
    assert!(mock.called_with((11, 2)));
    assert!(!mock.called_with((2, 11)));
    assert!(!mock.called_with((11, 3)));
}

#[test]
fn reset_calls_forgets_everything_recorded() {
    let mut mock = Mock::<&str, &str>::default();
    mock.call("first");
    mock.call("second");

    assert!(mock.called());
    assert_eq!(mock.num_calls(), 2);
    assert!(mock.called_with("first"));
    assert!(mock.called_with("second"));

    mock.reset_calls();

    assert!(!mock.called());
    assert_eq!(mock.num_calls(), 0);
    assert!(!mock.called_with("first"));
    assert!(!mock.called_with("second"));
    assert!(mock.calls().is_empty());
}

#[test]
fn reset_calls_on_an_empty_history_is_harmless() {
    let mut mock = Mock::<u8, u8>::new(4);
    mock.reset_calls();
    assert!(!mock.called());
    assert_eq!(mock.num_calls(), 0);
    assert_eq!(mock.call(1), 4);
    assert_eq!(mock.num_calls(), 1);
}

#[test]
fn count_restarts_after_reset() {
    let mut mock = Mock::<u8, ()>::new(());
    mock.call(1);
    mock.call(2);
    mock.call(3);
    mock.reset_calls();
    mock.call(4);
    mock.call(5);
    assert_eq!(mock.num_calls(), 2);
    assert_eq!(mock.calls(), vec![4, 5]);
    assert!(!mock.called_with(1));
    assert!(mock.called_with(4));
}

#[test]
fn reset_calls_keeps_the_stub_value() {
    let mut mock = Mock::<u8, u32>::new(1);
    mock.return_value(77);
    mock.call(0);
    mock.reset_calls();
    assert_eq!(*mock.stub(), 77);
    assert_eq!(mock.call(0), 77);
}

#[test]
fn reset_calls_keeps_the_override() {
    let mut mock = Mock::<u32, u32>::new(1);
    mock.use_fn(|x: u32| x * 3);
    mock.call(2);
    mock.reset_calls();
    assert_eq!(mock.call(5), 15);
    assert_eq!(mock.calls(), vec![5]);
}

#[test]
fn configuration_leaves_the_history_alone() {
    let mut mock = Mock::<u32, u32>::new(1);
    mock.call(1);
    mock.return_value(2);
    mock.use_fn(|x: u32| x);
    mock.use_closure(Box::new(|x: u32| x + 1));
    assert_eq!(mock.calls(), vec![1]);
    assert_eq!(mock.num_calls(), 1);
}

#[test]
fn calls_are_recorded_whichever_strategy_answers() {
    let mut mock = Mock::<u32, u32>::new(0);
    mock.call(1);
    mock.use_fn(|x: u32| x + 1);
    mock.call(2);
    mock.use_closure(Box::new(|x: u32| x + 2));
    mock.call(3);
    assert_eq!(mock.calls(), vec![1, 2, 3]);
}

#[test]
fn owned_arguments_are_recorded_by_value() {
    let mut mock = Mock::<String, usize>::new(0);
    mock.use_fn(|s: String| s.len());
    assert_eq!(mock.call(String::from("abc")), 3);
    assert_eq!(mock.call(String::new()), 0);
    assert_eq!(mock.calls(), vec![String::from("abc"), String::new()]);
    assert!(mock.called_with(String::from("abc")));
    assert!(!mock.called_with(String::from("ab")));
}
