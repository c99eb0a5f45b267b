use sor4_splitter::pairs::Pair;

#[test]
fn pair_shifts_current_into_previous() {
    let mut pair = Pair::new(0);
    pair.update(5);
    assert_eq!(pair.previous, 0);
    assert_eq!(pair.current, 5);
    pair.update(7);
    assert_eq!(pair.previous, 5);
    assert_eq!(pair.current, 7);
}

#[test]
fn pair_previous_follows_next_to_last_sample() {
    let mut pair = Pair::new(0);
    let samples = [3, 1, 4, 1, 5, 9, 2, 6];
    for v in samples {
        pair.update(v);
    }
    assert_eq!(pair.previous, 2);
    assert_eq!(pair.current, 6);
}

#[test]
fn pair_changed_and_increased() {
    let mut pair = Pair::new(10);
    assert!(!pair.changed());
    assert!(!pair.increased());
    pair.update(12);
    assert!(pair.changed());
    assert!(pair.increased());
    pair.update(4);
    assert!(pair.changed());
    assert!(!pair.increased());
    pair.update(4);
    assert!(!pair.changed());
    assert!(!pair.increased());
}

#[test]
fn string_pair_shifts_and_compares() {
    let mut pair = Pair::new_empty();
    assert!(!pair.changed());
    pair.update(String::from("stage1_1"));
    assert_eq!(pair.previous, "");
    assert_eq!(pair.current, "stage1_1");
    assert!(pair.changed());
    pair.update(String::from("stage1_1"));
    assert!(!pair.changed());
    pair.update(String::from("stage1_2"));
    assert_eq!(pair.previous, "stage1_1");
    assert_eq!(pair.current, "stage1_2");
    assert!(pair.changed());
}
