use user_service::stats::median_and_mode;

#[test]
fn median_and_mode_of_the_sample() {
    let numbers = vec![1, 4, 3, 5, 3, 5, 3, 5];
    assert_eq!(median_and_mode(&numbers), (4, 3));
}

#[test]
fn median_and_mode_of_one_number() {
    assert_eq!(median_and_mode(&vec![7]), (7, 7));
}

#[test]
fn median_of_an_even_count_is_the_upper_middle() {
    assert_eq!(median_and_mode(&vec![4, 1, 3, 2]).0, 3);
    assert_eq!(median_and_mode(&vec![10, -10]).0, 10);
}

#[test]
fn median_of_an_odd_count_is_the_middle() {
    assert_eq!(median_and_mode(&vec![9, 1, 5]).0, 5);
    assert_eq!(median_and_mode(&vec![i32::MAX, i32::MIN, 0]).0, 0);
}

#[test]
fn mode_is_the_most_frequent() {
    assert_eq!(median_and_mode(&vec![2, 8, 8, 2, 8]).1, 8);
    assert_eq!(median_and_mode(&vec![-1, -1, 6]).1, -1);
}

#[test]
fn mode_of_a_tie_is_the_first_in_the_list() {
    assert_eq!(median_and_mode(&vec![5, 3, 3, 5]).1, 5);
    assert_eq!(median_and_mode(&vec![1, 2, 3]).1, 1);
}

#[test]
fn input_is_left_as_it_was() {
    let numbers = vec![3, 1, 2];
    let _ = median_and_mode(&numbers);
    assert_eq!(numbers, vec![3, 1, 2]);
}
