use entity_cache::executor::{first_failure_index, join_outcomes};

#[test]
fn all_successes_join_to_success() {
    let results: Vec<Result<(), u32>> = vec![Ok(()), Ok(()), Ok(())];
    assert_eq!(first_failure_index(&results), None);
}

#[test]
fn empty_fan_out_joins_to_success() {
    let results: Vec<Result<(), u32>> = vec![];
    assert_eq!(first_failure_index(&results), None);
}

#[test]
fn the_first_failure_wins() {
    let results: Vec<Result<(), u32>> = vec![Ok(()), Err(7), Ok(()), Err(9)];
    assert_eq!(first_failure_index(&results), Some(1));
    assert_eq!(results[1], Err(7));
}

#[test]
fn joining_surfaces_the_first_failure_as_reported() {
    let results: Vec<Result<(), u32>> = vec![Ok(()), Err(7), Err(9)];
    assert_eq!(join_outcomes(&results), Err(7));
    let all_ok: Vec<Result<(), u32>> = vec![Ok(()), Ok(())];
    assert_eq!(join_outcomes(&all_ok), Ok(()));
}

#[test]
fn later_successes_are_not_rolled_back() {
    // outcomes after the first failure stay as they are; the join only
    // picks the failure to surface
    let results: Vec<Result<(), u32>> = vec![Err(3), Ok(())];
    assert_eq!(first_failure_index(&results), Some(0));
    assert_eq!(results[1], Ok(()));
}
