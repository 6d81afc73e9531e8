use repo_sweeper::utils::{index_of_name, split_results};

#[test]
fn split_results_partitions_in_order() {
    let input: Vec<Result<i32, String>> = vec![
        Ok(1),
        Err("first".to_string()),
        Ok(2),
        Err("second".to_string()),
        Ok(3),
    ];
    let (successes, errors) = split_results(input);
    assert_eq!(successes, vec![1, 2, 3]);
    assert_eq!(errors, vec!["first".to_string(), "second".to_string()]);
}

#[test]
fn split_results_of_empty_input_is_empty() {
    let input: Vec<Result<u8, u8>> = Vec::new();
    let (successes, errors) = split_results(input);
    assert!(successes.is_empty());
    assert!(errors.is_empty());
}

#[test]
fn split_results_with_only_errors() {
    let input: Vec<Result<u8, String>> = vec![Err("a".to_string()), Err("b".to_string())];
    let (successes, errors) = split_results(input);
    assert!(successes.is_empty());
    assert_eq!(errors, vec!["a".to_string(), "b".to_string()]);
}

#[test]
fn index_of_name_finds_the_first_match() {
    let options = vec!["keep".to_string(), "delete".to_string(), "keep".to_string()];
    assert_eq!(index_of_name(&options, &"keep".to_string()), Some(0));
    assert_eq!(index_of_name(&options, &"delete".to_string()), Some(1));
    assert_eq!(index_of_name(&options, &"abort".to_string()), None);
}
