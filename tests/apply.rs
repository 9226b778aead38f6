use algebra::Apply;

#[test]
fn test_option_apply_some() {
    let some_f = Some(|x: i32| (x + 1) as i64);
    let some_i32 = Some(3_i32);
    assert_eq!(some_i32.ap(some_f), Some(4_i64));
}

#[test]
fn test_option_apply_none() {
    let none_f: Option<fn(i32) -> i64> = None;
    let some_i32 = Some(3_i32);
    assert_eq!(some_i32.ap(none_f), None);
}

#[test]
fn option_apply_absent_value() {
    let none_i32: Option<i32> = None;
    assert_eq!(none_i32.ap(Some(|x: i32| (x + 1) as i64)), None);
}

#[test]
fn vec_apply_truncates_to_the_shorter_values() {
    let values = vec![1_i32, 2, 3];
    let fns: Vec<Box<dyn FnMut(i32) -> i32>> = vec![
        Box::new(|x| x + 10),
        Box::new(|x| x * 2),
        Box::new(|x| x - 1),
        Box::new(|_| 100),
        Box::new(|_| 200),
    ];
    let out = values.ap(fns);
    assert_eq!(out, vec![11, 4, 2]);
}

#[test]
fn vec_apply_truncates_to_the_shorter_functions() {
    let values = vec![1_i32, 2, 3, 4, 5];
    let fns: Vec<fn(i32) -> i32> = vec![|x| x + 1, |x| x * 10, |x| -x];
    let out = values.ap(fns);
    assert_eq!(out, vec![2, 20, -3]);
}

#[test]
fn vec_apply_empty() {
    let values: Vec<i32> = Vec::new();
    let fns: Vec<fn(i32) -> i32> = vec![|x| x + 1];
    assert_eq!(values.ap(fns), Vec::<i32>::new());
}

#[test]
fn result_apply_error_in_functions_wins() {
    let ok: Result<i32, &str> = Ok(3);
    let err_f: Result<fn(i32) -> i64, &str> = Err("no function");
    assert_eq!(ok.ap(err_f), Err("no function"));
    let err: Result<i32, &str> = Err("no value");
    let err_f2: Result<fn(i32) -> i64, &str> = Err("no function");
    assert_eq!(err.ap(err_f2), Err("no function"));
}

#[test]
fn result_apply_with_function() {
    let ok: Result<i32, &str> = Ok(3);
    let f: Result<fn(i32) -> i64, &str> = Ok(|x| (x * 2) as i64);
    assert_eq!(ok.ap(f), Ok(6_i64));
    let err: Result<i32, &str> = Err("no value");
    let f2: Result<fn(i32) -> i64, &str> = Ok(|x| (x * 2) as i64);
    assert_eq!(err.ap(f2), Err("no value"));
}
