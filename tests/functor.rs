use algebra::{lift, Functor};

#[test]
fn test_lift() {
    let to_lowercase = |s: String| s.to_lowercase();
    let s = Some("HELLO".to_string());
    let mut lifted = lift(to_lowercase);
    assert_eq!(Some("hello".to_string()), lifted(s));
}

#[test]
fn lift_is_reusable() {
    let to_lowercase = |s: String| s.to_lowercase();
    let mut lifted = lift(to_lowercase);
    assert_eq!(lifted(Some("HELLO".to_string())), Some("hello".to_string()));
    assert_eq!(lifted(Some("WORLD".to_string())), Some("world".to_string()));
    assert_eq!(lifted(None), None);
}

#[test]
fn vec_fmap_keeps_order_and_length() {
    let v = vec![1_i32, 2, 3];
    assert_eq!(v.fmap(|x| x * 10), vec![10, 20, 30]);
    let empty: Vec<i32> = Vec::new();
    assert_eq!(empty.fmap(|x| x * 10), Vec::<i32>::new());
}

#[test]
fn vec_fmap_calls_in_order_once_each() {
    let v = vec![5_i32, 6, 7];
    let mut seen: Vec<i32> = Vec::new();
    let out = v.fmap(|x| {
        seen.push(x);
        seen.len()
    });
    assert_eq!(out, vec![1, 2, 3]);
    assert_eq!(seen, vec![5, 6, 7]);
}

#[test]
fn option_fmap() {
    assert_eq!(Some(2_i32).fmap(|x| x + 1), Some(3));
    let none: Option<i32> = None;
    let mut calls = 0;
    assert_eq!(
        none.fmap(|x| {
            calls += 1;
            x + 1
        }),
        None
    );
    assert_eq!(calls, 0);
}

#[test]
fn result_fmap_keeps_error() {
    let ok: Result<i32, String> = Ok(2);
    assert_eq!(ok.fmap(|x| x.to_string()), Ok("2".to_string()));
    let err: Result<i32, String> = Err("bad".to_string());
    assert_eq!(err.fmap(|x| x.to_string()), Err("bad".to_string()));
}

#[test]
fn fmap_identity_law() {
    let v = vec![1_i32, 2, 3];
    assert_eq!(v.clone().fmap(|x| x), v);
    assert_eq!(Some(4_i32).fmap(|x| x), Some(4));
    let err: Result<i32, &str> = Err("e");
    assert_eq!(err.fmap(|x| x), Err("e"));
}

#[test]
fn fmap_composition_law() {
    let f = |x: i32| x + 1;
    let g = |x: i32| x * 3;
    let v = vec![1_i32, 2, 3];
    assert_eq!(v.clone().fmap(f).fmap(g), v.fmap(|x| g(f(x))));
    assert_eq!(Some(5_i32).fmap(f).fmap(g), Some(5_i32).fmap(|x| g(f(x))));
    let ok: Result<i32, &str> = Ok(7);
    assert_eq!(ok.fmap(f).fmap(g), Ok(24));
}
