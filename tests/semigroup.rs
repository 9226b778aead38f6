use algebra::Semigroup;
use std::collections::HashSet;

#[test]
fn result_combine_right_bias() {
    let a: Result<i32, &str> = Err("a");
    let b: Result<i32, &str> = Err("b");
    assert_eq!(a.combine(b), Err("b"));
    assert_eq!(Ok::<i32, &str>(1).combine(Err("b")), Err("b"));
    assert_eq!(Err::<i32, &str>("a").combine(Ok(2)), Err("a"));
    assert_eq!(Ok::<i32, &str>(1).combine(Ok(2)), Ok(1.combine(2)));
    assert_eq!(Ok::<i32, &str>(1).combine(Ok(2)), Ok(3));
}

#[test]
fn option_combine() {
    assert_eq!(None::<i32>.combine(None), None);
    assert_eq!(Some(1_i32).combine(None), Some(1));
    assert_eq!(None.combine(Some(1_i32)), Some(1));
    assert_eq!(Some(1_i32).combine(Some(2)), Some(1.combine(2)));
    assert_eq!(Some(1_i32).combine(Some(2)), Some(3));
}

#[test]
fn string_and_vec_concatenate() {
    assert_eq!("ab".to_string().combine("cd".to_string()), "abcd");
    assert_eq!(vec![1_u8, 2].combine(vec![3]), vec![1, 2, 3]);
}

#[test]
fn hash_set_union() {
    let a: HashSet<u32> = [1, 2].into_iter().collect();
    let b: HashSet<u32> = [2, 3].into_iter().collect();
    let expected: HashSet<u32> = [1, 2, 3].into_iter().collect();
    assert_eq!(a.combine(b), expected);
}

#[test]
fn unit_combine() {
    assert_eq!(().combine(()), ());
}

#[test]
fn integers_wrap_around() {
    assert_eq!(u8::MAX.combine(1), 0);
    assert_eq!(i8::MAX.combine(1), i8::MIN);
    assert_eq!(i16::MIN.combine(-1), i16::MAX);
    assert_eq!(u16::MAX.combine(2), 1);
    assert_eq!(i32::MAX.combine(i32::MAX), -2);
    assert_eq!(u32::MAX.combine(u32::MAX), u32::MAX - 1);
    assert_eq!(i64::MIN.combine(i64::MIN), 0);
    assert_eq!(u64::MAX.combine(1), 0);
    assert_eq!(isize::MAX.combine(1), isize::MIN);
    assert_eq!(usize::MAX.combine(5), 4);
    assert_eq!(3_u32.combine(4), 7);
}

#[test]
fn combine_is_associative() {
    let (a, b, c) = (vec![1_u8], vec![2_u8, 3], vec![4_u8]);
    assert_eq!(
        a.clone().combine(b.clone()).combine(c.clone()),
        a.combine(b.combine(c))
    );
    let (x, y, z) = (u8::MAX, 200_u8, 100_u8);
    assert_eq!(x.combine(y).combine(z), x.combine(y.combine(z)));
    let (p, q, r) = ("a".to_string(), "bc".to_string(), "d".to_string());
    assert_eq!(
        p.clone().combine(q.clone()).combine(r.clone()),
        p.combine(q.combine(r))
    );
    let (s, t, u): (Result<i8, &str>, Result<i8, &str>, Result<i8, &str>) = (Ok(100), Err("t"), Ok(100));
    assert_eq!(s.combine(t).combine(u), s.combine(t.combine(u)));
    let (o1, o2, o3) = (Some(i8::MAX), None, Some(1_i8));
    assert_eq!(o1.combine(o2).combine(o3), o1.combine(o2.combine(o3)));
}
