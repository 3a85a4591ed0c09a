use lang_rules::mem::ManuallyDrop;
use lang_rules::option::Option::{self, Absent, Present};
use lang_rules::result::Result::{self, Failure, Success};

#[test]
fn option_combinators() {
    let some: Option<i32> = Present(2);
    let none: Option<i32> = Absent;
    assert_eq!(some.and(Present("x")), Present("x"));
    assert_eq!(none.and(Present("x")), Absent);
    assert_eq!(some.or(Present(5)), Present(2));
    assert_eq!(none.or(Present(5)), Present(5));
    assert_eq!(some.xor(none), Present(2));
    assert_eq!(none.xor(Present(7)), Present(7));
    assert_eq!(some.xor(Present(7)), Absent);
    assert_eq!(none.xor(none), Absent);
    assert_eq!(some.map(|v| v * 10), Present(20));
    assert_eq!(none.map(|v| v * 10), Absent);
    assert_eq!(some.and_then(|v| if v > 1 { Present(v + 1) } else { Absent }), Present(3));
    assert_eq!(none.or_else(|| Present(9)), Present(9));
    assert_eq!(some.filter(|v| *v > 5), Absent);
    assert_eq!(some.filter(|v| *v < 5), Present(2));
}

#[test]
fn option_accessors() {
    let some: Option<i32> = Present(4);
    let none: Option<i32> = Absent;
    assert_eq!(some.unwrap(), 4);
    assert_eq!(none.unwrap_or(1), 1);
    assert_eq!(none.unwrap_or_default(), 0);
    assert_eq!(some.unwrap_or_default(), 4);
    assert_eq!(none.unwrap_or_else(|| 8), 8);
    assert!(some.is_some() && !some.is_none());
    assert!(none.is_none() && !none.is_some());
    assert!(some.is_some_and(|v| v == 4));
    assert!(!none.is_some_and(|v| v == 4));
    assert_eq!(some.as_ref(), Present(&4));
    assert_eq!(some.as_ref().copied(), Present(4));
    let text: Option<String> = Present("t".to_string());
    assert_eq!(text.as_ref().cloned(), Present("t".to_string()));
    assert_eq!(Present(Present(1)).flatten(), Present(1));
    assert_eq!(Present::<Option<i32>>(Absent).flatten(), Absent);
    assert_eq!(Absent::<Option<i32>>.flatten(), Absent);
}

#[test]
fn result_combinators() {
    let ok: Result<i32, &str> = Success(3);
    let err: Result<i32, &str> = Failure("bad");
    assert_eq!(ok.and(Success::<u8, &str>(1)), Success(1));
    assert_eq!(err.and(Success::<u8, &str>(1)), Failure("bad"));
    assert_eq!(ok.and(Failure::<u8, &str>("late")), Failure("late"));
    assert_eq!(ok.or(Failure("x")), Success(3));
    assert_eq!(err.or(Failure("x")), Failure("x"));
    assert_eq!(ok.map(|v| v + 1), Success(4));
    assert_eq!(err.map_err(|e| e.len()), Failure(3));
    assert_eq!(ok.and_then(|v| if v > 0 { Success(v) } else { Failure("neg") }), Success(3));
    assert_eq!(err.or_else(|_| Success::<i32, &str>(0)), Success(0));
    assert_eq!(ok.unwrap_or(0), 3);
    assert_eq!(err.unwrap_or(0), 0);
    assert_eq!(err.unwrap_or_default(), 0);
    assert_eq!(err.unwrap_err("none"), "bad");
    assert_eq!(ok.unwrap_err("none"), "none");
    assert_eq!(Success::<i32, u8>(1).unwrap_err_default(), 0);
    assert_eq!(err.unwrap_or_else(|e| e.len() as i32), 3);
    assert!(ok.is_ok() && !ok.is_err());
    assert!(err.is_err() && !err.is_ok());
    assert!(ok.is_ok_and(|v| v == 3));
    assert!(err.is_err_and(|e| e == "bad"));
    assert!(!ok.is_err_and(|_| true));
    assert_eq!(ok.as_ref().copied(), Success(3));
    assert_eq!(Success::<Result<i32, &str>, &str>(Failure("in")).flatten(), Failure("in"));
    assert_eq!(Failure::<Result<i32, &str>, &str>("out").flatten(), Failure("out"));
    let owned: Result<String, String> = Failure("e".to_string());
    assert_eq!(owned.as_ref().cloned(), Failure("e".to_string()));
}

#[test]
fn manually_drop_round_trip() {
    let m = ManuallyDrop::new(vec![1, 2]);
    assert_eq!(m.into_inner(), vec![1, 2]);
}
