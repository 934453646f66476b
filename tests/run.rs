use scope_functions::Run;
use std::ops::SubAssign;

#[test]
fn run_run_works() {
    let x = 21;
    let y = x.run(|x| x + 21);

    assert_eq!(y, 42);
}

#[test]
fn run_mut_works() {
    let x = &mut 28;
    let y = 14.run_mut(|_| {
        x.sub_assign(14);
        28
    });
    let z = *x + y;

    assert_eq!(z, 42);
}

#[test]
fn run_try_run_works() {
    let x: Result<i32, ()> = 42.try_run(|x| Ok(*x));
    assert_eq!(x, Ok(42));

    let y: Result<(), &str> = 0.try_run(|_| Err("error"));
    assert_eq!(y, Err("error"));
}

#[test]
fn try_run_mut_works() {
    let x: Result<i32, ()> = 42.try_run_mut(|x| Ok(*x));
    assert_eq!(x, Ok(42));

    let y: Result<(), &str> = 0.try_run_mut(|_| Err("error"));
    assert_eq!(y, Err("error"));
}

#[test]
fn run_identity_returns_receiver() {
    let v = String::from("same");
    let r = v.run(|x| x.clone());
    assert_eq!(r, "same");
}

#[test]
fn run_returns_transformed_value() {
    let v = vec![3u32, 4, 5];
    assert_eq!(v.run(|x| x.iter().sum::<u32>()), 12);
}

#[test]
fn run_mut_mutation_is_visible() {
    let mut v = 10u32;
    let r = v.run_mut(|x| {
        *x *= 3;
        *x + 1
    });
    assert_eq!(r, 31);
    assert_eq!(v, 30);
}

#[test]
fn run_try_run_mut_failure_is_unchanged() {
    let mut v = 1u8;
    let r: Result<u8, String> = v.try_run_mut(|x| {
        *x = 9;
        Err(String::from("nope"))
    });
    assert_eq!(r, Err(String::from("nope")));
    assert_eq!(v, 9);
}
