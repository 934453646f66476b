use scope_functions::Apply;

#[test]
fn apply_works() {
    let mut x = 14;
    let y = 14.apply(|_| x += 14);

    assert_eq!(x + y, 42);
}

#[test]
fn apply_mut_works() {
    let mut binding = String::from("one two");
    let x = binding.apply_mut(|x| x.truncate(3));

    assert_eq!(x, "one");
}

#[test]
fn try_apply_works() {
    let x: Result<&i32, ()> = 42.try_apply(|_| Ok(()));
    assert_eq!(x, Ok(&42));

    let y = 0.try_apply(|_| Err("error"));
    assert_eq!(y, Err("error"));
}

#[test]
fn try_apply_mut_works() {
    let mut binding = String::from("one two");

    let x: Result<&mut String, ()> = binding.try_apply_mut(|x| {
        x.truncate(3);

        Ok(())
    });
    assert_eq!(x, Ok(&mut String::from("one")));

    let y = binding.try_apply_mut(|_| Err("error"));
    assert_eq!(y, Err("error"));
}

#[test]
fn apply_calls_closure_once_with_receiver() {
    let mut calls = 0;
    let mut seen = 0;
    let v = 7u64;
    let r = v.apply(|x| {
        calls += 1;
        seen = *x;
    });
    assert_eq!(*r, 7);
    assert_eq!(calls, 1);
    assert_eq!(seen, 7);
}

#[test]
fn apply_noop_keeps_receiver() {
    let v = vec![1, 2, 3];
    assert_eq!(v.apply(|_| {}), &vec![1, 2, 3]);
}

#[test]
fn apply_mut_reflects_mutation_once() {
    let mut calls = 0;
    let mut v = vec![1u8];
    let r = v.apply_mut(|x| {
        calls += 1;
        x.push(2);
    });
    r.push(3);
    assert_eq!(calls, 1);
    assert_eq!(v, vec![1, 2, 3]);
}

#[test]
fn try_apply_mut_failure_keeps_mutation_and_returns_error() {
    let mut v = 5i32;
    let r: Result<&mut i32, &str> = v.try_apply_mut(|x| {
        *x += 1;
        Err("bad")
    });
    assert_eq!(r, Err("bad"));
    assert_eq!(v, 6);
}

#[test]
fn try_apply_success_returns_receiver_not_payload() {
    let s = String::from("abc");
    let r: Result<&String, u8> = s.try_apply(|_| Ok(()));
    assert_eq!(r, Ok(&String::from("abc")));
}
