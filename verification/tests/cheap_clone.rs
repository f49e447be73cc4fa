use std::rc::Rc;
use std::sync::Arc;

use cheap_clone::CheapClone;

#[test]
fn scalars_equal() {
    assert_eq!(true.cheap_clone(), true);
    assert_eq!(false.cheap_clone(), false);
    assert_eq!('q'.cheap_clone(), 'q');
    assert_eq!(0u8.cheap_clone(), 0u8);
    assert_eq!(65_535u16.cheap_clone(), 65_535u16);
    assert_eq!(7u32.cheap_clone(), 7u32);
    assert_eq!(7_000_000_000u64.cheap_clone(), 7_000_000_000u64);
    assert_eq!(1u128.cheap_clone(), 1u128);
    assert_eq!(3usize.cheap_clone(), 3usize);
    assert_eq!((-8i8).cheap_clone(), -8i8);
    assert_eq!((-300i16).cheap_clone(), -300i16);
    assert_eq!(i32::MIN.cheap_clone(), i32::MIN);
    assert_eq!(i64::MAX.cheap_clone(), i64::MAX);
    assert_eq!((-1i128).cheap_clone(), -1i128);
    assert_eq!(0isize.cheap_clone(), 0isize);
}

#[test]
fn str_slice_equal() {
    let s: &str = "a str slice";
    assert_eq!(s.cheap_clone(), s);
    let empty: &str = "";
    assert_eq!(empty.cheap_clone(), empty);
}

#[test]
fn array_equal() {
    let a: [u8; 4] = [1, 2, 3, 4];
    assert_eq!(a.cheap_clone(), a);
    let b: [i32; 0] = [];
    assert_eq!(b.cheap_clone(), b);
}

#[test]
fn rc_same_allocation_count_bumped() {
    let p = Rc::new(41u32);
    assert_eq!(Rc::strong_count(&p), 1);
    let q = p.cheap_clone();
    assert!(Rc::ptr_eq(&p, &q));
    assert_eq!(*q, 41);
    assert_eq!(Rc::strong_count(&p), 2);
}

#[test]
fn arc_same_allocation_count_bumped() {
    let p = Arc::new(String::from("shared"));
    assert_eq!(Arc::strong_count(&p), 1);
    let q = p.cheap_clone();
    assert!(Arc::ptr_eq(&p, &q));
    assert_eq!(*q, "shared");
    assert_eq!(Arc::strong_count(&p), 2);
}

#[test]
fn box_copy_is_equal_and_independent() {
    let b = Box::new(17u64);
    let mut c = b.cheap_clone();
    assert_eq!(*b, *c);
    *c += 1;
    assert_eq!(*b, 17);
    assert_eq!(*c, 18);
}

#[test]
fn option_preserves_presence() {
    let present: Option<u32> = Some(9);
    assert_eq!(present.cheap_clone(), Some(9));
    let absent: Option<u32> = None;
    assert_eq!(absent.cheap_clone(), None);
    let nested: Option<Rc<u8>> = Some(Rc::new(5));
    let nested_copy = nested.cheap_clone();
    assert!(Rc::ptr_eq(nested.as_ref().unwrap(), nested_copy.as_ref().unwrap()));
}

#[test]
fn result_preserves_variant() {
    let ok: Result<u32, bool> = Ok(10);
    assert_eq!(ok.cheap_clone(), Ok(10));
    let err: Result<u32, bool> = Err(true);
    assert_eq!(err.cheap_clone(), Err(true));
}

#[test]
fn either_preserves_variant() {
    let left: either::Either<u32, char> = either::Either::Left(12);
    assert_eq!(left.cheap_clone(), either::Either::Left(12));
    let right: either::Either<u32, char> = either::Either::Right('r');
    assert_eq!(right.cheap_clone(), either::Either::Right('r'));
}

#[test]
fn bytes_equal() {
    let b = bytes::Bytes::from_static(b"some immutable bytes");
    let c = b.cheap_clone();
    assert_eq!(b, c);
    let empty = bytes::Bytes::new();
    assert_eq!(empty.cheap_clone(), empty);
}

#[test]
fn smol_str_equal() {
    let inline = smol_str::SmolStr::new("short");
    assert_eq!(inline.cheap_clone(), inline);
    let heap = smol_str::SmolStr::new("a string long enough to need a heap allocation");
    assert_eq!(heap.cheap_clone(), heap);
}

#[test]
fn idempotent_results_equal() {
    let v: u32 = 23;
    let first = v.cheap_clone();
    let second = v.cheap_clone();
    assert_eq!(first, second);

    let p = Rc::new(String::from("twice"));
    let a = p.cheap_clone();
    let b = p.cheap_clone();
    assert_eq!(a, b);
    assert!(Rc::ptr_eq(&a, &b));
}
