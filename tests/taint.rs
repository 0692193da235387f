use stainless::taint::{Clean, Dirty, Sanitizer};
use stainless::Dyn;

#[test]
fn test_add() {
    let a = Clean(2) + Clean(3);
    let b = Clean(2) + Dirty(3);
    let c = Dirty(2) + Clean(3);
    let d = Dirty(2) + Dirty(3);

    assert_eq!(a, Clean(5));
    assert_eq!(b, Dirty(5));
    assert_eq!(c, Dirty(5));
    assert_eq!(d, Dirty(5));
}

#[test]
fn test_from() {
    let a: Clean<i32> = 1.into();
    let b: Dirty<i32> = 2.into();

    assert_eq!(a, Clean(1));
    assert_eq!(b, Dirty(2));
}

#[test]
fn test_map() {
    let a = Clean(1).map(|x| x + 3);
    let b = Dirty(3).map(|x| x * 3);
    assert_eq!(a, Clean(4));
    assert_eq!(b, Dirty(9));
}

fn double_clean(x: i32) -> Clean<i32> {
    Clean(x * 2)
}

fn triple_dirty(x: i32) -> Dirty<i32> {
    Dirty(x * 3)
}

#[test]
fn test_and_then() {
    let a = Clean(8).and_then(double_clean).and_then(double_clean);
    let b = Dirty(2).and_then(triple_dirty).and_then(triple_dirty);
    assert_eq!(a, Clean(32));
    assert_eq!(b, Dirty(18));
}

#[test]
fn add_keeps_inner_sum_for_other_types() {
    assert_eq!(Clean(200u8) + Clean(55u8), Clean(255u8));
    assert_eq!(Dirty(-7i64) + Clean(3i64), Dirty(-4i64));
    assert_eq!(Clean(0u32) + Dirty(0u32), Dirty(0u32));
}

#[test]
fn mixed_sums_agree_whichever_operand_is_dirty() {
    let left = Clean(10) + Dirty(-4);
    let right = Dirty(10) + Clean(-4);
    let both = Dirty(10) + Dirty(-4);
    assert_eq!(left, right);
    assert_eq!(right, both);
    assert_eq!(both, Dirty(6));
}

#[test]
fn map_changes_the_inner_type_and_keeps_the_tag() {
    let a = Clean(5).map(|i| format!("{} is a fine number", i));
    assert_eq!(a, Clean("5 is a fine number".to_string()));
    let b = Dirty(5).map(|i| format!("{} is not a good number", i));
    assert_eq!(b, Dirty("5 is not a good number".to_string()));
}

fn to_clean_string(i: i32) -> Clean<String> {
    Clean(format!("{} is a fine number", i))
}

fn to_dirty_string(i: i32) -> Dirty<String> {
    Dirty(format!("{} is a fine number", i))
}

#[test]
fn and_then_with_a_wrapping_function() {
    assert_eq!(Clean(28).and_then(to_clean_string), Clean("28 is a fine number".to_string()));
    assert_eq!(Dirty(28).and_then(to_dirty_string), Dirty("28 is a fine number".to_string()));
}

#[test]
fn and_then_is_associative_on_values() {
    let stepwise = Clean(3).and_then(double_clean).and_then(to_clean_string);
    let nested = Clean(3).and_then(|x| double_clean(x).and_then(to_clean_string));
    assert_eq!(stepwise, nested);
    assert_eq!(nested, Clean("6 is a fine number".to_string()));

    let stepwise = Dirty(4).and_then(triple_dirty).and_then(to_dirty_string);
    let nested = Dirty(4).and_then(|x| triple_dirty(x).and_then(to_dirty_string));
    assert_eq!(stepwise, nested);
    assert_eq!(nested, Dirty("12 is a fine number".to_string()));
}

#[test]
fn wrapping_from_raw_values() {
    let a: Clean<i32> = 42.into();
    assert_eq!(a, Clean(42));
    let b: Dirty<char> = 'A'.into();
    assert_eq!(b, Dirty('A'));
}

#[test]
fn wrap_then_unwrap_gives_the_value_back() {
    let c: Clean<String> = "raw".to_string().into();
    assert_eq!(c.0, "raw".to_string());
    let d: Dirty<String> = "raw".to_string().into();
    assert_eq!(d.0, "raw".to_string());
    let e: Clean<i32> = Clean::from(-9);
    assert_eq!(e.0, -9);
}

#[test]
fn clean_converts_into_dirty() {
    let a: Dirty<i32> = Clean(-2).into();
    assert_eq!(a, Dirty(-2));
}

#[test]
fn dyn_from_keeps_value_and_tag() {
    let a: Clean<i32> = Clean(2);
    assert_eq!(Dyn::from(a), Dyn::Clean(2));
    let b: Dirty<i32> = Dirty(42);
    assert_eq!(Dyn::from(b), Dyn::Dirty(42));
}

#[test]
fn dyn_holds_mixed_taint_side_by_side() {
    let items: Vec<Dyn<i32>> = vec![Clean(1).into(), Dirty(2).into(), Clean(3).into()];
    let dirty: Vec<i32> = items
        .iter()
        .filter_map(|d| match d {
            Dyn::Dirty(v) => Some(*v),
            Dyn::Clean(_) => None,
        })
        .collect();
    assert_eq!(dirty, vec![2]);
}

#[test]
fn result_form_keeps_value_and_polarity() {
    let ok: Result<Clean<i32>, Dirty<i32>> = Clean(7).into();
    assert_eq!(ok, Ok(Clean(7)));
    let err: Result<Clean<i32>, Dirty<i32>> = Dirty(7).into();
    assert_eq!(err, Err(Dirty(7)));
    assert_eq!(err.map_err(|d| d.0 + 1), Err(8));
}

struct Trim;

impl Sanitizer<String> for Trim {
    fn sanitize(input: Dirty<String>) -> Clean<String> {
        Clean(input.0.trim().to_string())
    }
}

fn greet(name: Clean<String>) -> Clean<String> {
    name.map(|n| format!("hello, {}", n))
}

#[test]
fn sanitizer_is_the_way_from_dirty_to_clean() {
    let input: Dirty<String> = "  bob ".to_string().into();
    let name = Trim::sanitize(input);
    assert_eq!(greet(name), Clean("hello, bob".to_string()));
}
