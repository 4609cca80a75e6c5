use euclid_ext::point_range_iterator::PointRangeIteratorPrimitive;

fn unit<T: PointRangeIteratorPrimitive>() -> T {
    T::one()
}

fn successor<T: PointRangeIteratorPrimitive>(value: T) -> T {
    value.plus(T::one())
}

#[test]
fn unit_step_is_one_for_each_scalar() {
    assert_eq!(1i8, unit::<i8>());
    assert_eq!(1i16, unit::<i16>());
    assert_eq!(1i32, unit::<i32>());
    assert_eq!(1i64, unit::<i64>());
    assert_eq!(1isize, unit::<isize>());
    assert_eq!(1u8, unit::<u8>());
    assert_eq!(1u16, unit::<u16>());
    assert_eq!(1u32, unit::<u32>());
    assert_eq!(1u64, unit::<u64>());
    assert_eq!(1usize, unit::<usize>());
}

#[test]
fn unit_step_is_the_one_of_euclid() {
    assert_eq!(<i8 as euclid::num::One>::one(), unit::<i8>());
    assert_eq!(<i16 as euclid::num::One>::one(), unit::<i16>());
    assert_eq!(<i32 as euclid::num::One>::one(), unit::<i32>());
    assert_eq!(<i64 as euclid::num::One>::one(), unit::<i64>());
    assert_eq!(<isize as euclid::num::One>::one(), unit::<isize>());
    assert_eq!(<u8 as euclid::num::One>::one(), unit::<u8>());
    assert_eq!(<u16 as euclid::num::One>::one(), unit::<u16>());
    assert_eq!(<u32 as euclid::num::One>::one(), unit::<u32>());
    assert_eq!(<u64 as euclid::num::One>::one(), unit::<u64>());
    assert_eq!(<usize as euclid::num::One>::one(), unit::<usize>());
}

#[test]
fn successor_is_one_more() {
    assert_eq!(-127i8, successor(-128i8));
    assert_eq!(127i8, successor(126i8));
    assert_eq!(0i16, successor(-1i16));
    assert_eq!(42i32, successor(41i32));
    assert_eq!(i64::MAX, successor(i64::MAX - 1));
    assert_eq!(8isize, successor(7isize));
    assert_eq!(255u8, successor(254u8));
    assert_eq!(1u16, successor(0u16));
    assert_eq!(u32::MAX, successor(u32::MAX - 1));
    assert_eq!(10u64, successor(9u64));
    assert_eq!(1usize, successor(0usize));
}

#[test]
fn less_than_is_the_strict_order() {
    assert!(PointRangeIteratorPrimitive::less_than(&3i32, &4i32));
    assert!(!PointRangeIteratorPrimitive::less_than(&4i32, &4i32));
    assert!(!PointRangeIteratorPrimitive::less_than(&5i32, &4i32));
    assert!(PointRangeIteratorPrimitive::less_than(&-128i8, &127i8));
    assert!(!PointRangeIteratorPrimitive::less_than(&127i8, &-128i8));
    assert!(PointRangeIteratorPrimitive::less_than(&-1i64, &0i64));
    assert!(PointRangeIteratorPrimitive::less_than(&0u8, &255u8));
    assert!(!PointRangeIteratorPrimitive::less_than(&255u8, &0u8));
    assert!(PointRangeIteratorPrimitive::less_than(&7usize, &8usize));
    assert!(PointRangeIteratorPrimitive::less_than(&7u64, &8u64));
    assert!(PointRangeIteratorPrimitive::less_than(&-7i16, &8i16));
    assert!(PointRangeIteratorPrimitive::less_than(&7u16, &8u16));
    assert!(PointRangeIteratorPrimitive::less_than(&7u32, &8u32));
    assert!(PointRangeIteratorPrimitive::less_than(&-9isize, &-8isize));
}

#[test]
fn plus_is_the_sum() {
    assert_eq!(7i32, PointRangeIteratorPrimitive::plus(3i32, 4i32));
    assert_eq!(-1i32, PointRangeIteratorPrimitive::plus(3i32, -4i32));
    assert_eq!(127i8, PointRangeIteratorPrimitive::plus(100i8, 27i8));
    assert_eq!(-128i8, PointRangeIteratorPrimitive::plus(-100i8, -28i8));
    assert_eq!(255u8, PointRangeIteratorPrimitive::plus(200u8, 55u8));
    assert_eq!(0u64, PointRangeIteratorPrimitive::plus(0u64, 0u64));
    assert_eq!(i64::MAX, PointRangeIteratorPrimitive::plus(i64::MAX - 5, 5i64));
    assert_eq!(300i16, PointRangeIteratorPrimitive::plus(100i16, 200i16));
    assert_eq!(300u16, PointRangeIteratorPrimitive::plus(100u16, 200u16));
    assert_eq!(300u32, PointRangeIteratorPrimitive::plus(100u32, 200u32));
    assert_eq!(300usize, PointRangeIteratorPrimitive::plus(100usize, 200usize));
    assert_eq!(-300isize, PointRangeIteratorPrimitive::plus(-100isize, -200isize));
}
