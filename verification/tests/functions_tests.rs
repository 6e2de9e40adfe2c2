use primer::functions::{fizzbuzz, fizzbuzz_to, is_divisible_by, Pair};
use primer::geometry::{rect_area, rectangle_area, square, Point, Rectangle};

#[test]
fn nothing_is_divisible_by_zero() {
    assert!(!is_divisible_by(0, 0));
    assert!(!is_divisible_by(7, 0));
}

#[test]
fn divisibility_is_a_zero_remainder() {
    assert!(is_divisible_by(15, 3));
    assert!(is_divisible_by(15, 5));
    assert!(is_divisible_by(0, 5));
    assert!(!is_divisible_by(16, 3));
    assert!(is_divisible_by(u32::MAX, 1));
    assert!(is_divisible_by(u32::MAX, u32::MAX));
    assert!(!is_divisible_by(1, u32::MAX));
}

#[test]
fn fizzbuzz_names_the_multiples() {
    assert_eq!(fizzbuzz(15), "fizzbuzz");
    assert_eq!(fizzbuzz(30), "fizzbuzz");
    assert_eq!(fizzbuzz(3), "fizz");
    assert_eq!(fizzbuzz(9), "fizz");
    assert_eq!(fizzbuzz(5), "buzz");
    assert_eq!(fizzbuzz(10), "buzz");
}

#[test]
fn fizzbuzz_writes_the_other_numbers() {
    assert_eq!(fizzbuzz(1), "1");
    assert_eq!(fizzbuzz(7), "7");
    assert_eq!(fizzbuzz(98), "98");
    assert_eq!(fizzbuzz(4294967294), "4294967294");
}

#[test]
fn fizzbuzz_at_the_ends() {
    assert_eq!(fizzbuzz(0), "fizzbuzz");
    assert_eq!(fizzbuzz(u32::MAX), "fizzbuzz");
}

#[test]
fn fizzbuzz_classes_up_to_three_hundred() {
    for n in 1u32..=300 {
        let line = fizzbuzz(n);
        assert_eq!(line == "fizzbuzz", n % 15 == 0);
        assert_eq!(line == "fizz", n % 3 == 0 && n % 5 != 0);
        assert_eq!(line == "buzz", n % 5 == 0 && n % 3 != 0);
        if n % 3 != 0 && n % 5 != 0 {
            assert_eq!(line, format!("{}", n));
        }
    }
}

#[test]
fn fizzbuzz_to_fifteen() {
    let lines = fizzbuzz_to(15);
    let expected = vec![
        "1", "2", "fizz", "4", "buzz", "fizz", "7", "8", "fizz", "buzz", "11", "fizz", "13", "14",
        "fizzbuzz",
    ];
    assert_eq!(lines, expected);
}

#[test]
fn fizzbuzz_to_zero_is_empty() {
    assert!(fizzbuzz_to(0).is_empty());
}

#[test]
fn fizzbuzz_to_a_hundred_has_a_line_for_each() {
    let lines = fizzbuzz_to(100);
    assert_eq!(lines.len(), 100);
    assert_eq!(lines[0], "1");
    assert_eq!(lines[98], "fizz");
    assert_eq!(lines[99], "buzz");
    for (i, line) in lines.iter().enumerate() {
        assert_eq!(*line, fizzbuzz(i as u32 + 1));
    }
}

#[test]
fn point_constructors() {
    assert_eq!(Point::origin(), Point { x: 0, y: 0 });
    assert_eq!(Point::new(3, 4), Point { x: 3, y: 4 });
}

#[test]
fn rectangle_three_by_four() {
    let rectangle = Rectangle { p1: Point::origin(), p2: Point::new(3, 4) };
    assert_eq!(rectangle.perimeter(), 14);
    assert_eq!(rectangle.area(), 12);
}

#[test]
fn rectangle_does_not_care_which_corner_is_first() {
    let a = Point::new(-2, 7);
    let b = Point::new(5, -1);
    let one = Rectangle { p1: a, p2: b };
    let other = Rectangle { p1: b, p2: a };
    assert_eq!(one.area(), 56);
    assert_eq!(other.area(), 56);
    assert_eq!(one.perimeter(), 30);
    assert_eq!(other.perimeter(), 30);
    assert_eq!(rect_area(a, b), rect_area(b, a));
    assert_eq!(rectangle_area(one), rectangle_area(other));
}

#[test]
fn rectangle_without_extent() {
    let p = Point::new(9, 9);
    let flat = Rectangle { p1: p, p2: Point::new(9, 20) };
    assert_eq!(flat.area(), 0);
    assert_eq!(flat.perimeter(), 22);
    let dot = Rectangle { p1: p, p2: p };
    assert_eq!(dot.area(), 0);
    assert_eq!(dot.perimeter(), 0);
}

#[test]
fn rectangle_across_the_whole_grid() {
    let low = Point::new(i32::MIN, i32::MIN);
    let high = Point::new(i32::MAX, i32::MAX);
    let all = Rectangle { p1: low, p2: high };
    assert_eq!(all.area(), 4294967295u64 * 4294967295u64);
    assert_eq!(all.perimeter(), 4 * 4294967295u64);
    assert_eq!(rect_area(high, low), 18446744065119617025);
}

#[test]
fn rectangle_translate_moves_both_corners() {
    let mut square = Rectangle { p1: Point::origin(), p2: Point::new(1, 1) };
    square.translate(1, 1);
    assert_eq!(square.p1, Point::new(1, 1));
    assert_eq!(square.p2, Point::new(2, 2));
    square.translate(-5, 3);
    assert_eq!(square, Rectangle { p1: Point::new(-4, 4), p2: Point::new(-3, 5) });
    assert_eq!(square.area(), 1);
    assert_eq!(square.perimeter(), 4);
}

#[test]
fn free_area_functions() {
    assert_eq!(rect_area(Point::new(10, 0), Point::new(5, 4)), 20);
    let rect = Rectangle { p1: Point::new(10, 0), p2: Point::new(5, 4) };
    assert_eq!(rectangle_area(rect), 20);
}

#[test]
fn square_spans_from_a_point_to_the_diagonal() {
    let sq = square(Point::new(1, 1), 3);
    assert_eq!(sq.p1, Point::new(1, 1));
    assert_eq!(sq.p2, Point::new(3, 3));
    assert_eq!(sq.area(), 4);
}

#[test]
fn pair_tells_what_it_held() {
    let pair = Pair(Box::new(1), Box::new(2));
    assert_eq!(pair.destroy(), "Destroying Pair (1, 2)");
    assert_eq!(Pair(Box::new(-7), Box::new(0)).destroy(), "Destroying Pair (-7, 0)");
}
