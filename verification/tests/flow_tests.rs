use primer::flow::{
    age, describe_age, describe_array, describe_number, describe_sign, describe_triple, rescale,
    Color, Foo, Temperature,
};
use primer::slices::{analyze_slice, describe_index, push_bracketed};

#[test]
fn the_age_is_fifteen() {
    assert_eq!(age(), 15);
}

#[test]
fn ages_fall_into_four_classes() {
    assert_eq!(describe_age(0), "I haven't celebrated my first birthday yet");
    assert_eq!(describe_age(1), "I'm a child of age: 1");
    assert_eq!(describe_age(12), "I'm a child of age: 12");
    assert_eq!(describe_age(13), "I'm a teen of age: 13");
    assert_eq!(describe_age(age()), "I'm a teen of age: 15");
    assert_eq!(describe_age(19), "I'm a teen of age: 19");
    assert_eq!(describe_age(20), "I'm an old person of age: 20");
    assert_eq!(describe_age(u32::MAX), "I'm an old person of age: 4294967295");
}

#[test]
fn named_colors() {
    assert_eq!(Color::Red.describe(), "The color is red");
    assert_eq!(Color::Blue.describe(), "The color is blue");
    assert_eq!(Color::Green.describe(), "The color is green");
}

#[test]
fn colors_by_their_parts() {
    assert_eq!(Color::RGB(1, 2, 3).describe(), "Red: 1, Green: 2, Blue: 3");
    assert_eq!(Color::HSV(10, 20, 30).describe(), "Hue: 10, Saturation: 20, value: 30");
    assert_eq!(Color::HSL(10, 20, 30).describe(), "Hue: 10, Saturation: 20, Lightness: 30");
    assert_eq!(Color::CMY(0, 255, 7).describe(), "Cyan: 0, Magenta: 255, Yellow: 7");
    assert_eq!(
        Color::CMYK(122, 17, 40, 1).describe(),
        "Cyan: 122, Magenta: 17, Yellow: 40, key (black): 1"
    );
}

#[test]
fn temperatures_above_and_below_the_mark() {
    assert_eq!(Temperature::Celsius(35).describe(), "35C is above 30 Celsius");
    assert_eq!(Temperature::Celsius(30).describe(), "30C is below 30 Celsius");
    assert_eq!(Temperature::Celsius(-4).describe(), "-4C is below 30 Celsius");
    assert_eq!(Temperature::Farenheit(87).describe(), "87F is above 86 Farenheit");
    assert_eq!(Temperature::Farenheit(86).describe(), "86F is below 86 Farenheit");
}

#[test]
fn a_whole_array_as_a_slice() {
    let xs: [i32; 5] = [1, 2, 3, 4, 5];
    let lines = analyze_slice(&xs);
    assert_eq!(
        lines,
        vec![
            "first element of the slice: 1",
            "the slice has 5 elements",
            "slice elements: [1, 2, 3, 4, 5]",
        ]
    );
}

#[test]
fn a_section_of_an_array_as_a_slice() {
    let xs: [i32; 5] = [1, 2, 3, 4, 5];
    let lines = analyze_slice(&xs[1..4]);
    assert_eq!(
        lines,
        vec![
            "first element of the slice: 2",
            "the slice has 3 elements",
            "slice elements: [2, 3, 4]",
        ]
    );
}

#[test]
fn a_slice_of_one_negative_item() {
    let lines = analyze_slice(&[-8]);
    assert_eq!(
        lines,
        vec![
            "first element of the slice: -8",
            "the slice has 1 elements",
            "slice elements: [-8]",
        ]
    );
}

#[test]
fn bracketed_items_agree_with_the_standard_text() {
    for items in [vec![], vec![0], vec![1, -2], vec![i32::MIN, 0, i32::MAX]] {
        let mut buf = String::from("> ");
        push_bracketed(&mut buf, &items);
        assert_eq!(buf, format!("> {:?}", items));
    }
}

#[test]
fn an_index_within_and_past_the_end() {
    let xs: [i32; 5] = [1, 2, 3, 4, 5];
    assert_eq!(describe_index(&xs, 0), "0: 1");
    assert_eq!(describe_index(&xs, 4), "4: 5");
    assert_eq!(describe_index(&xs, 5), "5: out of bounds");
    assert_eq!(describe_index(&[], 0), "0: out of bounds");
}

#[test]
fn signs_of_numbers() {
    assert_eq!(describe_sign(20), "20 is positive");
    assert_eq!(describe_sign(-20), "-20 is negative");
    assert_eq!(describe_sign(0), "0 is zero");
}

#[test]
fn small_numbers_grow_tenfold() {
    assert_eq!(rescale(9), 90);
    assert_eq!(rescale(-9), -90);
    assert_eq!(rescale(0), 0);
    assert_eq!(rescale(1), 10);
}

#[test]
fn big_numbers_are_halved_towards_zero() {
    assert_eq!(rescale(20), 10);
    assert_eq!(rescale(10), 5);
    assert_eq!(rescale(11), 5);
    assert_eq!(rescale(-10), -5);
    assert_eq!(rescale(-11), -5);
    assert_eq!(rescale(i32::MAX), 1073741823);
    assert_eq!(rescale(i32::MIN), -1073741824);
}

#[test]
fn numbers_and_what_is_special_about_them() {
    assert_eq!(describe_number(1), "One");
    for p in [2, 3, 5, 7, 11, 13] {
        assert_eq!(describe_number(p), "This is a prime");
    }
    for t in [14, 15, 16, 17, 18, 19] {
        assert_eq!(describe_number(t), "A teen");
    }
    for n in [i32::MIN, -1, 0, 4, 6, 8, 9, 10, 12, 20, i32::MAX] {
        assert_eq!(describe_number(n), "Nothing special");
    }
}

#[test]
fn triples_by_their_first_matching_rule() {
    assert_eq!(describe_triple((0, -2, 3)), "First is `0`, `y` is -2, and `z` is 3");
    assert_eq!(describe_triple((0, 5, 2)), "First is `0`, `y` is 5, and `z` is 2");
    assert_eq!(describe_triple((1, 9, 2)), "First is `1` and the rest doesn't matter");
    assert_eq!(describe_triple((7, 9, 2)), "last is `2` and the rest doesn't matter");
    assert_eq!(
        describe_triple((3, 9, 4)),
        "First is `3`, last is `4`, and the rest doesn't matter"
    );
    assert_eq!(describe_triple((3, 9, 5)), "It doesn't matter what they are");
}

#[test]
fn arrays_by_their_first_item() {
    assert_eq!(
        describe_array([0, -2, 6]),
        "array[0] = 0, array[1] = -2, array[2] = 6"
    );
    assert_eq!(
        describe_array([1, -2, 6]),
        "array[0] = 1, array[2] = 6 and array[1] was ignored"
    );
    assert_eq!(
        describe_array([-1, -2, 6]),
        "array[0] = -1, array[1] = -2 and all the other ones were ignored"
    );
    assert_eq!(
        describe_array([3, -2, 6]),
        "array[0] = 3, array[1] = -2 and the other elements were [6]"
    );
    assert_eq!(
        describe_array([4, -2, 6]),
        "array[0] = 4, middle = [-2], array[2] = 6"
    );
}

#[test]
fn structs_by_their_first_matching_rule() {
    assert_eq!(
        Foo { x: (1, 2), y: 3 }.describe(),
        "First of x is 1, b is 2, y is 3"
    );
    assert_eq!(
        Foo { x: (1, 7), y: 2 }.describe(),
        "First of x is 1, b is 7, y is 2"
    );
    assert_eq!(Foo { x: (5, 6), y: 2 }.describe(), "y is 2, i = (5, 6)");
    assert_eq!(
        Foo { x: (5, 6), y: 9 }.describe(),
        "y = 9, we don-t care about x"
    );
}
