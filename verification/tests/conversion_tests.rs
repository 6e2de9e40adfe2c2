use primer::conversion::{Circle, ConversionError, EvenNumber, Number};
use primer::sink::{IoError, TextSink};

#[test]
fn number_from_keeps_the_integer() {
    let num = Number::from(30);
    assert_eq!(num.value, 30);
    assert_eq!(num, Number { value: 30 });
}

#[test]
fn number_into_keeps_the_integer() {
    let int = 5;
    let num: Number = int.into();
    assert_eq!(num.value, 5);
}

#[test]
fn even_number_accepts_eight() {
    let even = EvenNumber::try_from(8);
    assert!(even.is_ok());
    assert_eq!(even.unwrap().value(), 8);
    assert_eq!(EvenNumber::try_from(8), EvenNumber::try_from(8));
}

#[test]
fn even_number_refuses_five() {
    assert_eq!(EvenNumber::try_from(5), Err(ConversionError));
}

#[test]
fn even_number_through_try_into() {
    let result: Result<EvenNumber, ConversionError> = 8i32.try_into();
    assert_eq!(result.map(|e| e.value()), Ok(8));
    let result: Result<EvenNumber, ConversionError> = 5i32.try_into();
    assert_eq!(result, Err(ConversionError));
}

#[test]
fn even_number_on_zero_and_negatives() {
    assert_eq!(EvenNumber::try_from(0).map(|e| e.value()), Ok(0));
    assert_eq!(EvenNumber::try_from(-4).map(|e| e.value()), Ok(-4));
    assert_eq!(EvenNumber::try_from(-3), Err(ConversionError));
    assert_eq!(EvenNumber::try_from(-1), Err(ConversionError));
    assert_eq!(EvenNumber::try_from(1), Err(ConversionError));
}

#[test]
fn even_number_at_both_ends() {
    assert_eq!(EvenNumber::try_from(i32::MIN).map(|e| e.value()), Ok(i32::MIN));
    assert_eq!(EvenNumber::try_from(i32::MAX), Err(ConversionError));
    assert_eq!(EvenNumber::try_from(i32::MAX - 1).map(|e| e.value()), Ok(i32::MAX - 1));
}

#[test]
fn even_number_succeeds_exactly_on_multiples_of_two() {
    for n in -50..=50 {
        let r = EvenNumber::try_from(n);
        assert_eq!(r.is_ok(), n % 2 == 0);
        if let Ok(even) = r {
            assert_eq!(even.value(), n);
        }
    }
}

#[test]
fn circle_names_its_radius() {
    let circle = Circle { radius: 6 };
    assert_eq!(circle.to_string(), "Circle of radius 6");
    assert_eq!(Circle { radius: -2 }.to_string(), "Circle of radius -2");
}

#[test]
fn circle_writes_to_a_sink_with_room() {
    let mut sink = TextSink::with_limit(18);
    assert_eq!(Circle { radius: 6 }.fmt(&mut sink), Ok(()));
    assert_eq!(sink.as_str(), "Circle of radius 6");
}

#[test]
fn circle_is_refused_by_a_sink_without_room() {
    let mut sink = TextSink::with_limit(17);
    assert_eq!(Circle { radius: 6 }.fmt(&mut sink), Err(IoError));
    assert_eq!(sink.as_str(), "");
}
