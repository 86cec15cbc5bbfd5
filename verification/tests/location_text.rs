use dont_chill_out::levels::data::{LocationData, LocationError};
use dont_chill_out::text::NumberError;

#[test]
fn location_round_trip_three_seven() {
    let location = LocationData { x: 3, y: 7 };
    let text = location.encode();
    assert_eq!(text, "3,7");
    assert_eq!(LocationData::decode(&text), Ok(location));
}

#[test]
fn location_round_trip_extremes() {
    for location in [
        LocationData::new(0, 0),
        LocationData::new(u32::MAX, 0),
        LocationData::new(10, u32::MAX),
        LocationData::new(4294967295, 4294967295),
    ] {
        assert_eq!(LocationData::decode(&location.encode()), Ok(location));
    }
    assert_eq!(LocationData::new(u32::MAX, 0).encode(), "4294967295,0");
}

#[test]
fn decode_rejects_wrong_field_count() {
    assert_eq!(LocationData::decode(""), Err(LocationError::FieldCount));
    assert_eq!(LocationData::decode("12"), Err(LocationError::FieldCount));
    assert_eq!(LocationData::decode("1,2,3"), Err(LocationError::FieldCount));
    assert_eq!(LocationData::decode(",,"), Err(LocationError::FieldCount));
}

#[test]
fn decode_rejects_bad_numbers() {
    assert_eq!(LocationData::decode(","), Err(LocationError::X(NumberError::Empty)));
    assert_eq!(LocationData::decode("1,"), Err(LocationError::Y(NumberError::Empty)));
    assert_eq!(LocationData::decode("a,1"), Err(LocationError::X(NumberError::InvalidDigit)));
    assert_eq!(LocationData::decode("1, 2"), Err(LocationError::Y(NumberError::InvalidDigit)));
    assert_eq!(LocationData::decode("-1,2"), Err(LocationError::X(NumberError::InvalidDigit)));
    assert_eq!(LocationData::decode("+,2"), Err(LocationError::X(NumberError::InvalidDigit)));
    assert_eq!(LocationData::decode("1,4294967296"), Err(LocationError::Y(NumberError::Overflow)));
    assert_eq!(LocationData::decode("99999999999x,1"), Err(LocationError::X(NumberError::Overflow)));
    assert_eq!(LocationData::decode("4294967295x,1"), Err(LocationError::X(NumberError::InvalidDigit)));
    assert_eq!(LocationData::decode("x,y"), Err(LocationError::X(NumberError::InvalidDigit)));
}

#[test]
fn decode_accepts_sign_and_leading_zeros() {
    assert_eq!(LocationData::decode("+3,007"), Ok(LocationData::new(3, 7)));
    assert_eq!(LocationData::decode("0,0"), Ok(LocationData::new(0, 0)));
}

#[test]
fn decode_agrees_with_the_standard_parser() {
    for text in ["", "+", "-", "0", "00", "+0", "42", "4294967295", "4294967296", "1x", "x1", " 1", "1 ", "١"] {
        let joined = format!("{},5", text);
        let expected = text.parse::<u32>().ok().map(|x| LocationData::new(x, 5));
        assert_eq!(LocationData::decode(&joined).ok(), expected, "{:?}", text);
    }
}

#[test]
fn location_describe() {
    assert_eq!(LocationData::new(3, 7).describe(), "x: 3, y: 7");
    assert_eq!(LocationError::FieldCount.message(), "a string with two comma separated integers with the format x,y");
    assert_eq!(LocationError::X(NumberError::Empty).message(), "cannot parse integer from empty string");
    assert_eq!(LocationError::Y(NumberError::InvalidDigit).message(), "invalid digit found in string");
    assert_eq!(NumberError::Overflow.message(), "number too large to fit in target type");
}
