use oi_helper::error::HelperError;
use oi_helper::json_doc::{as_text, as_u32, member, JsonDoc};

#[test]
fn every_failure_has_a_message() {
    assert_eq!(
        HelperError::IOError { path: "0.in".to_string() }.message(),
        "Cannot access file: 0.in"
    );
    assert_eq!(
        HelperError::CorruptCorpus.message(),
        "The configuration of the sample list is broken. Please check the samples_info.json."
    );
    assert_eq!(
        HelperError::CompileError.message(),
        "Failed to compile the program. Stopped. (CE(0))"
    );
    assert_eq!(
        HelperError::FetchError.message(),
        "Error occured while fetching samples: cannot retrieve the page"
    );
    assert_eq!(
        HelperError::ParseError.message(),
        "Error occured while fetching samples: cannot parse the page"
    );
}

fn number(positive: bool, mantissa: u64, exponent: i16) -> JsonDoc {
    JsonDoc::Number { nan: false, positive, mantissa, exponent }
}

#[test]
fn numbers_are_read_as_unsigned_thirty_two_bits() {
    assert_eq!(as_u32(&number(true, 0, 0)), Some(0));
    assert_eq!(as_u32(&number(true, 1000, 0)), Some(1000));
    assert_eq!(as_u32(&number(true, 4294967295, 0)), Some(u32::MAX));
    assert_eq!(as_u32(&number(true, 4294967296, 0)), None);
    assert_eq!(as_u32(&number(false, 1, 0)), None);
    assert_eq!(as_u32(&number(true, 1, 2)), None);
    assert_eq!(as_u32(&number(true, 10, -1)), None);
    assert_eq!(as_u32(&JsonDoc::Number { nan: true, positive: true, mantissa: 1, exponent: 0 }), None);
    assert_eq!(as_u32(&JsonDoc::Text("1".to_string())), None);
    assert_eq!(as_u32(&JsonDoc::Null), None);
}

#[test]
fn texts_are_read_from_strings_only() {
    assert_eq!(as_text(&JsonDoc::Text("a".to_string())), Some(&"a".to_string()));
    assert_eq!(as_text(&JsonDoc::Boolean(true)), None);
    assert_eq!(as_text(&number(true, 1, 0)), None);
}

#[test]
fn member_is_the_first_of_its_name() {
    let object = JsonDoc::Object(vec![
        ("a".to_string(), number(true, 1, 0)),
        ("b".to_string(), JsonDoc::Null),
        ("a".to_string(), number(true, 2, 0)),
    ]);
    assert_eq!(member(&object, "a"), Some(&number(true, 1, 0)));
    assert_eq!(member(&object, "b"), Some(&JsonDoc::Null));
    assert_eq!(member(&object, "c"), None);
    assert_eq!(member(&JsonDoc::Array(vec![]), "a"), None);
    assert_eq!(member(&JsonDoc::Object(vec![]), "a"), None);
}
