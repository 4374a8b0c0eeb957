use time::{
    Cause, ComponentRangeError, ConversionRangeError, Error, IndeterminateOffsetError, ParseError,
};

fn day_error() -> ComponentRangeError {
    ComponentRangeError::new("day", 1, 31, 32, vec![("month", 2), ("year", 2021)])
}

fn parse_error() -> ParseError {
    ParseError::new(String::from("invalid month"))
}

#[test]
fn from_conversion_range() {
    let error = Error::from(ConversionRangeError);
    assert!(matches!(error, Error::ConversionRange));
    assert_eq!(error, Error::ConversionRange);
}

#[test]
fn from_indeterminate_offset() {
    let error = Error::from(IndeterminateOffsetError);
    assert!(matches!(error, Error::IndeterminateOffset));
    assert_eq!(error, Error::IndeterminateOffset);
}

#[test]
fn from_component_range_round_trip() {
    let error = Error::from(day_error());
    match error {
        Error::ComponentRange(payload) => assert_eq!(*payload, day_error()),
        _ => panic!("the component range error became another variant"),
    }
}

#[test]
fn from_parse_round_trip() {
    let error = Error::from(parse_error());
    match error {
        Error::Parse(payload) => assert_eq!(payload, parse_error()),
        _ => panic!("the parse error became another variant"),
    }
}

#[test]
fn into_works_at_a_call_boundary() {
    fn fails_on_range() -> Result<(), Error> {
        Err(day_error())?;
        Ok(())
    }
    fn fails_on_conversion() -> Result<(), Error> {
        Err(ConversionRangeError)?;
        Ok(())
    }
    fn fails_on_offset() -> Result<(), Error> {
        Err(IndeterminateOffsetError)?;
        Ok(())
    }
    fn fails_on_parse() -> Result<(), Error> {
        Err(parse_error())?;
        Ok(())
    }
    assert_eq!(fails_on_range(), Err(Error::ComponentRange(Box::new(day_error()))));
    assert_eq!(fails_on_conversion(), Err(Error::ConversionRange));
    assert_eq!(fails_on_offset(), Err(Error::IndeterminateOffset));
    assert_eq!(fails_on_parse(), Err(Error::Parse(parse_error())));
    let error: Error = day_error().into();
    assert_eq!(error, Error::ComponentRange(Box::new(day_error())));
}

#[test]
fn unified_rendering_is_the_leaf_rendering() {
    assert_eq!(Error::from(day_error()).to_string(), day_error().to_string());
    assert_eq!(
        Error::from(day_error()).to_string(),
        "day must be in the range 1..=31 given month=2, year=2021 (was 32)"
    );
    assert_eq!(Error::from(parse_error()).to_string(), parse_error().to_string());
    assert_eq!(Error::from(parse_error()).to_string(), "invalid month");
    assert_eq!(
        Error::from(ConversionRangeError).to_string(),
        ConversionRangeError.to_string()
    );
    assert_eq!(
        Error::from(ConversionRangeError).to_string(),
        "Source value is out of range for the target type"
    );
    assert_eq!(
        Error::from(IndeterminateOffsetError).to_string(),
        IndeterminateOffsetError.to_string()
    );
    assert_eq!(
        Error::from(IndeterminateOffsetError).to_string(),
        "The system's UTC offset could not be determined"
    );
}

#[test]
fn unified_fmt_appends_to_the_sink() {
    let mut sink = String::from("[");
    Error::ConversionRange.fmt(&mut sink);
    sink.push_str("] [");
    Error::from(day_error()).fmt(&mut sink);
    sink.push_str("] [");
    Error::from(parse_error()).fmt(&mut sink);
    sink.push_str("] [");
    Error::IndeterminateOffset.fmt(&mut sink);
    sink.push(']');
    assert_eq!(
        sink,
        "[Source value is out of range for the target type] \
         [day must be in the range 1..=31 given month=2, year=2021 (was 32)] \
         [invalid month] \
         [The system's UTC offset could not be determined]"
    );
}

#[test]
fn source_of_component_range_is_the_payload() {
    let error = Error::from(day_error());
    match error.source() {
        Some(Cause::ComponentRange(payload)) => {
            assert_eq!(*payload, day_error());
            assert_eq!(payload.to_string(), day_error().to_string());
        }
        _ => panic!("the cause is not the component range error"),
    }
}

#[test]
fn source_of_parse_is_the_payload() {
    let error = Error::from(parse_error());
    match error.source() {
        Some(Cause::Parse(payload)) => assert_eq!(*payload, parse_error()),
        _ => panic!("the cause is not the parse error"),
    }
}

#[test]
fn source_of_conversion_range_is_the_error_itself() {
    let error = Error::from(ConversionRangeError);
    match error.source() {
        Some(Cause::Error(cause)) => {
            assert!(std::ptr::eq(cause, &error));
            assert_eq!(*cause, Error::ConversionRange);
        }
        _ => panic!("the cause is not the error itself"),
    }
}

#[test]
fn source_of_indeterminate_offset_is_the_error_itself() {
    let error = Error::from(IndeterminateOffsetError);
    match error.source() {
        Some(Cause::Error(cause)) => {
            assert!(std::ptr::eq(cause, &error));
            assert_eq!(*cause, Error::IndeterminateOffset);
        }
        _ => panic!("the cause is not the error itself"),
    }
}

#[test]
fn unified_error_stays_small() {
    // One pointer for the boxed payload would do; the parse error is held
    // inline, and is a string.
    assert!(std::mem::size_of::<Error>() <= std::mem::size_of::<String>() + 8);
    let many: Vec<(&'static str, i64)> = vec![("year", 2021); 1000];
    let small = Error::from(ComponentRangeError::new("day", 1, 31, 32, vec![]));
    let large = Error::from(ComponentRangeError::new("day", 1, 31, 32, many));
    assert_eq!(std::mem::size_of_val(&small), std::mem::size_of_val(&large));
}

#[test]
fn chain_of_causes_ends_after_the_first_cause() {
    let all = [
        Error::ConversionRange,
        Error::from(day_error()),
        Error::from(parse_error()),
        Error::IndeterminateOffset,
    ];
    for error in all.iter() {
        match error.source() {
            Some(cause) => assert!(cause.source().is_none()),
            None => panic!("every unified error has a cause"),
        }
    }
}

#[test]
fn cause_of_a_cause_that_holds_a_payload() {
    let error = Error::from(day_error());
    match Cause::Error(&error).source() {
        Some(Cause::ComponentRange(payload)) => assert_eq!(*payload, day_error()),
        _ => panic!("the cause is not the component range error"),
    }
    let error = Error::from(parse_error());
    match Cause::Error(&error).source() {
        Some(Cause::Parse(payload)) => assert_eq!(*payload, parse_error()),
        _ => panic!("the cause is not the parse error"),
    }
    assert!(Cause::ComponentRange(&day_error()).source().is_none());
    assert!(Cause::Parse(&parse_error()).source().is_none());
    assert!(Cause::Error(&Error::ConversionRange).source().is_none());
    assert!(Cause::Error(&Error::IndeterminateOffset).source().is_none());
}

#[test]
fn cause_renders_as_what_it_points_to() {
    let all = [
        Error::ConversionRange,
        Error::from(day_error()),
        Error::from(parse_error()),
        Error::IndeterminateOffset,
    ];
    for error in all.iter() {
        match error.source() {
            Some(cause) => {
                assert_eq!(cause.to_string(), error.to_string());
                let mut sink = String::from("caused by: ");
                cause.fmt(&mut sink);
                assert_eq!(sink, format!("caused by: {}", error.to_string()));
            }
            None => panic!("every unified error has a cause"),
        }
    }
    assert_eq!(
        Cause::ComponentRange(&day_error()).to_string(),
        "day must be in the range 1..=31 given month=2, year=2021 (was 32)"
    );
    assert_eq!(Cause::Parse(&parse_error()).to_string(), "invalid month");
    assert_eq!(
        Cause::Error(&Error::IndeterminateOffset).to_string(),
        "The system's UTC offset could not be determined"
    );
}
