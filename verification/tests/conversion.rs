use err_with::ErrWith;

#[derive(Debug, PartialEq)]
enum ParseFailure {
    Empty,
    NotADigit(char),
}

#[derive(Debug, PartialEq)]
enum ReportedFailure {
    Parse { failure: ParseFailure, field: String },
}

impl From<(ParseFailure, &str)> for ReportedFailure {
    fn from((failure, field): (ParseFailure, &str)) -> ReportedFailure {
        ReportedFailure::Parse {
            failure,
            field: field.to_owned(),
        }
    }
}

fn parse_digit(text: &str) -> Result<u32, ParseFailure> {
    match text.chars().next() {
        None => Err(ParseFailure::Empty),
        Some(c) => c.to_digit(10).ok_or(ParseFailure::NotADigit(c)),
    }
}

fn sum_of_fields(width: &str, height: &str) -> Result<u32, ReportedFailure> {
    let w = parse_digit(width).err_with("width")?;
    let h = parse_digit(height).err_with("height")?;
    Ok(w + h)
}

#[test]
fn pair_converts_into_a_callers_failure_type() {
    assert_eq!(
        sum_of_fields("3", "x"),
        Err(ReportedFailure::Parse {
            failure: ParseFailure::NotADigit('x'),
            field: String::from("height"),
        })
    );
}

#[test]
fn first_failure_carries_its_own_context() {
    assert_eq!(
        sum_of_fields("", "x"),
        Err(ReportedFailure::Parse {
            failure: ParseFailure::Empty,
            field: String::from("width"),
        })
    );
}

#[test]
fn success_path_needs_no_conversion() {
    assert_eq!(sum_of_fields("3", "4"), Ok(7));
}
