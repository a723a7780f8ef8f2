use series_extract::numeric::{numeric_text, NumericError, NumericText};
use series_extract::text::is_space;

fn prepared(raw: &str, decimal: &str) -> Result<NumericText, NumericError> {
    Ok(NumericText { raw: raw.to_string(), decimal: decimal.to_string() })
}

fn number(cell: &str) -> Result<f64, NumericError> {
    let text = numeric_text(cell)?;
    text.decimal.parse::<f64>().map_err(|_| text.malformed())
}

#[test]
fn comma_and_period_give_the_same_number() {
    assert_eq!(numeric_text("3,14"), prepared("3,14", "3.14"));
    assert_eq!(numeric_text("3.14"), prepared("3.14", "3.14"));
    assert_eq!(number("3,14"), Ok(3.14));
    assert_eq!(number("3,14"), number("3.14"));
    assert_eq!(number("300,5"), Ok(300.5));
    assert_eq!(number("0,987"), Ok(0.987));
}

#[test]
fn surrounding_white_space_is_removed() {
    assert_eq!(numeric_text("  42 "), prepared("42", "42"));
    assert_eq!(numeric_text("\t-1,5e3\r\n"), prepared("-1,5e3", "-1.5e3"));
    assert_eq!(numeric_text("\u{a0}7\u{3000}"), prepared("7", "7"));
    assert_eq!(number("\t-1,5e3\r\n"), Ok(-1500.0));
}

#[test]
fn inner_white_space_stays() {
    assert_eq!(numeric_text(" 1 000,5 "), prepared("1 000,5", "1 000.5"));
    assert_eq!(
        number(" 1 000,5 "),
        Err(NumericError::Malformed { text: "1 000,5".to_string() })
    );
}

#[test]
fn every_comma_becomes_a_period() {
    assert_eq!(numeric_text("1,2,3"), prepared("1,2,3", "1.2.3"));
    assert_eq!(numeric_text(",,"), prepared(",,", ".."));
    assert_eq!(numeric_text("1.2,3"), prepared("1.2,3", "1.2.3"));
}

#[test]
fn empty_cell_is_no_number() {
    assert_eq!(numeric_text(""), Err(NumericError::Empty));
    assert_eq!(number(""), Err(NumericError::Empty));
}

#[test]
fn blank_cell_is_no_number() {
    assert_eq!(numeric_text(" "), Err(NumericError::Empty));
    assert_eq!(numeric_text("   \t \r\n"), Err(NumericError::Empty));
    assert_eq!(numeric_text("\u{a0}\u{2003}\u{3000}"), Err(NumericError::Empty));
    assert_eq!(number("  "), Err(NumericError::Empty));
}

#[test]
fn text_that_is_no_number_is_malformed() {
    assert_eq!(number("abc"), Err(NumericError::Malformed { text: "abc".to_string() }));
    assert_eq!(number(" 1,2,3 "), Err(NumericError::Malformed { text: "1,2,3".to_string() }));
    assert_eq!(number("--1"), Err(NumericError::Malformed { text: "--1".to_string() }));
}

#[test]
fn zero_is_a_number() {
    assert_eq!(number("0"), Ok(0.0));
    assert_eq!(number(" 0,0 "), Ok(0.0));
}

#[test]
fn white_space_is_what_trimming_removes() {
    for code in 0..=0x10FFFFu32 {
        if let Some(c) = char::from_u32(code) {
            assert_eq!(is_space(c), c.is_whitespace(), "U+{:04X}", code);
            let alone = c.to_string();
            assert_eq!(numeric_text(&alone).is_err(), is_space(c), "U+{:04X}", code);
            let padded = format!("{}1{}", c, c);
            let text = numeric_text(&padded).unwrap();
            if is_space(c) {
                assert_eq!(text.raw, "1", "U+{:04X}", code);
            } else {
                assert_eq!(text.raw, padded, "U+{:04X}", code);
            }
        }
    }
}
