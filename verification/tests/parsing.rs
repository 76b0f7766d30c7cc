use congratulator::calendar::{Date, DateErrorKind};
use congratulator::dashboard::score_table::entities::{Percentage, Scores};
use congratulator::dashboard::score_table::error::{
    Empty, InvalidCell, ParseError, ScoreTableRecordError,
};
use congratulator::dashboard::score_table::ScoreTableRecord;
use congratulator::number::Number;
use congratulator::sheets::{CellData, CellFormat, ExtendedValue, NumberFormat};
use congratulator::text::IntErrorKind;

fn number(value: f64) -> Number {
    Number::from_bits(value.to_bits())
}

fn text_cell(text: &str) -> CellData {
    CellData {
        formatted_value: Some(text.to_string()),
        formatted_number: text.parse::<f64>().ok().map(number),
        effective_value: None,
        effective_format: None,
    }
}

fn typed_cell(text: Option<&str>, kind: Option<&str>) -> CellData {
    CellData {
        formatted_value: text.map(|t| t.to_string()),
        formatted_number: None,
        effective_value: None,
        effective_format: Some(CellFormat {
            number_format: Some(NumberFormat { type_: kind.map(|k| k.to_string()) }),
        }),
    }
}

fn date_cell(text: &str) -> CellData {
    typed_cell(Some(text), Some("DATE"))
}

fn full_row() -> Vec<CellData> {
    vec![
        date_cell("01.03.2024"),
        text_cell("5"),
        text_cell("3"),
        text_cell("4"),
        text_cell("2"),
        text_cell("1"),
        text_cell("0"),
        text_cell("15"),
        text_cell("60%"),
    ]
}

fn date_fault(text: &str) -> ScoreTableRecordError {
    ScoreTableRecord::parse_date(&date_cell(text)).unwrap_err()
}

fn date_kind(kind: DateErrorKind) -> ScoreTableRecordError {
    ScoreTableRecordError::ParseError(ParseError::DateParseError(kind))
}

fn percent_kind(kind: IntErrorKind) -> ScoreTableRecordError {
    ScoreTableRecordError::ParseError(ParseError::PercentParseError(kind))
}

#[test]
fn full_row_gives_the_record_of_its_cells() {
    let record = ScoreTableRecord::from_vec(&full_row()).unwrap();
    assert_eq!(record.date, Date { year: 2024, month: 3, day: 1 });
    assert_eq!(record.scores.sport, number(5.0));
    assert_eq!(record.scores.professional_growth, number(3.0));
    assert_eq!(record.scores.health, number(4.0));
    assert_eq!(record.scores.spiritual_growth, number(2.0));
    assert_eq!(record.scores.foreign_language, number(1.0));
    assert_eq!(record.scores.personal_dev, number(0.0));
    assert_eq!(record.total_score, number(15.0));
    assert_eq!(record.percent().value(), 60);
    assert!(record.has_total());
}

#[test]
fn reading_a_row_twice_gives_equal_records() {
    let row = full_row();
    assert_eq!(ScoreTableRecord::from_vec(&row), ScoreTableRecord::from_vec(&row));
    let faulty = vec![text_cell("01.03.2024")];
    assert_eq!(ScoreTableRecord::from_vec(&faulty), ScoreTableRecord::from_vec(&faulty));
}

#[test]
fn empty_row_gives_the_empty_record() {
    let record = ScoreTableRecord::from_vec(&[]).unwrap();
    assert_eq!(record, ScoreTableRecord::default());
    assert_eq!(record.date, Date { year: 1970, month: 1, day: 1 });
    assert_eq!(record.scores, Scores::default());
    assert_eq!(record.total_score.to_bits(), 0);
    assert_eq!(record.percent, Percentage::from(0));
    assert!(!record.has_total());
}

#[test]
fn short_row_leaves_the_missing_fields_empty() {
    let row = vec![date_cell("15.11.2023"), text_cell("2.5"), text_cell("1")];
    let record = ScoreTableRecord::from_vec(&row).unwrap();
    assert_eq!(record.date, Date { year: 2023, month: 11, day: 15 });
    assert_eq!(record.scores.sport, number(2.5));
    assert_eq!(record.scores.professional_growth, number(1.0));
    assert_eq!(record.scores.health, number(0.0));
    assert_eq!(record.scores.personal_dev, number(0.0));
    assert_eq!(record.total_score, number(0.0));
    assert_eq!(record.percent.value, 0);
    assert!(!record.has_total());
}

#[test]
fn tenth_cell_is_an_unexpected_field() {
    let mut row = full_row();
    row.push(text_cell("extra"));
    assert_eq!(
        ScoreTableRecord::from_vec(&row),
        Err(ScoreTableRecordError::UnexpectedFieldIndex(9))
    );
}

#[test]
fn first_faulty_cell_decides_the_error() {
    let mut row = full_row();
    row[3] = text_cell("many");
    row[8] = text_cell("60");
    row.push(text_cell("extra"));
    assert_eq!(
        ScoreTableRecord::from_vec(&row),
        Err(ScoreTableRecordError::ParseError(ParseError::ScoreParseError(3)))
    );
    row[0] = text_cell("01.03.2024");
    assert_eq!(
        ScoreTableRecord::from_vec(&row),
        Err(ScoreTableRecordError::Empty(Empty::EmptyEffectiveFormat(0)))
    );
}

#[test]
fn date_cell_needs_a_format() {
    assert_eq!(
        ScoreTableRecord::parse_date(&text_cell("01.03.2024")),
        Err(ScoreTableRecordError::Empty(Empty::EmptyEffectiveFormat(0)))
    );
}

#[test]
fn date_cell_needs_a_number_format() {
    let cell = CellData {
        formatted_value: Some("01.03.2024".to_string()),
        formatted_number: None,
        effective_value: None,
        effective_format: Some(CellFormat { number_format: None }),
    };
    assert_eq!(
        ScoreTableRecord::parse_date(&cell),
        Err(ScoreTableRecordError::InvalidCell(InvalidCell::InvalidDateCell(
            "date cell should have NumberFormat"
        )))
    );
}

#[test]
fn date_cell_needs_the_date_type() {
    let other = Err(ScoreTableRecordError::InvalidCell(InvalidCell::InvalidDateCell(
        "google API cell type is other than DATE",
    )));
    assert_eq!(ScoreTableRecord::parse_date(&typed_cell(Some("01.03.2024"), Some("NUMBER"))), other);
    assert_eq!(ScoreTableRecord::parse_date(&typed_cell(Some("01.03.2024"), Some("date"))), other);
    assert_eq!(ScoreTableRecord::parse_date(&typed_cell(Some("01.03.2024"), Some("DATES"))), other);
    assert_eq!(ScoreTableRecord::parse_date(&typed_cell(Some("01.03.2024"), None)), other);
}

#[test]
fn date_cell_needs_a_text() {
    assert_eq!(
        ScoreTableRecord::parse_date(&typed_cell(None, Some("DATE"))),
        Err(ScoreTableRecordError::InvalidCell(InvalidCell::InvalidDateCell(
            "can't be empty formatted value for date"
        )))
    );
}

#[test]
fn date_text_is_read_as_day_month_year() {
    assert_eq!(
        ScoreTableRecord::parse_date(&date_cell("01.03.2024")),
        Ok(Date { year: 2024, month: 3, day: 1 })
    );
    assert_eq!(
        ScoreTableRecord::parse_date(&date_cell("29.02.2024")),
        Ok(Date { year: 2024, month: 2, day: 29 })
    );
    assert_eq!(
        ScoreTableRecord::parse_date(&date_cell("31.12.1999")),
        Ok(Date { year: 1999, month: 12, day: 31 })
    );
}

#[test]
fn date_text_faults_are_told_apart() {
    assert_eq!(date_fault("32.01.2024"), date_kind(DateErrorKind::OutOfRange));
    assert_eq!(date_fault("29.02.2023"), date_kind(DateErrorKind::OutOfRange));
    assert_eq!(date_fault("01.13.2024"), date_kind(DateErrorKind::OutOfRange));
    assert_eq!(date_fault("2024-03-01"), date_kind(DateErrorKind::Invalid));
    assert_eq!(date_fault("first of March"), date_kind(DateErrorKind::Invalid));
    assert_eq!(date_fault("01.03"), date_kind(DateErrorKind::TooShort));
    assert_eq!(date_fault(""), date_kind(DateErrorKind::TooShort));
    assert_eq!(date_fault("01.03.2024 and more"), date_kind(DateErrorKind::TooLong));
}

#[test]
fn date_outcome_is_passed_on() {
    let date = Date { year: 2024, month: 3, day: 1 };
    assert_eq!(ScoreTableRecord::date_from_outcome(Ok(date)), Ok(date));
    let kinds = [
        DateErrorKind::OutOfRange,
        DateErrorKind::Impossible,
        DateErrorKind::NotEnough,
        DateErrorKind::Invalid,
        DateErrorKind::TooShort,
        DateErrorKind::TooLong,
        DateErrorKind::BadFormat,
    ];
    for kind in kinds {
        assert_eq!(ScoreTableRecord::date_from_outcome(Err(kind)), Err(date_kind(kind)));
    }
}

#[test]
fn score_without_text_is_not_entered() {
    let cell = CellData {
        formatted_value: None,
        formatted_number: None,
        effective_value: Some(ExtendedValue { number_value: Some(number(7.0)) }),
        effective_format: None,
    };
    assert_eq!(ScoreTableRecord::parse_score(&cell, 4), Ok(number(0.0)));
    assert_eq!(ScoreTableRecord::parse_score(&CellData::default(), 1), Ok(Number::default()));
}

#[test]
fn score_is_the_number_that_the_text_writes() {
    assert_eq!(ScoreTableRecord::parse_score(&text_cell("5"), 1), Ok(number(5.0)));
    assert_eq!(ScoreTableRecord::parse_score(&text_cell("0.5"), 2), Ok(number(0.5)));
    assert_eq!(ScoreTableRecord::parse_score(&text_cell("-1e3"), 7), Ok(number(-1000.0)));
    let mut cell = text_cell("5");
    cell.effective_value = Some(ExtendedValue { number_value: Some(number(9.0)) });
    assert_eq!(ScoreTableRecord::parse_score(&cell, 1), Ok(number(5.0)));
}

#[test]
fn score_falls_back_to_the_number_under_the_text() {
    let mut cell = text_cell("1,5");
    cell.effective_value = Some(ExtendedValue { number_value: Some(number(1.5)) });
    assert_eq!(ScoreTableRecord::parse_score(&cell, 3), Ok(number(1.5)));
}

#[test]
fn score_without_any_number_is_a_parse_error() {
    let fault = |index| Err(ScoreTableRecordError::ParseError(ParseError::ScoreParseError(index)));
    assert_eq!(ScoreTableRecord::parse_score(&text_cell("1,5"), 3), fault(3));
    let mut cell = text_cell("n/a");
    cell.effective_value = Some(ExtendedValue { number_value: None });
    assert_eq!(ScoreTableRecord::parse_score(&cell, 7), fault(7));
    assert_eq!(ScoreTableRecord::parse_score(&text_cell(""), 1), fault(1));
}

#[test]
fn percentage_without_text_is_zero() {
    assert_eq!(ScoreTableRecord::parse_percentage(&CellData::default()), Ok(Percentage::from(0)));
}

#[test]
fn percentage_is_the_number_before_the_sign() {
    assert_eq!(ScoreTableRecord::parse_percentage(&text_cell("60%")), Ok(Percentage::from(60)));
    assert_eq!(ScoreTableRecord::parse_percentage(&text_cell("0%")), Ok(Percentage::from(0)));
    assert_eq!(ScoreTableRecord::parse_percentage(&text_cell("100%")), Ok(Percentage::from(100)));
    assert_eq!(ScoreTableRecord::parse_percentage(&text_cell("+7%")), Ok(Percentage::from(7)));
    assert_eq!(ScoreTableRecord::parse_percentage(&text_cell("-12%")), Ok(Percentage::from(-12)));
    assert_eq!(ScoreTableRecord::parse_percentage(&text_cell("007%")), Ok(Percentage::from(7)));
    assert_eq!(
        ScoreTableRecord::percentage_from_text("2147483647%"),
        Ok(Percentage::from(i32::MAX))
    );
    assert_eq!(
        ScoreTableRecord::percentage_from_text("-2147483648%"),
        Ok(Percentage::from(i32::MIN))
    );
}

#[test]
fn percentage_needs_the_sign() {
    let fault = Err(ScoreTableRecordError::InvalidCell(InvalidCell::InvalidPercentCell(
        "percent cell should end up with %",
    )));
    assert_eq!(ScoreTableRecord::parse_percentage(&text_cell("60")), fault);
    assert_eq!(ScoreTableRecord::parse_percentage(&text_cell("")), fault);
    assert_eq!(ScoreTableRecord::parse_percentage(&text_cell("%60")), fault);
    assert_eq!(ScoreTableRecord::parse_percentage(&text_cell("60% ")), fault);
}

#[test]
fn percentage_faults_are_told_apart() {
    assert_eq!(
        ScoreTableRecord::parse_percentage(&text_cell("%")),
        Err(percent_kind(IntErrorKind::Empty))
    );
    assert_eq!(
        ScoreTableRecord::parse_percentage(&text_cell("6o%")),
        Err(percent_kind(IntErrorKind::InvalidDigit))
    );
    assert_eq!(
        ScoreTableRecord::parse_percentage(&text_cell("60.5%")),
        Err(percent_kind(IntErrorKind::InvalidDigit))
    );
    assert_eq!(
        ScoreTableRecord::parse_percentage(&text_cell("-%")),
        Err(percent_kind(IntErrorKind::InvalidDigit))
    );
    assert_eq!(
        ScoreTableRecord::parse_percentage(&text_cell("2147483648%")),
        Err(percent_kind(IntErrorKind::PosOverflow))
    );
    assert_eq!(
        ScoreTableRecord::parse_percentage(&text_cell("-2147483649%")),
        Err(percent_kind(IntErrorKind::NegOverflow))
    );
}

#[test]
fn record_has_a_total_unless_it_is_zero() {
    let date = Date { year: 2024, month: 3, day: 1 };
    let with = |total: f64| {
        ScoreTableRecord::new(date, Scores::default(), number(total), Percentage::from(0))
    };
    assert!(with(15.0).has_total());
    assert!(with(-1.0).has_total());
    assert!(with(f64::NAN).has_total());
    assert!(with(f64::MIN_POSITIVE).has_total());
    assert!(!with(0.0).has_total());
    assert!(!with(-0.0).has_total());
}

#[test]
fn scores_are_set_one_by_one() {
    let mut scores = Scores::default();
    scores.set_sport(number(1.0));
    scores.set_professional_growth(number(2.0));
    scores.set_health(number(3.0));
    scores.set_spiritual_growth(number(4.0));
    scores.set_foreign_language(number(5.0));
    scores.set_personal_dev(number(6.0));
    assert_eq!(
        scores,
        Scores {
            sport: number(1.0),
            professional_growth: number(2.0),
            health: number(3.0),
            spiritual_growth: number(4.0),
            foreign_language: number(5.0),
            personal_dev: number(6.0),
        }
    );
    assert_eq!(Scores::uninitialized_score(), number(0.0));
}

#[test]
fn number_keeps_its_bits() {
    for value in [0.0, -0.0, 1.5, -7.25, f64::MAX, f64::INFINITY] {
        let n = number(value);
        assert_eq!(f64::from_bits(n.to_bits()), value);
        assert_eq!(n.equals_zero(), value == 0.0);
    }
    assert!(!number(f64::NAN).equals_zero());
}
