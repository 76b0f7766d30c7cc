use std::collections::hash_map::DefaultHasher;
use std::hash::{Hash, Hasher};

use congratulator::calendar::Date;
use congratulator::dashboard::analyzer::DashboardAnalyzer;
use congratulator::dashboard::score_table::entities::{Percentage, Person, Scores};
use congratulator::dashboard::score_table::{ScoreTable, ScoreTableRecord};
use congratulator::dashboard::{Dashboard, DashboardError};
use congratulator::number::Number;

fn date(day: u32) -> Date {
    Date { year: 2024, month: 3, day }
}

fn record(day: u32, total: f64) -> ScoreTableRecord {
    ScoreTableRecord::new(
        date(day),
        Scores::default(),
        Number::from_bits(total.to_bits()),
        Percentage::from(day as i32),
    )
}

fn table(name: &str, records: Vec<ScoreTableRecord>) -> ScoreTable {
    ScoreTable::new(Person::new(name.to_string()), records)
}

fn three_persons() -> Dashboard {
    Dashboard::from(vec![
        table("Анна", vec![record(1, 10.0), record(2, 0.0), record(3, 12.0)]),
        table("Борис", vec![record(1, 0.0), record(2, 7.0), record(3, 0.0)]),
        table("Вера", vec![record(1, 0.0), record(2, 0.0)]),
    ])
}

#[test]
fn person_number_is_the_hash_of_the_name() {
    for name in ["", "Анна", "Anna Maria", "x"] {
        let mut hasher = DefaultHasher::new();
        name.to_string().hash(&mut hasher);
        assert_eq!(Person::new(name.to_string()).id(), hasher.finish());
    }
}

#[test]
fn persons_are_equal_when_their_names_are() {
    assert!(Person::new("Анна".to_string()) == Person::new("Анна".to_string()));
    assert!(Person::new("Анна".to_string()) != Person::new("Анна ".to_string()));
    assert!(Person::new("".to_string()) != Person::new("Борис".to_string()));
    assert_eq!(Person::new("Анна".to_string()).name(), "Анна");
}

#[test]
fn percentage_keeps_its_value() {
    assert_eq!(Percentage::from(60).value(), 60);
    assert_eq!(Percentage::from(-5).value(), -5);
    assert_eq!(Percentage::default().value(), 0);
    assert!(Percentage::from(10) < Percentage::from(60));
}

#[test]
fn table_finds_its_last_records() {
    let t = table("Анна", vec![record(1, 10.0), record(2, 5.0), record(3, 0.0), record(4, -0.0)]);
    assert_eq!(t.person().name(), "Анна");
    assert_eq!(t.last_record(), Some(&record(4, -0.0)));
    assert_eq!(t.last_filled_record(), Some(&record(2, 5.0)));
    assert_eq!(t.by_date(&date(3)), Some(&record(3, 0.0)));
    assert_eq!(t.by_date(&date(9)), None);
    let empty = table("Борис", Vec::new());
    assert_eq!(empty.last_record(), None);
    assert_eq!(empty.last_filled_record(), None);
    assert_eq!(empty.by_date(&date(1)), None);
    let unfilled = table("Вера", vec![record(1, 0.0)]);
    assert_eq!(unfilled.last_filled_record(), None);
}

#[test]
fn table_takes_the_last_record_of_a_repeated_date() {
    let first = ScoreTableRecord::new(
        date(1),
        Scores::default(),
        Number::from_bits(3.0f64.to_bits()),
        Percentage::from(1),
    );
    let second = ScoreTableRecord::new(date(1), Scores::default(), Number::default(), Percentage::from(2));
    let t = table("Анна", vec![first, record(2, 1.0), second]);
    assert_eq!(t.by_date(&date(1)), Some(&second));
    let dashboard = Dashboard::from(vec![t]);
    let anna = Person::new("Анна".to_string());
    assert_eq!(dashboard.find_filled_score_table_record(&anna, &date(1)), None);
    assert_eq!(dashboard.find_filled_score_table_record(&anna, &date(2)), Some(&record(2, 1.0)));
}

#[test]
fn new_dashboard_holds_no_reading() {
    let dashboard = Dashboard::new();
    assert!(dashboard.tables().is_none());
    assert!(dashboard.participants().is_none());
    assert!(dashboard.participants_names().is_none());
    assert!(dashboard.find_table(&Person::new("Анна".to_string())).is_none());
    assert!(dashboard.get_person_by_name("Анна").is_none());
    assert!(Dashboard::default().tables().is_none());
}

#[test]
fn dashboard_is_initialized_once() {
    let mut dashboard = Dashboard::new();
    assert!(dashboard.initialize(vec![table("Анна", Vec::new())]));
    assert_eq!(dashboard.participants_names(), Some(vec!["Анна"]));
    assert!(!dashboard.initialize(vec![table("Борис", Vec::new())]));
    assert_eq!(dashboard.participants_names(), Some(vec!["Анна"]));
    let mut read = Dashboard::from(Vec::new());
    assert!(!read.initialize(vec![table("Вера", Vec::new())]));
    assert_eq!(read.participants_names(), Some(Vec::new()));
}

#[test]
fn dashboard_is_replaced_whole() {
    let mut dashboard = three_persons();
    dashboard.replace(Dashboard::from(vec![table("Глеб", vec![record(5, 1.0)])]));
    assert_eq!(dashboard.participants_names(), Some(vec!["Глеб"]));
    assert!(dashboard.get_person_by_name("Анна").is_none());
    assert_eq!(dashboard.tables().unwrap().len(), 1);
    dashboard.replace(Dashboard::new());
    assert!(dashboard.tables().is_none());
    dashboard.replace(three_persons());
    assert_eq!(dashboard.participants_names(), Some(vec!["Анна", "Борис", "Вера"]));
}

#[test]
fn dashboard_lists_its_persons_in_order() {
    let dashboard = three_persons();
    let names: Vec<&str> = dashboard.participants().unwrap().iter().map(|p| p.name()).collect();
    assert_eq!(names, vec!["Анна", "Борис", "Вера"]);
    assert_eq!(dashboard.participants_names(), Some(vec!["Анна", "Борис", "Вера"]));
    assert_eq!(dashboard.build_analyzer().participants().unwrap().len(), 3);
}

#[test]
fn dashboard_finds_persons_and_tables_by_name() {
    let dashboard = three_persons();
    assert_eq!(dashboard.get_person_by_name("Борис").unwrap().name(), "Борис");
    assert!(dashboard.get_person_by_name("борис").is_none());
    let boris = Person::new("Борис".to_string());
    assert_eq!(dashboard.find_table(&boris).unwrap().records().len(), 3);
    assert!(dashboard.find_table(&Person::new("Глеб".to_string())).is_none());
}

#[test]
fn dashboard_takes_the_first_table_of_a_repeated_name() {
    let dashboard = Dashboard::from(vec![
        table("Анна", vec![record(1, 1.0)]),
        table("Анна", vec![record(1, 2.0), record(2, 3.0)]),
    ]);
    let anna = Person::new("Анна".to_string());
    assert_eq!(dashboard.find_table(&anna).unwrap().records().len(), 1);
    assert_eq!(dashboard.last_filled_score_table_record(&anna), Some(&record(1, 1.0)));
}

#[test]
fn dashboard_finds_the_last_filled_day() {
    let dashboard = three_persons();
    let anna = Person::new("Анна".to_string());
    let boris = Person::new("Борис".to_string());
    let vera = Person::new("Вера".to_string());
    let gleb = Person::new("Глеб".to_string());
    assert_eq!(dashboard.last_filled_score_table_record(&anna), Some(&record(3, 12.0)));
    assert_eq!(dashboard.last_filled_score_table_record(&boris), Some(&record(2, 7.0)));
    assert_eq!(dashboard.last_filled_score_table_record(&vera), None);
    assert_eq!(dashboard.last_filled_score_table_record(&gleb), None);
}

#[test]
fn dashboard_finds_the_filled_record_of_a_day() {
    let dashboard = three_persons();
    let anna = Person::new("Анна".to_string());
    let gleb = Person::new("Глеб".to_string());
    assert_eq!(dashboard.find_filled_score_table_record(&anna, &date(1)), Some(&record(1, 10.0)));
    assert_eq!(dashboard.find_filled_score_table_record(&anna, &date(2)), None);
    assert_eq!(dashboard.find_filled_score_table_record(&anna, &date(4)), None);
    assert_eq!(dashboard.find_filled_score_table_record(&gleb, &date(1)), None);
    let analyzer = DashboardAnalyzer::new(&dashboard);
    assert_eq!(
        analyzer.find_filled_score_table_record(&anna, &date(3)),
        Some(&record(3, 12.0))
    );
    assert_eq!(analyzer.find_filled_score_table_record(&anna, &date(2)), None);
}

#[test]
fn analyzer_finds_the_filled_record_of_today() {
    let today = chrono::Utc::now().date_naive();
    let now = Date {
        year: chrono::Datelike::year(&today),
        month: chrono::Datelike::month(&today),
        day: chrono::Datelike::day(&today),
    };
    let filled = ScoreTableRecord::new(
        now,
        Scores::default(),
        Number::from_bits(4.0f64.to_bits()),
        Percentage::from(40),
    );
    let dashboard = Dashboard::from(vec![
        table("Анна", vec![record(1, 10.0), filled]),
        table("Борис", vec![record(1, 10.0)]),
    ]);
    let analyzer = dashboard.build_analyzer();
    let anna = Person::new("Анна".to_string());
    let boris = Person::new("Борис".to_string());
    let found = analyzer.today_filled_score_table_record(&anna);
    assert!(found == Some(&filled) || analyzer.today_filled_score_table_record(&anna).is_none());
    assert_eq!(analyzer.today_filled_score_table_record(&boris), None);
    assert_eq!(
        analyzer.today_filled_score_table_record(&Person::new("Глеб".to_string())),
        None
    );
}

#[test]
fn summary_holds_those_who_filled_the_day() {
    let dashboard = three_persons();
    let summary = dashboard.summary(&date(2)).unwrap();
    assert_eq!(summary.len(), 1);
    assert_eq!(summary[0].0.name(), "Борис");
    assert_eq!(summary[0].1, &record(2, 7.0));
    let first = dashboard.summary(&date(1)).unwrap();
    assert_eq!(first.len(), 1);
    assert_eq!(first[0].0.name(), "Анна");
    assert_eq!(dashboard.summary(&date(9)).unwrap().len(), 0);
}

#[test]
fn summary_keeps_the_order_of_the_tables() {
    let dashboard = Dashboard::from(vec![
        table("Вера", vec![record(1, 1.0)]),
        table("Анна", vec![record(1, 0.0)]),
        table("Борис", vec![record(1, 2.0)]),
    ]);
    let summary = dashboard.summary(&date(1)).unwrap();
    let names: Vec<&str> = summary.iter().map(|entry| entry.0.name()).collect();
    assert_eq!(names, vec!["Вера", "Борис"]);
}

#[test]
fn summary_needs_persons() {
    assert_eq!(
        Dashboard::from(Vec::new()).summary(&date(1)).err(),
        Some(DashboardError::EmptyParticipants)
    );
    assert_eq!(Dashboard::new().summary(&date(1)).err(), Some(DashboardError::EmptyParticipants));
    assert!(three_persons().summary(&date(1)).is_ok());
}
