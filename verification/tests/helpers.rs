use congratulator::api::helpers::{
    derive_title_name, derive_title_name_on, get_sheet_id_by_title, Month,
};
use congratulator::bot::config::CongratulatorConfig;
use congratulator::calendar::Date;
use congratulator::helpers::{format_summary_msg, PeriodicTimeUtc};
use congratulator::sheets::{Sheet, SheetProperties};

fn sheet(title: Option<&str>, sheet_id: Option<i32>) -> Sheet {
    Sheet {
        properties: Some(SheetProperties { sheet_id, title: title.map(|t| t.to_string()) }),
        data: None,
    }
}

#[test]
fn months_have_their_names() {
    let russian = [
        "Январь", "Февраль", "Март", "Апрель", "Май", "Июнь", "Июль", "Август", "Сентябрь",
        "Октябрь", "Ноябрь", "Декабрь",
    ];
    let english = [
        "January", "February", "March", "April", "May", "June", "July", "August", "September",
        "October", "November", "December",
    ];
    for number in 1..=12u8 {
        let month = Month::new(number);
        assert_eq!(month.get_num(), number);
        assert_eq!(month.get_ru(), russian[number as usize - 1]);
        assert_eq!(month.get_en(), english[number as usize - 1]);
    }
}

#[test]
fn months_go_round_the_year() {
    assert_eq!(Month::new(1).prev().get_num(), 12);
    assert_eq!(Month::new(12).next().get_num(), 1);
    assert_eq!(Month::new(3).prev().get_en(), "February");
    assert_eq!(Month::new(3).next().get_ru(), "Апрель");
    for number in 1..=12u8 {
        assert_eq!(Month::new(number).next().prev().get_num(), number);
        assert_eq!(Month::new(number).prev().next().get_num(), number);
    }
}

#[test]
fn title_is_the_month_and_the_short_year() {
    assert_eq!(derive_title_name_on(&Date { year: 2024, month: 3, day: 1 }), "Март 24");
    assert_eq!(derive_title_name_on(&Date { year: 2023, month: 12, day: 31 }), "Декабрь 23");
    assert_eq!(derive_title_name_on(&Date { year: 2005, month: 1, day: 15 }), "Январь 05");
    assert_eq!(derive_title_name_on(&Date { year: 2100, month: 8, day: 2 }), "Август 00");
    assert_eq!(derive_title_name_on(&Date { year: 65535, month: 5, day: 2 }), "Май 35");
    assert_eq!(derive_title_name_on(&Date { year: 10, month: 6, day: 2 }), "Июнь 10");
}

#[test]
fn title_is_defined_for_every_year() {
    assert_eq!(derive_title_name_on(&Date { year: 7, month: 2, day: 2 }), "Февраль 07");
    assert_eq!(derive_title_name_on(&Date { year: 0, month: 4, day: 2 }), "Апрель 00");
    assert_eq!(derive_title_name_on(&Date { year: -1, month: 7, day: 2 }), "Июль 99");
    assert_eq!(derive_title_name_on(&Date { year: -2024, month: 9, day: 2 }), "Сентябрь 76");
    assert_eq!(derive_title_name_on(&Date { year: i32::MAX, month: 10, day: 2 }), "Октябрь 47");
    assert_eq!(derive_title_name_on(&Date { year: i32::MIN, month: 11, day: 2 }), "Ноябрь 52");
}

#[test]
fn current_title_is_a_month_and_two_digits() {
    let title = derive_title_name();
    let (month, year) = title.rsplit_once(' ').unwrap();
    assert!((1..=12u8).any(|number| Month::new(number).get_ru() == month));
    assert_eq!(year.len(), 2);
    assert!(year.chars().all(|c| c.is_ascii_digit()));
    let today = chrono::Utc::now().date_naive();
    let now = derive_title_name_on(&Date {
        year: chrono::Datelike::year(&today),
        month: chrono::Datelike::month(&today),
        day: chrono::Datelike::day(&today),
    });
    assert!(title == now || derive_title_name() == now);
}

#[test]
fn sheet_is_found_by_its_title() {
    let sheets = vec![
        Sheet { properties: None, data: None },
        sheet(None, Some(1)),
        sheet(Some("Февраль 24"), Some(2)),
        sheet(Some("Март 24"), Some(3)),
        sheet(Some("Март 24"), Some(4)),
    ];
    assert_eq!(get_sheet_id_by_title(&sheets, "Март 24"), Some(3));
    assert_eq!(get_sheet_id_by_title(&sheets, "Февраль 24"), Some(2));
    assert_eq!(get_sheet_id_by_title(&sheets, "Апрель 24"), None);
    assert_eq!(get_sheet_id_by_title(&sheets, "март 24"), None);
    assert_eq!(get_sheet_id_by_title(&[], "Март 24"), None);
}

#[test]
fn first_titled_sheet_decides_even_without_a_number() {
    let sheets = vec![sheet(Some("Март 24"), None), sheet(Some("Март 24"), Some(4))];
    assert_eq!(get_sheet_id_by_title(&sheets, "Март 24"), None);
}

#[test]
fn summary_lines_are_joined_by_line_breaks() {
    let date = Date { year: 2024, month: 3, day: 1 };
    let lines = vec!["Анна: 60%".to_string(), "Борис: 45.5%".to_string(), "".to_string()];
    assert_eq!(format_summary_msg(&lines, &date), "Анна: 60%\nБорис: 45.5%\n");
    assert_eq!(format_summary_msg(&vec!["one".to_string()], &date), "one");
    assert_eq!(
        format_summary_msg(&vec!["a".to_string(), "b".to_string()], &date),
        "a\nb"
    );
}

#[test]
fn empty_summary_says_that_nobody_filled_the_day() {
    let date = Date { year: 2024, month: 3, day: 1 };
    assert_eq!(
        format_summary_msg(&Vec::new(), &date),
        "*01\\.03\\.2024* пока еще *ни один* из участников таблицу не заполнял 😩😭"
    );
}

#[test]
fn times_of_running_are_described() {
    assert_eq!(PeriodicTimeUtc::every_day_time_utc(18, 0, 0), PeriodicTimeUtc::EveryDay(18, 0, 0));
    assert_eq!(PeriodicTimeUtc::every_min_time_utc(5), PeriodicTimeUtc::EveryMin(5));
    assert_eq!(
        PeriodicTimeUtc::every_day_time_utc(18, 0, 0).describe(),
        "ежедневно в 18:00:00 UTC"
    );
    assert_eq!(
        PeriodicTimeUtc::every_day_time_utc(7, 5, 59).describe(),
        "ежедневно в 07:05:59 UTC"
    );
    assert_eq!(
        PeriodicTimeUtc::every_day_time_utc(123, 4, 5).describe(),
        "ежедневно в 123:04:05 UTC"
    );
    assert_eq!(PeriodicTimeUtc::every_min_time_utc(5).describe(), "каждые 5 минут(ы)");
    assert_eq!(PeriodicTimeUtc::every_min_time_utc(0).describe(), "каждые 0 минут(ы)");
    assert_eq!(PeriodicTimeUtc::every_min_time_utc(1440).describe(), "каждые 1440 минут(ы)");
}

#[test]
fn config_hands_out_its_settings() {
    let config = CongratulatorConfig::new(
        "token".to_string(),
        "sheet".to_string(),
        -100123,
        "{\"key\": 1}".to_string(),
        15,
    );
    assert_eq!(config.bot_token_str(), "token");
    assert_eq!(config.spreadsheet_id(), "sheet");
    assert_eq!(config.notify_chat_id(), -100123);
    assert_eq!(config.api_service_key(), "{\"key\": 1}");
    assert_eq!(config.fetch_data_interval_min(), 15);
}
