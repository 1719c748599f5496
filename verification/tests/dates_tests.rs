use onboarder::dates::{date_path, dated_dir_on, get_dated_dir, join_path, CalendarDate};

#[test]
fn date_path_pads_month_and_day() {
    let date = CalendarDate { year: 2024, month: 3, day: 7 };
    assert_eq!(date_path(&date), "2024/03/07");
    let date = CalendarDate { year: 2025, month: 12, day: 31 };
    assert_eq!(date_path(&date), "2025/12/31");
    let date = CalendarDate { year: 2025, month: 10, day: 1 };
    assert_eq!(date_path(&date), "2025/10/01");
}

#[test]
fn date_path_writes_the_year_as_it_is() {
    let date = CalendarDate { year: 999, month: 1, day: 9 };
    assert_eq!(date_path(&date), "999/01/09");
    let date = CalendarDate { year: -44, month: 3, day: 15 };
    assert_eq!(date_path(&date), "-44/03/15");
    let date = CalendarDate { year: 0, month: 1, day: 1 };
    assert_eq!(date_path(&date), "0/01/01");
}

#[test]
fn date_path_agrees_with_format() {
    for (year, month, day) in [(1970, 1, 1), (2024, 2, 29), (2031, 11, 9), (12345, 6, 30)] {
        let date = CalendarDate { year, month, day };
        assert_eq!(date_path(&date), format!("{}/{:02}/{:02}", year, month, day));
    }
}

#[test]
fn join_path_puts_one_separator() {
    assert_eq!(join_path("notes", "2024/03/07"), "notes/2024/03/07");
    assert_eq!(join_path("notes/", "2024/03/07"), "notes/2024/03/07");
    assert_eq!(join_path("", "2024/03/07"), "2024/03/07");
    assert_eq!(join_path("/", "x"), "/x");
    assert_eq!(join_path("a/b", ""), "a/b/");
}

#[test]
fn dated_dir_is_parent_and_date() {
    let date = CalendarDate { year: 2024, month: 3, day: 7 };
    assert_eq!(dated_dir_on("/data/notes", &date), "/data/notes/2024/03/07");
    assert_eq!(dated_dir_on("/data/notes/", &date), "/data/notes/2024/03/07");
}

#[test]
fn calendar_date_validity() {
    assert!(CalendarDate { year: 2024, month: 1, day: 1 }.is_valid());
    assert!(CalendarDate { year: 2024, month: 12, day: 31 }.is_valid());
    assert!(!CalendarDate { year: 2024, month: 0, day: 1 }.is_valid());
    assert!(!CalendarDate { year: 2024, month: 13, day: 1 }.is_valid());
    assert!(!CalendarDate { year: 2024, month: 1, day: 0 }.is_valid());
    assert!(!CalendarDate { year: 2024, month: 1, day: 32 }.is_valid());
}

#[test]
fn get_dated_dir_names_todays_directory() {
    let dated = get_dated_dir("/data/downloads");
    assert!(dated.date.is_valid());
    assert!(dated.date.year >= 2024);
    assert_eq!(dated.path, dated_dir_on("/data/downloads", &dated.date));
    assert!(dated.path.starts_with("/data/downloads/"));
}

#[test]
fn get_dated_dir_twice_on_one_day_agrees() {
    let first = get_dated_dir("base");
    let second = get_dated_dir("base");
    if first.date == second.date {
        assert_eq!(first.path, second.path);
    }
}
