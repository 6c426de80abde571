use bitjo::calendar::{day_file_name, header_day, DAY_FILE, HEADER_DAY};
use bitjo::services::LocalDiskJournal;

#[test]
fn a_day_names_its_file() {
    assert_eq!(day_file_name(2024, 1, 5), Some("2024-01-05.yaml".to_string()));
    assert_eq!(day_file_name(1999, 12, 31), Some("1999-12-31.yaml".to_string()));
    assert_eq!(day_file_name(2024, 2, 29), Some("2024-02-29.yaml".to_string()));
}

#[test]
fn a_day_that_does_not_exist_names_no_file() {
    assert_eq!(day_file_name(2023, 2, 29), None);
    assert_eq!(day_file_name(2024, 0, 1), None);
    assert_eq!(day_file_name(2024, 13, 1), None);
    assert_eq!(day_file_name(2024, 4, 31), None);
    assert_eq!(day_file_name(2024, 1, 0), None);
}

#[test]
fn the_header_shows_weekday_month_and_day() {
    assert_eq!(header_day(2024, 1, 5), Some("Fri, Jan  5".to_string()));
    assert_eq!(header_day(2022, 11, 23), Some("Wed, Nov 23".to_string()));
    assert_eq!(header_day(2022, 11, 31), None);
}

#[test]
fn the_patterns_are_those_of_the_journal() {
    assert_eq!(DAY_FILE, "%Y-%m-%d.yaml");
    assert_eq!(HEADER_DAY, "%a, %b %e");
}

#[test]
fn a_given_name_wins_over_the_day() {
    assert_eq!(
        LocalDiskJournal::resolve(Some("t.yaml".to_string()), 2024, 1, 5),
        Some("t.yaml".to_string())
    );
    assert_eq!(
        LocalDiskJournal::resolve(Some("t.yaml".to_string()), 2024, 2, 31),
        Some("t.yaml".to_string())
    );
    assert_eq!(LocalDiskJournal::resolve(None, 2024, 1, 5), Some("2024-01-05.yaml".to_string()));
    assert_eq!(LocalDiskJournal::resolve(None, 2024, 2, 31), None);
}

#[test]
fn years_are_written_in_four_digits() {
    assert_eq!(day_file_name(0, 1, 1), Some("0000-01-01.yaml".to_string()));
    assert_eq!(day_file_name(5, 3, 7), Some("0005-03-07.yaml".to_string()));
    assert_eq!(day_file_name(476, 9, 4), Some("0476-09-04.yaml".to_string()));
    assert_eq!(day_file_name(9999, 12, 31), Some("9999-12-31.yaml".to_string()));
}

#[test]
fn every_day_of_a_year_has_a_file_and_no_other_day_has() {
    for year in [0, 4, 100, 400, 1900, 2000, 2023, 2024, 9999] {
        let leap = year % 4 == 0 && (year % 100 != 0 || year % 400 == 0);
        for month in 0..=13u32 {
            let days = match month {
                2 if leap => 29,
                2 => 28,
                4 | 6 | 9 | 11 => 30,
                1..=12 => 31,
                _ => 0,
            };
            for day in 0..=32u32 {
                let expected = if 1 <= day && day <= days {
                    Some(format!("{:04}-{:02}-{:02}.yaml", year, month, day))
                } else {
                    None
                };
                assert_eq!(day_file_name(year, month, day), expected);
                assert_eq!(header_day(year, month, day).is_some(), expected.is_some());
            }
        }
    }
}
