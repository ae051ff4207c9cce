use people_db::collection::{add_person, delete_person, edit_person};
use people_db::date::Date;
use people_db::error::DbError;
use people_db::person::Person;
use people_db::sport::Sport;
use people_db::table::{table_rows, PersonTableRow};

fn date(year: i32, month: u32, day: u32) -> Date {
    Date::from_ymd(year, month, day).unwrap()
}

fn person(first: &str, last: &str, dob: Date, sport: Sport) -> Person {
    Person::new(first.to_string(), last.to_string(), dob, sport)
}

fn three() -> Vec<Person> {
    vec![
        person("Jane", "Doe", date(1990, 5, 14), Sport::Soccer),
        person("John", "Roe", date(1985, 1, 2), Sport::Golf),
        person("Ann", "Poe", date(2001, 12, 31), Sport::Other("curling".to_string())),
    ]
}

#[test]
fn new_keeps_the_fields() {
    let p = Person::new("Jane".to_string(), "Doe".to_string(), date(1990, 5, 14), Sport::Soccer);
    assert_eq!(p.first_name, "Jane");
    assert_eq!(p.last_name, "Doe");
    assert_eq!(p.date_of_birth, date(1990, 5, 14));
    assert_eq!(p.favorite_sport, Sport::Soccer);
    let q = Person::new(String::new(), String::new(), date(0, 1, 1), Sport::Other(String::new()));
    assert_eq!(q.first_name, "");
    assert_eq!(q.date_of_birth.year(), 0);
}

#[test]
fn age_counts_years_of_365_days() {
    let today = date(2024, 6, 15);
    assert_eq!(person("A", "B", date(1994, 6, 23), Sport::Golf).get_age(&today), 30);
    assert_eq!(person("A", "B", today, Sport::Golf).get_age(&today), 0);
    assert_eq!(person("A", "B", date(2023, 6, 17), Sport::Golf).get_age(&today), 0);
    assert_eq!(person("A", "B", date(2023, 6, 16), Sport::Golf).get_age(&today), 1);
    assert_eq!(person("A", "B", date(1990, 5, 14), Sport::Golf).get_age(&today), 34);
    assert_eq!(person("A", "B", date(0, 1, 1), Sport::Golf).get_age(&date(9999, 12, 31)), 10006);
}

#[test]
fn age_of_thirty_times_365_days_before_the_local_date() {
    let now = chrono::Local::now().naive_local().date();
    let born = now.checked_sub_days(chrono::Days::new(365 * 30)).unwrap();
    let today = Date::from_ymd(
        chrono::Datelike::year(&now),
        chrono::Datelike::month(&now),
        chrono::Datelike::day(&now),
    )
    .unwrap();
    let dob = Date::from_ymd(
        chrono::Datelike::year(&born),
        chrono::Datelike::month(&born),
        chrono::Datelike::day(&born),
    )
    .unwrap();
    assert_eq!(person("A", "B", dob, Sport::Golf).get_age(&today), 30);
    assert_eq!(person("A", "B", today, Sport::Golf).get_age(&today), 0);
    let days = now.signed_duration_since(born).num_days();
    assert_eq!(i64::from(person("A", "B", dob, Sport::Golf).get_age(&today)), days / 365);
}

#[test]
fn age_before_birth_wraps_around() {
    let today = date(2024, 6, 15);
    assert_eq!(person("A", "B", date(2024, 6, 16), Sport::Golf).get_age(&today), 0);
    assert_eq!(person("A", "B", date(2025, 6, 14), Sport::Golf).get_age(&today), 0);
    assert_eq!(person("A", "B", date(2025, 6, 15), Sport::Golf).get_age(&today), u32::MAX);
    assert_eq!(person("A", "B", date(2026, 6, 15), Sport::Golf).get_age(&today), u32::MAX - 1);
}

#[test]
fn favorite_sport_emoji() {
    assert_eq!(person("A", "B", date(2000, 1, 1), Sport::Soccer).get_favorite_sport_emoji(), "\u{26BD}");
    assert_eq!(
        person("A", "B", date(2000, 1, 1), Sport::Other("chess".to_string()))
            .get_favorite_sport_emoji(),
        ""
    );
}

#[test]
fn add_appends_at_the_end() {
    let mut people = three();
    let p = person("Zed", "Last", date(1970, 1, 1), Sport::Rowing);
    assert_eq!(add_person(&mut people, p.clone()), Ok(()));
    assert_eq!(people.len(), 4);
    assert_eq!(people[3], p);
    assert_eq!(people[..3], three()[..]);
    assert_eq!(add_person(&mut people, p.clone()), Ok(()));
    assert_eq!(people.len(), 5);
    assert_eq!(people[4], people[3]);
    let mut none: Vec<Person> = Vec::new();
    assert_eq!(add_person(&mut none, p.clone()), Ok(()));
    assert_eq!(none, vec![p]);
}

#[test]
fn bounds_are_checked() {
    let mut people = three();
    assert_eq!(delete_person(&mut people, 3), Err(DbError::Index(3)));
    assert_eq!(people, three());
    let p = person("Zed", "Last", date(1970, 1, 1), Sport::Rowing);
    assert_eq!(edit_person(&mut people, 5, p), Err(DbError::Index(5)));
    assert_eq!(people, three());
    assert_eq!(delete_person(&mut people, 2), Ok(()));
    assert_eq!(people.len(), 2);
    assert_eq!(people[..], three()[..2]);
    assert_eq!(delete_person(&mut people, usize::MAX), Err(DbError::Index(usize::MAX)));
    let mut none: Vec<Person> = Vec::new();
    assert_eq!(delete_person(&mut none, 0), Err(DbError::Index(0)));
}

#[test]
fn delete_moves_the_rest_down() {
    let mut people = three();
    assert_eq!(delete_person(&mut people, 0), Ok(()));
    assert_eq!(people.len(), 2);
    assert_eq!(people[0], three()[1]);
    assert_eq!(people[1], three()[2]);
    assert_eq!(delete_person(&mut people, 1), Ok(()));
    assert_eq!(people, vec![three()[1].clone()]);
    assert_eq!(delete_person(&mut people, 1), Err(DbError::Index(1)));
    assert_eq!(delete_person(&mut people, 0), Ok(()));
    assert!(people.is_empty());
}

#[test]
fn edit_replaces_one_person() {
    let mut people = three();
    let p = person("Zed", "Last", date(1970, 1, 1), Sport::Rowing);
    assert_eq!(edit_person(&mut people, 1, p.clone()), Ok(()));
    assert_eq!(people.len(), 3);
    assert_eq!(people[0], three()[0]);
    assert_eq!(people[1], p);
    assert_eq!(people[2], three()[2]);
    assert_eq!(edit_person(&mut people, 3, p), Err(DbError::Index(3)));
}

#[test]
fn error_messages() {
    assert_eq!(DbError::Index(3).message(), "Index out of bounds: 3");
    assert_eq!(DbError::Index(0).message(), "Index out of bounds: 0");
    assert_eq!(DbError::Index(1234567).message(), "Index out of bounds: 1234567");
    assert_eq!(DbError::Format.message(), "Malformed record");
    let mut people = three();
    match delete_person(&mut people, 17) {
        Err(e) => assert_eq!(e.message(), "Index out of bounds: 17"),
        Ok(()) => panic!("position 17 is not in a collection of three"),
    }
}

#[test]
fn rows_of_the_table() {
    let today = date(2024, 6, 15);
    let jane = person("Jane", "Doe", date(1990, 5, 14), Sport::Soccer);
    assert_eq!(
        jane.format_row(0, &today),
        PersonTableRow {
            idx: "0".to_string(),
            first_name: "Jane".to_string(),
            last_name: "Doe".to_string(),
            age: "34".to_string(),
            favorite_sport: "\u{26BD} soccer".to_string(),
        }
    );
    let rows = table_rows(&three(), &today);
    assert_eq!(rows.len(), 3);
    assert_eq!(rows[0], jane.format_row(0, &today));
    assert_eq!(rows[1].idx, "1");
    assert_eq!(rows[1].age, "39");
    assert_eq!(rows[1].favorite_sport, "\u{26F3} golf");
    assert_eq!(rows[2].idx, "2");
    assert_eq!(rows[2].first_name, "Ann");
    assert_eq!(rows[2].last_name, "Poe");
    assert_eq!(rows[2].age, "22");
    assert_eq!(rows[2].favorite_sport, " curling");
    assert_eq!(jane.format_row(12, &date(1990, 5, 14)).idx, "12");
    assert_eq!(jane.format_row(12, &date(1990, 5, 14)).age, "0");
    assert!(table_rows(&[], &today).is_empty());
}

#[test]
fn one_line_for_a_person() {
    let today = date(2024, 6, 15);
    let jane = person("Jane", "Doe", date(1990, 5, 14), Sport::Soccer);
    assert_eq!(jane.summary(&today), "Jane            Doe             34  \u{26BD} soccer");
    assert_eq!(
        jane.summary(&today),
        format!("{:<15} {:<15} {:<3} {} {}", "Jane", "Doe", 34, "\u{26BD}", "soccer")
    );
    let long = person("Maximilian-Alexander", "Ångström-Österreich", date(0, 1, 1), Sport::Other("x".to_string()));
    assert_eq!(
        long.summary(&date(9999, 12, 31)),
        format!("{:<15} {:<15} {:<3} {} {}", "Maximilian-Alexander", "Ångström-Österreich", 10006, "", "x")
    );
    let short = person("Zoë", "", date(2024, 6, 15), Sport::Golf);
    assert_eq!(
        short.summary(&today),
        format!("{:<15} {:<15} {:<3} {} {}", "Zoë", "", 0, "\u{26F3}", "golf")
    );
    assert_eq!(short.summary(&today).chars().count(), 15 + 1 + 15 + 1 + 3 + 1 + 1 + 1 + 4);
}
