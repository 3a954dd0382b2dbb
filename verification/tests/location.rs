use csv_organizer::location::{has_csv_extension, same_text, Location};

fn at(names: &[&str]) -> Location {
    Location { names: names.iter().map(|name| name.to_string()).collect() }
}

#[test]
fn csv_files_are_known_by_their_extension() {
    assert!(has_csv_extension("a.csv"));
    assert!(has_csv_extension("report.2024.csv"));
    assert!(has_csv_extension("..csv"));
    assert!(has_csv_extension("é.csv"));
}

#[test]
fn the_extension_is_case_sensitive() {
    assert!(!has_csv_extension("a.CSV"));
    assert!(!has_csv_extension("a.Csv"));
}

#[test]
fn other_names_are_no_csv_files() {
    assert!(!has_csv_extension("readme.txt"));
    assert!(!has_csv_extension("csv"));
    assert!(!has_csv_extension("acsv"));
    assert!(!has_csv_extension("a.csv.bak"));
    assert!(!has_csv_extension("a.csvx"));
    assert!(!has_csv_extension("a.tcsv"));
    assert!(!has_csv_extension(""));
    assert!(!has_csv_extension(".."));
    assert!(!has_csv_extension("a."));
}

#[test]
fn a_leading_dot_alone_starts_no_extension() {
    assert!(!has_csv_extension(".csv"));
}

#[test]
fn the_root_has_no_names() {
    assert_eq!(Location::root(), at(&[]));
    assert!(Location::root().is_root());
    assert!(!at(&["sub"]).is_root());
}

#[test]
fn join_appends_a_name() {
    assert_eq!(Location::root().join("sub"), at(&["sub"]));
    assert_eq!(at(&["sub"]).join("b.csv"), at(&["sub", "b.csv"]));
}

#[test]
fn enter_and_leave_undo_each_other() {
    let mut place = at(&["a"]);
    place.enter("b".to_string());
    assert_eq!(place, at(&["a", "b"]));
    place.leave();
    assert_eq!(place, at(&["a"]));
    place.leave();
    assert_eq!(place, at(&[]));
    place.leave();
    assert_eq!(place, at(&[]));
}

#[test]
fn a_clone_holds_the_same_names() {
    let place = at(&["a", "b", "c.csv"]);
    assert_eq!(place.clone(), place);
}

#[test]
fn same_text_compares_characters() {
    assert!(same_text("csv", "csv"));
    assert!(!same_text("csv", "CSV"));
    assert!(!same_text("csv", "csvs"));
    assert!(same_text("", ""));
}
