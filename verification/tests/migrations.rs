use std::path::Path;
use timezone_db::db::postgres::{is_migration_file, migration_files, split_statements};

fn names(list: &[&str]) -> Vec<String> {
    list.iter().map(|s| s.to_string()).collect()
}

#[test]
fn migration_file_has_the_sql_extension() {
    assert!(is_migration_file("001_init.sql"));
    assert!(is_migration_file("a.sql"));
    assert!(is_migration_file("..sql"));
    assert!(is_migration_file("a.b.sql"));
    assert!(!is_migration_file(".sql"));
    assert!(!is_migration_file("sql"));
    assert!(!is_migration_file("a.SQL"));
    assert!(!is_migration_file("a.sql.bak"));
    assert!(!is_migration_file("a.sqlx"));
    assert!(!is_migration_file("asql"));
    assert!(!is_migration_file(""));
}

#[test]
fn migration_file_agrees_with_the_extension_of_a_path() {
    let samples = [
        "001_init.sql", ".sql", "..sql", "...sql", "a.sql", "a.b.sql", "a.sql.", "a.", "sql",
        "x.SQL", "\u{e9}.sql", "a .sql", "a.sq", "readme.md", "a.sqll", ".a.sql", "",
    ];
    for name in samples {
        let expected = Path::new("migrations").join(name).extension().and_then(|s| s.to_str())
            == Some("sql");
        assert_eq!(is_migration_file(name), expected, "{:?}", name);
    }
}

#[test]
fn migrations_run_in_the_order_of_their_names() {
    let entries = names(&["010_b.sql", "readme.md", "002_a.sql", "001_init.sql", ".sql", "1.sql"]);
    assert_eq!(
        migration_files(&entries),
        names(&["001_init.sql", "002_a.sql", "010_b.sql", "1.sql"])
    );
}

#[test]
fn equal_names_are_kept() {
    let entries = names(&["b.sql", "a.sql", "b.sql"]);
    assert_eq!(migration_files(&entries), names(&["a.sql", "b.sql", "b.sql"]));
    assert_eq!(migration_files(&Vec::new()), Vec::<String>::new());
}

#[test]
fn names_are_ordered_by_their_bytes() {
    let entries = names(&["b.sql", "B.sql", "a.sql", "ab.sql", "a", "\u{e9}.sql", "z.sql"]);
    assert_eq!(
        migration_files(&entries),
        names(&["B.sql", "a.sql", "ab.sql", "b.sql", "z.sql", "\u{e9}.sql"])
    );
}

#[test]
fn statements_are_cut_at_semicolons() {
    let sql = "CREATE TABLE a (id INT);\n\n  INSERT INTO a VALUES (1) ;\n;  ";
    assert_eq!(
        split_statements(sql),
        names(&["CREATE TABLE a (id INT)", "INSERT INTO a VALUES (1)"])
    );
}

#[test]
fn text_without_statements_gives_none() {
    assert_eq!(split_statements(""), Vec::<String>::new());
    assert_eq!(split_statements(" ;; \n;"), Vec::<String>::new());
    assert_eq!(split_statements("SELECT 1"), names(&["SELECT 1"]));
    assert_eq!(split_statements(";a;;b"), names(&["a", "b"]));
}
