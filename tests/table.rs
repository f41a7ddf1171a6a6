use sysinfo::SystemExt;
use sysmon::processes::{
    get_username_for_id, row_precedes, sort_rows, Process, ProcessesView, TableSort,
    TableSortPredicate,
};
use sysmon::text::or_not_available;

fn row(pid: &str, name: &str) -> Process {
    Process {
        pid: pid.to_string(),
        name: name.to_string(),
        user: "root".to_string(),
        cpu_usage: "0".to_string(),
        memory_usage: "0".to_string(),
        status: "Run".to_string(),
    }
}

fn ids(rows: &[Process]) -> Vec<(String, String)> {
    rows.iter().map(|p| (p.pid.clone(), p.name.clone())).collect()
}

fn pairs(v: &[(&str, &str)]) -> Vec<(String, String)> {
    v.iter().map(|(a, b)| (a.to_string(), b.to_string())).collect()
}

#[test]
fn new_view_sorts_by_name_ascending() {
    let v = ProcessesView::new();
    assert_eq!(v.sort_predicate(), TableSortPredicate::Name);
    assert_eq!(v.sort_order(), TableSort::Ascending);
    assert!(v.rows().is_empty());
    assert_eq!(TableSort::default(), TableSort::Ascending);
    assert_eq!(TableSortPredicate::default(), TableSortPredicate::Name);
}

#[test]
fn sort_by_name_then_pid() {
    let mut v = ProcessesView::new();
    v.set_rows(vec![row("2", "b"), row("1", "a")]);
    v.sort_by(TableSortPredicate::Name);
    assert_eq!(ids(v.rows()), pairs(&[("1", "a"), ("2", "b")]));
    v.sort_by(TableSortPredicate::PID);
    assert_eq!(ids(v.rows()), pairs(&[("1", "a"), ("2", "b")]));
    assert_eq!(v.sort_predicate(), TableSortPredicate::PID);
}

#[test]
fn pid_order_is_by_text() {
    let mut v = ProcessesView::new();
    v.set_rows(vec![row("10", "x"), row("9", "y"), row("100", "z")]);
    v.sort_by(TableSortPredicate::PID);
    assert_eq!(ids(v.rows()), pairs(&[("10", "x"), ("100", "z"), ("9", "y")]));
}

#[test]
fn descending_is_ascending_reversed() {
    let mut v = ProcessesView::new();
    v.set_rows(vec![row("3", "cron"), row("1", "init"), row("7", "bash"), row("4", "sshd")]);
    let asc = ids(v.rows());
    assert_eq!(asc, pairs(&[("7", "bash"), ("3", "cron"), ("1", "init"), ("4", "sshd")]));
    v.toggle_sort_order();
    assert_eq!(v.sort_order(), TableSort::Descending);
    let mut desc = ids(v.rows());
    desc.reverse();
    assert_eq!(desc, asc);
    v.toggle_sort_order();
    assert_eq!(ids(v.rows()), asc);
}

#[test]
fn resorting_twice_gives_the_same_table() {
    let mut v = ProcessesView::new();
    v.set_rows(vec![row("5", "b"), row("2", "a"), row("9", "b"), row("1", "a")]);
    let once = ids(v.rows());
    v.sort();
    assert_eq!(ids(v.rows()), once);
    v.sort_by(TableSortPredicate::Name);
    assert_eq!(ids(v.rows()), once);
}

#[test]
fn equal_keys_keep_their_order() {
    let rows = vec![row("5", "b"), row("2", "a"), row("9", "b"), row("1", "a")];
    let sorted = sort_rows(rows, TableSortPredicate::Name, TableSort::Ascending);
    assert_eq!(ids(&sorted), pairs(&[("2", "a"), ("1", "a"), ("5", "b"), ("9", "b")]));
    let again = sort_rows(sorted, TableSortPredicate::Name, TableSort::Ascending);
    assert_eq!(ids(&again), pairs(&[("2", "a"), ("1", "a"), ("5", "b"), ("9", "b")]));
    let rows = vec![row("5", "b"), row("2", "a"), row("9", "b"), row("1", "a")];
    let desc = sort_rows(rows, TableSortPredicate::Name, TableSort::Descending);
    assert_eq!(ids(&desc), pairs(&[("5", "b"), ("9", "b"), ("2", "a"), ("1", "a")]));
}

#[test]
fn sort_by_keeps_the_direction() {
    let mut v = ProcessesView::new();
    v.toggle_sort_order();
    v.set_rows(vec![row("1", "a"), row("3", "c"), row("2", "b")]);
    v.sort_by(TableSortPredicate::PID);
    assert_eq!(v.sort_order(), TableSort::Descending);
    assert_eq!(ids(v.rows()), pairs(&[("3", "c"), ("2", "b"), ("1", "a")]));
}

#[test]
fn every_column_can_order() {
    let mut a = row("1", "a");
    let mut b = row("1", "a");
    a.user = "alice".to_string();
    b.user = "bob".to_string();
    assert!(row_precedes(&a, &b, TableSortPredicate::User, TableSort::Ascending));
    assert!(!row_precedes(&b, &a, TableSortPredicate::User, TableSort::Ascending));
    assert!(row_precedes(&b, &a, TableSortPredicate::User, TableSort::Descending));
    a.cpu_usage = "0.5".to_string();
    b.cpu_usage = "12".to_string();
    assert!(row_precedes(&a, &b, TableSortPredicate::CPU, TableSort::Ascending));
    a.memory_usage = "2048".to_string();
    b.memory_usage = "1024".to_string();
    assert!(row_precedes(&b, &a, TableSortPredicate::Memory, TableSort::Ascending));
    a.status = "Run".to_string();
    b.status = "Sleep".to_string();
    assert!(row_precedes(&a, &b, TableSortPredicate::Status, TableSort::Ascending));
    assert!(!row_precedes(&a, &a, TableSortPredicate::Status, TableSort::Ascending));
    a.name = "ab".to_string();
    b.name = "abc".to_string();
    assert!(row_precedes(&a, &b, TableSortPredicate::Name, TableSort::Ascending));
}

#[test]
fn empty_table_sorts_to_empty() {
    let sorted = sort_rows(Vec::new(), TableSortPredicate::Name, TableSort::Ascending);
    assert!(sorted.is_empty());
}

#[test]
fn missing_user_reads_not_available() {
    let system = sysinfo::System::new();
    assert_eq!(get_username_for_id(None, &system), "N/A");
    assert_eq!(or_not_available(None), "N/A");
    assert_eq!(or_not_available(Some("alice".to_string())), "alice");
}

#[test]
fn reverse_flips_the_direction() {
    let mut o = TableSort::Ascending;
    o.reverse();
    assert_eq!(o, TableSort::Descending);
    o.reverse();
    assert_eq!(o, TableSort::Ascending);
}

#[test]
fn first_sort_keeps_tied_rows_in_input_order() {
    let rows = vec![row("9", "x"), row("3", "a"), row("7", "x"), row("1", "a"), row("5", "x")];
    let sorted = sort_rows(rows, TableSortPredicate::Name, TableSort::Ascending);
    assert_eq!(ids(&sorted), pairs(&[("3", "a"), ("1", "a"), ("9", "x"), ("7", "x"), ("5", "x")]));
}
