use sysmon::processes::{TableSort, TableSortPredicate};
use sysmon::app::App;
use sysmon::event::{Event, Key};
use sysmon::tab::Tab;

#[test]
fn starts_on_overview() {
    let app = App::new();
    assert_eq!(app.active_tab(), Tab::Overview);
}

#[test]
fn letters_select_tabs_in_either_case() {
    let mut app = App::new();
    let cases = [
        ('c', Tab::CPU),
        ('M', Tab::Memory),
        ('p', Tab::Processes),
        ('S', Tab::Storage),
        ('n', Tab::Network),
        ('O', Tab::Overview),
        ('C', Tab::CPU),
        ('o', Tab::Overview),
    ];
    for (ch, tab) in cases {
        app.switch_tab(ch);
        assert_eq!(app.active_tab(), tab);
    }
}

#[test]
fn o_selects_overview_from_every_tab() {
    let mut app = App::new();
    for ch in ['c', 'm', 'p', 's', 'n'] {
        app.switch_tab(ch);
        app.switch_tab('o');
        assert_eq!(app.active_tab(), Tab::Overview);
        app.switch_tab(ch);
        app.switch_tab('O');
        assert_eq!(app.active_tab(), Tab::Overview);
    }
}

#[test]
fn unknown_characters_keep_the_tab() {
    let mut app = App::new();
    app.switch_tab('p');
    for ch in ['x', 'z', '1', ' ', 'Q'] {
        app.switch_tab(ch);
        assert_eq!(app.active_tab(), Tab::Processes);
    }
}

#[test]
fn tab_character_moves_to_next() {
    let mut app = App::new();
    app.switch_tab('\t');
    assert_eq!(app.active_tab(), Tab::CPU);
    app.switch_tab('n');
    app.switch_tab('\t');
    assert_eq!(app.active_tab(), Tab::Overview);
}

#[test]
fn previous_tab_wraps() {
    let mut app = App::new();
    app.previous_tab();
    assert_eq!(app.active_tab(), Tab::Network);
    app.previous_tab();
    assert_eq!(app.active_tab(), Tab::Storage);
}

#[test]
fn switch_to_cpu_then_tick_leaves_overview_alone() {
    let mut app = App::new();
    let host_before = app.overview().get_host_name().clone();
    let uptime_before = app.overview().get_uptime();
    assert!(app.handle_event(Some(Event::Input(Key::Char('c')))));
    assert_eq!(app.active_tab(), Tab::CPU);
    assert!(app.handle_event(Some(Event::Tick)));
    assert_eq!(app.active_tab(), Tab::CPU);
    assert_eq!(app.overview().get_host_name(), &host_before);
    assert_eq!(app.overview().get_uptime(), uptime_before);
    assert!(!app.cpu_view().core_usages().is_empty());
}

#[test]
fn no_event_changes_nothing() {
    let mut app = App::new();
    app.switch_tab('m');
    for _ in 0..5 {
        assert!(app.handle_event(None));
        assert_eq!(app.active_tab(), Tab::Memory);
    }
}

#[test]
fn quit_key_stops_the_loop() {
    let mut app = App::new();
    app.switch_tab('p');
    assert!(!app.handle_event(Some(Event::Input(Key::Char('q')))));
    assert_eq!(app.active_tab(), Tab::Processes);
}

#[test]
fn arrow_keys_never_change_the_tab() {
    let mut app = App::new();
    for ch in ['o', 'c', 'm', 'p', 's', 'n'] {
        app.switch_tab(ch);
        let before = app.active_tab();
        for key in [Key::Up, Key::Down, Key::Left, Key::Right] {
            assert!(app.handle_event(Some(Event::Input(key))));
            assert_eq!(app.active_tab(), before);
        }
    }
}

#[test]
fn backspace_goes_back_and_other_keys_are_ignored() {
    let mut app = App::new();
    assert!(app.handle_event(Some(Event::Input(Key::Backspace))));
    assert_eq!(app.active_tab(), Tab::Network);
    assert!(app.handle_event(Some(Event::Input(Key::Other))));
    assert_eq!(app.active_tab(), Tab::Network);
    assert!(app.handle_event(Some(Event::Input(Key::Char('c')))));
    assert_eq!(app.active_tab(), Tab::CPU);
}

#[test]
fn ticks_on_placeholder_tabs_keep_the_tab() {
    let mut app = App::new();
    for ch in ['m', 's', 'n', 'p', 'o'] {
        app.switch_tab(ch);
        let before = app.active_tab();
        assert!(app.handle_event(Some(Event::Tick)));
        assert_eq!(app.active_tab(), before);
    }
}

#[test]
fn process_table_starts_by_name_ascending_and_stays_ordered_after_tick() {
    assert_name_ascending(&App::new());
    let mut app = App::new();
    app.switch_tab('p');
    assert!(app.handle_event(Some(Event::Tick)));
    assert_name_ascending(&app);
}

fn assert_name_ascending(app: &App) {
    let v = app.process_view();
    assert_eq!(v.sort_predicate(), TableSortPredicate::Name);
    assert_eq!(v.sort_order(), TableSort::Ascending);
    let names: Vec<&String> = v.rows().iter().map(|p| &p.name).collect();
    assert!(names.windows(2).all(|w| w[0] <= w[1]));
}
