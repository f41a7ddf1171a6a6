use sysmon::gauge::{color_for_percent, disk_totals, usage_percent, GaugeColor};

#[test]
fn colors_by_band() {
    assert_eq!(color_for_percent(0), GaugeColor::LightGreen);
    assert_eq!(color_for_percent(50), GaugeColor::LightGreen);
    assert_eq!(color_for_percent(51), GaugeColor::Yellow);
    assert_eq!(color_for_percent(74), GaugeColor::Yellow);
    assert_eq!(color_for_percent(75), GaugeColor::LightRed);
    assert_eq!(color_for_percent(90), GaugeColor::LightRed);
    assert_eq!(color_for_percent(91), GaugeColor::Red);
    assert_eq!(color_for_percent(100), GaugeColor::Red);
    assert_eq!(color_for_percent(101), GaugeColor::White);
    assert_eq!(color_for_percent(u16::MAX), GaugeColor::White);
}

#[test]
fn percent_of_total() {
    assert_eq!(usage_percent(50, 200), 25);
    assert_eq!(usage_percent(8_000, 16_000), 50);
    assert_eq!(usage_percent(0, 1000), 0);
    assert_eq!(usage_percent(999, 1000), 99);
}

#[test]
fn percent_edge_cases() {
    assert_eq!(usage_percent(5, 0), 0);
    assert_eq!(usage_percent(5, 99), 0);
    assert_eq!(usage_percent(300, 100), 100);
    assert_eq!(usage_percent(u64::MAX as u128, u64::MAX as u128), 100);
}

#[test]
fn disk_space_sums() {
    assert_eq!(disk_totals(&Vec::new()), (0, 0, 0));
    assert_eq!(disk_totals(&vec![(100, 40), (300, 60)]), (400, 100, 300));
    let big = u64::MAX;
    assert_eq!(
        disk_totals(&vec![(big, big), (big, 1)]),
        (2 * big as u128, big as u128 + 1, big as u128 - 1)
    );
    assert_eq!(disk_totals(&vec![(10, 20)]), (10, 20, 0));
}
