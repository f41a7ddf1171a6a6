use sysmon::cpu::Cpuview;
use sysmon::overview::Overview;

#[test]
fn builders_set_their_field() {
    let o = Overview::new()
        .os("Linux".to_string())
        .os_version("6.1".to_string())
        .kernel_version("6.1.0".to_string())
        .host_name("box".to_string())
        .uptime(42);
    assert_eq!(o.get_os(), "Linux");
    assert_eq!(o.get_os_version(), "6.1");
    assert_eq!(o.get_kernel_version(), "6.1.0");
    assert_eq!(o.get_host_name(), "box");
    assert_eq!(o.get_uptime(), 42);
}

#[test]
fn new_summary_counts_are_zero() {
    let o = Overview::new();
    assert_eq!(o.get_uptime(), 0);
    assert!(!o.get_os().is_empty());
    assert!(!o.get_host_name().is_empty());
}

#[test]
fn tick_caches_the_uptime_and_keeps_the_names() {
    let mut o = Overview::new().host_name("box".to_string()).uptime(0);
    o.tick();
    assert_eq!(o.get_host_name(), "box");
    assert!(o.get_uptime() > 0);
}

#[test]
fn cpu_sample_is_stored_as_given() {
    let mut c = Cpuview::new();
    assert!(c.cpu_brand().is_empty());
    assert!(c.core_usages().is_empty());
    c.set_sample("Ryzen".to_string(), vec![12, 80]);
    assert_eq!(c.cpu_brand(), "Ryzen");
    assert_eq!(c.core_usages(), &vec![12, 80]);
}
