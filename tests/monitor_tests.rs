use winit::monitor::{MonitorId, MonitorList};

fn mon(output: u64, hidpi_factor: i32) -> MonitorId {
    MonitorId { output, hidpi_factor }
}

#[test]
fn dpi_aggregation_is_max_and_change_triggered() {
    let mut list = MonitorList::new();
    assert_eq!(list.compute_hidpi_factor(), 1);
    assert_eq!(list.add_output(mon(10, 1)), None);
    assert_eq!(list.add_output(mon(20, 2)), Some(2));
    assert_eq!(list.add_output(mon(30, 3)), Some(3));
    assert_eq!(list.compute_hidpi_factor(), 3);
    assert_eq!(list.del_output(30), Some(2));
    assert_eq!(list.compute_hidpi_factor(), 2);
    assert_eq!(list.del_output(20), Some(1));
    assert_eq!(list.del_output(10), None);
    assert_eq!(list.compute_hidpi_factor(), 1);
    assert!(list.monitors.is_empty());
}

#[test]
fn adding_a_lower_or_equal_factor_reports_nothing() {
    let mut list = MonitorList::new();
    assert_eq!(list.add_output(mon(1, 2)), Some(2));
    assert_eq!(list.add_output(mon(2, 2)), None);
    assert_eq!(list.add_output(mon(3, 1)), None);
    assert_eq!(list.compute_hidpi_factor(), 2);
    assert_eq!(list.monitors.len(), 3);
}

#[test]
fn removing_one_of_two_equal_maxima_keeps_the_factor() {
    let mut list = MonitorList::new();
    list.add_output(mon(1, 2));
    list.add_output(mon(2, 2));
    assert_eq!(list.del_output(1), None);
    assert_eq!(list.compute_hidpi_factor(), 2);
    assert_eq!(list.monitors, vec![mon(2, 2)]);
}

#[test]
fn removing_an_unknown_output_changes_nothing() {
    let mut list = MonitorList::new();
    list.add_output(mon(1, 3));
    assert_eq!(list.del_output(99), None);
    assert_eq!(list.monitors, vec![mon(1, 3)]);
}

#[test]
fn leaving_an_output_removes_all_of_its_entries() {
    let mut list = MonitorList::new();
    list.add_output(mon(1, 2));
    list.add_output(mon(2, 1));
    list.add_output(mon(1, 2));
    assert_eq!(list.del_output(1), Some(1));
    assert_eq!(list.monitors, vec![mon(2, 1)]);
}

#[test]
fn monitor_reports_its_factor() {
    assert_eq!(mon(4, 3).get_hidpi_factor(), 3);
}
