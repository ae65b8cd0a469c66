use camera_man::benchmark_environment::{
    parse_battery_status, parse_power_mode, parse_thermal_status,
};

#[test]
fn parses_current_mac_battery_and_power_mode_metadata() {
    let battery =
        "Now drawing from 'Battery Power'\n -InternalBattery-0\t61%; discharging; 2:11 remaining";
    let status = parse_battery_status(battery);
    assert_eq!(status.power_source, "Battery Power");
    assert_eq!(status.battery_percent, Some(61));
    assert_eq!(status.battery_state, "discharging");
    let modes = "Battery Power:\n powermode 1\nAC Power:\n powermode 2\n";
    assert_eq!(parse_power_mode(modes, "Battery Power"), Some(1));
    assert_eq!(parse_power_mode(modes, "AC Power"), Some(2));
}

#[test]
fn missing_battery_fields_read_as_unknown() {
    let status = parse_battery_status("");
    assert_eq!(status.power_source, "unknown");
    assert_eq!(status.battery_percent, None);
    assert_eq!(status.battery_state, "unknown");
    let status = parse_battery_status("Now drawing from 'AC Power'\n charging 100%");
    assert_eq!(status.power_source, "AC Power");
    assert_eq!(status.battery_percent, Some(100));
    assert_eq!(status.battery_state, "unknown");
    let status = parse_battery_status("no quotes\n 300%; ;x");
    assert_eq!(status.power_source, "unknown");
    assert_eq!(status.battery_percent, None);
    assert_eq!(status.battery_state, "unknown");
}

#[test]
fn power_mode_reads_only_the_selected_section() {
    let modes = "AC Power:\n sleep 1\nBattery Power:\n powermode x\n powermode 3\n";
    assert_eq!(parse_power_mode(modes, "AC Power"), None);
    assert_eq!(parse_power_mode(modes, "Battery Power"), None);
    assert_eq!(parse_power_mode(" powermode 1\n", "AC Power"), None);
    assert_eq!(parse_power_mode("UPS Power :\n powermode 0\n", "UPS Power"), Some(0));
}

#[test]
fn thermal_lines_are_found_in_any_case() {
    let therm = "Note: No thermal warning level has been recorded\nNote: No performance warning level has been recorded\n2024 CPU Power Status: 100\n";
    let status = parse_thermal_status(therm);
    assert_eq!(
        status.thermal_warning,
        "No thermal warning level has been recorded"
    );
    assert_eq!(
        status.performance_warning,
        "No performance warning level has been recorded"
    );
    assert_eq!(status.cpu_power_status, "2024 CPU Power Status: 100");
    let empty = parse_thermal_status("");
    assert_eq!(empty.thermal_warning, "unknown");
    assert_eq!(
        parse_thermal_status("Note: Note:  thermal warning 2 ").thermal_warning,
        "thermal warning 2"
    );
}
