use legion_control::battery::{
    get_battery_status, get_conservation_mode, get_rapid_charge, set_conservation_mode,
    set_rapid_charge, BatteryStatus,
};
use legion_control::energy::ControlRequest;
use legion_control::errors::ControlError;
use legion_control::guards::GlobalWriteLock;
use legion_control::query::{find_setting, read_switch, BatteryRecord};

fn rows(lines: &[&str]) -> Vec<String> {
    lines.iter().map(|line| line.to_string()).collect()
}

fn table(lines: &[&str]) -> Result<Vec<String>, ControlError> {
    Ok(rows(lines))
}

#[test]
fn switches_are_read_from_their_rows() {
    let settings = table(&["ConservationMode,Enable", "RapidCharge,Disable"]);
    assert_eq!(get_conservation_mode(&settings), Some(true));
    assert_eq!(get_rapid_charge(&settings), Some(false));
}

#[test]
fn switches_read_the_other_way() {
    let settings = table(&["RapidCharge,Enable", "ConservationMode,Disable"]);
    assert_eq!(get_conservation_mode(&settings), Some(false));
    assert_eq!(get_rapid_charge(&settings), Some(true));
}

#[test]
fn missing_row_is_not_found() {
    let settings = rows(&["RapidCharge,Disable", "FnLock,Enable"]);
    assert_eq!(
        read_switch(&settings, "ConservationMode"),
        Err(ControlError::NotFound("ConservationMode".to_string()))
    );
    assert_eq!(
        find_setting(&settings, "ConservationMode"),
        Err(ControlError::NotFound("ConservationMode".to_string()))
    );
    assert_eq!(get_conservation_mode(&Ok(settings)), None);
}

#[test]
fn empty_table_holds_no_setting() {
    assert_eq!(
        read_switch(&Vec::new(), "RapidCharge"),
        Err(ControlError::NotFound("RapidCharge".to_string()))
    );
    assert_eq!(get_rapid_charge(&Ok(Vec::new())), None);
}

#[test]
fn failed_table_query_reads_as_absent() {
    let failed: Result<Vec<String>, ControlError> =
        Err(ControlError::TransportFailure("provider unavailable".to_string()));
    assert_eq!(get_conservation_mode(&failed), None);
    assert_eq!(get_rapid_charge(&failed), None);
}

#[test]
fn key_is_matched_without_regard_to_case() {
    let settings = rows(&["conservationmode,Enable", "RAPIDCHARGE,Disable"]);
    assert_eq!(read_switch(&settings, "ConservationMode"), Ok(true));
    assert_eq!(read_switch(&settings, "RapidCharge"), Ok(false));
    assert_eq!(read_switch(&settings, "rapidcharge"), Ok(false));
}

#[test]
fn key_must_match_as_a_whole() {
    let settings = rows(&["ConservationMode2,Enable", "Conservation,Enable", " ConservationMode,Enable"]);
    assert_eq!(
        read_switch(&settings, "ConservationMode"),
        Err(ControlError::NotFound("ConservationMode".to_string()))
    );
}

#[test]
fn first_matching_row_wins() {
    let settings = rows(&["Other,1", "ConservationMode,Disable", "ConservationMode,Enable"]);
    assert_eq!(read_switch(&settings, "ConservationMode"), Ok(false));
    assert_eq!(find_setting(&settings, "ConservationMode"), Ok("Disable".to_string()));
}

#[test]
fn row_is_split_at_its_first_comma() {
    let settings = rows(&["Mode,a,b,c", "Empty,", ",NoKey"]);
    assert_eq!(find_setting(&settings, "Mode"), Ok("a,b,c".to_string()));
    assert_eq!(find_setting(&settings, "Empty"), Ok(String::new()));
    assert_eq!(find_setting(&settings, ""), Ok("NoKey".to_string()));
}

#[test]
fn row_without_a_comma_is_no_setting() {
    let settings = rows(&["ConservationMode", "ConservationMode,Enable"]);
    assert_eq!(read_switch(&settings, "ConservationMode"), Ok(true));
    let only = rows(&["ConservationMode"]);
    assert_eq!(
        find_setting(&only, "ConservationMode"),
        Err(ControlError::NotFound("ConservationMode".to_string()))
    );
}

#[test]
fn unexpected_value_is_a_transport_failure() {
    let settings = rows(&["ConservationMode,Maybe", "ConservationMode,Enable"]);
    assert_eq!(
        read_switch(&settings, "ConservationMode"),
        Err(ControlError::TransportFailure("Unexpected setting value: Maybe".to_string()))
    );
    assert_eq!(get_conservation_mode(&Ok(settings)), None);
    let lower = rows(&["RapidCharge,enable"]);
    assert_eq!(
        read_switch(&lower, "RapidCharge"),
        Err(ControlError::TransportFailure("Unexpected setting value: enable".to_string()))
    );
}

#[test]
fn battery_status_from_the_first_row() {
    let reading = Ok(vec![
        BatteryRecord { estimated_charge_remaining: 87, battery_status: 2 },
        BatteryRecord { estimated_charge_remaining: 5, battery_status: 1 },
    ]);
    assert_eq!(
        get_battery_status(&reading),
        Some(BatteryStatus { charge_percent: 87, is_charging: true })
    );
}

#[test]
fn battery_charges_only_in_status_two() {
    for status in [0u16, 1, 3, 4, 11, u16::MAX] {
        let reading = Ok(vec![BatteryRecord { estimated_charge_remaining: 50, battery_status: status }]);
        assert_eq!(
            get_battery_status(&reading),
            Some(BatteryStatus { charge_percent: 50, is_charging: false })
        );
    }
}

#[test]
fn no_battery_and_failed_query_read_as_absent() {
    assert_eq!(get_battery_status(&Ok(Vec::new())), None);
    assert_eq!(
        get_battery_status(&Err(ControlError::TransportFailure("x".to_string()))),
        None
    );
}

#[test]
fn conservation_mode_commands() {
    let mut lock = GlobalWriteLock::new();
    lock.request_write_access();
    assert_eq!(
        set_conservation_mode(&lock, true),
        Ok(ControlRequest { control_code: 0x831020F8, input: vec![3, 0, 0, 0] })
    );
    assert_eq!(
        set_conservation_mode(&lock, false),
        Ok(ControlRequest { control_code: 0x831020F8, input: vec![5, 0, 0, 0] })
    );
}

#[test]
fn rapid_charge_commands() {
    let mut lock = GlobalWriteLock::new();
    lock.request_write_access();
    assert_eq!(
        set_rapid_charge(&lock, true),
        Ok(ControlRequest { control_code: 0x831020F8, input: vec![7, 0, 0, 0] })
    );
    assert_eq!(
        set_rapid_charge(&lock, false),
        Ok(ControlRequest { control_code: 0x831020F8, input: vec![8, 0, 0, 0] })
    );
}
