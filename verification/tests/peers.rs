use multiplayerctl::peers::{
    names_peer, parse_pid, peer_pid, peer_pids, signal_target, ProcessEntry, PROGRAM_NAME,
};

fn entry(name: &str, is_dir: bool, comm: Option<&str>) -> ProcessEntry {
    ProcessEntry { name: name.to_string(), is_dir, comm: comm.map(str::to_string) }
}

#[test]
fn the_program_is_called_multiplayerctl() {
    assert_eq!(PROGRAM_NAME, "multiplayerctl");
}

#[test]
fn parse_pid_reads_decimal_numbers() {
    assert_eq!(parse_pid("0"), Some(0));
    assert_eq!(parse_pid("1"), Some(1));
    assert_eq!(parse_pid("12"), Some(12));
    assert_eq!(parse_pid("4194304"), Some(4194304));
    assert_eq!(parse_pid("007"), Some(7));
    assert_eq!(parse_pid("+15"), Some(15));
}

#[test]
fn parse_pid_reads_up_to_the_largest_value() {
    assert_eq!(parse_pid("4294967295"), Some(u32::MAX));
    assert_eq!(parse_pid("0000004294967295"), Some(u32::MAX));
    assert_eq!(parse_pid("4294967296"), None);
    assert_eq!(parse_pid("4294967300"), None);
    assert_eq!(parse_pid("42949672950"), None);
    assert_eq!(parse_pid("99999999999999999999999999"), None);
}

#[test]
fn parse_pid_rejects_what_is_no_number() {
    for name in ["", "+", "-", "-1", "self", "12a", "a12", "1 2", " 12", "12 ", "1.5", "++1", "١٢"]
    {
        assert_eq!(parse_pid(name), None, "{:?}", name);
    }
}

#[test]
fn parse_pid_agrees_with_the_parser_of_std() {
    let samples = [
        "", "0", "00", "1", "+1", "-1", "+", "-", "+-1", "1+", "42", "4294967295", "4294967296",
        "429496729", "4294967290", "4294967299", "5000000000", "18446744073709551616", "sys",
        "thread-self", "1234567", "12345678901", "0x10", "1e3", "٣", "1\n",
    ];
    for sample in samples {
        assert_eq!(parse_pid(sample), sample.parse::<u32>().ok(), "{:?}", sample);
    }
}

#[test]
fn names_peer_wants_the_program_name_itself() {
    assert!(names_peer("multiplayerctl\n"));
    assert!(names_peer("multiplayerctl"));
}

#[test]
fn names_peer_takes_no_other_name() {
    let others = [
        "xmultiplayerctl\n",
        "multiplayerctlx\n",
        "my-multiplayerctl-2",
        "multiplayerct\n",
        "ultiplayerctl\n",
        "playerctl\n",
        "Multiplayerctl\n",
        "multi playerctl\n",
        " multiplayerctl\n",
        "multiplayerctl \n",
        "multiplayerctl\n\n",
        "\nmultiplayerctl",
        "multiplayerctl\r\n",
        "\n",
        "",
    ];
    for other in others {
        assert!(!names_peer(other), "{:?}", other);
    }
}

#[test]
fn a_process_with_a_longer_name_is_no_peer() {
    let table = vec![entry("7", true, Some("xmultiplayerctl\n"))];
    assert!(peer_pids(&table).is_empty());
    assert_eq!(peer_pid(&entry("7", true, Some("xmultiplayerctl\n"))), None);
    assert_eq!(peer_pid(&entry("7", true, Some("multiplayerctl\n"))), Some(7));
}

#[test]
fn peer_pid_wants_a_directory_a_number_and_the_name() {
    assert_eq!(peer_pid(&entry("4711", true, Some("multiplayerctl\n"))), Some(4711));
    assert_eq!(peer_pid(&entry("4711", false, Some("multiplayerctl\n"))), None);
    assert_eq!(peer_pid(&entry("4711", true, None)), None);
    assert_eq!(peer_pid(&entry("4711", true, Some("playerctl\n"))), None);
    assert_eq!(peer_pid(&entry("self", true, Some("multiplayerctl\n"))), None);
}

#[test]
fn peer_pids_picks_the_instances_in_order() {
    let table = vec![
        entry("1", true, Some("systemd\n")),
        entry("812", true, Some("multiplayerctl\n")),
        entry("cpuinfo", false, None),
        entry("self", true, Some("multiplayerctl\n")),
        entry("77", true, Some("multiplayerctl\n")),
        entry("900", true, None),
        entry("901", false, Some("multiplayerctl\n")),
        entry("1000", true, Some("playerctl\n")),
        entry("77", true, Some("multiplayerctl\n")),
    ];
    assert_eq!(peer_pids(&table), vec![812, 77, 77]);
}

#[test]
fn peer_pids_of_an_empty_table_is_empty() {
    assert!(peer_pids(&Vec::new()).is_empty());
    assert!(peer_pids(&vec![entry("1", true, Some("init\n"))]).is_empty());
}

#[test]
fn signal_target_addresses_single_processes_only() {
    assert_eq!(signal_target(1), Some(1));
    assert_eq!(signal_target(4711), Some(4711));
    assert_eq!(signal_target(2147483647), Some(i32::MAX));
    assert_eq!(signal_target(0), None);
    assert_eq!(signal_target(2147483648), None);
    assert_eq!(signal_target(u32::MAX), None);
}
