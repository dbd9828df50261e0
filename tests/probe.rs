use zkpoll::probe::{finish_probe, is_role_alias, wire_command, ProbeError, Timeout};
use zkpoll::role::{extract_role, role_from_lines};
use zkpoll::target::normalize_target;

const STAT_LEADER: &str = "Zookeeper version: 3.8.1\nLatency min/avg/max: 0/0.1/5\nMode: leader\nNode count: 5\n";
const STAT_NO_MODE: &str = "Zookeeper version: 3.8.1\nNode count: 5\n";

#[test]
fn target_without_port_gets_default_port() {
    assert_eq!(normalize_target("a"), "a:2181");
    assert_eq!(normalize_target("zk1.example.org"), "zk1.example.org:2181");
}

#[test]
fn target_with_port_is_unchanged() {
    assert_eq!(normalize_target("a:1234"), "a:1234");
    assert_eq!(normalize_target("b:2181"), "b:2181");
}

#[test]
fn empty_target_gets_default_port() {
    assert_eq!(normalize_target(""), ":2181");
}

#[test]
fn role_alias_is_recognised_exactly() {
    assert!(is_role_alias("role"));
    assert!(!is_role_alias("roles"));
    assert!(!is_role_alias("Role"));
    assert!(!is_role_alias("stat"));
    assert!(!is_role_alias(""));
}

#[test]
fn role_alias_goes_on_the_wire_as_stat() {
    assert_eq!(wire_command("role"), "stat");
    assert_eq!(wire_command("mntr"), "mntr");
    assert_eq!(wire_command("ruok"), "ruok");
}

#[test]
fn role_is_the_text_after_the_mode_prefix() {
    assert_eq!(extract_role(STAT_LEADER), " leader".to_string());
    assert_eq!(
        finish_probe("role", Ok(STAT_LEADER.to_string())),
        Ok(" leader".to_string())
    );
}

#[test]
fn role_line_may_end_with_carriage_return() {
    let rsp = "Zookeeper version: 3.8.1\r\nMode: follower\r\nNode count: 5\r\n";
    assert_eq!(extract_role(rsp), " follower".to_string());
}

#[test]
fn role_ignores_mode_text_that_does_not_start_a_line() {
    let rsp = "mode: leader\n Mode: follower\nZk Mode: x\n";
    assert_eq!(finish_probe("role", Ok(rsp.to_string())), Ok(rsp.to_string()));
}

#[test]
fn role_of_crlf_response_ends_before_the_terminator() {
    let rsp = "Zookeeper version: 3.8.0\r\nMode:follower\r\nNode count: 5\r\n";
    assert_eq!(finish_probe("role", Ok(rsp.to_string())), Ok("follower".to_string()));
}

#[test]
fn role_takes_the_first_mode_line() {
    let rsp = "Mode:standalone\nMode: leader\n";
    assert_eq!(extract_role(rsp), "standalone".to_string());
}

#[test]
fn mode_prefix_must_start_the_line() {
    let rsp = "x Mode: leader\n";
    assert_eq!(extract_role(rsp), rsp.to_string());
}

#[test]
fn role_without_mode_line_returns_whole_response() {
    assert_eq!(extract_role(STAT_NO_MODE), STAT_NO_MODE.to_string());
    assert_eq!(
        finish_probe("role", Ok(STAT_NO_MODE.to_string())),
        Ok(STAT_NO_MODE.to_string())
    );
    assert_eq!(extract_role(""), "");
}

#[test]
fn role_from_lines_scans_given_lines() {
    let lines = vec!["a".to_string(), "Mode: observer".to_string()];
    assert_eq!(role_from_lines("raw", &lines), " observer");
    let none = vec!["a".to_string()];
    assert_eq!(role_from_lines("raw", &none), "raw");
}

#[test]
fn other_commands_pass_through_untouched() {
    assert_eq!(
        finish_probe("stat", Ok(STAT_LEADER.to_string())),
        Ok(STAT_LEADER.to_string())
    );
    assert_eq!(finish_probe("ruok", Ok("imok".to_string())), Ok("imok".to_string()));
}

#[test]
fn probe_errors_pass_through() {
    assert_eq!(
        finish_probe("role", Err(ProbeError::ConnectTimeout)),
        Err(ProbeError::ConnectTimeout)
    );
    assert_eq!(
        finish_probe("stat", Err(ProbeError::ReadTimeout)),
        Err(ProbeError::ReadTimeout)
    );
    let refused = ProbeError::ConnectionError("Connection refused (os error 111)".to_string());
    assert_eq!(finish_probe("stat", Err(refused.clone())), Err(refused));
}

#[test]
fn error_messages() {
    assert_eq!(
        ProbeError::ConnectTimeout.message(),
        "deadline has elapsed while connecting"
    );
    assert_eq!(ProbeError::ReadTimeout.message(), "deadline has elapsed while reading");
    assert_eq!(
        ProbeError::ConnectionError("Connection reset by peer".to_string()).message(),
        "Connection reset by peer"
    );
}

#[test]
fn phase_budget_is_half_the_timeout() {
    let t = Timeout { secs: 1, nanos: 0 };
    assert_eq!(t.phase(), Timeout { secs: 0, nanos: 500_000_000 });
    let t = Timeout { secs: 3, nanos: 1 };
    assert_eq!(t.phase(), Timeout { secs: 1, nanos: 500_000_000 });
    let t = Timeout { secs: 0, nanos: 999_999_999 };
    assert_eq!(t.phase(), Timeout { secs: 0, nanos: 499_999_999 });
    let t = Timeout { secs: 0, nanos: 0 };
    assert_eq!(t.phase(), Timeout { secs: 0, nanos: 0 });
}

#[test]
fn phase_budget_of_largest_timeout() {
    let t = Timeout { secs: u64::MAX, nanos: 999_999_999 };
    assert_eq!(t.phase(), Timeout { secs: u64::MAX / 2, nanos: 999_999_999 });
}
