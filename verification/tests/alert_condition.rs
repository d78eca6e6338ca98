use phos::alert::condition::{parse_condition, AlertCondition, AlertSeverity, ParseConditionError};
use phos::pattern::compile;

#[test]
fn test_parse_error_condition() {
    let cond: AlertCondition = "error".parse().unwrap();
    assert!(matches!(cond, AlertCondition::Error));

    let cond: AlertCondition = "ERROR".parse().unwrap();
    assert!(matches!(cond, AlertCondition::Error));
}

#[test]
fn test_parse_error_threshold() {
    let cond: AlertCondition = "error-threshold:10".parse().unwrap();
    match cond {
        AlertCondition::ErrorThreshold { count } => assert_eq!(count, 10),
        _ => panic!("expected ErrorThreshold"),
    }

    let cond: AlertCondition = "error-threshold:100".parse().unwrap();
    match cond {
        AlertCondition::ErrorThreshold { count } => assert_eq!(count, 100),
        _ => panic!("expected ErrorThreshold"),
    }
}

#[test]
fn test_parse_peer_drop() {
    let cond: AlertCondition = "peer-drop:5".parse().unwrap();
    match cond {
        AlertCondition::PeerDrop { threshold } => assert_eq!(threshold, 5),
        _ => panic!("expected PeerDrop"),
    }
}

#[test]
fn test_parse_sync_stall() {
    let cond: AlertCondition = "sync-stall".parse().unwrap();
    assert!(matches!(cond, AlertCondition::SyncStall));
}

#[test]
fn test_parse_pattern() {
    let cond: AlertCondition = "pattern:FATAL|OOM".parse().unwrap();
    match cond {
        AlertCondition::Pattern { regex } => {
            assert!(regex.is_match("FATAL error"));
            assert!(regex.is_match("OOM killed"));
            assert!(!regex.is_match("normal log"));
        }
        _ => panic!("expected Pattern"),
    }
}

#[test]
fn test_parse_invalid() {
    assert!("unknown".parse::<AlertCondition>().is_err());
    assert!("error-threshold:abc".parse::<AlertCondition>().is_err());
    assert!("pattern:[invalid".parse::<AlertCondition>().is_err());
}

#[test]
fn test_condition_type() {
    assert_eq!(AlertCondition::Error.condition_type(), "error");
    assert_eq!(AlertCondition::ErrorThreshold { count: 10 }.condition_type(), "error_threshold");
    assert_eq!(AlertCondition::PeerDrop { threshold: 5 }.condition_type(), "peer_drop");
    assert_eq!(AlertCondition::SyncStall.condition_type(), "sync_stall");
}

#[test]
fn test_severity_colors() {
    assert_eq!(AlertSeverity::Critical.discord_color(), 0xFF0000);
    assert_eq!(AlertSeverity::Error.discord_color(), 0xFF5500);
    assert_eq!(AlertSeverity::Warning.discord_color(), 0xFFAA00);
    assert_eq!(AlertSeverity::Info.discord_color(), 0x55AAFF);
}

#[test]
fn test_parse_with_whitespace() {
    let cond: AlertCondition = "  error  ".parse().unwrap();
    assert!(matches!(cond, AlertCondition::Error));

    let cond: AlertCondition = "  sync-stall  ".parse().unwrap();
    assert!(matches!(cond, AlertCondition::SyncStall));
}

#[test]
fn test_parse_threshold_with_whitespace() {
    let cond: AlertCondition = "error-threshold: 10".parse().unwrap();
    match cond {
        AlertCondition::ErrorThreshold { count } => assert_eq!(count, 10),
        _ => panic!("expected ErrorThreshold"),
    }

    let cond: AlertCondition = "peer-drop : 5".parse().unwrap();
    match cond {
        AlertCondition::PeerDrop { threshold } => assert_eq!(threshold, 5),
        _ => panic!("expected PeerDrop"),
    }
}

#[test]
fn test_parse_mixed_case() {
    let cond: AlertCondition = "Error".parse().unwrap();
    assert!(matches!(cond, AlertCondition::Error));

    let cond: AlertCondition = "SYNC-STALL".parse().unwrap();
    assert!(matches!(cond, AlertCondition::SyncStall));

    let cond: AlertCondition = "Error-Threshold:5".parse().unwrap();
    assert!(matches!(cond, AlertCondition::ErrorThreshold { count: 5 }));
}

#[test]
fn test_parse_error_threshold_boundary_values() {
    let cond: AlertCondition = "error-threshold:1".parse().unwrap();
    match cond {
        AlertCondition::ErrorThreshold { count } => assert_eq!(count, 1),
        _ => panic!("expected ErrorThreshold"),
    }

    let cond: AlertCondition = "error-threshold:1000000".parse().unwrap();
    match cond {
        AlertCondition::ErrorThreshold { count } => assert_eq!(count, 1_000_000),
        _ => panic!("expected ErrorThreshold"),
    }
}

#[test]
fn test_parse_peer_drop_boundary_values() {
    let cond: AlertCondition = "peer-drop:0".parse().unwrap();
    match cond {
        AlertCondition::PeerDrop { threshold } => assert_eq!(threshold, 0),
        _ => panic!("expected PeerDrop"),
    }
}

#[test]
fn test_parse_pattern_with_special_chars() {
    let cond: AlertCondition = r"pattern:\d+\.\d+\.\d+".parse().unwrap();
    match cond {
        AlertCondition::Pattern { regex } => {
            assert!(regex.is_match("192.168.1.1"));
            assert!(!regex.is_match("abc"));
        }
        _ => panic!("expected Pattern"),
    }
}

#[test]
fn test_parse_pattern_case_insensitive_match() {
    let cond: AlertCondition = "pattern:(?i)fatal".parse().unwrap();
    match cond {
        AlertCondition::Pattern { regex } => {
            assert!(regex.is_match("FATAL"));
            assert!(regex.is_match("fatal"));
            assert!(regex.is_match("Fatal"));
        }
        _ => panic!("expected Pattern"),
    }
}

#[test]
fn test_parse_error_messages() {
    let err = "unknown-condition".parse::<AlertCondition>();
    assert!(err.is_err());
    let err_msg = err.unwrap_err().to_string();
    assert!(err_msg.contains("unknown"));

    let err = "error-threshold:abc".parse::<AlertCondition>();
    assert!(err.is_err());

    let err = "pattern:[invalid".parse::<AlertCondition>();
    assert!(err.is_err());
    let err_msg = err.unwrap_err().to_string();
    assert!(err_msg.contains("regex"));
}

#[test]
fn test_condition_type_for_pattern() {
    let regex = compile("test").unwrap();
    let cond = AlertCondition::Pattern { regex };
    assert_eq!(cond.condition_type(), "pattern");
}

#[test]
fn test_severity_as_str() {
    assert_eq!(AlertSeverity::Critical.as_str(), "CRITICAL");
    assert_eq!(AlertSeverity::Error.as_str(), "ERROR");
    assert_eq!(AlertSeverity::Warning.as_str(), "WARNING");
    assert_eq!(AlertSeverity::Info.as_str(), "INFO");
}

#[test]
fn test_severity_tag() {
    assert_eq!(AlertSeverity::Critical.tag(), "[!!!]");
    assert_eq!(AlertSeverity::Error.tag(), "[ERR]");
    assert_eq!(AlertSeverity::Warning.tag(), "[WRN]");
    assert_eq!(AlertSeverity::Info.tag(), "[INF]");
}

#[test]
fn test_severity_default() {
    let severity = AlertSeverity::default();
    assert_eq!(severity, AlertSeverity::Warning);
}

#[test]
fn parse_condition_error_kinds() {
    assert!(matches!(parse_condition("bogus"), Err(ParseConditionError::UnknownType(t)) if t == "bogus"));
    assert!(matches!(parse_condition("pattern"), Err(ParseConditionError::UnknownType(t)) if t == "pattern"));
    assert!(matches!(parse_condition("Foo-Bar:1"), Err(ParseConditionError::UnknownType(t)) if t == "foo-bar"));
    assert!(matches!(parse_condition("peer-drop:-1"), Err(ParseConditionError::InvalidNumber(_))));
    assert!(matches!(parse_condition("pattern:("), Err(ParseConditionError::InvalidRegex(_))));
}

#[test]
fn parse_condition_error_texts() {
    assert_eq!(parse_condition("bogus").unwrap_err().to_string(), "unknown condition type: bogus");
    assert_eq!(ParseConditionError::MissingValue("x".to_string()).to_string(), "missing value for condition: x");
    assert!(parse_condition("error-threshold:x").unwrap_err().to_string().starts_with("invalid number: "));
}

#[test]
fn pattern_keeps_its_case() {
    match parse_condition("PATTERN:Fatal").unwrap() {
        AlertCondition::Pattern { regex } => {
            assert!(regex.is_match("Fatal"));
            assert!(!regex.is_match("fatal"));
        }
        _ => panic!("expected Pattern"),
    }
}
