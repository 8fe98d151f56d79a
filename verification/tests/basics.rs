use reaper::logging::{get_log_channel, FeatureFlag, LogType, LoggingConfig};
use reaper::numbers::{parse_i32, parse_i64, parse_u64, parse_usize};
use reaper::options::{CommandOption, OptionValue, Options};
use reaper::text::{i64_to_string, str_eq, u64_to_string};

fn flags(logging: bool, action: bool) -> Vec<FeatureFlag> {
    vec![
        FeatureFlag { feature: "logging".to_string(), active: logging },
        FeatureFlag { feature: "logging.action".to_string(), active: action },
        FeatureFlag { feature: "logging.message".to_string(), active: false },
        FeatureFlag { feature: "logging.voice".to_string(), active: false },
    ]
}

fn config() -> LoggingConfig {
    LoggingConfig {
        log_actions: true,
        log_messages: false,
        log_voice: true,
        log_channel: None,
        log_action_channel: Some(11),
        log_message_channel: Some(12),
        log_voice_channel: Some(13),
    }
}

#[test]
fn log_channels() {
    assert_eq!(get_log_channel(&flags(false, false), &config(), &LogType::Action), Some(11));
    assert_eq!(get_log_channel(&flags(true, false), &config(), &LogType::Action), None);
    assert_eq!(get_log_channel(&flags(false, true), &config(), &LogType::Action), None);
    assert_eq!(get_log_channel(&flags(false, false), &config(), &LogType::Message), None);
    let mut single = config();
    single.log_channel = Some(99);
    assert_eq!(get_log_channel(&flags(false, false), &single, &LogType::Voice), Some(99));
}

#[test]
fn option_lookup() {
    let opts = Options {
        options: vec![
            CommandOption { name: "user".to_string(), value: OptionValue::User(5) },
            CommandOption { name: "reason".to_string(), value: OptionValue::String("spam".to_string()) },
            CommandOption { name: "count".to_string(), value: OptionValue::Integer(-3) },
            CommandOption { name: "expired".to_string(), value: OptionValue::Boolean(true) },
        ],
    };
    assert_eq!(opts.get_user("user"), Some(5));
    assert_eq!(opts.get_string("reason"), Some("spam".to_string()));
    assert_eq!(opts.get_integer("count"), Some(-3));
    assert_eq!(opts.get_boolean("expired"), Some(true));
    assert_eq!(opts.get_role("user"), None);
    assert_eq!(opts.get_string("missing"), None);
    let nested = Options {
        options: vec![CommandOption {
            name: "kill".to_string(),
            value: OptionValue::SubCommand(vec![CommandOption { name: "guild".to_string(), value: OptionValue::String("42".to_string()) }]),
        }],
    };
    assert_eq!(nested.get_string("guild"), Some("42".to_string()));
}

#[test]
fn number_parsing() {
    assert_eq!(parse_u64("42"), Some(42));
    assert_eq!(parse_u64("+42"), Some(42));
    assert_eq!(parse_u64("-1"), None);
    assert_eq!(parse_u64("18446744073709551616"), None);
    assert_eq!(parse_i64("-9223372036854775808"), Some(i64::MIN));
    assert_eq!(parse_i64("1 2"), None);
    assert_eq!(parse_i64(""), None);
    assert_eq!(parse_i32("2147483648"), None);
    assert_eq!(parse_usize("7"), Some(7));
}

#[test]
fn text_helpers() {
    assert_eq!(i64_to_string(i64::MIN), i64::MIN.to_string());
    assert_eq!(i64_to_string(-12), "-12");
    assert_eq!(u64_to_string(u64::MAX), u64::MAX.to_string());
    assert!(str_eq("abc", "abc"));
    assert!(!str_eq("abc", "abd"));
}
