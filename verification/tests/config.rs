use lib_broker::config::{parse_flag, BackendKind, Config, LogRotation, CONFIG_FILE, LOG_FILE};
use lib_broker::error::{BrokerError, ErrorKind};

fn lines(text: &[&str]) -> Vec<String> {
    text.iter().map(|line| line.to_string()).collect()
}

fn config_failure(detail: &str) -> BrokerError {
    BrokerError::ConfigError(detail.to_string())
}

#[test]
fn default_sets_nothing() {
    let config = Config::default();
    assert_eq!(config.log_directory, None);
    assert_eq!(config.log_rotation, None);
    assert!(!config.use_windows_debug);
    assert!(!config.use_linux_syslog);
    assert_eq!(config.rabbitmq_url, None);
    assert_eq!(config.rabbitmq_exchange, None);
    assert_eq!(config.kafka_brokers, None);
    assert_eq!(config.kafka_topic, None);
}

#[test]
fn file_names_are_fixed() {
    assert_eq!(CONFIG_FILE, "lib_broker.cfg");
    assert_eq!(LOG_FILE, "lib_broker.log");
}

#[test]
fn reads_every_key() {
    let config = Config::from_lines(&lines(&[
        "log_directory = /var/log/broker",
        "log_rotation = Weekly",
        "use_windows_debug = TRUE",
        "use_linux_syslog = true",
        "rabbitmq_url = amqp://localhost:5672",
        "rabbitmq_exchange = events",
        "kafka_brokers = one:9092 , two:9092,three:9092",
        "kafka_topic = updates",
    ]))
    .unwrap();
    assert_eq!(
        config,
        Config {
            log_directory: Some("/var/log/broker".to_string()),
            log_rotation: Some(LogRotation::Weekly),
            use_windows_debug: true,
            use_linux_syslog: true,
            rabbitmq_url: Some("amqp://localhost:5672".to_string()),
            rabbitmq_exchange: Some("events".to_string()),
            kafka_brokers: Some(vec![
                "one:9092".to_string(),
                "two:9092".to_string(),
                "three:9092".to_string()
            ]),
            kafka_topic: Some("updates".to_string()),
        }
    );
}

#[test]
fn no_lines_give_the_default() {
    assert_eq!(Config::from_lines(&Vec::new()).unwrap(), Config::default());
    assert_eq!(Config::from_text("").unwrap(), Config::default());
}

#[test]
fn passes_over_comments_and_blank_lines() {
    let config = Config::from_lines(&lines(&[
        "# a comment",
        "",
        "   ",
        "   # an indented comment with key = value",
        "#no equals sign here",
        "kafka_topic=updates",
    ]))
    .unwrap();
    assert_eq!(config, Config { kafka_topic: Some("updates".to_string()), ..Config::default() });
}

#[test]
fn line_without_equals_is_rejected() {
    let mut config = Config::default();
    config.apply_line("kafka_topic=updates").unwrap();
    let before = config.clone();
    assert_eq!(
        config.apply_line("rabbitmq_url"),
        Err(config_failure("Invalid configuration line: rabbitmq_url"))
    );
    assert_eq!(
        config.apply_line("  no equals sign here \t"),
        Err(config_failure("Invalid configuration line: no equals sign here"))
    );
    assert_eq!(config, before);
}

#[test]
fn text_with_a_line_without_equals_is_rejected() {
    let error = Config::from_text("rabbitmq_url\n").unwrap_err();
    assert_eq!(error.kind(), ErrorKind::Config);
    assert_eq!(error, config_failure("Invalid configuration line: rabbitmq_url"));
    assert_eq!(
        Config::from_lines(&lines(&["kafka_topic=t", "kafka_brokers", "colour=red"])),
        Err(config_failure("Invalid configuration line: kafka_brokers"))
    );
}

#[test]
fn value_keeps_later_equals_signs() {
    let mut config = Config::default();
    config.apply_line("rabbitmq_url = amqp://u:p@h/v?a=b&c=d ").unwrap();
    assert_eq!(config.rabbitmq_url, Some("amqp://u:p@h/v?a=b&c=d".to_string()));
}

#[test]
fn hash_after_the_start_is_no_comment() {
    let mut config = Config::default();
    config.apply_line("kafka_topic=#updates").unwrap();
    assert_eq!(config.kafka_topic, Some("#updates".to_string()));
}

#[test]
fn empty_value_is_kept() {
    let mut config = Config::default();
    config.apply_line("log_directory=").unwrap();
    config.apply_line("kafka_brokers =  ").unwrap();
    assert_eq!(config.log_directory, Some(String::new()));
    assert_eq!(config.kafka_brokers, Some(vec![String::new()]));
}

#[test]
fn later_line_replaces_earlier_one() {
    let config =
        Config::from_lines(&lines(&["kafka_topic=first", "kafka_topic=second"])).unwrap();
    assert_eq!(config.kafka_topic, Some("second".to_string()));
}

#[test]
fn unknown_key_is_rejected() {
    let mut config = Config::default();
    config.apply_line("kafka_topic=updates").unwrap();
    let before = config.clone();
    assert_eq!(
        config.apply_line("  colour = red"),
        Err(config_failure("Unknown configuration key: colour"))
    );
    assert_eq!(config, before);
}

#[test]
fn key_is_matched_exactly() {
    let mut config = Config::default();
    assert_eq!(
        config.apply_line("Kafka_Topic=updates"),
        Err(config_failure("Unknown configuration key: Kafka_Topic"))
    );
    assert_eq!(
        config.apply_line("kafka topic=updates"),
        Err(config_failure("Unknown configuration key: kafka topic"))
    );
}

#[test]
fn empty_key_is_unknown() {
    let mut config = Config::default();
    assert_eq!(config.apply_line("= value"), Err(config_failure("Unknown configuration key: ")));
}

#[test]
fn invalid_rotation_is_rejected() {
    let mut config = Config::default();
    assert_eq!(
        config.apply_line("log_rotation=hourly"),
        Err(config_failure("Invalid log rotation value"))
    );
    assert_eq!(config.log_rotation, None);
    assert_eq!(
        config.set_entry("log_rotation", ""),
        Err(config_failure("Invalid log rotation value"))
    );
}

#[test]
fn rotation_is_read_in_any_case() {
    assert_eq!(LogRotation::parse("daily"), Some(LogRotation::Daily));
    assert_eq!(LogRotation::parse("DAILY"), Some(LogRotation::Daily));
    assert_eq!(LogRotation::parse("Weekly"), Some(LogRotation::Weekly));
    assert_eq!(LogRotation::parse("mOnThLy"), Some(LogRotation::Monthly));
    assert_eq!(LogRotation::parse("yearly"), None);
    assert_eq!(LogRotation::parse(" daily"), None);
}

#[test]
fn rotation_name_is_lower_case() {
    assert_eq!(LogRotation::from_name("daily"), Some(LogRotation::Daily));
    assert_eq!(LogRotation::from_name("weekly"), Some(LogRotation::Weekly));
    assert_eq!(LogRotation::from_name("monthly"), Some(LogRotation::Monthly));
    assert_eq!(LogRotation::from_name("Daily"), None);
    assert_eq!(LogRotation::from_name(""), None);
}

#[test]
fn flag_is_on_for_true_alone() {
    assert!(parse_flag("true"));
    assert!(parse_flag("True"));
    assert!(parse_flag("TRUE"));
    assert!(!parse_flag("false"));
    assert!(!parse_flag("yes"));
    assert!(!parse_flag("1"));
    assert!(!parse_flag(""));
}

#[test]
fn flag_can_be_switched_off_again() {
    let config = Config::from_lines(&lines(&[
        "use_linux_syslog=true",
        "use_windows_debug=true",
        "use_linux_syslog=no",
    ]))
    .unwrap();
    assert!(!config.use_linux_syslog);
    assert!(config.use_windows_debug);
}

#[test]
fn set_entry_takes_key_and_value_as_they_are() {
    let mut config = Config::default();
    config.set_entry("rabbitmq_exchange", " events ").unwrap();
    assert_eq!(config.rabbitmq_exchange, Some(" events ".to_string()));
    assert_eq!(
        config.set_entry(" rabbitmq_exchange", "events"),
        Err(config_failure("Unknown configuration key:  rabbitmq_exchange"))
    );
}

#[test]
fn from_lines_stops_at_the_first_rejected_line() {
    let result = Config::from_lines(&lines(&[
        "kafka_topic=updates",
        "first_bad=1",
        "second_bad=2",
    ]));
    assert_eq!(result, Err(config_failure("Unknown configuration key: first_bad")));
}

#[test]
fn from_text_reads_line_by_line() {
    let config = Config::from_text(
        "# broker\r\nrabbitmq_url=amqp://h\r\n\r\nrabbitmq_exchange = x\nuse_linux_syslog=True",
    )
    .unwrap();
    assert_eq!(
        config,
        Config {
            rabbitmq_url: Some("amqp://h".to_string()),
            rabbitmq_exchange: Some("x".to_string()),
            use_linux_syslog: true,
            ..Config::default()
        }
    );
}

#[test]
fn from_text_rejects_what_a_line_rejects() {
    assert_eq!(
        Config::from_text("kafka_topic=t\nlog_rotation=never\n"),
        Err(config_failure("Invalid log rotation value"))
    );
}

#[test]
fn no_backend_is_enabled_by_default() {
    let config = Config::default();
    assert!(!config.rabbitmq_enabled());
    assert!(!config.kafka_enabled());
    assert_eq!(config.enabled_backends(), Vec::<BackendKind>::new());
}

#[test]
fn backend_needs_both_of_its_settings() {
    let url_only = Config::from_lines(&lines(&["rabbitmq_url=amqp://h"])).unwrap();
    assert!(!url_only.rabbitmq_enabled());
    let exchange_only = Config::from_lines(&lines(&["rabbitmq_exchange=x"])).unwrap();
    assert!(!exchange_only.rabbitmq_enabled());
    let brokers_only = Config::from_lines(&lines(&["kafka_brokers=h:1"])).unwrap();
    assert!(!brokers_only.kafka_enabled());
    let topic_only = Config::from_lines(&lines(&["kafka_topic=t"])).unwrap();
    assert!(!topic_only.kafka_enabled());
    assert_eq!(topic_only.enabled_backends(), Vec::<BackendKind>::new());
}

#[test]
fn enabled_backends_come_in_fixed_order() {
    let rabbit = ["rabbitmq_url=amqp://h", "rabbitmq_exchange=x"];
    let kafka = ["kafka_topic=t", "kafka_brokers=h:1"];
    let only_rabbit = Config::from_lines(&lines(&rabbit)).unwrap();
    assert_eq!(only_rabbit.enabled_backends(), vec![BackendKind::RabbitMq]);
    let only_kafka = Config::from_lines(&lines(&kafka)).unwrap();
    assert_eq!(only_kafka.enabled_backends(), vec![BackendKind::Kafka]);
    let both = Config::from_lines(&lines(&[kafka[0], rabbit[0], kafka[1], rabbit[1]])).unwrap();
    assert!(both.rabbitmq_enabled());
    assert!(both.kafka_enabled());
    assert_eq!(both.enabled_backends(), vec![BackendKind::RabbitMq, BackendKind::Kafka]);
}

#[test]
fn log_file_rotates_daily_unless_configured() {
    assert_eq!(Config::default().file_log_rotation(), None);
    let rotation_only = Config::from_lines(&lines(&["log_rotation=weekly"])).unwrap();
    assert_eq!(rotation_only.file_log_rotation(), None);
    let directory_only = Config::from_lines(&lines(&["log_directory=/tmp/logs"])).unwrap();
    assert_eq!(directory_only.file_log_rotation(), Some(LogRotation::Daily));
    let both =
        Config::from_lines(&lines(&["log_directory=/tmp/logs", "log_rotation=monthly"])).unwrap();
    assert_eq!(both.file_log_rotation(), Some(LogRotation::Monthly));
}
