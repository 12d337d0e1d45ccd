//! The configuration of a broker, and how it is read from lines of text.
//!
//! A configuration text holds one `key = value` entry per line. Blank lines
//! and lines that start with `#` are passed over. A line without `=`, an
//! unknown key or an invalid value rejects the whole text.

use crate::error::{BrokerError, ErrorKind, ErrorView};
use crate::text::{
    chars_of, find_char, first_index, same_text, split, split_and_trim, split_text, split_trimmed,
    str_to_lowercase, trim, trimmed,
};
use vstd::prelude::*;

verus! {

/// The file that the process-wide broker reads its configuration from.
pub const CONFIG_FILE: &'static str = "lib_broker.cfg";

/// The file, in the log directory, that the broker logs to.
pub const LOG_FILE: &'static str = "lib_broker.log";

/// How often the log file is rotated.
#[derive(Clone, Copy, Debug, PartialEq, Eq, Structural)]
pub enum LogRotation {
    Daily,
    Weekly,
    Monthly,
}

/// A family of backends that a configuration can enable.
#[derive(Clone, Copy, Debug, PartialEq, Eq, Structural)]
pub enum BackendKind {
    RabbitMq,
    Kafka,
}

/// The settings a broker is built from. A backend is enabled when both of
/// its settings are present.
#[derive(Clone, Debug, PartialEq, Eq)]
pub struct Config {
    pub log_directory: Option<String>,
    pub log_rotation: Option<LogRotation>,
    pub use_windows_debug: bool,
    pub use_linux_syslog: bool,
    pub rabbitmq_url: Option<String>,
    pub rabbitmq_exchange: Option<String>,
    pub kafka_brokers: Option<Vec<String>>,
    pub kafka_topic: Option<String>,
}

/// What a `Config` is in contracts: its fields, texts as sequences of
/// characters.
pub struct ConfigView {
    pub log_directory: Option<Seq<char>>,
    pub log_rotation: Option<LogRotation>,
    pub use_windows_debug: bool,
    pub use_linux_syslog: bool,
    pub rabbitmq_url: Option<Seq<char>>,
    pub rabbitmq_exchange: Option<Seq<char>>,
    pub kafka_brokers: Option<Seq<Seq<char>>>,
    pub kafka_topic: Option<Seq<char>>,
}

/// The rotation that a lower-case name stands for.
pub open spec fn rotation_named(name: Seq<char>) -> Option<LogRotation> {
    if name == "daily"@ {
        Some(LogRotation::Daily)
    } else if name == "weekly"@ {
        Some(LogRotation::Weekly)
    } else if name == "monthly"@ {
        Some(LogRotation::Monthly)
    } else {
        None
    }
}

/// Whether a value switches a flag on: it reads `true`, in any case.
pub open spec fn flag_value(value: Seq<char>) -> bool {
    str_to_lowercase(value) == "true"@
}

/// The failure for a configuration text, with the given detail.
pub open spec fn config_failure(detail: Seq<char>) -> ErrorView {
    ErrorView { kind: ErrorKind::Config, detail }
}

impl ConfigView {
    /// The configuration in which nothing is set.
    pub open spec fn empty() -> ConfigView {
        ConfigView {
            log_directory: None,
            log_rotation: None,
            use_windows_debug: false,
            use_linux_syslog: false,
            rabbitmq_url: None,
            rabbitmq_exchange: None,
            kafka_brokers: None,
            kafka_topic: None,
        }
    }

    /// The configuration after the entry `key = value`, or the failure that
    /// rejects the entry.
    pub open spec fn with_entry(self, key: Seq<char>, value: Seq<char>) -> Result<
        ConfigView,
        ErrorView,
    > {
        if key == "log_directory"@ {
            Ok(ConfigView { log_directory: Some(value), ..self })
        } else if key == "log_rotation"@ {
            match rotation_named(str_to_lowercase(value)) {
                Some(rotation) => Ok(ConfigView { log_rotation: Some(rotation), ..self }),
                None => Err(config_failure("Invalid log rotation value"@)),
            }
        } else if key == "use_windows_debug"@ {
            Ok(ConfigView { use_windows_debug: flag_value(value), ..self })
        } else if key == "use_linux_syslog"@ {
            Ok(ConfigView { use_linux_syslog: flag_value(value), ..self })
        } else if key == "rabbitmq_url"@ {
            Ok(ConfigView { rabbitmq_url: Some(value), ..self })
        } else if key == "rabbitmq_exchange"@ {
            Ok(ConfigView { rabbitmq_exchange: Some(value), ..self })
        } else if key == "kafka_brokers"@ {
            Ok(ConfigView { kafka_brokers: Some(split_trimmed(value, ',')), ..self })
        } else if key == "kafka_topic"@ {
            Ok(ConfigView { kafka_topic: Some(value), ..self })
        } else {
            Err(config_failure("Unknown configuration key: "@ + key))
        }
    }

    /// The configuration after one line of text, or the failure that rejects
    /// the line. A blank line and a comment change nothing; any other line
    /// has to be an entry, with `=` between its key and its value.
    pub open spec fn with_line(self, line: Seq<char>) -> Result<ConfigView, ErrorView> {
        let entry = trimmed(line);
        if entry.len() == 0 || entry.first() == '#' {
            Ok(self)
        } else {
            match first_index(entry, '=') {
                Some(i) => self.with_entry(trimmed(entry.take(i)), trimmed(entry.skip(i + 1))),
                None => Err(config_failure("Invalid configuration line: "@ + entry)),
            }
        }
    }

    /// The configuration after the given lines, read in order, or the failure
    /// of the first line that is rejected.
    pub open spec fn with_lines(self, lines: Seq<Seq<char>>) -> Result<ConfigView, ErrorView>
        decreases lines.len(),
    {
        if lines.len() == 0 {
            Ok(self)
        } else {
            match self.with_line(lines.first()) {
                Ok(next) => next.with_lines(lines.drop_first()),
                Err(e) => Err(e),
            }
        }
    }

    /// Whether the RabbitMQ backend is enabled.
    pub open spec fn rabbitmq_enabled(self) -> bool {
        self.rabbitmq_url is Some && self.rabbitmq_exchange is Some
    }

    /// Whether the Kafka backend is enabled.
    pub open spec fn kafka_enabled(self) -> bool {
        self.kafka_brokers is Some && self.kafka_topic is Some
    }

    /// The enabled backends, in the order in which a message is offered to
    /// them.
    pub open spec fn enabled_backends(self) -> Seq<BackendKind> {
        let first = if self.rabbitmq_enabled() {
            seq![BackendKind::RabbitMq]
        } else {
            Seq::empty()
        };
        if self.kafka_enabled() {
            first.push(BackendKind::Kafka)
        } else {
            first
        }
    }

    /// The rotation of the log file, where a log directory is set: the
    /// configured one, or daily.
    pub open spec fn file_log_rotation(self) -> Option<LogRotation> {
        match self.log_directory {
            Some(_) => match self.log_rotation {
                Some(rotation) => Some(rotation),
                None => Some(LogRotation::Daily),
            },
            None => None,
        }
    }
}

/// The view of an optional text.
pub open spec fn text_view(text: Option<String>) -> Option<Seq<char>> {
    match text {
        Some(s) => Some(s@),
        None => None,
    }
}

impl View for Config {
    type V = ConfigView;

    open spec fn view(&self) -> ConfigView {
        ConfigView {
            log_directory: text_view(self.log_directory),
            log_rotation: self.log_rotation,
            use_windows_debug: self.use_windows_debug,
            use_linux_syslog: self.use_linux_syslog,
            rabbitmq_url: text_view(self.rabbitmq_url),
            rabbitmq_exchange: text_view(self.rabbitmq_exchange),
            kafka_brokers: match self.kafka_brokers {
                Some(brokers) => Some(brokers.deep_view()),
                None => None,
            },
            kafka_topic: text_view(self.kafka_topic),
        }
    }
}

impl Default for Config {
    /// The configuration in which nothing is set.
    fn default() -> (config: Config)
        ensures
            config@ == ConfigView::empty(),
    {
        Config {
            log_directory: None,
            log_rotation: None,
            use_windows_debug: false,
            use_linux_syslog: false,
            rabbitmq_url: None,
            rabbitmq_exchange: None,
            kafka_brokers: None,
            kafka_topic: None,
        }
    }
}

impl LogRotation {
    /// The rotation that a lower-case name stands for.
    pub fn from_name(name: &str) -> (rotation: Option<LogRotation>)
        ensures
            rotation == rotation_named(name@),
    {
        if same_text(name, "daily") {
            Some(LogRotation::Daily)
        } else if same_text(name, "weekly") {
            Some(LogRotation::Weekly)
        } else if same_text(name, "monthly") {
            Some(LogRotation::Monthly)
        } else {
            None
        }
    }

    /// The rotation that a configured value stands for, in any case.
    pub fn parse(value: &str) -> (rotation: Option<LogRotation>)
        ensures
            rotation == rotation_named(str_to_lowercase(value@)),
    {
        let lower = value.to_lowercase();
        LogRotation::from_name(lower.as_str())
    }
}

/// Whether a configured value switches a flag on.
pub fn parse_flag(value: &str) -> (on: bool)
    ensures
        on == flag_value(value@),
{
    let lower = value.to_lowercase();
    same_text(lower.as_str(), "true")
}

impl Config {
    /// Sets the entry `key = value`. An unknown key or an invalid value is
    /// rejected and leaves the configuration as it was.
    pub fn set_entry(&mut self, key: &str, value: &str) -> (r: Result<(), BrokerError>)
        ensures
            match old(self)@.with_entry(key@, value@) {
                Ok(next) => r is Ok && final(self)@ == next,
                Err(e) => r is Err && r->Err_0@ == e && final(self)@ == old(self)@,
            },
    {
        if same_text(key, "log_directory") {
            self.log_directory = Some(String::from_str(value));
            Ok(())
        } else if same_text(key, "log_rotation") {
            match LogRotation::parse(value) {
                Some(rotation) => {
                    self.log_rotation = Some(rotation);
                    Ok(())
                },
                None => Err(
                    BrokerError::ConfigError(String::from_str("Invalid log rotation value")),
                ),
            }
        } else if same_text(key, "use_windows_debug") {
            self.use_windows_debug = parse_flag(value);
            Ok(())
        } else if same_text(key, "use_linux_syslog") {
            self.use_linux_syslog = parse_flag(value);
            Ok(())
        } else if same_text(key, "rabbitmq_url") {
            self.rabbitmq_url = Some(String::from_str(value));
            Ok(())
        } else if same_text(key, "rabbitmq_exchange") {
            self.rabbitmq_exchange = Some(String::from_str(value));
            Ok(())
        } else if same_text(key, "kafka_brokers") {
            self.kafka_brokers = Some(split_and_trim(value, ','));
            Ok(())
        } else if same_text(key, "kafka_topic") {
            self.kafka_topic = Some(String::from_str(value));
            Ok(())
        } else {
            Err(
                BrokerError::ConfigError(
                    String::from_str("Unknown configuration key: ").concat(key),
                ),
            )
        }
    }

    /// Reads one line of a configuration text: a blank line, a comment or an
    /// entry. Any other line is rejected, as an entry with an unknown key or
    /// an invalid value is. A rejected line leaves the configuration as it
    /// was.
    pub fn apply_line(&mut self, line: &str) -> (r: Result<(), BrokerError>)
        ensures
            match old(self)@.with_line(line@) {
                Ok(next) => r is Ok && final(self)@ == next,
                Err(e) => r is Err && r->Err_0@ == e && final(self)@ == old(self)@,
            },
    {
        let entry = trim(line);
        let chars = chars_of(entry);
        if chars.len() == 0 || chars[0] == '#' {
            return Ok(());
        }
        match find_char(&chars, '=') {
            Some(i) => {
                let key = trim(entry.substring_char(0, i));
                let value = trim(entry.substring_char(i + 1, chars.len()));
                proof {
                    assert(entry@.subrange(0, i as int) =~= entry@.take(i as int));
                    assert(entry@.subrange(i + 1, chars.len() as int) =~= entry@.skip(i + 1));
                }
                self.set_entry(key, value)
            },
            None => Err(
                BrokerError::ConfigError(
                    String::from_str("Invalid configuration line: ").concat(entry),
                ),
            ),
        }
    }

    /// Reads a configuration from the lines of a text, in order, starting
    /// from the configuration in which nothing is set.
    pub fn from_lines(lines: &Vec<String>) -> (r: Result<Config, BrokerError>)
        ensures
            match ConfigView::empty().with_lines(lines.deep_view()) {
                Ok(config) => r is Ok && r->Ok_0@ == config,
                Err(e) => r is Err && r->Err_0@ == e,
            },
    {
        let mut config = Config::default();
        let n: usize = lines.len();
        let mut i: usize = 0;
        proof {
            assert(lines.deep_view().skip(0) =~= lines.deep_view());
        }
        while i < n
            invariant
                i <= n,
                n == lines.len(),
                ConfigView::empty().with_lines(lines.deep_view()) == config@.with_lines(
                    lines.deep_view().skip(i as int),
                ),
            decreases n - i,
        {
            let ghost rest = lines.deep_view().skip(i as int);
            proof {
                assert(rest.first() == lines[i as int]@);
                assert(rest.drop_first() =~= lines.deep_view().skip(i + 1));
            }
            match config.apply_line(lines[i].as_str()) {
                Ok(()) => {},
                Err(e) => {
                    return Err(e);
                },
            }
            i += 1;
        }
        Ok(config)
    }

    /// Reads a configuration from a text whose lines end with a line feed,
    /// starting from the configuration in which nothing is set.
    pub fn from_text(text: &str) -> (r: Result<Config, BrokerError>)
        ensures
            match ConfigView::empty().with_lines(split(text@, '\n')) {
                Ok(config) => r is Ok && r->Ok_0@ == config,
                Err(e) => r is Err && r->Err_0@ == e,
            },
    {
        let lines = split_text(text, '\n');
        Config::from_lines(&lines)
    }

    /// Whether the RabbitMQ backend is enabled.
    pub fn rabbitmq_enabled(&self) -> (enabled: bool)
        ensures
            enabled == self@.rabbitmq_enabled(),
    {
        self.rabbitmq_url.is_some() && self.rabbitmq_exchange.is_some()
    }

    /// Whether the Kafka backend is enabled.
    pub fn kafka_enabled(&self) -> (enabled: bool)
        ensures
            enabled == self@.kafka_enabled(),
    {
        self.kafka_brokers.is_some() && self.kafka_topic.is_some()
    }

    /// The enabled backends, in the order in which a message is offered to
    /// them.
    pub fn enabled_backends(&self) -> (kinds: Vec<BackendKind>)
        ensures
            kinds@ == self@.enabled_backends(),
    {
        let mut kinds: Vec<BackendKind> = Vec::new();
        if self.rabbitmq_enabled() {
            kinds.push(BackendKind::RabbitMq);
        }
        if self.kafka_enabled() {
            kinds.push(BackendKind::Kafka);
        }
        kinds
    }

    /// The rotation of the log file, where a log directory is set.
    pub fn file_log_rotation(&self) -> (rotation: Option<LogRotation>)
        ensures
            rotation == self@.file_log_rotation(),
    {
        if self.log_directory.is_some() {
            match self.log_rotation {
                Some(rotation) => Some(rotation),
                None => Some(LogRotation::Daily),
            }
        } else {
            None
        }
    }
}

} // verus!
