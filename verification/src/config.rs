//! The settings of the service and their defaults.

use crate::text::chars_of;
use vstd::prelude::*;
use vstd::string::StringExecFns;

verus! {

/// Where the service listens.
#[derive(Clone, Debug, PartialEq, Eq)]
pub struct ServerConfig {
    pub host: String,
    pub port: u16,
}

/// How sandboxes are made.
#[derive(Clone, Debug, PartialEq, Eq)]
pub struct DockerConfig {
    pub default_image: String,
    pub memory_limit_mb: u64,
    pub cpu_shares: u64,
}

/// How long sessions may idle.
#[derive(Clone, Debug, PartialEq, Eq)]
pub struct SessionConfig {
    pub max_idle_minutes: i64,
    pub cleanup_interval_minutes: u64,
}

/// The settings of the service.
#[derive(Clone, Debug, PartialEq, Eq)]
pub struct Config {
    pub server: ServerConfig,
    pub docker: DockerConfig,
    pub session: SessionConfig,
}

/// The mathematical model of a [`Config`].
pub struct ConfigView {
    pub host: Seq<char>,
    pub port: u16,
    pub default_image: Seq<char>,
    pub memory_limit_mb: u64,
    pub cpu_shares: u64,
    pub max_idle_minutes: i64,
    pub cleanup_interval_minutes: u64,
}

impl View for Config {
    type V = ConfigView;

    open spec fn view(&self) -> ConfigView {
        ConfigView {
            host: self.server.host@,
            port: self.server.port,
            default_image: self.docker.default_image@,
            memory_limit_mb: self.docker.memory_limit_mb,
            cpu_shares: self.docker.cpu_shares,
            max_idle_minutes: self.session.max_idle_minutes,
            cleanup_interval_minutes: self.session.cleanup_interval_minutes,
        }
    }
}

/// The settings that hold where nothing else is said.
pub open spec fn default_config() -> ConfigView {
    ConfigView {
        host: "127.0.0.1"@,
        port: 3001,
        default_image: "leethack-vm:latest"@,
        memory_limit_mb: 512,
        cpu_shares: 512,
        max_idle_minutes: 30,
        cleanup_interval_minutes: 10,
    }
}

/// Whether `c` is a decimal digit.
pub open spec fn is_digit(c: char) -> bool {
    '0' <= c <= '9'
}

/// The number that a text of decimal digits denotes.
pub open spec fn decimal_value(digits: Seq<char>) -> nat
    decreases digits.len(),
{
    if digits.len() == 0 {
        0
    } else {
        decimal_value(digits.drop_last()) * 10 + (digits.last() as u32 - '0' as u32) as nat
    }
}

/// Whether a text is made of decimal digits alone.
pub open spec fn all_digits(text: Seq<char>) -> bool {
    forall|i: int| 0 <= i < text.len() ==> is_digit(#[trigger] text[i])
}

/// The digits of a port's text: the text without a `+` in front.
pub open spec fn port_digits(text: Seq<char>) -> Seq<char> {
    if text.len() > 0 && text[0] == '+' {
        text.drop_first()
    } else {
        text
    }
}

/// The port that a text denotes: an optional `+`, then one or more decimal
/// digits whose value is at most 65535. Any other text denotes none.
pub open spec fn parsed_port(text: Seq<char>) -> Option<u16> {
    let digits = port_digits(text);
    if digits.len() > 0 && all_digits(digits) && decimal_value(digits) <= u16::MAX {
        Some(decimal_value(digits) as u16)
    } else {
        None
    }
}

/// The settings in which the values given replace the defaults. A port that
/// is no port leaves the default.
pub open spec fn overridden(
    host: Option<Seq<char>>,
    port: Option<Seq<char>>,
    image: Option<Seq<char>>,
) -> ConfigView {
    let base = default_config();
    ConfigView {
        host: match host {
            Some(h) => h,
            None => base.host,
        },
        port: match port {
            Some(p) => match parsed_port(p) {
                Some(n) => n,
                None => base.port,
            },
            None => base.port,
        },
        default_image: match image {
            Some(i) => i,
            None => base.default_image,
        },
        ..base
    }
}

/// A value only grows when digits are appended to its text.
pub proof fn lemma_decimal_value_grows(digits: Seq<char>, k: int)
    requires
        0 <= k <= digits.len(),
        all_digits(digits),
    ensures
        decimal_value(digits.take(k)) <= decimal_value(digits),
    decreases digits.len() - k,
{
    if k == digits.len() {
        assert(digits.take(k) =~= digits);
    } else {
        let next = digits.take(k + 1);
        assert(next.drop_last() =~= digits.take(k));
        assert(is_digit(digits[k]));
        assert(next.last() == digits[k]);
        lemma_decimal_value_grows(digits, k + 1);
    }
}

/// Reads a port number.
pub fn parse_port(text: &str) -> (port: Option<u16>)
    ensures
        port == parsed_port(text@),
{
    let chars = chars_of(text);
    let start: usize = if chars.len() > 0 && chars[0] == '+' {
        1
    } else {
        0
    };
    let ghost digits = port_digits(text@);
    proof {
        assert(chars@.skip(0) =~= chars@);
        assert(digits =~= chars@.skip(start as int));
    }
    if start == chars.len() {
        return None;
    }
    let mut value: u32 = 0;
    let mut i: usize = start;
    while i < chars.len()
        invariant
            start <= i <= chars.len(),
            digits == port_digits(text@),
            digits == chars@.skip(start as int),
            forall|j: int| 0 <= j < i - start ==> is_digit(#[trigger] digits[j]),
            value == decimal_value(digits.take(i - start)),
            value <= u16::MAX,
        decreases chars.len() - i,
    {
        let c = chars[i];
        let ghost next = digits.take(i - start + 1);
        proof {
            assert(digits[i - start] == c);
            assert(next.drop_last() =~= digits.take(i - start));
            assert(next.last() == c);
        }
        if !('0' <= c && c <= '9') {
            assert(!is_digit(digits[i - start]));
            return None;
        }
        let digit: u32 = c as u32 - '0' as u32;
        let grown: u32 = value * 10 + digit;
        if grown > 65535 {
            proof {
                assert(decimal_value(next) == grown);
                if all_digits(digits) {
                    lemma_decimal_value_grows(digits, i - start + 1);
                }
            }
            return None;
        }
        value = grown;
        i += 1;
    }
    proof {
        assert(digits.take(digits.len() as int) =~= digits);
    }
    Some(value as u16)
}

impl Default for Config {
    fn default() -> (config: Self)
        ensures
            config@ == default_config(),
    {
        Config {
            server: ServerConfig { host: String::from_str("127.0.0.1"), port: 3001 },
            docker: DockerConfig {
                default_image: String::from_str("leethack-vm:latest"),
                memory_limit_mb: 512,
                cpu_shares: 512,
            },
            session: SessionConfig { max_idle_minutes: 30, cleanup_interval_minutes: 10 },
        }
    }
}

impl Config {
    /// The default settings, with the host, the port and the sandbox image
    /// replaced by the values given. A port that cannot be read as one
    /// leaves the default port.
    pub fn with_overrides(host: Option<String>, port: Option<String>, image: Option<String>) -> (config:
        Self)
        ensures
            config@ == overridden(
                crate::session::text_of(host),
                crate::session::text_of(port),
                crate::session::text_of(image),
            ),
    {
        let mut config = Config::default();
        if let Some(h) = host {
            config.server.host = h;
        }
        if let Some(p) = port {
            if let Some(n) = parse_port(p.as_str()) {
                config.server.port = n;
            }
        }
        if let Some(i) = image {
            config.docker.default_image = i;
        }
        config
    }
}

} // verus!
