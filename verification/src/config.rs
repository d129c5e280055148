//! The settings that the pipeline is configured with.
//!
//! The caller reads each setting from the environment and hands over what it
//! found: `None` where the setting is absent. Everything that is decided from
//! the raw text is decided here.

use crate::text::same_text;
use vstd::prelude::*;
use vstd::string::*;

verus! {

/// The settings that the library knows.
#[derive(Clone, Copy, Debug, PartialEq, Eq, Structural)]
pub enum Setting {
    /// The numeric identifier of the webhook.
    WebhookId,
    /// The credential of the webhook.
    WebhookToken,
    /// Whether log output is forwarded to the webhook.
    WebhookLoggingEnabled,
    /// The credential of the bot itself.
    DiscordToken,
}

/// Why a setting could not be used.
#[derive(Clone, Copy, Debug, PartialEq, Eq, Structural)]
pub enum ConfigError {
    /// The setting is absent.
    Unset(Setting),
    /// The setting is present, but its text is not of the expected form.
    Unparsable(Setting),
}

impl Setting {
    /// The name under which the setting is looked up.
    pub open spec fn name_spec(self) -> Seq<char> {
        match self {
            Setting::WebhookId => "WEBHOOK_ID"@,
            Setting::WebhookToken => "WEBHOOK_TOKEN"@,
            Setting::WebhookLoggingEnabled => "WEBHOOK_LOGGING_ENABLED"@,
            Setting::DiscordToken => "DISCORD_TOKEN"@,
        }
    }

    /// The name under which the setting is looked up.
    pub fn name(&self) -> (name: &'static str)
        ensures
            name@ == self.name_spec(),
    {
        match self {
            Setting::WebhookId => "WEBHOOK_ID",
            Setting::WebhookToken => "WEBHOOK_TOKEN",
            Setting::WebhookLoggingEnabled => "WEBHOOK_LOGGING_ENABLED",
            Setting::DiscordToken => "DISCORD_TOKEN",
        }
    }
}

/// The byte of the sign that may stand before a number.
const PLUS: u8 = 43;

/// The byte of the digit `0`.
const ZERO: u8 = 48;

/// The byte of the digit `9`.
const NINE: u8 = 57;

/// The text of an optional string.
pub open spec fn raw_view(raw: Option<&str>) -> Option<Seq<char>> {
    match raw {
        Some(text) => Some(text@),
        None => None,
    }
}

/// Whether a decimal digit.
pub open spec fn is_digit(c: char) -> bool {
    '0' <= c <= '9'
}

/// The value of a decimal digit.
pub open spec fn digit_value(c: char) -> nat {
    (c as u32 - '0' as u32) as nat
}

/// Whether every character is a decimal digit.
pub open spec fn all_digits(text: Seq<char>) -> bool {
    forall|i: int| 0 <= i < text.len() ==> is_digit(#[trigger] text[i])
}

/// The number that a run of decimal digits stands for, the first digit being
/// the most significant.
pub open spec fn decimal_value(digits: Seq<char>) -> nat
    decreases digits.len(),
{
    if digits.len() == 0 {
        0
    } else {
        10 * decimal_value(digits.drop_last()) + digit_value(digits.last())
    }
}

/// The digits of a literal: all of it but one leading `+`.
pub open spec fn literal_digits(text: Seq<char>) -> Seq<char> {
    if text.len() > 0 && text[0] == '+' {
        text.drop_first()
    } else {
        text
    }
}

/// The identifier that a text stands for: an optional `+`, then one or more
/// decimal digits whose value fits 64 bits. Any other text stands for none.
pub open spec fn parsed_id(text: Seq<char>) -> Option<u64> {
    let digits = literal_digits(text);
    if digits.len() > 0 && all_digits(digits) && decimal_value(digits) <= u64::MAX {
        Some(decimal_value(digits) as u64)
    } else {
        None
    }
}

/// A run of digits is worth at least as much as each of its beginnings.
proof fn lemma_decimal_value_grows(digits: Seq<char>, k: int)
    requires
        0 <= k <= digits.len(),
    ensures
        decimal_value(digits.subrange(0, k)) <= decimal_value(digits),
    decreases digits.len() - k,
{
    if k < digits.len() {
        lemma_decimal_value_grows(digits.drop_last(), k);
        assert(digits.drop_last().subrange(0, k) =~= digits.subrange(0, k));
    } else {
        assert(digits.subrange(0, k) =~= digits);
    }
}

/// Reads a numeric identifier.
pub fn parse_id(text: &str) -> (id: Option<u64>)
    ensures
        id == parsed_id(text@),
{
    let ghost digits = literal_digits(text@);
    if !text.is_ascii() {
        proof {
            let i = choose|i: int| 0 <= i < text@.len() && !('\0' <= #[trigger] text@[i] <= '\u{7f}');
            if digits.len() == text@.len() {
                assert(!is_digit(digits[i]));
            } else {
                assert(i > 0);
                assert(!is_digit(digits[i - 1]));
            }
        }
        return None;
    }
    let bytes = text.as_bytes();
    proof {
        vstd::string::is_ascii_spec_bytes(text);
    }
    let n = bytes.len();
    let start: usize = if n > 0 && bytes[0] == PLUS {
        1
    } else {
        0
    };
    assert(digits =~= text@.subrange(start as int, n as int));
    if start == n {
        return None;
    }
    let mut value: u64 = 0;
    let mut i: usize = start;
    while i < n
        invariant
            start <= i <= n,
            n == bytes@.len(),
            n == text@.len(),
            digits == literal_digits(text@),
            digits == text@.subrange(start as int, n as int),
            forall|j: int| 0 <= j < n ==> #[trigger] bytes@[j] == text@[j] as u8,
            forall|j: int| 0 <= j < n ==> '\0' <= #[trigger] text@[j] <= '\u{7f}',
            forall|j: int| 0 <= j < i - start ==> is_digit(#[trigger] digits[j]),
            value == decimal_value(digits.subrange(0, i - start)),
        decreases n - i,
    {
        let byte = bytes[i];
        let ghost c = digits[i - start];
        assert(c == text@[i as int]);
        assert(byte == c as u8);
        if byte < ZERO || byte > NINE {
            assert(!is_digit(c));
            return None;
        }
        assert(is_digit(c));
        let digit: u64 = (byte - ZERO) as u64;
        assert(digit == digit_value(c));
        proof {
            let next = digits.subrange(0, i + 1 - start);
            assert(next.drop_last() =~= digits.subrange(0, i - start));
            assert(next.last() == c);
            assert(decimal_value(next) == 10 * value + digit);
            lemma_decimal_value_grows(digits, i + 1 - start);
        }
        if value > (u64::MAX - digit) / 10 {
            return None;
        }
        value = value * 10 + digit;
        i += 1;
    }
    assert(digits.subrange(0, n - start) =~= digits);
    Some(value)
}

/// Whether the forwarding flag is on: only where the setting is present and
/// reads `true`. An absent or malformed setting leaves forwarding off.
pub open spec fn flag_enabled(raw: Option<Seq<char>>) -> bool {
    raw == Some("true"@)
}

/// Whether log output is to be forwarded, given the raw text of the
/// forwarding flag.
pub fn is_logging_enabled(raw: Option<&str>) -> (enabled: bool)
    ensures
        enabled == flag_enabled(raw_view(raw)),
{
    match raw {
        Some(text) => same_text(text, "true"),
        None => false,
    }
}

/// What is left of a raw setting that has to be present.
pub open spec fn required(setting: Setting, raw: Option<Seq<char>>) -> Result<Seq<char>, ConfigError> {
    match raw {
        Some(text) => Ok(text),
        None => Err(ConfigError::Unset(setting)),
    }
}

/// The identifier that a raw setting gives.
pub open spec fn required_id(setting: Setting, raw: Option<Seq<char>>) -> Result<u64, ConfigError> {
    match raw {
        None => Err(ConfigError::Unset(setting)),
        Some(text) => match parsed_id(text) {
            Some(id) => Ok(id),
            None => Err(ConfigError::Unparsable(setting)),
        },
    }
}

/// The text of a setting that has to be present.
pub fn get_dotenv(setting: Setting, raw: Option<&str>) -> (value: Result<String, ConfigError>)
    ensures
        value is Ok == required(setting, raw_view(raw)) is Ok,
        value matches Ok(text) ==> Ok::<Seq<char>, ConfigError>(text@) == required(
            setting,
            raw_view(raw),
        ),
        value matches Err(error) ==> Err::<Seq<char>, ConfigError>(error) == required(
            setting,
            raw_view(raw),
        ),
{
    match raw {
        Some(text) => Ok(String::from_str(text)),
        None => Err(ConfigError::Unset(setting)),
    }
}

/// The numeric identifier that a setting holds.
pub fn get_dotenv_id(setting: Setting, raw: Option<&str>) -> (value: Result<u64, ConfigError>)
    ensures
        value == required_id(setting, raw_view(raw)),
{
    match raw {
        None => Err(ConfigError::Unset(setting)),
        Some(text) => match parse_id(text) {
            Some(id) => Ok(id),
            None => Err(ConfigError::Unparsable(setting)),
        },
    }
}

/// The configuration of the webhook sink.
pub struct Constants {
    pub default_webhook_id: u64,
    pub default_webhook_token: String,
    pub webhook_closed: String,
}

/// The values of a configuration.
pub struct ConstantsView {
    pub default_webhook_id: u64,
    pub default_webhook_token: Seq<char>,
    pub webhook_closed: Seq<char>,
}

impl View for Constants {
    type V = ConstantsView;

    open spec fn view(&self) -> ConstantsView {
        ConstantsView {
            default_webhook_id: self.default_webhook_id,
            default_webhook_token: self.default_webhook_token@,
            webhook_closed: self.webhook_closed@,
        }
    }
}

impl Constants {
    /// The configuration that two raw settings give. A bad identifier is
    /// reported before a bad credential.
    pub open spec fn new_spec(id: Option<Seq<char>>, token: Option<Seq<char>>) -> Result<
        ConstantsView,
        ConfigError,
    > {
        match required_id(Setting::WebhookId, id) {
            Err(error) => Err(error),
            Ok(webhook_id) => match required(Setting::WebhookToken, token) {
                Err(error) => Err(error),
                Ok(webhook_token) => Ok(
                    ConstantsView {
                        default_webhook_id: webhook_id,
                        default_webhook_token: webhook_token,
                        webhook_closed: "Channels got closed unexpectedly!"@,
                    },
                ),
            },
        }
    }

    /// Builds the configuration from the raw text of the webhook's
    /// identifier and of its credential.
    pub fn new(id: Option<&str>, token: Option<&str>) -> (constants: Result<Constants, ConfigError>)
        ensures
            constants is Ok == Self::new_spec(raw_view(id), raw_view(token)) is Ok,
            constants matches Ok(made) ==> Ok::<ConstantsView, ConfigError>(made@) == Self::new_spec(
                raw_view(id),
                raw_view(token),
            ),
            constants matches Err(error) ==> Err::<ConstantsView, ConfigError>(error)
                == Self::new_spec(raw_view(id), raw_view(token)),
    {
        let default_webhook_id = match get_dotenv_id(Setting::WebhookId, id) {
            Ok(value) => value,
            Err(error) => { return Err(error); },
        };
        let default_webhook_token = match get_dotenv(Setting::WebhookToken, token) {
            Ok(value) => value,
            Err(error) => { return Err(error); },
        };
        Ok(
            Constants {
                default_webhook_id,
                default_webhook_token,
                webhook_closed: String::from_str("Channels got closed unexpectedly!"),
            },
        )
    }
}

} // verus!
