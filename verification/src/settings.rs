//! What a generation is asked with: the values given by the operator, and the
//! defaults that stand in for what is not given or cannot be read.

use crate::poller::{PollConfig, DEFAULT_MAX_ATTEMPTS, DEFAULT_RETRY_DELAY_SECS};
use vstd::prelude::*;
use vstd::string::StringSliceAdditionalSpecFns;

verus! {

/// The weight of the prompt where none is given.
pub const DEFAULT_WEIGHT: u32 = 1;

/// The length of the piece in seconds where none is given.
pub const DEFAULT_LENGTH_SECONDS: u32 = 180;

/// The seed where none is given.
pub const DEFAULT_SEED: u32 = 123;

/// The numbers that go into a generation request beside the prompt.
#[derive(Clone, Copy, Debug, PartialEq, Eq)]
pub struct GenerationSettings {
    pub weight: u32,
    pub length_seconds: u32,
    pub seed: u32,
}

impl Default for GenerationSettings {
    fn default() -> (settings: GenerationSettings)
        ensures
            settings.weight == DEFAULT_WEIGHT,
            settings.length_seconds == DEFAULT_LENGTH_SECONDS,
            settings.seed == DEFAULT_SEED,
    {
        GenerationSettings {
            weight: DEFAULT_WEIGHT,
            length_seconds: DEFAULT_LENGTH_SECONDS,
            seed: DEFAULT_SEED,
        }
    }
}

/// The byte is an ASCII decimal digit.
pub open spec fn is_digit(byte: u8) -> bool {
    48 <= byte <= 57
}

/// Every byte is an ASCII decimal digit.
pub open spec fn all_digits(bytes: Seq<u8>) -> bool {
    forall|i: int| 0 <= i < bytes.len() ==> is_digit(#[trigger] bytes[i])
}

/// The number that decimal digits write, the most significant first.
pub open spec fn digits_value(digits: Seq<u8>) -> nat
    decreases digits.len(),
{
    if digits.len() == 0 {
        0
    } else {
        (digits_value(digits.drop_last()) * 10 + (digits.last() - 48)) as nat
    }
}

/// The digits of a number as it is written: the bytes without one leading
/// plus sign.
pub open spec fn unsigned_part(bytes: Seq<u8>) -> Seq<u8> {
    if bytes.len() > 0 && bytes[0] == 43 {
        bytes.drop_first()
    } else {
        bytes
    }
}

/// The number that the bytes write: an optional plus sign, then one or more
/// decimal digits and nothing else, with a value that a `u32` holds.
pub open spec fn parsed_u32(bytes: Seq<u8>) -> Option<u32> {
    let digits = unsigned_part(bytes);
    if digits.len() > 0 && all_digits(digits) && digits_value(digits) <= u32::MAX {
        Some(digits_value(digits) as u32)
    } else {
        None
    }
}

/// More digits never write a smaller number.
proof fn lemma_value_grows(digits: Seq<u8>, n: int)
    requires
        0 <= n <= digits.len(),
        all_digits(digits),
    ensures
        digits_value(digits.subrange(0, n)) <= digits_value(digits),
    decreases digits.len() - n,
{
    if n == digits.len() {
        assert(digits.subrange(0, n) =~= digits);
    } else {
        let longer = digits.subrange(0, n + 1);
        assert(longer.drop_last() =~= digits.subrange(0, n));
        assert(is_digit(digits[n]));
        assert(longer.last() == digits[n]);
        lemma_value_grows(digits, n + 1);
    }
}

/// Reads a number written in decimal.
pub fn parse_u32(text: &str) -> (value: Option<u32>)
    ensures
        value == parsed_u32(text.spec_bytes()),
{
    let bytes = text.as_bytes();
    let len = bytes.len();
    let start: usize = if len > 0 && bytes[0] == 43 {
        1
    } else {
        0
    };
    if start == len {
        return None;
    }
    let ghost digits = unsigned_part(bytes@);
    assert(digits =~= bytes@.subrange(start as int, len as int));
    let mut acc: u32 = 0;
    let mut i: usize = start;
    while i < len
        invariant
            start <= i <= len,
            len == bytes@.len(),
            bytes@ == text.spec_bytes(),
            digits == unsigned_part(bytes@),
            digits == bytes@.subrange(start as int, len as int),
            all_digits(digits.subrange(0, i - start)),
            acc == digits_value(digits.subrange(0, i - start)),
        decreases len - i,
    {
        let byte = bytes[i];
        let ghost seen = digits.subrange(0, i - start);
        let ghost longer = digits.subrange(0, i - start + 1);
        assert(digits[i - start] == byte);
        if byte < 48 || byte > 57 {
            assert(!is_digit(digits[i - start]));
            return None;
        }
        proof {
            assert(longer.drop_last() =~= seen);
            assert(longer.last() == byte);
            assert forall|j: int| 0 <= j < longer.len() implies is_digit(#[trigger] longer[j]) by {
                if j < seen.len() {
                    assert(longer[j] == seen[j]);
                }
            }
        }
        let digit: u32 = (byte - 48) as u32;
        let next = match acc.checked_mul(10) {
            Some(tens) => tens.checked_add(digit),
            None => None,
        };
        match next {
            Some(n) => {
                acc = n;
            },
            None => {
                proof {
                    assert(digits_value(longer) > u32::MAX);
                    if all_digits(digits) {
                        lemma_value_grows(digits, i - start + 1);
                    }
                }
                return None;
            },
        }
        i = i + 1;
    }
    assert(digits.subrange(0, len - start) =~= digits);
    Some(acc)
}

/// The value that a setting has: the number that the text writes, or the
/// default where there is no text or it writes no number.
pub open spec fn setting_value(text: Option<Seq<u8>>, default: u32) -> u32 {
    match text {
        Some(bytes) => match parsed_u32(bytes) {
            Some(value) => value,
            None => default,
        },
        None => default,
    }
}

/// The UTF-8 bytes of a text that may be missing.
pub open spec fn text_bytes(text: Option<&str>) -> Option<Seq<u8>> {
    match text {
        Some(t) => Some(t.spec_bytes()),
        None => None,
    }
}

/// Reads one setting, falling back on the default.
pub fn setting(text: Option<&str>, default: u32) -> (value: u32)
    ensures
        value == setting_value(text_bytes(text), default),
{
    match text {
        Some(t) => match parse_u32(t) {
            Some(value) => value,
            None => default,
        },
        None => default,
    }
}

impl GenerationSettings {
    /// Reads the three settings, each from its own text and with its own default.
    pub fn from_texts(weight: Option<&str>, length_seconds: Option<&str>, seed: Option<&str>) -> (settings:
        GenerationSettings)
        ensures
            settings.weight == setting_value(text_bytes(weight), DEFAULT_WEIGHT),
            settings.length_seconds == setting_value(
                text_bytes(length_seconds),
                DEFAULT_LENGTH_SECONDS,
            ),
            settings.seed == setting_value(text_bytes(seed), DEFAULT_SEED),
    {
        GenerationSettings {
            weight: setting(weight, DEFAULT_WEIGHT),
            length_seconds: setting(length_seconds, DEFAULT_LENGTH_SECONDS),
            seed: setting(seed, DEFAULT_SEED),
        }
    }
}

/// What a run is started with. It is made once, when the process starts,
/// and handed to the parts that need it.
#[derive(Clone, Debug, PartialEq, Eq)]
pub struct Config {
    /// The credential, as the operator gave it.
    pub credential: String,
    /// Where jobs are submitted.
    pub endpoint: String,
    pub settings: GenerationSettings,
    pub poll: PollConfig,
}

impl Config {
    /// The configuration for a credential and an endpoint, with the settings
    /// read from their texts and the usual poll budget and pause.
    pub fn new(
        credential: String,
        endpoint: String,
        weight: Option<&str>,
        length_seconds: Option<&str>,
        seed: Option<&str>,
    ) -> (config: Config)
        ensures
            config.credential@ == credential@,
            config.endpoint@ == endpoint@,
            config.settings.weight == setting_value(text_bytes(weight), DEFAULT_WEIGHT),
            config.settings.length_seconds == setting_value(
                text_bytes(length_seconds),
                DEFAULT_LENGTH_SECONDS,
            ),
            config.settings.seed == setting_value(text_bytes(seed), DEFAULT_SEED),
            config.poll.max_attempts == DEFAULT_MAX_ATTEMPTS,
            config.poll.retry_delay_secs == DEFAULT_RETRY_DELAY_SECS,
    {
        Config {
            credential,
            endpoint,
            settings: GenerationSettings::from_texts(weight, length_seconds, seed),
            poll: PollConfig::default(),
        }
    }
}

} // verus!
