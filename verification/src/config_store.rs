//! The stored user override.
//!
//! A small INI file beside the program holds the display that the user
//! chose, or `-1` where the display is to be detected.

use crate::ini_file::{get_from, load_from_str, loaded_values};
use crate::text::{
    chars_of, decimal_digits, decimal_value, is_digit, is_numeral, lemma_decimal_round_trip,
    parse_i32, signed_decimal,
};
use vstd::prelude::*;

verus! {

/// The name of the override file in the working directory.
pub const STORE_FILE_NAME: &'static str = "config.ini";

/// What a missing override file is created with: automatic detection, and
/// the shortcut that the caller listens for.
pub const DEFAULT_CONFIG: &'static str = "[screenshot]\nscreen = -1\nshortcut = Win+S";

/// The section of the override file that holds the setting.
pub const SCREEN_SECTION: &'static str = "screenshot";

/// The key of the setting.
pub const SCREEN_KEY: &'static str = "screen";

/// The stored value that stands for automatic detection.
pub const AUTO_SENTINEL: i32 = -1;

/// The stored setting.
#[derive(Clone, Copy, Debug, PartialEq, Eq, Structural)]
pub enum OverrideSetting {
    /// The display is to be detected.
    Auto,
    /// The user chose the display with this index.
    Monitor(usize),
}

/// Why the override file yields no setting.
#[derive(Clone, Copy, Debug, PartialEq, Eq, Structural)]
pub enum ConfigReadError {
    /// The file could not be read, or is no INI file.
    Unreadable,
    /// The file does not hold the setting.
    MissingField,
    /// The stored value is neither the sentinel nor a display index.
    Malformed,
}

/// What is done about an override file that yields no setting.
#[derive(Clone, Copy, Debug, PartialEq, Eq, Structural)]
pub enum ConfigPolicy {
    /// The error stands, and the caller has to deal with it.
    Strict,
    /// The file counts as asking for automatic detection.
    Lenient,
}

/// The setting that the stored text `value` denotes. The text is read as a
/// 32-bit signed decimal: the sentinel asks for detection, a number from
/// zero up is a display index, and everything else is malformed.
pub open spec fn setting_of_value(value: Seq<char>) -> Result<OverrideSetting, ConfigReadError> {
    match signed_decimal(value, i32::MIN as int, i32::MAX as int) {
        Some(number) => if number == AUTO_SENTINEL {
            Ok(OverrideSetting::Auto)
        } else if number >= 0 {
            Ok(OverrideSetting::Monitor(number as usize))
        } else {
            Err(ConfigReadError::Malformed)
        },
        None => Err(ConfigReadError::Malformed),
    }
}

/// The setting that a lookup in the override file gave: the file has to
/// hold the setting.
pub open spec fn setting_of_field(field: Option<Seq<char>>) -> Result<
    OverrideSetting,
    ConfigReadError,
> {
    match field {
        Some(value) => setting_of_value(value),
        None => Err(ConfigReadError::MissingField),
    }
}

/// What looking up the setting in the values of an override file gives.
pub open spec fn screen_field(values: Map<(Seq<char>, Seq<char>), Seq<char>>) -> Option<
    Seq<char>,
> {
    if values.contains_key((SCREEN_SECTION@, SCREEN_KEY@)) {
        Some(values[(SCREEN_SECTION@, SCREEN_KEY@)])
    } else {
        None
    }
}

/// The setting in an override file, given what was read from it: `None`
/// stands for a file that could not be read or parsed.
pub open spec fn setting_in(
    file: Option<Map<(Seq<char>, Seq<char>), Seq<char>>>,
) -> Result<OverrideSetting, ConfigReadError> {
    match file {
        Some(values) => setting_of_field(screen_field(values)),
        None => Err(ConfigReadError::Unreadable),
    }
}

impl ConfigPolicy {
    /// What the policy makes of the outcome of reading the override file.
    pub open spec fn settled(
        self,
        read: Result<OverrideSetting, ConfigReadError>,
    ) -> Result<OverrideSetting, ConfigReadError> {
        match (self, read) {
            (ConfigPolicy::Lenient, Err(_)) => Ok(OverrideSetting::Auto),
            _ => read,
        }
    }

    /// Applies the policy to the outcome of reading the override file.
    pub fn settle(self, read: Result<OverrideSetting, ConfigReadError>) -> (r: Result<
        OverrideSetting,
        ConfigReadError,
    >)
        ensures
            r == self.settled(read),
    {
        match (self, read) {
            (ConfigPolicy::Lenient, Err(_)) => Ok(OverrideSetting::Auto),
            _ => read,
        }
    }
}

/// The setting under the lenient policy: what was read, and automatic
/// detection where nothing was.
pub fn setting_or_auto(read: Result<OverrideSetting, ConfigReadError>) -> (r: OverrideSetting)
    ensures
        ConfigPolicy::Lenient.settled(read) == Ok::<OverrideSetting, ConfigReadError>(r),
{
    match read {
        Ok(setting) => setting,
        Err(_) => OverrideSetting::Auto,
    }
}

/// Reads the setting out of the text stored under the key.
pub fn parse_setting(value: &str) -> (r: Result<OverrideSetting, ConfigReadError>)
    ensures
        r == setting_of_value(value@),
{
    let chars = chars_of(value);
    match parse_i32(chars.as_slice()) {
        Some(number) => if number == AUTO_SENTINEL {
            Ok(OverrideSetting::Auto)
        } else if number >= 0 {
            Ok(OverrideSetting::Monitor(number as usize))
        } else {
            Err(ConfigReadError::Malformed)
        },
        None => Err(ConfigReadError::Malformed),
    }
}

/// The setting that the field of the override file holds; `None` stands for
/// a file without the field.
pub fn setting_from_field(field: Option<&str>) -> (r: Result<OverrideSetting, ConfigReadError>)
    ensures
        r == setting_of_field(
            match field {
                Some(value) => Some(value@),
                None => None,
            },
        ),
{
    match field {
        Some(value) => parse_setting(value),
        None => Err(ConfigReadError::MissingField),
    }
}

/// Reads the setting out of the contents of the override file; `None`
/// stands for a file that could not be read.
pub fn from_local_config(contents: Option<&str>) -> (r: Result<OverrideSetting, ConfigReadError>)
    ensures
        r == setting_in(
            match contents {
                Some(text) => loaded_values(text@),
                None => None,
            },
        ),
{
    let text: &str = match contents {
        Some(text) => text,
        None => { return Err(ConfigReadError::Unreadable); },
    };
    match load_from_str(text) {
        Ok(file) => match get_from(&file, SCREEN_SECTION, SCREEN_KEY) {
            Some(value) => setting_from_field(Some(value.as_str())),
            None => setting_from_field(None),
        },
        Err(_) => Err(ConfigReadError::Unreadable),
    }
}

/// A stored numeral that fits 32 bits names the display with its value.
pub proof fn law_numeral_names_monitor(value: Seq<char>)
    requires
        is_numeral(value),
        decimal_value(value) <= i32::MAX,
    ensures
        setting_of_value(value) == Ok::<OverrideSetting, ConfigReadError>(
            OverrideSetting::Monitor(decimal_value(value) as usize),
        ),
{
    assert(is_digit(value[0]));
}

/// Every display index that 32 signed bits hold is read back from the
/// numeral that denotes it.
pub proof fn law_stored_index_is_read(id: usize)
    requires
        id <= i32::MAX,
    ensures
        setting_of_value(decimal_digits(id as nat)) == Ok::<OverrideSetting, ConfigReadError>(
            OverrideSetting::Monitor(id),
        ),
{
    lemma_decimal_round_trip(id as nat);
    law_numeral_names_monitor(decimal_digits(id as nat));
}

/// The sentinel, as the default file stores it, asks for detection.
pub proof fn law_sentinel_is_auto()
    ensures
        setting_of_value("-1"@) == Ok::<OverrideSetting, ConfigReadError>(OverrideSetting::Auto),
{
    reveal_strlit("-1");
    let digits = "-1"@.skip(1);
    assert(digits =~= seq!['1']);
    assert(is_numeral(digits));
    assert(decimal_value(digits) == 1) by {
        reveal_with_fuel(decimal_value, 2);
        assert(digits.drop_last() =~= Seq::<char>::empty());
    }
}

/// Under the lenient policy reading the override file always yields a
/// setting, and a setting that was read stays as it is under both policies.
pub proof fn law_policy(policy: ConfigPolicy, read: Result<OverrideSetting, ConfigReadError>)
    ensures
        policy == ConfigPolicy::Lenient ==> policy.settled(read) is Ok,
        read is Ok ==> policy.settled(read) == read,
        policy == ConfigPolicy::Strict ==> policy.settled(read) == read,
{
}

} // verus!
