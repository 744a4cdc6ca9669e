//! The INI reader that the two configuration files go through.
//!
//! The files are parsed by the `ini` crate. Nothing in this module is
//! proved: each item states what the crate's reader does, and the rest of the
//! library is verified against these statements.

use ini::{Ini, ParseError};
use vstd::prelude::*;

verus! {

/// A parsed INI file, as the `ini` crate holds it.
#[verifier::external_type_specification]
#[verifier::external_body]
pub struct ExIni(Ini);

/// The reason why the `ini` crate rejected a text.
#[verifier::external_type_specification]
#[verifier::external_body]
pub struct ExParseError(ParseError);

/// What a parsed file answers to a lookup: a pair of section name and key
/// is in the domain where the first section of that name holds the key, and
/// is mapped to the first value that this section has under the key.
pub uninterp spec fn first_values(ini: Ini) -> Map<(Seq<char>, Seq<char>), Seq<char>>;

/// What the `ini` crate reads out of a text with its default options: the
/// lookups that the parsed file answers, or `None` where the text is rejected.
pub uninterp spec fn loaded_values(text: Seq<char>) -> Option<Map<(Seq<char>, Seq<char>), Seq<char>>>;

/// `Ini::load_from_str`: parses `text` with the default options. The result
/// is a function of the text alone, and `loaded_values` is its name.
#[verifier::external_body]
pub(crate) fn load_from_str(text: &str) -> (r: Result<Ini, ParseError>)
    ensures
        match r {
            Ok(ini) => loaded_values(text@) == Some(first_values(ini)),
            Err(_) => loaded_values(text@) is None,
        },
{
    Ini::load_from_str(text)
}

/// `Ini::get_from` with a named section: the first value under `key` in the
/// first section called `section`, or `None` where there is no such section
/// or it lacks the key.
#[verifier::external_body]
pub(crate) fn get_from(ini: &Ini, section: &str, key: &str) -> (r: Option<String>)
    ensures
        match r {
            Some(value) => first_values(*ini).contains_key((section@, key@))
                && first_values(*ini)[(section@, key@)] == value@,
            None => !first_values(*ini).contains_key((section@, key@)),
        },
{
    ini.get_from(Some(section), key).map(String::from)
}

} // verus!
