//! The hint in the application's own configuration file.
//!
//! The application records the display adapter it renders on as a free-form
//! description such as `AMD Radeon RX 5700 XT(#0)`. The numeral in the
//! trailing `(#N)` annotation is taken as the index of the display.

use crate::ini_file::{get_from, load_from_str, loaded_values};
use crate::text::{
    chars_of, decimal_value, is_digit, is_last_occurrence, is_numeral, last_occurrence,
    lemma_last_occurrence, occurs_at, parse_usize, rfind, unsigned_decimal,
};
use vstd::prelude::*;
use vstd::slice::slice_subrange;

verus! {

/// The directory of the application's files below the user's documents.
pub const GAMES_DIRECTORY: &'static str = "My Games";

/// The application's own directory below `GAMES_DIRECTORY`.
pub const APPLICATION_DIRECTORY: &'static str = "Path of Exile";

/// The name of the application's configuration file.
pub const CONFIG_FILE_NAME: &'static str = "production_Config.ini";

/// The section of the configuration file that describes the display.
pub const DISPLAY_SECTION: &'static str = "DISPLAY";

/// The key under which the adapter description is stored.
pub const ADAPTER_KEY: &'static str = "adapter_name";

/// The adapter description that stands in for a missing one.
pub const DEFAULT_ADAPTER: &'static str = "(#0)";

/// What opens the annotation.
pub const OPENING_MARK: &'static str = "(#";

/// What closes the annotation.
pub const CLOSING_MARK: &'static str = ")";

/// The index that the adapter description `name` hints at: the unsigned
/// numeral between the last `(#` and the last `)`, where both occur, the
/// second does not start before the first has ended, and the numeral fits a
/// `usize`.
pub open spec fn adapter_monitor_index(name: Seq<char>) -> Option<usize> {
    match (last_occurrence(name, OPENING_MARK@), last_occurrence(name, CLOSING_MARK@)) {
        (Some(start), Some(end)) => {
            let from = start + OPENING_MARK@.len();
            if from <= end {
                match unsigned_decimal(name.subrange(from, end), usize::MAX as int) {
                    Some(index) => Some(index as usize),
                    None => None,
                }
            } else {
                None
            }
        },
        _ => None,
    }
}

/// The adapter description that a lookup in the configuration file gave, or
/// the default description where it gave none.
pub open spec fn adapter_name_of(field: Option<Seq<char>>) -> Seq<char> {
    match field {
        Some(name) => name,
        None => DEFAULT_ADAPTER@,
    }
}

/// What looking up the adapter description in the values of a
/// configuration file gives.
pub open spec fn adapter_field(values: Map<(Seq<char>, Seq<char>), Seq<char>>) -> Option<
    Seq<char>,
> {
    if values.contains_key((DISPLAY_SECTION@, ADAPTER_KEY@)) {
        Some(values[(DISPLAY_SECTION@, ADAPTER_KEY@)])
    } else {
        None
    }
}

/// The index that a configuration file hints at, given what was read from
/// it: nothing for a missing file (`None`) and for one that could not be
/// parsed (`Some(None)`).
pub open spec fn target_monitor_index(
    file: Option<Option<Map<(Seq<char>, Seq<char>), Seq<char>>>>,
) -> Option<usize> {
    match file {
        Some(Some(values)) => adapter_monitor_index(adapter_name_of(adapter_field(values))),
        _ => None,
    }
}

/// Extracts the display index from an adapter description.
pub fn extract_monitor_index(adapter_name: &str) -> (r: Option<usize>)
    ensures
        r == adapter_monitor_index(adapter_name@),
{
    let name = chars_of(adapter_name);
    let opening = chars_of(OPENING_MARK);
    let closing = chars_of(CLOSING_MARK);
    let start: usize = match rfind(name.as_slice(), opening.as_slice()) {
        Some(i) => i,
        None => { return None; },
    };
    let end: usize = match rfind(name.as_slice(), closing.as_slice()) {
        Some(i) => i,
        None => { return None; },
    };
    if end < start || end - start < opening.len() {
        return None;
    }
    let from: usize = start + opening.len();
    parse_usize(slice_subrange(name.as_slice(), from, end))
}

/// The display index that the adapter description of a configuration file
/// hints at; `None` stands for a file without a description.
pub fn index_from_field(field: Option<&str>) -> (r: Option<usize>)
    ensures
        r == adapter_monitor_index(
            adapter_name_of(
                match field {
                    Some(name) => Some(name@),
                    None => None,
                },
            ),
        ),
{
    match field {
        Some(name) => extract_monitor_index(name),
        None => extract_monitor_index(DEFAULT_ADAPTER),
    }
}

/// Reads the display index out of the contents of the application's
/// configuration file; `None` stands for a file that is not there.
pub fn from_poe_config(contents: Option<&str>) -> (r: Option<usize>)
    ensures
        r == target_monitor_index(
            match contents {
                Some(text) => Some(loaded_values(text@)),
                None => None,
            },
        ),
{
    let text: &str = match contents {
        Some(text) => text,
        None => { return None; },
    };
    match load_from_str(text) {
        Ok(file) => match get_from(&file, DISPLAY_SECTION, ADAPTER_KEY) {
            Some(name) => index_from_field(Some(name.as_str())),
            None => index_from_field(None),
        },
        Err(_) => None,
    }
}

/// The two marks, character by character.
pub proof fn lemma_marks()
    ensures
        OPENING_MARK@ == seq!['(', '#'],
        CLOSING_MARK@ == seq![')'],
{
    reveal_strlit("(#");
    reveal_strlit(")");
    assert(OPENING_MARK@ =~= seq!['(', '#']);
    assert(CLOSING_MARK@ =~= seq![')']);
}

/// A description that ends in an annotation hints at what the annotation
/// holds, whatever stands before it: where the text `body` between the marks
/// holds neither `(` nor `)`, the description hints at the number that `body`
/// denotes, and at nothing where it denotes none.
pub proof fn law_trailing_annotation_decides(prefix: Seq<char>, body: Seq<char>)
    requires
        forall|i: int| 0 <= i < body.len() ==> body[i] != '(' && body[i] != ')',
    ensures
        adapter_monitor_index(prefix + OPENING_MARK@ + body + CLOSING_MARK@) == match unsigned_decimal(
            body,
            usize::MAX as int,
        ) {
            Some(index) => Some(index as usize),
            None => None::<usize>,
        },
{
    lemma_marks();
    let name = prefix + OPENING_MARK@ + body + CLOSING_MARK@;
    let start = prefix.len() as int;
    let from = start + 2;
    let end = from + body.len();
    assert(name.len() == end + 1);
    assert forall|j: int| 0 <= j < body.len() implies name[from + j] == body[j] by {}
    assert(name[start] == '(');
    assert(name[start + 1] == '#');
    assert(name[end] == ')');
    assert(name.subrange(start, start + 2) =~= OPENING_MARK@);
    assert(name.subrange(end, end + 1) =~= CLOSING_MARK@);
    assert forall|j: int| start < j implies !occurs_at(name, OPENING_MARK@, j) by {
        if occurs_at(name, OPENING_MARK@, j) {
            assert(name.subrange(j, j + 2)[0] == '(');
            assert(name[j] == '(');
            if j == start + 1 {
            } else if j < end {
                assert(name[j] == body[j - from]);
            }
        }
    }
    assert forall|j: int| end < j implies !occurs_at(name, CLOSING_MARK@, j) by {}
    lemma_last_occurrence(name, OPENING_MARK@, start);
    lemma_last_occurrence(name, CLOSING_MARK@, end);
    assert(name.subrange(from, end) =~= body);
}

/// The last annotation wins: a description that ends in `(#`, a numeral and
/// `)` hints at the numeral's value, also where annotations stand before it.
pub proof fn law_last_annotation_wins(prefix: Seq<char>, digits: Seq<char>)
    requires
        is_numeral(digits),
        decimal_value(digits) <= usize::MAX,
    ensures
        adapter_monitor_index(prefix + OPENING_MARK@ + digits + CLOSING_MARK@) == Some(
            decimal_value(digits) as usize,
        ),
{
    assert forall|i: int| 0 <= i < digits.len() implies digits[i] != '(' && digits[i] != ')' by {
        assert(is_digit(digits[i]));
    }
    law_trailing_annotation_decides(prefix, digits);
    assert(digits[0] != '+') by {
        assert(is_digit(digits[0]));
    }
}

/// A description that lacks one of the two marks hints at nothing.
pub proof fn law_no_annotation_no_index(name: Seq<char>)
    requires
        (forall|i: int| !occurs_at(name, OPENING_MARK@, i)) || (forall|i: int|
            !occurs_at(name, CLOSING_MARK@, i)),
    ensures
        adapter_monitor_index(name) is None,
{
    if forall|i: int| !occurs_at(name, OPENING_MARK@, i) {
        assert(forall|i: int| !is_last_occurrence(name, OPENING_MARK@, i));
    } else {
        assert(forall|i: int| !is_last_occurrence(name, CLOSING_MARK@, i));
    }
}

/// A file without an adapter description hints at the display 0.
pub proof fn law_default_adapter()
    ensures
        adapter_monitor_index(DEFAULT_ADAPTER@) == Some(0usize),
{
    lemma_marks();
    reveal_strlit("(#0)");
    let digits = seq!['0'];
    assert(DEFAULT_ADAPTER@ =~= Seq::<char>::empty() + OPENING_MARK@ + digits + CLOSING_MARK@);
    assert(is_numeral(digits));
    assert(decimal_value(digits) == 0) by {
        reveal_with_fuel(decimal_value, 2);
        assert(digits.drop_last() =~= Seq::<char>::empty());
    }
    law_last_annotation_wins(Seq::<char>::empty(), digits);
}

} // verus!
