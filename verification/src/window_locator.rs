//! Finding the application's window among the windows on screen.
//!
//! The operating system lists the top-level windows and tells which monitor
//! each of them is on. What is decided here is which window is the
//! application's, and which display index its monitor's device name denotes.

use crate::text::{
    chars_of, count_leading_digits, decimal_value, find, first_occurrence, is_digit, is_numeral,
    leading_digits, lemma_first_occurrence, lemma_leading_digits, occurs_at, parse_numeral,
    same_chars,
};
use vstd::prelude::*;
use vstd::slice::slice_subrange;

verus! {

/// The title of the application's window.
pub const TARGET_TITLE: &'static str = "Path of Exile";

/// What precedes the monitor's number in its device name.
pub const DEVICE_TOKEN: &'static str = "DISPLAY";

/// The bounds of a window in virtual-screen coordinates.
#[derive(Clone, Copy, Debug, PartialEq, Eq, Structural)]
pub struct WindowRect {
    pub left: i32,
    pub top: i32,
    pub right: i32,
    pub bottom: i32,
}

/// One top-level window, as the operating system describes it.
#[derive(Clone, Debug)]
pub struct WindowInfo {
    /// The window's title.
    pub title: String,
    /// Whether the window is shown.
    pub visible: bool,
    /// Whether the window is minimized.
    pub minimized: bool,
    /// The window's bounds.
    pub rect: WindowRect,
    /// The device name of the monitor that the bounds lie on.
    pub device: String,
}

/// What a `WindowInfo` holds, with its texts as character sequences.
pub ghost struct WindowModel {
    pub title: Seq<char>,
    pub visible: bool,
    pub minimized: bool,
    pub rect: WindowRect,
    pub device: Seq<char>,
}

impl View for WindowInfo {
    type V = WindowModel;

    open spec fn view(&self) -> WindowModel {
        WindowModel {
            title: self.title@,
            visible: self.visible,
            minimized: self.minimized,
            rect: self.rect,
            device: self.device@,
        }
    }
}

impl WindowModel {
    /// The window is the one looked for: it carries exactly the title, is
    /// shown and is not minimized.
    pub open spec fn is_target(self, title: Seq<char>) -> bool {
        self.title == title && self.visible && !self.minimized
    }
}

/// The window at index `i` is the first one looked for.
pub open spec fn is_first_target(windows: Seq<WindowInfo>, title: Seq<char>, i: int) -> bool {
    &&& 0 <= i < windows.len()
    &&& windows[i]@.is_target(title)
    &&& forall|j: int| 0 <= j < i ==> !(#[trigger] windows[j])@.is_target(title)
}

/// The index of the first window looked for, if there is one.
pub open spec fn first_target(windows: Seq<WindowInfo>, title: Seq<char>) -> Option<int> {
    if exists|i: int| is_first_target(windows, title, i) {
        Some(choose|i: int| is_first_target(windows, title, i))
    } else {
        None
    }
}

/// The display index that a monitor's device name denotes: one less than
/// the numeral that follows the first `DISPLAY` in it, which is the longest
/// run of decimal digits there. A name without the token or without a digit
/// behind it denotes none, and so does a numeral that denotes zero or does
/// not fit a `usize`.
pub open spec fn device_monitor_index(device: Seq<char>) -> Option<usize> {
    match first_occurrence(device, DEVICE_TOKEN@) {
        Some(start) => {
            let run = leading_digits(device.skip(start + DEVICE_TOKEN@.len()));
            if is_numeral(run) && 1 <= decimal_value(run) <= usize::MAX {
                Some((decimal_value(run) - 1) as usize)
            } else {
                None
            }
        },
        None => None,
    }
}

/// The display that hosts the first window looked for.
pub open spec fn located_monitor(windows: Seq<WindowInfo>, title: Seq<char>) -> Option<usize> {
    match first_target(windows, title) {
        Some(i) => device_monitor_index(windows[i]@.device),
        None => None,
    }
}

/// The bounds of the first window looked for.
pub open spec fn located_rect(windows: Seq<WindowInfo>, title: Seq<char>) -> Option<WindowRect> {
    match first_target(windows, title) {
        Some(i) => Some(windows[i]@.rect),
        None => None,
    }
}

/// A first target is the only one: `first_target` names it.
pub proof fn lemma_first_target(windows: Seq<WindowInfo>, title: Seq<char>, i: int)
    requires
        is_first_target(windows, title, i),
    ensures
        first_target(windows, title) == Some(i),
{
    let k = choose|k: int| is_first_target(windows, title, k);
    if k < i {
        assert(!windows[k]@.is_target(title));
    } else if i < k {
        assert(!windows[i]@.is_target(title));
    }
}

impl WindowInfo {
    /// Whether this is the window looked for.
    pub fn is_target(&self, title: &str) -> (r: bool)
        ensures
            r == self@.is_target(title@),
    {
        if !self.visible || self.minimized {
            return false;
        }
        let own = chars_of(self.title.as_str());
        let wanted = chars_of(title);
        same_chars(own.as_slice(), wanted.as_slice())
    }
}

/// Extracts the display index from a monitor's device name.
pub fn monitor_index_from_device(device: &str) -> (r: Option<usize>)
    ensures
        r == device_monitor_index(device@),
{
    let name = chars_of(device);
    let token = chars_of(DEVICE_TOKEN);
    let start: usize = match find(name.as_slice(), token.as_slice()) {
        Some(i) => i,
        None => { return None; },
    };
    if name.len() - start < token.len() {
        return None;
    }
    let rest = slice_subrange(name.as_slice(), start + token.len(), name.len());
    let digits = slice_subrange(rest, 0, count_leading_digits(rest));
    match parse_numeral(digits, usize::MAX as u64) {
        Some(number) => if number >= 1 {
            Some((number - 1) as usize)
        } else {
            None
        },
        None => None,
    }
}

/// The index of the first window looked for.
pub fn find_target(windows: &Vec<WindowInfo>, title: &str) -> (r: Option<usize>)
    ensures
        match r {
            Some(i) => first_target(windows@, title@) == Some(i as int),
            None => first_target(windows@, title@) is None,
        },
{
    let mut i: usize = 0;
    while i < windows.len()
        invariant
            i <= windows.len(),
            forall|j: int| 0 <= j < i ==> !(#[trigger] windows@[j])@.is_target(title@),
        decreases windows.len() - i,
    {
        if windows[i].is_target(title) {
            proof {
                lemma_first_target(windows@, title@, i as int);
            }
            return Some(i);
        }
        i += 1;
    }
    None
}

/// Locates the window with the given title and tells which display it is on.
pub fn locate(windows: &Vec<WindowInfo>, title: &str) -> (r: Option<usize>)
    ensures
        r == located_monitor(windows@, title@),
{
    match find_target(windows, title) {
        Some(i) => monitor_index_from_device(windows[i].device.as_str()),
        None => None,
    }
}

/// Tells which display the application's window is on.
pub fn poe_monitor(windows: &Vec<WindowInfo>) -> (r: Option<usize>)
    ensures
        r == located_monitor(windows@, TARGET_TITLE@),
{
    locate(windows, TARGET_TITLE)
}

/// The bounds of the application's window.
pub fn poe_window(windows: &Vec<WindowInfo>) -> (r: Option<WindowRect>)
    ensures
        r == located_rect(windows@, TARGET_TITLE@),
{
    match find_target(windows, TARGET_TITLE) {
        Some(i) => Some(windows[i].rect),
        None => None,
    }
}

/// Where no window carries the title, is shown and is not minimized, no
/// display is located, however many other windows there are.
pub proof fn law_no_target_no_monitor(windows: Seq<WindowInfo>, title: Seq<char>)
    requires
        forall|i: int| 0 <= i < windows.len() ==> !(#[trigger] windows[i])@.is_target(title),
    ensures
        located_monitor(windows, title) is None,
        located_rect(windows, title) is None,
{
}

/// The first window looked for decides alone: the windows before it, which
/// are not looked for, and all the windows after it change nothing.
pub proof fn law_first_target_decides(windows: Seq<WindowInfo>, title: Seq<char>, i: int)
    requires
        is_first_target(windows, title, i),
    ensures
        located_monitor(windows, title) == device_monitor_index(windows[i]@.device),
        located_rect(windows, title) == Some(windows[i]@.rect),
{
    lemma_first_target(windows, title, i);
}

/// A device name that holds no `D` before its first `DISPLAY` denotes the
/// numeral behind the token, less one, whatever follows the numeral; a
/// numeral that denotes zero, or more than a `usize` holds, denotes nothing.
pub proof fn law_device_numeral(prefix: Seq<char>, digits: Seq<char>, rest: Seq<char>)
    requires
        forall|i: int| 0 <= i < prefix.len() ==> prefix[i] != 'D',
        is_numeral(digits),
        rest.len() > 0 ==> !is_digit(rest[0]),
    ensures
        device_monitor_index(prefix + DEVICE_TOKEN@ + digits + rest) == if 1 <= decimal_value(digits)
            <= usize::MAX {
            Some((decimal_value(digits) - 1) as usize)
        } else {
            None::<usize>
        },
{
    reveal_strlit("DISPLAY");
    let name = prefix + DEVICE_TOKEN@ + digits + rest;
    let start = prefix.len() as int;
    assert(DEVICE_TOKEN@.len() == 7);
    assert(DEVICE_TOKEN@[0] == 'D');
    assert(name.subrange(start, start + 7) =~= DEVICE_TOKEN@);
    assert forall|j: int| 0 <= j < start implies !occurs_at(name, DEVICE_TOKEN@, j) by {
        if occurs_at(name, DEVICE_TOKEN@, j) {
            assert(name.subrange(j, j + 7)[0] == 'D');
            assert(name[j] == prefix[j]);
        }
    }
    lemma_first_occurrence(name, DEVICE_TOKEN@, start);
    let tail = name.skip(start + 7);
    assert(tail =~= digits + rest);
    assert(tail.take(digits.len() as int) =~= digits);
    lemma_leading_digits(tail, digits.len() as int);
}

} // verus!
