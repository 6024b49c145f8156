//! Camera descriptions and the policy that picks one of them.
//!
//! When several cameras qualify, the one listed last is taken.

use vstd::prelude::*;

verus! {

/// What a connected camera says about itself.
#[derive(Clone, Debug)]
pub struct DeviceInfo {
    pub name: String,
    pub serial_number: String,
    pub firmware_version: String,
}

/// Part of the product name of every supported camera.
pub const VENDOR_NAME: &'static str = "Intel RealSense";

/// `needle` stands in `haystack` at position `at`.
pub open spec fn occurs_at(needle: Seq<char>, haystack: Seq<char>, at: int) -> bool {
    &&& 0 <= at
    &&& at + needle.len() <= haystack.len()
    &&& haystack.subrange(at, at + needle.len()) == needle
}

/// `needle` stands somewhere in `haystack`.
pub open spec fn is_substring(needle: Seq<char>, haystack: Seq<char>) -> bool {
    exists|at: int| occurs_at(needle, haystack, at)
}

/// The device's name contains `pattern`.
pub open spec fn name_matches(device: DeviceInfo, pattern: Seq<char>) -> bool {
    is_substring(pattern, device.name@)
}

/// `choice` is the position of the last device whose name contains `pattern`,
/// or `None` where no name does.
pub open spec fn is_last_match(
    devices: Seq<DeviceInfo>,
    pattern: Seq<char>,
    choice: Option<usize>,
) -> bool {
    match choice {
        Some(i) => {
            &&& i < devices.len()
            &&& name_matches(devices[i as int], pattern)
            &&& forall|j: int| i < j < devices.len() ==> !name_matches(#[trigger] devices[j], pattern)
        },
        None => forall|j: int|
            0 <= j < devices.len() ==> !name_matches(#[trigger] devices[j], pattern),
    }
}

/// The characters of a string, one by one.
pub fn chars_of(text: &str) -> (chars: Vec<char>)
    ensures
        chars@ == text@,
{
    let mut chars: Vec<char> = Vec::new();
    for c in it: text.chars()
        invariant
            it.seq() == text@,
            chars@ == it.seq().take(it.index() as int),
    {
        chars.push(c);
    }
    chars
}

/// Whether `needle` stands in `haystack` at position `at`.
pub fn matches_at(needle: &[char], haystack: &[char], at: usize) -> (found: bool)
    ensures
        found == occurs_at(needle@, haystack@, at as int),
{
    if needle.len() > haystack.len() || at > haystack.len() - needle.len() {
        return false;
    }
    let mut k: usize = 0;
    while k < needle.len()
        invariant
            k <= needle.len(),
            at + needle.len() <= haystack.len(),
            forall|j: int| 0 <= j < k ==> haystack[at + j] == needle[j],
        decreases needle.len() - k,
    {
        if haystack[at + k] != needle[k] {
            assert(haystack@.subrange(at as int, at + needle.len())[k as int] != needle@[k as int]);
            return false;
        }
        k += 1;
    }
    assert(haystack@.subrange(at as int, at + needle.len()) =~= needle@);
    true
}

/// Whether `needle` stands somewhere in `haystack`, both given as characters.
pub fn contains_chars(haystack: &[char], needle: &[char]) -> (found: bool)
    ensures
        found == is_substring(needle@, haystack@),
{
    if needle.len() > haystack.len() {
        return false;
    }
    let last: usize = haystack.len() - needle.len();
    let mut at: usize = 0;
    loop
        invariant
            at <= last,
            last == haystack.len() - needle.len(),
            forall|p: int| 0 <= p < at ==> !occurs_at(needle@, haystack@, p),
        decreases last - at,
    {
        if matches_at(needle, haystack, at) {
            return true;
        }
        if at == last {
            return false;
        }
        at += 1;
    }
}

/// Whether `needle` stands somewhere in `haystack`. The empty string stands in
/// every string.
pub fn contains(haystack: &str, needle: &str) -> (found: bool)
    ensures
        found == is_substring(needle@, haystack@),
{
    let hay: Vec<char> = chars_of(haystack);
    let pin: Vec<char> = chars_of(needle);
    contains_chars(hay.as_slice(), pin.as_slice())
}

/// Scans the devices in order and returns the position of the last one that
/// `predicate` accepts.
pub fn select<F: Fn(&DeviceInfo) -> bool>(devices: &[DeviceInfo], predicate: F) -> (choice: Option<
    usize,
>)
    requires
        forall|i: int| 0 <= i < devices.len() ==> call_requires(predicate, (&#[trigger] devices[i],)),
    ensures
        match choice {
            Some(i) => {
                &&& i < devices.len()
                &&& call_ensures(predicate, (&devices[i as int],), true)
                &&& forall|j: int|
                    i < j < devices.len() ==> call_ensures(
                        predicate,
                        (&#[trigger] devices[j],),
                        false,
                    )
            },
            None => forall|j: int|
                0 <= j < devices.len() ==> call_ensures(predicate, (&#[trigger] devices[j],), false),
        },
{
    let mut choice: Option<usize> = None;
    let mut i: usize = 0;
    while i < devices.len()
        invariant
            i <= devices.len(),
            forall|k: int|
                0 <= k < devices.len() ==> call_requires(predicate, (&#[trigger] devices[k],)),
            match choice {
                Some(c) => {
                    &&& c < i
                    &&& call_ensures(predicate, (&devices[c as int],), true)
                    &&& forall|j: int|
                        c < j < i ==> call_ensures(predicate, (&#[trigger] devices[j],), false)
                },
                None => forall|j: int|
                    0 <= j < i ==> call_ensures(predicate, (&#[trigger] devices[j],), false),
            },
        decreases devices.len() - i,
    {
        if predicate(&devices[i]) {
            choice = Some(i);
        }
        i += 1;
    }
    choice
}

/// The position of the last device whose name contains `pattern`.
pub fn select_by_name(devices: &[DeviceInfo], pattern: &str) -> (choice: Option<usize>)
    ensures
        is_last_match(devices@, pattern@, choice),
{
    let by_name = |device: &DeviceInfo| -> (found: bool)
        ensures
            found == name_matches(*device, pattern@),
        { contains(device.name.as_str(), pattern) };
    select(devices, by_name)
}

/// The position of the last supported camera among `devices`.
pub fn get_realsense_camera(devices: &[DeviceInfo]) -> (choice: Option<usize>)
    ensures
        is_last_match(devices@, VENDOR_NAME@, choice),
{
    select_by_name(devices, VENDOR_NAME)
}

/// At most one choice is the last match.
pub proof fn lemma_last_match_is_unique(
    devices: Seq<DeviceInfo>,
    pattern: Seq<char>,
    a: Option<usize>,
    b: Option<usize>,
)
    requires
        is_last_match(devices, pattern, a),
        is_last_match(devices, pattern, b),
    ensures
        a == b,
{
}

/// Where no device's name contains the pattern, and so for an empty list, the
/// last match is `None`.
pub proof fn lemma_no_match_is_none(
    devices: Seq<DeviceInfo>,
    pattern: Seq<char>,
    choice: Option<usize>,
)
    requires
        is_last_match(devices, pattern, choice),
    ensures
        choice is None <==> (forall|j: int|
            0 <= j < devices.len() ==> !name_matches(#[trigger] devices[j], pattern)),
        devices.len() == 0 ==> choice is None,
{
}

} // verus!
