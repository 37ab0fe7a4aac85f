//! Choosing the touchpad to listen to when no device path is given.

use vstd::prelude::*;

use crate::text::{chars_of, contains, has_substring};

verus! {

/// A device is taken for the touchpad when it reports a finger tool and
/// absolute x and y positions, and, when a name filter is given, its name
/// contains the filter.
pub open spec fn touchpad_candidate(
    name: Option<Seq<char>>,
    has_finger_tool: bool,
    has_abs_xy: bool,
    name_filter: Option<Seq<char>>,
) -> bool {
    has_finger_tool && has_abs_xy && match name_filter {
        None => true,
        Some(f) => match name {
            Some(n) => has_substring(n, f),
            None => false,
        },
    }
}

/// Decides whether a device is taken for the touchpad (see
/// [`touchpad_candidate`]).
pub fn is_touchpad_candidate(
    name: Option<&str>,
    has_finger_tool: bool,
    has_abs_xy: bool,
    name_filter: Option<&str>,
) -> (res: bool)
    ensures
        res == touchpad_candidate(
            match name {
                Some(n) => Some(n@),
                None => None,
            },
            has_finger_tool,
            has_abs_xy,
            match name_filter {
                Some(f) => Some(f@),
                None => None,
            },
        ),
{
    if !has_finger_tool || !has_abs_xy {
        return false;
    }
    match name_filter {
        None => true,
        Some(f) => match name {
            Some(n) => {
                let nc = chars_of(n);
                let fc = chars_of(f);
                contains(nc.as_slice(), fc.as_slice())
            },
            None => false,
        },
    }
}

} // verus!
