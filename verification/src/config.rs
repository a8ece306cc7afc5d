//! The resolved launch profile: a command plus feature flags and path lists,
//! immutable for the duration of one launch.

use vstd::prelude::*;

verus! {

/// A normalized launch profile. Optional booleans default to "absent", which
/// every consumer treats as `false`; optional lists default to empty.
pub struct Config {
    pub command: String,
    pub desktop_app: Option<bool>,
    pub use_net: Option<bool>,
    pub inherit_path: Option<bool>,
    pub inherit_lib: Option<bool>,
    pub as_uid0: Option<bool>,
    pub inherit_tty: Option<bool>,
    pub full_dbus: Option<bool>,
    pub bind: Option<Vec<String>>,
    pub dev_bind: Option<Vec<String>>,
    pub caps: Option<Vec<String>>,
}

/// What an absent or `false` flag means: the feature is off.
pub open spec fn flag_set(v: Option<bool>) -> bool {
    v == Some(true)
}

/// An optional profile flag is on exactly when it is present and `true`.
pub fn has_true(v: &Option<bool>) -> (r: bool)
    ensures
        r == flag_set(*v),
{
    match v {
        Some(b) => *b,
        None => false,
    }
}

} // verus!
