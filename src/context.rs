use vstd::prelude::*;

use crate::text::str_eq;

verus! {

/// Which clock face timestamps are shown in.
#[derive(Clone, Copy, Debug, PartialEq, Eq, Structural)]
pub enum LocalOrUTC {
    Local,
    Utc,
}

impl Default for LocalOrUTC {
    fn default() -> (r: LocalOrUTC)
        ensures
            r == LocalOrUTC::Local,
    {
        LocalOrUTC::Local
    }
}

/// The pattern that the `"SIMPLE"` preset stands for.
pub const SIMPLE_FORMAT: &'static str = "%H:%M:%S%.6f";

/// The pattern that the `"FULL"` preset stands for.
pub const FULL_FORMAT: &'static str = "%Y-%m-%dT%H:%M:%S%.6fZ%z";

/// The number of collection items shown when no limit was set.
pub const DEFAULT_MAX_ITEMS: usize = 32;

/// Configuration that controls how values are formatted.
///
/// Every field is an override; an absent field falls back to its default. A context is
/// copied into each displayer and handed down unchanged to every nested value.
#[derive(Clone, Copy, Debug)]
pub struct Context {
    pub verbose: Option<bool>,
    pub max_items: Option<usize>,
    pub local_or_utc: Option<LocalOrUTC>,
    pub time_format: Option<&'static str>,
}

impl Context {
    /// The context in which every field is absent.
    pub open spec fn spec_default() -> Context {
        Context { verbose: None, max_items: None, local_or_utc: None, time_format: None }
    }

    /// Whether verbose formatting is on (off unless set).
    pub open spec fn is_verbose(self) -> bool {
        match self.verbose {
            Some(b) => b,
            None => false,
        }
    }

    /// The largest number of collection items that are shown (32 unless set).
    pub open spec fn item_cap(self) -> nat {
        match self.max_items {
            Some(n) => n as nat,
            None => DEFAULT_MAX_ITEMS as nat,
        }
    }

    /// The clock face in force (local unless set).
    pub open spec fn clock(self) -> LocalOrUTC {
        match self.local_or_utc {
            Some(z) => z,
            None => LocalOrUTC::Local,
        }
    }

    /// The time pattern in force: the presets `"SIMPLE"` and `"FULL"` are expanded, any other
    /// string is the pattern itself, and an absent one means `"SIMPLE"`.
    pub open spec fn format_pattern(self) -> Seq<char> {
        match self.time_format {
            Some(f) => if f@ == "SIMPLE"@ {
                SIMPLE_FORMAT@
            } else if f@ == "FULL"@ {
                FULL_FORMAT@
            } else {
                f@
            },
            None => SIMPLE_FORMAT@,
        }
    }

    /// Returns whether verbose formatting is enabled.
    ///
    /// When enabled, `Option` values show as `Some(v)` or `None` instead of `v` or `-`.
    pub fn verbose(&self) -> (r: bool)
        ensures
            r == self.is_verbose(),
    {
        match self.verbose {
            Some(b) => b,
            None => false,
        }
    }

    /// Returns the maximum number of items to display for collections (32 by default).
    pub fn max_items(&self) -> (r: usize)
        ensures
            r as nat == self.item_cap(),
    {
        match self.max_items {
            Some(n) => n,
            None => DEFAULT_MAX_ITEMS,
        }
    }

    /// Returns whether times should be displayed in local time.
    pub fn is_local_time(&self) -> (r: bool)
        ensures
            r == (self.clock() == LocalOrUTC::Local),
    {
        match self.local_or_utc {
            Some(z) => z == LocalOrUTC::Local,
            None => true,
        }
    }

    /// Returns whether times should be displayed in UTC.
    pub fn is_utc_time(&self) -> (r: bool)
        ensures
            r == (self.clock() == LocalOrUTC::Utc),
    {
        match self.local_or_utc {
            Some(z) => z == LocalOrUTC::Utc,
            None => false,
        }
    }

    /// Returns the time format string used for formatting timestamps.
    ///
    /// `"SIMPLE"` (the default) is `%H:%M:%S%.6f`, `"FULL"` is `%Y-%m-%dT%H:%M:%S%.6fZ%z`,
    /// and any other string is used as a pattern as it stands.
    pub fn time_format(&self) -> (r: &'static str)
        ensures
            r@ == self.format_pattern(),
    {
        match self.time_format {
            Some(f) => {
                if str_eq(f, "SIMPLE") {
                    SIMPLE_FORMAT
                } else if str_eq(f, "FULL") {
                    FULL_FORMAT
                } else {
                    f
                }
            },
            None => SIMPLE_FORMAT,
        }
    }
}

impl Default for Context {
    fn default() -> (r: Context)
        ensures
            r == Context::spec_default(),
    {
        Context { verbose: None, max_items: None, local_or_utc: None, time_format: None }
    }
}

} // verus!
