//! Desktop notifications: their level and its icon. Showing them is
//! best-effort and left to the application.

use vstd::prelude::*;

verus! {

/// Importance of a notification, which picks its XDG icon.
#[derive(Debug, Clone, Copy, PartialEq, Eq, Structural)]
pub enum Level {
    Info,
    Warn,
    Error,
}

pub open spec fn level_icon(l: Level) -> Seq<char> {
    match l {
        Level::Info => "dialog-information"@,
        Level::Warn => "dialog-warning"@,
        Level::Error => "dialog-error"@,
    }
}

impl Level {
    /// Name of the XDG icon of this level.
    pub fn xdg_icon(&self) -> (r: &'static str)
        ensures
            r@ == level_icon(*self),
    {
        match self {
            Level::Info => "dialog-information",
            Level::Warn => "dialog-warning",
            Level::Error => "dialog-error",
        }
    }
}

/// Each level of notification has an icon of its own.
pub proof fn law_level_icons_distinct(l1: Level, l2: Level)
    ensures
        l1 != l2 ==> level_icon(l1) != level_icon(l2),
{
    reveal_strlit("dialog-information");
    reveal_strlit("dialog-warning");
    reveal_strlit("dialog-error");
    if l1 != l2 {
        assert(level_icon(l1).len() != level_icon(l2).len());
    }
}

} // verus!
