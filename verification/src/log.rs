//! Logging: the levels of log records, which of them are shown, and the label and color each is
//! shown with on the screen (and the label on the serial port).

use vstd::prelude::*;
use crate::color::{Color, ColorPair};

verus! {

/// The level of a log record, from the most to the least severe.
#[derive(Clone, Copy, PartialEq, Eq, Structural, Debug)]
pub enum Level {
    Error,
    Warn,
    Info,
    Debug,
    Trace,
}

impl Level {
    /// The level's rank: the more severe, the lower.
    pub open spec fn rank(self) -> nat {
        match self {
            Level::Error => 1,
            Level::Warn => 2,
            Level::Info => 3,
            Level::Debug => 4,
            Level::Trace => 5,
        }
    }
}

/// The most verbose level shown.
pub fn log_level() -> (level: Level)
    ensures
        level == Level::Info,
{
    Level::Info
}

/// Whether records of `level` are shown: those at least as severe as `log_level`.
pub fn enabled(level: Level) -> (shown: bool)
    ensures
        shown == (level.rank() <= Level::Info.rank()),
{
    match level {
        Level::Error | Level::Warn | Level::Info => true,
        Level::Debug | Level::Trace => false,
    }
}

/// The label a record of `level` starts with, and the color the label is shown in.
pub fn label(level: Level) -> (label: (&'static str, ColorPair))
    ensures
        label == (match level {
            Level::Trace => ("[trace] ", ColorPair { foreground: Color::White, background: Color::Black }),
            Level::Debug => ("[debug] ", ColorPair { foreground: Color::Cyan, background: Color::Black }),
            Level::Info => ("[info]  ", ColorPair { foreground: Color::LightBlue, background: Color::Black }),
            Level::Warn => ("[warn]  ", ColorPair { foreground: Color::LightRed, background: Color::Black }),
            Level::Error => ("[error] ", ColorPair { foreground: Color::Red, background: Color::Black }),
        }),
{
    match level {
        Level::Trace => ("[trace] ", ColorPair::new(Color::White, Color::Black)),
        Level::Debug => ("[debug] ", ColorPair::new(Color::Cyan, Color::Black)),
        Level::Info => ("[info]  ", ColorPair::new(Color::LightBlue, Color::Black)),
        Level::Warn => ("[warn]  ", ColorPair::new(Color::LightRed, Color::Black)),
        Level::Error => ("[error] ", ColorPair::new(Color::Red, Color::Black)),
    }
}

} // verus!
