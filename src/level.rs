//! Severity levels and the colours a line is painted with.
use vstd::prelude::*;

verus! {

/// Severity of a log record, from the most to the least urgent.
#[derive(Clone, Copy, Debug, PartialEq, Eq, Structural)]
pub enum Level {
    Error,
    Warn,
    Info,
    Debug,
    Trace,
}

/// A foreground colour of the output sink.
#[derive(Clone, Copy, Debug, PartialEq, Eq, Structural)]
pub enum Color {
    Red,
    Yellow,
    White,
    Blue,
    Green,
    /// An entry of the 256-colour palette.
    Ansi256(u8),
}

/// The colour of de-emphasised details (module path, source location).
pub open spec fn gray() -> Color {
    Color::Ansi256(8)
}

/// The fixed six-character label of a level.
pub open spec fn level_label(level: Level) -> Seq<char> {
    match level {
        Level::Error => seq!['E', 'R', 'R', 'O', 'R', ':'],
        Level::Warn => seq!['W', 'a', 'r', 'n', ':', ' '],
        Level::Info => seq!['I', 'n', 'f', 'o', ':', ' '],
        Level::Debug => seq!['D', 'e', 'b', 'u', 'g', ':'],
        Level::Trace => seq!['T', 'r', 'a', 'c', 'e', ':'],
    }
}

/// The colour that a level's label is painted in.
pub open spec fn level_color(level: Level) -> Color {
    match level {
        Level::Error => Color::Red,
        Level::Warn => Color::Yellow,
        Level::Info => Color::White,
        Level::Debug => Color::Blue,
        Level::Trace => Color::Green,
    }
}

impl Level {
    /// The label of this level, always six characters wide.
    pub fn label(&self) -> (r: &'static str)
        ensures
            r@ == level_label(*self),
            r@.len() == 6,
    {
        match self {
            Level::Error => {
                proof { reveal_strlit("ERROR:"); }
                assert("ERROR:"@ =~= level_label(*self));
                "ERROR:"
            },
            Level::Warn => {
                proof { reveal_strlit("Warn: "); }
                assert("Warn: "@ =~= level_label(*self));
                "Warn: "
            },
            Level::Info => {
                proof { reveal_strlit("Info: "); }
                assert("Info: "@ =~= level_label(*self));
                "Info: "
            },
            Level::Debug => {
                proof { reveal_strlit("Debug:"); }
                assert("Debug:"@ =~= level_label(*self));
                "Debug:"
            },
            Level::Trace => {
                proof { reveal_strlit("Trace:"); }
                assert("Trace:"@ =~= level_label(*self));
                "Trace:"
            },
        }
    }

    /// The colour of this level's label.
    pub fn color(&self) -> (r: Color)
        ensures
            r == level_color(*self),
    {
        match self {
            Level::Error => Color::Red,
            Level::Warn => Color::Yellow,
            Level::Info => Color::White,
            Level::Debug => Color::Blue,
            Level::Trace => Color::Green,
        }
    }
}

} // verus!
