//! The configuration that a destination and a level name resolve to.

use vstd::prelude::*;
use crate::destination::{destination_of, names_console, Destination, DestinationView};
use crate::directives::{honoured, usable};
use crate::level::{level_of, Level};

verus! {

/// How often a directory sink starts a new file.
#[derive(Clone, Copy, Debug, PartialEq, Eq, Structural)]
pub enum Rotation {
    Minutely,
    Hourly,
    Daily,
    Weekly,
    Never,
}

/// How a directory sink names, rotates and prunes its files.
#[derive(Clone, Debug, PartialEq, Eq)]
pub struct Rolling {
    /// Text that every file name starts with.
    pub prefix: String,
    /// When a new file is started.
    pub rotation: Rotation,
    /// Number of files that are kept; older ones are deleted. Zero keeps
    /// them all.
    pub retained: usize,
}

/// The mathematical form of a [`Rolling`].
pub struct RollingView {
    pub prefix: Seq<char>,
    pub rotation: Rotation,
    pub retained: nat,
}

impl View for Rolling {
    type V = RollingView;

    open spec fn view(&self) -> RollingView {
        RollingView {
            prefix: self.prefix@,
            rotation: self.rotation,
            retained: self.retained as nat,
        }
    }
}

/// The policy of every directory sink: files named `main.log`, one per
/// calendar day, of which fifteen are kept.
pub open spec fn daily_main_log() -> RollingView {
    RollingView { prefix: "main.log"@, rotation: Rotation::Daily, retained: 15 }
}

impl Rolling {
    /// Builds the policy of every directory sink.
    pub fn standard() -> (rolling: Rolling)
        ensures
            rolling@ == daily_main_log(),
    {
        Rolling { prefix: "main.log".to_owned(), rotation: Rotation::Daily, retained: 15 }
    }
}

/// What a rendered record shows.
#[derive(Clone, Copy, Debug, PartialEq, Eq, Structural)]
pub struct Format {
    /// ANSI colour codes around the parts of a record.
    pub ansi: bool,
    /// The target (module path) of the record.
    pub target: bool,
    /// The name of the source file that emitted the record.
    pub file: bool,
    /// The line in that source file.
    pub line_number: bool,
}

/// The format for a destination: source file and line are shown, the target
/// is not, and colour is on exactly when records go to the console.
pub open spec fn format_of(destination: DestinationView) -> Format {
    Format { ansi: destination is Console, target: false, file: true, line_number: true }
}

impl Format {
    /// Chooses the record format that suits a destination.
    pub fn for_destination(destination: &Destination) -> (format: Format)
        ensures
            format == format_of(destination@),
    {
        Format { ansi: destination.is_console(), target: false, file: true, line_number: true }
    }
}

/// Everything the bootstrap decides before it touches the process.
#[derive(Clone, Debug, PartialEq, Eq)]
pub struct Config {
    /// Threshold of the filter when the directives give none.
    pub level: Level,
    /// Filter directives that are handed to the parser.
    pub directives: String,
    /// Where records are written.
    pub destination: Destination,
    /// How files are kept when the destination is a directory.
    pub rolling: Rolling,
    /// How records are rendered.
    pub format: Format,
}

/// The mathematical form of a [`Config`].
pub struct ConfigView {
    pub level: Level,
    pub directives: Seq<char>,
    pub destination: DestinationView,
    pub rolling: RollingView,
    pub format: Format,
}

impl View for Config {
    type V = ConfigView;

    open spec fn view(&self) -> ConfigView {
        ConfigView {
            level: self.level,
            directives: self.directives@,
            destination: self.destination@,
            rolling: self.rolling@,
            format: self.format,
        }
    }
}

/// The configuration for a destination text, a level name and the filter
/// directives of the environment.
pub open spec fn config_of(logs: Seq<char>, level: Seq<char>, directives: Seq<char>) -> ConfigView {
    ConfigView {
        level: level_of(level),
        directives: honoured(directives),
        destination: destination_of(logs),
        rolling: daily_main_log(),
        format: format_of(destination_of(logs)),
    }
}

impl Config {
    /// Resolves a destination text, a level name and the filter directives
    /// of the environment. Every triple of texts has a configuration: no
    /// argument can be invalid.
    pub fn resolve(logs: &str, level: &str, directives: &str) -> (config: Config)
        ensures
            config@ == config_of(logs@, level@, directives@),
    {
        let destination = Destination::resolve(logs);
        let format = Format::for_destination(&destination);
        Config {
            level: Level::parse(level),
            directives: usable(directives),
            destination,
            rolling: Rolling::standard(),
            format,
        }
    }
}

/// Colour is switched on for the console and for nothing else.
pub proof fn law_colour_only_on_console(logs: Seq<char>, level: Seq<char>, directives: Seq<char>)
    ensures
        config_of(logs, level, directives).format.ansi <==> names_console(logs),
{
}

} // verus!
