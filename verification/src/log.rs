//! Installs the process-wide logging session.

use vstd::prelude::*;
use std::path::Path;
use tracing_appender::non_blocking::WorkerGuard;
use tracing_appender::rolling::{InitError, RollingFileAppender};
use tracing_subscriber::util::TryInitError;
use crate::backend::{install, parse_filter, rolling_appender};
use crate::config::Config;
use crate::destination::{names_console, Destination};
use crate::directives::law_honoured_parses_whole;

verus! {

/// Why no logging session was started.
#[derive(Debug)]
pub enum SetupError {
    /// The directory sink could not be prepared for writing.
    Sink(InitError),
    /// The dispatcher could not be installed.
    ///
    /// Without a cause, the process was found to have a dispatcher before
    /// anything was prepared, and nothing has changed. With a cause, the
    /// installation itself was refused after the sink had been prepared:
    /// either another dispatcher got in first, or the process already had a
    /// `log` logger, and then this dispatcher is installed all the same but
    /// its writer has stopped.
    Install(Option<TryInitError>),
}

/// Whether the bootstrap may go on, given whether the process already has a
/// dispatcher: where it has one, the bootstrap ends with
/// [`SetupError::Install`] before it prepares anything.
pub fn admission(occupied: bool) -> (admitted: Result<(), SetupError>)
    ensures
        admitted == if occupied {
            Err::<(), SetupError>(SetupError::Install(None))
        } else {
            Ok::<(), SetupError>(())
        },
{
    if occupied {
        Err(SetupError::Install(None))
    } else {
        Ok(())
    }
}

/// What becomes of an attempt to open the directory sink: the appender is
/// passed on, and a failure becomes [`SetupError::Sink`] around its cause.
pub fn sink_outcome(opened: Result<RollingFileAppender, InitError>) -> (outcome: Result<
    RollingFileAppender,
    SetupError,
>)
    ensures
        outcome == match opened {
            Ok(appender) => Ok::<RollingFileAppender, SetupError>(appender),
            Err(cause) => Err(SetupError::Sink(cause)),
        },
{
    match opened {
        Ok(appender) => Ok(appender),
        Err(cause) => Err(SetupError::Sink(cause)),
    }
}

/// What becomes of an attempt to install the dispatcher: the guard of the
/// writer is the session handle when it was installed, and a refusal becomes
/// [`SetupError::Install`] around its cause.
pub fn install_outcome(guard: WorkerGuard, installed: Result<(), TryInitError>) -> (outcome: Result<
    WorkerGuard,
    SetupError,
>)
    ensures
        outcome == match installed {
            Ok(_) => Ok::<WorkerGuard, SetupError>(guard),
            Err(cause) => Err(SetupError::Install(Some(cause))),
        },
{
    match installed {
        Ok(_) => Ok(guard),
        Err(cause) => Err(SetupError::Install(Some(cause))),
    }
}

/// Starts the logging session of the process.
///
/// `logs` is the destination and `text` its rendering as text. A text that
/// reads `stdout` in any ASCII case selects the console; any other selects
/// daily log files in the directory `logs`. `level` names the threshold that
/// applies unless `directives`, the filter text of the environment, says
/// otherwise. The returned guard keeps the background writer alive, and
/// dropping it flushes what is queued.
///
/// Nothing is prepared where the process already has a dispatcher, and the
/// sink is prepared before the dispatcher is installed, so a sink failure
/// installs nothing. Only a directory sink can fail to be prepared. Whether
/// a dispatcher is there, whether the sink opens and whether the
/// installation succeeds is for the process to say; [`admission`],
/// [`sink_outcome`] and [`install_outcome`] state what is returned for each
/// answer.
pub fn init(logs: &Path, text: &str, level: &str, directives: &str) -> (session: Result<
    WorkerGuard,
    SetupError,
>)
    ensures
        session matches Err(SetupError::Sink(_)) ==> !names_console(text@),
{
    let config = Config::resolve(text, level, directives);
    if let Err(error) = admission(tracing_core::dispatcher::has_been_set()) {
        return Err(error);
    }
    proof {
        law_honoured_parses_whole(directives@);
    }
    let filter = parse_filter(config.level, config.directives.as_str());
    let (writer, guard) = match &config.destination {
        Destination::Console => tracing_appender::non_blocking(std::io::stdout()),
        Destination::Directory(_) => {
            match sink_outcome(rolling_appender(logs, &config.rolling)) {
                Ok(appender) => tracing_appender::non_blocking(appender),
                Err(error) => {
                    return Err(error);
                },
            }
        },
    };
    install_outcome(guard, install(filter, writer, config.format))
}

} // verus!
