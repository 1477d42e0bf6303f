//! The calls into `tracing-appender`, `tracing-subscriber` and
//! `tracing-core`.
//!
//! Nothing in this module is proved. The types are carried through as opaque
//! values, and no function here promises anything about what it returns:
//! what comes back depends on the file system and the state of the process.

use vstd::prelude::*;
use std::io::{Stdout, Write};
use std::path::Path;
use tracing_appender::non_blocking::{NonBlocking, WorkerGuard};
use tracing_appender::rolling::{InitError, RollingFileAppender};
use tracing_subscriber::filter::LevelFilter;
use tracing_subscriber::layer::SubscriberExt;
use tracing_subscriber::util::{SubscriberInitExt, TryInitError};
use tracing_subscriber::EnvFilter;
use crate::config::{Format, Rolling, Rotation};
use crate::directives::parses_whole;
use crate::level::Level;

verus! {

/// `tracing_appender::non_blocking::WorkerGuard`: owns the background writer
/// thread; dropping it flushes what is still queued.
#[verifier::external_type_specification]
#[verifier::external_body]
pub struct ExWorkerGuard(WorkerGuard);

/// `tracing_appender::non_blocking::NonBlocking`: the queueing front of a
/// background writer.
#[verifier::external_type_specification]
#[verifier::external_body]
pub struct ExNonBlocking(NonBlocking);

/// `tracing_appender::rolling::RollingFileAppender`: a writer into rotated
/// files.
#[verifier::external_type_specification]
#[verifier::external_body]
pub struct ExRollingFileAppender(RollingFileAppender);

/// `tracing_appender::rolling::InitError`: why a rolling appender could not
/// be built.
#[verifier::external_type_specification]
#[verifier::external_body]
pub struct ExInitError(InitError);

/// `tracing_subscriber::util::TryInitError`: why a subscriber could not
/// become the global default.
#[verifier::external_type_specification]
#[verifier::external_body]
pub struct ExTryInitError(TryInitError);

/// `tracing_subscriber::EnvFilter`: a filter built from directives.
#[verifier::external_type_specification]
#[verifier::external_body]
pub struct ExEnvFilter(EnvFilter);

/// `std::io::Stdout`: a handle to the standard output of the process.
#[verifier::external_type_specification]
#[verifier::external_body]
pub struct ExStdout(Stdout);

/// `std::path::Path`: a path of the file system, which need not be Unicode.
#[verifier::external_type_specification]
#[verifier::external_body]
pub struct ExPath(Path);

/// `tracing_core::dispatcher::has_been_set` tells whether a dispatcher has
/// ever been set, for the process or for one of its threads. The answer
/// depends on the state of the process, so nothing is claimed of it.
pub assume_specification[ tracing_core::dispatcher::has_been_set ]() -> (set: bool);

/// `std::io::stdout` returns a handle to standard output. Nothing is claimed
/// of the handle.
pub assume_specification[ std::io::stdout ]() -> (out: Stdout);

/// `tracing_appender::non_blocking` starts a worker thread that drains a
/// bounded queue into `writer`, and returns the queueing writer with the
/// guard of that thread. Nothing is claimed of either. The call panics when
/// the operating system refuses the thread.
pub assume_specification<T: Write + Send + 'static>[ tracing_appender::non_blocking::<T> ](
    writer: T,
) -> (pair: (NonBlocking, WorkerGuard));

/// `EnvFilter::builder().with_default_directive(..).parse_lossy(directives)`,
/// with the `LevelFilter` of `level` as the default directive. The parser
/// skips the pieces that it cannot read and uses the default directive when
/// none is left. It cuts each piece at offsets that it measured after
/// trimming the piece, and panics where such a cut falls inside a
/// character: the `requires` leaves those texts out. Nothing is claimed of
/// the filter.
#[verifier::external_body]
pub(crate) fn parse_filter(level: Level, directives: &str) -> (filter: EnvFilter)
    requires
        parses_whole(directives@),
{
    let threshold = match level {
        Level::Debug => LevelFilter::DEBUG,
        Level::Info => LevelFilter::INFO,
        Level::Warn => LevelFilter::WARN,
        Level::Error => LevelFilter::ERROR,
    };
    EnvFilter::builder().with_default_directive(threshold.into()).parse_lossy(directives)
}

/// `RollingFileAppender::builder()` with the prefix, rotation and file
/// limit of `rolling`, built on `directory`. The builder opens the current
/// file, creating the directory if it has to, and deletes the oldest files
/// that start with the prefix beyond the limit. Whether that succeeds
/// depends on the file system, so nothing is claimed of the result.
#[verifier::external_body]
pub(crate) fn rolling_appender(directory: &Path, rolling: &Rolling) -> (opened: Result<
    RollingFileAppender,
    InitError,
>) {
    let rotation = match rolling.rotation {
        Rotation::Minutely => tracing_appender::rolling::Rotation::MINUTELY,
        Rotation::Hourly => tracing_appender::rolling::Rotation::HOURLY,
        Rotation::Daily => tracing_appender::rolling::Rotation::DAILY,
        Rotation::Weekly => tracing_appender::rolling::Rotation::WEEKLY,
        Rotation::Never => tracing_appender::rolling::Rotation::NEVER,
    };
    RollingFileAppender::builder()
        .filename_prefix(rolling.prefix.as_str())
        .rotation(rotation)
        .max_log_files(rolling.retained)
        .build(directory)
}

/// `tracing_subscriber::registry()` layered with `filter` and with a
/// `fmt::layer()` that writes to `writer` in the given format, then
/// `try_init()`. It fails when the process already has a global dispatcher,
/// and also, after it has installed this one, when the process already has
/// a `log` logger. Nothing is claimed of the result. `with_ansi(true)`
/// relies on the `ansi` feature, which is on by default.
#[verifier::external_body]
pub(crate) fn install(filter: EnvFilter, writer: NonBlocking, format: Format) -> (installed: Result<
    (),
    TryInitError,
>) {
    let layer = tracing_subscriber::fmt::layer()
        .with_writer(writer)
        .with_target(format.target)
        .with_file(format.file)
        .with_line_number(format.line_number)
        .with_ansi(format.ansi);
    tracing_subscriber::registry().with(filter).with(layer).try_init()
}

} // verus!
