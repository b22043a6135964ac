//! Resource context.

use vstd::prelude::*;

use crate::logger::{Logger, StdoutLogger};

verus! {

/// Class of accepted contexts.
pub trait Context {
    type Logger: Logger;

    /// Get access to the internal logger.
    fn logger(&mut self) -> &mut Self::Logger;
}

/// The default context.
#[derive(Debug)]
pub struct DefaultContext {
    logger: StdoutLogger,
}

impl DefaultContext {
    /// Whether the context logs to the standard output.
    pub closed spec fn logs_to_stdout(&self) -> bool {
        self.logger == StdoutLogger
    }

    /// The logger of the context.
    pub closed spec fn stdout_logger(&self) -> StdoutLogger {
        self.logger
    }

    /// A context logging to the standard output.
    pub fn new() -> (res: Self)
        ensures
            res.logs_to_stdout(),
    {
        DefaultContext { logger: StdoutLogger }
    }
}

impl Default for DefaultContext {
    fn default() -> (res: Self)
        ensures
            res.logs_to_stdout(),
    {
        DefaultContext::new()
    }
}

/// Using the default context will use:
///
///   - The `StdoutLogger` as a logger.
impl Context for DefaultContext {
    type Logger = StdoutLogger;

    /// A handle on the context's own logger: what is written through it is the context's logger
    /// after the call.
    fn logger(&mut self) -> (res: &mut StdoutLogger)
        ensures
            *res == old(self).stdout_logger(),
            final(self).stdout_logger() == *final(res),
    {
        &mut self.logger
    }
}

} // verus!
