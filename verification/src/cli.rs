use vstd::prelude::*;

verus! {

/// What the program is asked to do.
#[derive(Debug, Clone, Copy, PartialEq, Eq, Structural)]
pub enum Command {
    /// Start the service (consumer loop and health endpoint).
    Serve,
    /// Download and cache the embedding model without starting the service.
    DownloadModel,
}

/// The program's command line.
pub struct Cli {
    pub command: Command,
}

} // verus!
