use vstd::prelude::*;

use crate::app::AppMode;

verus! {

/// The dashboard's subcommands: which of the four views to start on.
#[derive(Debug, Clone, Copy, PartialEq, Eq)]
pub enum Commands {
    NodeHealth,
    NetworkPerformance,
    Troubleshoot,
    Monitor,
}

/// A parsed command line: the one subcommand it names.
#[derive(Debug, Clone, Copy, PartialEq, Eq)]
pub struct Cli {
    pub command: Commands,
}

/// The UI mode each subcommand starts the dashboard in.
pub fn mode_of_command(command: &Commands) -> (m: AppMode)
    ensures
        m == (match *command {
            Commands::NodeHealth => AppMode::NodeHealth,
            Commands::NetworkPerformance => AppMode::NetworkPerformance,
            Commands::Troubleshoot => AppMode::Troubleshoot,
            Commands::Monitor => AppMode::Monitor,
        }),
{
    match command {
        Commands::NodeHealth => AppMode::NodeHealth,
        Commands::NetworkPerformance => AppMode::NetworkPerformance,
        Commands::Troubleshoot => AppMode::Troubleshoot,
        Commands::Monitor => AppMode::Monitor,
    }
}

} // verus!
