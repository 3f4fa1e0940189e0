use vstd::prelude::*;

verus! {

/// The command-line options of the manager.
#[derive(Debug, Clone)]
pub struct Cli {
    pub config: Option<String>,
    pub check_config: Option<String>,
    pub status: bool,
    pub mount: bool,
    pub unmount: bool,
    pub flush: bool,
    pub eject: bool,
    pub recover: bool,
    pub simulate_write: bool,
    pub simulate_recovery: bool,
    pub version: bool,
}

/// What the manager was asked to do.
#[derive(Debug, Clone, Copy, PartialEq, Eq, Structural)]
pub enum Command {
    Version,
    CheckConfig,
    Status,
    Mount,
    Unmount,
    Flush,
    Eject,
    Recover,
    SimulateWrite,
    SimulateRecovery,
    Nothing,
}

/// The command the options select: the version flag first, then a
/// configuration check, then the first of status, mount, unmount, flush,
/// eject, recover, simulate-write and simulate-recovery that is set.
pub open spec fn spec_command(cli: Cli) -> Command {
    if cli.version {
        Command::Version
    } else if cli.check_config is Some {
        Command::CheckConfig
    } else if cli.status {
        Command::Status
    } else if cli.mount {
        Command::Mount
    } else if cli.unmount {
        Command::Unmount
    } else if cli.flush {
        Command::Flush
    } else if cli.eject {
        Command::Eject
    } else if cli.recover {
        Command::Recover
    } else if cli.simulate_write {
        Command::SimulateWrite
    } else if cli.simulate_recovery {
        Command::SimulateRecovery
    } else {
        Command::Nothing
    }
}

impl Cli {
    /// The command these options select (see `spec_command`).
    pub fn command(&self) -> (c: Command)
        ensures
            c == spec_command(*self),
    {
        if self.version {
            Command::Version
        } else if self.check_config.is_some() {
            Command::CheckConfig
        } else if self.status {
            Command::Status
        } else if self.mount {
            Command::Mount
        } else if self.unmount {
            Command::Unmount
        } else if self.flush {
            Command::Flush
        } else if self.eject {
            Command::Eject
        } else if self.recover {
            Command::Recover
        } else if self.simulate_write {
            Command::SimulateWrite
        } else if self.simulate_recovery {
            Command::SimulateRecovery
        } else {
            Command::Nothing
        }
    }
}

} // verus!

verus! {

/// Each command is selected exactly when its flag is set and no flag that
/// comes before it in the order version, configuration check, status,
/// mount, unmount, flush, eject, recover, simulate-write, simulate-recovery
/// is; with no flag set nothing is selected.
pub proof fn law_command_selection(cli: Cli)
    ensures
        (spec_command(cli) == Command::Version) <==> cli.version,
        (spec_command(cli) == Command::CheckConfig) <==> (!cli.version && cli.check_config is Some),
        (spec_command(cli) == Command::Status) <==> (!cli.version && cli.check_config is None && cli.status),
        (spec_command(cli) == Command::Mount) <==> (!cli.version && cli.check_config is None && !cli.status && cli.mount),
        (spec_command(cli) == Command::Unmount) <==> (!cli.version && cli.check_config is None && !cli.status
            && !cli.mount && cli.unmount),
        (spec_command(cli) == Command::Flush) <==> (!cli.version && cli.check_config is None && !cli.status
            && !cli.mount && !cli.unmount && cli.flush),
        (spec_command(cli) == Command::Eject) <==> (!cli.version && cli.check_config is None && !cli.status
            && !cli.mount && !cli.unmount && !cli.flush && cli.eject),
        (spec_command(cli) == Command::Recover) <==> (!cli.version && cli.check_config is None && !cli.status
            && !cli.mount && !cli.unmount && !cli.flush && !cli.eject && cli.recover),
        (spec_command(cli) == Command::SimulateWrite) <==> (!cli.version && cli.check_config is None && !cli.status
            && !cli.mount && !cli.unmount && !cli.flush && !cli.eject && !cli.recover && cli.simulate_write),
        (spec_command(cli) == Command::SimulateRecovery) <==> (!cli.version && cli.check_config is None && !cli.status
            && !cli.mount && !cli.unmount && !cli.flush && !cli.eject && !cli.recover && !cli.simulate_write
            && cli.simulate_recovery),
        (spec_command(cli) == Command::Nothing) <==> (!cli.version && cli.check_config is None && !cli.status
            && !cli.mount && !cli.unmount && !cli.flush && !cli.eject && !cli.recover && !cli.simulate_write
            && !cli.simulate_recovery),
{
}

} // verus!
