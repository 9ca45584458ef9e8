use vstd::prelude::*;

verus! {

/// What the service watches for and starts, fixed at startup.
#[derive(Clone, Debug)]
pub struct TargetConfig {
    /// Executable name looked up in the process table.
    pub process_name: String,
    /// Path of the executable started on a wake event.
    pub launch_path: String,
    /// Leading text of the address that selects the network interface.
    pub host_prefix: String,
}

/// Number of command-line arguments the service needs: its own path, then the process
/// name, the launch path and the address prefix.
pub const REQUIRED_ARGS: usize = 4;

impl TargetConfig {
    /// Builds the configuration from the service's command line, or returns `None` when it
    /// holds fewer than four arguments. The first argument names the service itself and
    /// is skipped; any past the fourth are ignored here.
    pub fn from_args(args: &Vec<String>) -> (r: Option<TargetConfig>)
        ensures
            r is Some <==> args@.len() >= REQUIRED_ARGS,
            r is Some ==> {
                &&& r->0.process_name@ == args@[1]@
                &&& r->0.launch_path@ == args@[2]@
                &&& r->0.host_prefix@ == args@[3]@
            },
    {
        if args.len() < REQUIRED_ARGS {
            return None;
        }
        Some(
            TargetConfig {
                process_name: args[1].clone(),
                launch_path: args[2].clone(),
                host_prefix: args[3].clone(),
            },
        )
    }
}

} // verus!
