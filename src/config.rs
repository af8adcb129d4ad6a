//! The settings of one run.
use vstd::prelude::*;

verus! {

/// The settings of one run, fixed before any repository is processed and
/// read by every worker.
#[derive(Debug)]
pub struct Config {
    /// The subcommand requested for every repository.
    pub cmd: String,
    /// The subdirectory of the development directory that holds the clones.
    pub sub_dir: String,
    /// How many repositories are processed at once.
    pub parallels: usize,
    /// The file that lists the repositories.
    pub repox_file: String,
    /// The directory that holds the clones.
    pub dev_dir: String,
}

impl Clone for Config {
    fn clone(&self) -> (r: Self)
        ensures
            r == *self,
    {
        Config {
            cmd: self.cmd.clone(),
            sub_dir: self.sub_dir.clone(),
            parallels: self.parallels,
            repox_file: self.repox_file.clone(),
            dev_dir: self.dev_dir.clone(),
        }
    }
}

} // verus!
