//! Running processes and their environments.

use vstd::prelude::*;

use crate::text::opt_view;

pub mod laws;
pub mod linux;
pub mod windows;

verus! {

/// A process that matched a search.
#[derive(Debug, Clone, PartialEq, Eq)]
pub struct LauncherProcess {
    pub pid: u32,
    pub parent_pid: u32,
    pub name: String,
    pub executable_path: Option<String>,
}

/// What a process record says.
#[verifier::ext_equal]
pub struct ProcessModel {
    pub pid: u32,
    pub parent_pid: u32,
    pub name: Seq<char>,
    pub executable_path: Option<Seq<char>>,
}

impl View for LauncherProcess {
    type V = ProcessModel;

    open spec fn view(&self) -> ProcessModel {
        ProcessModel {
            pid: self.pid,
            parent_pid: self.parent_pid,
            name: self.name@,
            executable_path: opt_view(self.executable_path),
        }
    }
}

/// What the process records say.
pub open spec fn process_views(processes: Seq<LauncherProcess>) -> Seq<ProcessModel> {
    processes.map_values(|p: LauncherProcess| p@)
}

} // verus!
