use vstd::prelude::*;
use vstd::string::*;

verus! {

/// The operations whose failure the shell reports to the front end. The
/// reply is the operation's description, a colon and the system's own
/// error text.
#[derive(Clone, Copy, Debug, PartialEq, Eq, Structural)]
pub enum Failure {
    SpawnProcess,
    KillProcess,
    LaunchExplorer,
    LaunchTaskManager,
    KillExplorer,
    OpenRegistry,
    SetRegistryValue,
    RestoreExplorer,
    OpenRunKey,
    SetRunValue,
    CreateScheduledTask,
    DeleteRunValue,
    DeleteScheduledTask,
    SaveFile,
    ReadFile,
    OpenFile,
    ShowInExplorer,
    HideWindow,
    ToggleFullscreen,
}

impl Failure {
    /// The description that opens the reply.
    pub open spec fn lead(self) -> Seq<char> {
        match self {
            Failure::SpawnProcess => "Failed to spawn process"@,
            Failure::KillProcess => "Failed to kill process"@,
            Failure::LaunchExplorer => "Failed to launch explorer"@,
            Failure::LaunchTaskManager => "Failed to launch Task Manager"@,
            Failure::KillExplorer => "Failed to kill explorer"@,
            Failure::OpenRegistry => "Failed to open registry"@,
            Failure::SetRegistryValue => "Failed to set registry value"@,
            Failure::RestoreExplorer => "Failed to restore explorer.exe"@,
            Failure::OpenRunKey => "Failed to open Run key"@,
            Failure::SetRunValue => "Failed to set Run value"@,
            Failure::CreateScheduledTask => "Failed to create scheduled task"@,
            Failure::DeleteRunValue => "Failed to delete Run value"@,
            Failure::DeleteScheduledTask => "Failed to delete scheduled task"@,
            Failure::SaveFile => "Failed to save file"@,
            Failure::ReadFile => "Failed to read file"@,
            Failure::OpenFile => "Failed to open file"@,
            Failure::ShowInExplorer => "Failed to show in Explorer"@,
            Failure::HideWindow => "Failed to hide window"@,
            Failure::ToggleFullscreen => "Failed to toggle fullscreen"@,
        }
    }

    /// What follows the system's error text: advice to elevate where the
    /// registry refused access, nothing otherwise.
    pub open spec fn advice(self) -> Seq<char> {
        match self {
            Failure::OpenRegistry => ". Run as administrator."@,
            _ => Seq::<char>::empty(),
        }
    }

    /// The reply for this failure, given the system's error text.
    pub open spec fn reply(self, detail: Seq<char>) -> Seq<char> {
        self.lead() + ": "@ + detail + self.advice()
    }

    fn lead_text(&self) -> (s: &'static str)
        ensures
            s@ == self.lead(),
    {
        match self {
            Failure::SpawnProcess => "Failed to spawn process",
            Failure::KillProcess => "Failed to kill process",
            Failure::LaunchExplorer => "Failed to launch explorer",
            Failure::LaunchTaskManager => "Failed to launch Task Manager",
            Failure::KillExplorer => "Failed to kill explorer",
            Failure::OpenRegistry => "Failed to open registry",
            Failure::SetRegistryValue => "Failed to set registry value",
            Failure::RestoreExplorer => "Failed to restore explorer.exe",
            Failure::OpenRunKey => "Failed to open Run key",
            Failure::SetRunValue => "Failed to set Run value",
            Failure::CreateScheduledTask => "Failed to create scheduled task",
            Failure::DeleteRunValue => "Failed to delete Run value",
            Failure::DeleteScheduledTask => "Failed to delete scheduled task",
            Failure::SaveFile => "Failed to save file",
            Failure::ReadFile => "Failed to read file",
            Failure::OpenFile => "Failed to open file",
            Failure::ShowInExplorer => "Failed to show in Explorer",
            Failure::HideWindow => "Failed to hide window",
            Failure::ToggleFullscreen => "Failed to toggle fullscreen",
        }
    }

    /// The reply for this failure, given the system's error text.
    pub fn message(&self, detail: &str) -> (m: String)
        ensures
            m@ == self.reply(detail@),
    {
        let mut m = String::from_str(self.lead_text());
        m.append(": ");
        m.append(detail);
        match self {
            Failure::OpenRegistry => {
                m.append(". Run as administrator.");
            },
            _ => {
                assert(m@ =~= m@ + Seq::<char>::empty());
            },
        }
        m
    }
}

} // verus!
