use vstd::prelude::*;

verus! {

/// What a successful start reports.
#[derive(Debug, Clone, Copy, PartialEq, Eq, Structural)]
pub enum StartOutcome {
    Started,
    AlreadyRunning,
}

/// What a successful stop reports.
#[derive(Debug, Clone, Copy, PartialEq, Eq, Structural)]
pub enum StopOutcome {
    Stopped,
    NotRunning,
}

impl StartOutcome {
    pub open spec fn text(self) -> Seq<char> {
        match self {
            StartOutcome::Started => "started"@,
            StartOutcome::AlreadyRunning => "already_running"@,
        }
    }

    /// The word handed back across the control boundary.
    pub fn to_text(&self) -> (r: String)
        ensures
            r@ == self.text(),
    {
        match self {
            StartOutcome::Started => String::from_str("started"),
            StartOutcome::AlreadyRunning => String::from_str("already_running"),
        }
    }
}

impl StopOutcome {
    pub open spec fn text(self) -> Seq<char> {
        match self {
            StopOutcome::Stopped => "stopped"@,
            StopOutcome::NotRunning => "not_running"@,
        }
    }

    /// The word handed back across the control boundary.
    pub fn to_text(&self) -> (r: String)
        ensures
            r@ == self.text(),
    {
        match self {
            StopOutcome::Stopped => String::from_str("stopped"),
            StopOutcome::NotRunning => String::from_str("not_running"),
        }
    }
}

/// Every way a control operation can fail. The `String` payloads carry the
/// underlying cause as the host described it.
#[derive(Debug)]
pub enum SidecarError {
    /// The lock guarding the slot could not be taken.
    StateLock(String),
    /// The per-instance data directory could not be resolved.
    DataDirUnavailable(String),
    /// The data directory could not be created.
    DataDirCreation(String),
    /// The data directory's path is not valid Unicode.
    DataDirNotUnicode,
    /// The sidecar command could not be located or built.
    CommandUnavailable(String),
    /// The operating system refused to spawn the child.
    SpawnFailed(String),
    /// The termination signal could not be delivered.
    KillFailed(String),
}

impl SidecarError {
    pub open spec fn text(&self) -> Seq<char> {
        match self {
            SidecarError::StateLock(cause) => cause@,
            SidecarError::DataDirUnavailable(cause) => "Failed to get app data dir: "@ + cause@,
            SidecarError::DataDirCreation(cause) => "Failed to create app data dir: "@ + cause@,
            SidecarError::DataDirNotUnicode => "Invalid app data dir path"@,
            SidecarError::CommandUnavailable(cause) => "Failed to get sidecar command: "@ + cause@,
            SidecarError::SpawnFailed(cause) => "Failed to spawn sidecar: "@ + cause@,
            SidecarError::KillFailed(cause) => "Failed to kill sidecar: "@ + cause@,
        }
    }

    /// The human-readable message shown to the caller.
    pub fn message(&self) -> (r: String)
        ensures
            r@ == self.text(),
    {
        match self {
            SidecarError::StateLock(cause) => cause.clone(),
            SidecarError::DataDirUnavailable(cause) => {
                String::from_str("Failed to get app data dir: ").concat(cause.as_str())
            },
            SidecarError::DataDirCreation(cause) => {
                String::from_str("Failed to create app data dir: ").concat(cause.as_str())
            },
            SidecarError::DataDirNotUnicode => String::from_str("Invalid app data dir path"),
            SidecarError::CommandUnavailable(cause) => {
                String::from_str("Failed to get sidecar command: ").concat(cause.as_str())
            },
            SidecarError::SpawnFailed(cause) => {
                String::from_str("Failed to spawn sidecar: ").concat(cause.as_str())
            },
            SidecarError::KillFailed(cause) => {
                String::from_str("Failed to kill sidecar: ").concat(cause.as_str())
            },
        }
    }
}

} // verus!
