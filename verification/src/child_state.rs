//! The states of a child, what the outside sees of them, and the errors of
//! the child's operations.

use vstd::prelude::*;

use crate::text::{concat, decimal, decimal_text};

verus! {

/// Why a child is faulted.
#[derive(Clone, Copy, Debug, PartialEq, Eq, Structural)]
pub enum Reason {
    /// No particular reason. The reason of a faulted child may change to
    /// any other at any time.
    Undefined,
    /// The child is out of sync with the nexus and has to be rebuilt.
    OutOfSync,
    /// The child's block device cannot be opened.
    CantOpen,
}

/// The text that describes a reason.
pub open spec fn reason_text(reason: Reason) -> Seq<char> {
    match reason {
        Reason::Undefined => "Unknown"@,
        Reason::OutOfSync => "The child is out of sync and requires a rebuild"@,
        Reason::CantOpen => "Failed to open the child bdev"@,
    }
}

impl Reason {
    /// Describes this reason.
    pub fn to_string(&self) -> (s: String)
        ensures
            s@ == reason_text(*self),
    {
        match self {
            Reason::Undefined => String::from_str("Unknown"),
            Reason::OutOfSync => String::from_str(
                "The child is out of sync and requires a rebuild",
            ),
            Reason::CantOpen => String::from_str("Failed to open the child bdev"),
        }
    }
}

/// The state of a child.
#[derive(Clone, Copy, Debug, PartialEq, Eq, Structural)]
pub enum ChildState {
    /// The child is known but has not been opened.
    Init,
    /// The child does not meet what its parent requires of it.
    ConfigInvalid,
    /// The child is claimed and open for reading and writing.
    Open,
    /// The child has been closed by the nexus and can be opened again.
    Closed,
    /// The child cannot be used until something is done about it.
    Faulted(Reason),
}

/// The text that describes a state.
pub open spec fn state_text(state: ChildState) -> Seq<char> {
    match state {
        ChildState::Faulted(reason) => "faulted with reason "@ + reason_text(reason),
        ChildState::Init => "Init"@,
        ChildState::ConfigInvalid => "Config parameters are invalid"@,
        ChildState::Open => "child is open"@,
        ChildState::Closed => "closed"@,
    }
}

/// The identifier of a reason.
pub open spec fn reason_name(reason: Reason) -> Seq<char> {
    match reason {
        Reason::Undefined => "Undefined"@,
        Reason::OutOfSync => "OutOfSync"@,
        Reason::CantOpen => "CantOpen"@,
    }
}

/// The identifier of a state, with that of the reason for a faulted one.
pub open spec fn state_name(state: ChildState) -> Seq<char> {
    match state {
        ChildState::Init => "Init"@,
        ChildState::ConfigInvalid => "ConfigInvalid"@,
        ChildState::Open => "Open"@,
        ChildState::Closed => "Closed"@,
        ChildState::Faulted(reason) => "Faulted("@ + reason_name(reason) + ")"@,
    }
}

impl ChildState {
    /// The identifier of this state.
    pub fn name(&self) -> (s: String)
        ensures
            s@ == state_name(*self),
    {
        match self {
            ChildState::Init => String::from_str("Init"),
            ChildState::ConfigInvalid => String::from_str("ConfigInvalid"),
            ChildState::Open => String::from_str("Open"),
            ChildState::Closed => String::from_str("Closed"),
            ChildState::Faulted(reason) => {
                let mut s = String::from_str("Faulted(");
                s.append(
                    match reason {
                        Reason::Undefined => "Undefined",
                        Reason::OutOfSync => "OutOfSync",
                        Reason::CantOpen => "CantOpen",
                    },
                );
                s.append(")");
                s
            },
        }
    }

    /// Describes this state.
    pub fn to_string(&self) -> (s: String)
        ensures
            s@ == state_text(*self),
    {
        match self {
            ChildState::Faulted(reason) => {
                let text = reason.to_string();
                concat("faulted with reason ", text.as_str())
            },
            ChildState::Init => String::from_str("Init"),
            ChildState::ConfigInvalid => String::from_str("Config parameters are invalid"),
            ChildState::Open => String::from_str("child is open"),
            ChildState::Closed => String::from_str("closed"),
        }
    }
}

/// What the outside sees of a child's state.
#[derive(Clone, Copy, Debug, PartialEq, Eq, Structural)]
pub enum ChildStatus {
    /// Available for reading and writing.
    Online,
    /// Out of sync with the nexus and being rebuilt.
    Degraded,
    /// Not usable.
    Faulted,
}

/// The name of a status.
pub open spec fn status_text(status: ChildStatus) -> Seq<char> {
    match status {
        ChildStatus::Degraded => "degraded"@,
        ChildStatus::Faulted => "faulted"@,
        ChildStatus::Online => "online"@,
    }
}

impl ChildStatus {
    /// The name of this status.
    pub fn to_string(&self) -> (s: String)
        ensures
            s@ == status_text(*self),
    {
        match self {
            ChildStatus::Degraded => String::from_str("degraded"),
            ChildStatus::Faulted => String::from_str("faulted"),
            ChildStatus::Online => String::from_str("online"),
        }
    }
}

/// The status that a state shows to the outside: an open child is online,
/// a child that is out of sync is degraded while a rebuild job works on it,
/// and every other child is faulted.
pub open spec fn status_of(state: ChildState, rebuilding: bool) -> ChildStatus {
    match state {
        ChildState::Open => ChildStatus::Online,
        ChildState::Faulted(Reason::OutOfSync) => if rebuilding {
            ChildStatus::Degraded
        } else {
            ChildStatus::Faulted
        },
        _ => ChildStatus::Faulted,
    }
}

/// Projects a state onto the status that the outside sees. `rebuilding`
/// says whether a rebuild job exists for the child.
pub fn project_status(state: ChildState, rebuilding: bool) -> (status: ChildStatus)
    ensures
        status == status_of(state, rebuilding),
{
    match state {
        ChildState::Open => ChildStatus::Online,
        ChildState::Faulted(Reason::OutOfSync) => {
            if rebuilding {
                ChildStatus::Degraded
            } else {
                ChildStatus::Faulted
            }
        },
        _ => ChildStatus::Faulted,
    }
}

/// An error of the block-device layer.
#[derive(Debug)]
pub enum CoreError {
    /// The device could not be opened; `errno` is the driver's error number.
    OpenBdev { errno: i32 },
    /// No I/O channel could be had for the device.
    GetIoChannel { name: String },
    InvalidDescriptor { name: String },
    ReadFailed { offset: u64, len: u64 },
    WriteFailed { offset: u64, len: u64 },
}

/// The mathematical value of a [`CoreError`].
pub ghost enum CoreErrorModel {
    OpenBdev { errno: i32 },
    GetIoChannel { name: Seq<char> },
    InvalidDescriptor { name: Seq<char> },
    ReadFailed { offset: u64, len: u64 },
    WriteFailed { offset: u64, len: u64 },
}

impl View for CoreError {
    type V = CoreErrorModel;

    open spec fn view(&self) -> CoreErrorModel {
        match self {
            CoreError::OpenBdev { errno } => CoreErrorModel::OpenBdev { errno: *errno },
            CoreError::GetIoChannel { name } => CoreErrorModel::GetIoChannel { name: name@ },
            CoreError::InvalidDescriptor { name } => CoreErrorModel::InvalidDescriptor {
                name: name@,
            },
            CoreError::ReadFailed { offset, len } => CoreErrorModel::ReadFailed {
                offset: *offset,
                len: *len,
            },
            CoreError::WriteFailed { offset, len } => CoreErrorModel::WriteFailed {
                offset: *offset,
                len: *len,
            },
        }
    }
}

/// Why an operation on a child was refused or failed.
#[derive(Debug)]
#[allow(inconsistent_fields)]
pub enum ChildError {
    ChildNotOffline {  },
    ChildNotClosed {  },
    ChildFaulted {  },
    ChildTooSmall { child_size: u64, parent_size: u64 },
    OpenChild { source: CoreError },
    /// The claim was refused; `source` is the driver's error number.
    ClaimChild { source: i32 },
    ChildClosed {  },
    ChildInvalid {  },
    OpenWithoutBdev {  },
    HandleCreate { source: CoreError },
}

/// The mathematical value of a [`ChildError`].
#[allow(inconsistent_fields)]
pub ghost enum ChildErrorModel {
    ChildNotOffline,
    ChildNotClosed,
    ChildFaulted,
    ChildTooSmall { child_size: u64, parent_size: u64 },
    OpenChild { source: CoreErrorModel },
    ClaimChild { source: i32 },
    ChildClosed,
    ChildInvalid,
    OpenWithoutBdev,
    HandleCreate { source: CoreErrorModel },
}

impl View for ChildError {
    type V = ChildErrorModel;

    open spec fn view(&self) -> ChildErrorModel {
        match self {
            ChildError::ChildNotOffline {  } => ChildErrorModel::ChildNotOffline,
            ChildError::ChildNotClosed {  } => ChildErrorModel::ChildNotClosed,
            ChildError::ChildFaulted {  } => ChildErrorModel::ChildFaulted,
            ChildError::ChildTooSmall { child_size, parent_size } => ChildErrorModel::ChildTooSmall {
                child_size: *child_size,
                parent_size: *parent_size,
            },
            ChildError::OpenChild { source } => ChildErrorModel::OpenChild { source: source@ },
            ChildError::ClaimChild { source } => ChildErrorModel::ClaimChild { source: *source },
            ChildError::ChildClosed {  } => ChildErrorModel::ChildClosed,
            ChildError::ChildInvalid {  } => ChildErrorModel::ChildInvalid,
            ChildError::OpenWithoutBdev {  } => ChildErrorModel::OpenWithoutBdev,
            ChildError::HandleCreate { source } => ChildErrorModel::HandleCreate {
                source: source@,
            },
        }
    }
}

/// The message of an error of a child.
pub open spec fn child_error_text(e: ChildErrorModel) -> Seq<char> {
    match e {
        ChildErrorModel::ChildNotOffline => "Child is not offline"@,
        ChildErrorModel::ChildNotClosed => "Child is not closed"@,
        ChildErrorModel::ChildFaulted => "Child is faulted, it cannot be reopened"@,
        ChildErrorModel::ChildTooSmall { child_size, parent_size } =>
            "Child is smaller than parent "@ + decimal_text(child_size as nat) + " vs "@
                + decimal_text(parent_size as nat),
        ChildErrorModel::OpenChild { .. } => "Open child"@,
        ChildErrorModel::ClaimChild { .. } => "Claim child"@,
        ChildErrorModel::ChildClosed => "Child is closed"@,
        ChildErrorModel::ChildInvalid => "Invalid state of child"@,
        ChildErrorModel::OpenWithoutBdev => "Opening child bdev without bdev pointer"@,
        ChildErrorModel::HandleCreate { .. } => "Failed to create a BdevHandle for child"@,
    }
}

impl ChildError {
    /// The message of this error.
    pub fn to_string(&self) -> (s: String)
        ensures
            s@ == child_error_text(self@),
    {
        match self {
            ChildError::ChildNotOffline {  } => String::from_str("Child is not offline"),
            ChildError::ChildNotClosed {  } => String::from_str("Child is not closed"),
            ChildError::ChildFaulted {  } => String::from_str(
                "Child is faulted, it cannot be reopened",
            ),
            ChildError::ChildTooSmall { child_size, parent_size } => {
                let mut s = String::from_str("Child is smaller than parent ");
                let child = decimal(*child_size);
                s.append(child.as_str());
                s.append(" vs ");
                let parent = decimal(*parent_size);
                s.append(parent.as_str());
                s
            },
            ChildError::OpenChild { .. } => String::from_str("Open child"),
            ChildError::ClaimChild { .. } => String::from_str("Claim child"),
            ChildError::ChildClosed {  } => String::from_str("Child is closed"),
            ChildError::ChildInvalid {  } => String::from_str("Invalid state of child"),
            ChildError::OpenWithoutBdev {  } => String::from_str(
                "Opening child bdev without bdev pointer",
            ),
            ChildError::HandleCreate { .. } => String::from_str(
                "Failed to create a BdevHandle for child",
            ),
        }
    }
}

/// Why reading from a child or writing to it failed.
#[derive(Debug)]
pub enum ChildIoError {
    WriteError { source: CoreError, name: String },
    ReadError { source: CoreError, name: String },
    InvalidDescriptor { name: String },
}

/// The mathematical value of a [`ChildIoError`].
pub ghost enum ChildIoErrorModel {
    WriteError { source: CoreErrorModel, name: Seq<char> },
    ReadError { source: CoreErrorModel, name: Seq<char> },
    InvalidDescriptor { name: Seq<char> },
}

impl View for ChildIoError {
    type V = ChildIoErrorModel;

    open spec fn view(&self) -> ChildIoErrorModel {
        match self {
            ChildIoError::WriteError { source, name } => ChildIoErrorModel::WriteError {
                source: source@,
                name: name@,
            },
            ChildIoError::ReadError { source, name } => ChildIoErrorModel::ReadError {
                source: source@,
                name: name@,
            },
            ChildIoError::InvalidDescriptor { name } => ChildIoErrorModel::InvalidDescriptor {
                name: name@,
            },
        }
    }
}

} // verus!
