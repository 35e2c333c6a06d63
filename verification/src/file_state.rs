//! The stages that one file goes through, from discovered to written or
//! failed. Opening, mapping and writing are the caller's part; it reports
//! each step as an event.

use crate::error::ExtractionError;
use crate::tiff::EmbeddedJpegInfo;
use vstd::prelude::*;

verus! {

/// The stage that one file has reached. `Written` and `Failed` are final.
#[derive(Clone, Copy, Debug, PartialEq, Eq, Structural)]
pub enum FileState {
    Discovered,
    Opened,
    Mapped,
    Located(EmbeddedJpegInfo),
    Written,
    Failed(ExtractionError),
}

/// What happened to a file since its last stage.
#[derive(Clone, Copy, Debug, PartialEq, Eq, Structural)]
pub enum FileEvent {
    Opened,
    Mapped,
    Located(EmbeddedJpegInfo),
    Written,
    Failed(ExtractionError),
}

impl FileState {
    /// How far along a state is: each stage one further, the final states
    /// furthest.
    pub open spec fn rank(self) -> nat {
        match self {
            FileState::Discovered => 0,
            FileState::Opened => 1,
            FileState::Mapped => 2,
            FileState::Located(_) => 3,
            FileState::Written => 4,
            FileState::Failed(_) => 4,
        }
    }

    /// Whether the file is done, for better or worse.
    pub open spec fn is_final(self) -> bool {
        self is Written || self is Failed
    }

    /// The state after `event`. A stage is entered only from the stage
    /// before it, a failure ends any state that is not final, and an event
    /// that is out of turn changes nothing.
    pub open spec fn after(self, event: FileEvent) -> FileState {
        match (self, event) {
            (FileState::Written, _) => self,
            (FileState::Failed(_), _) => self,
            (_, FileEvent::Failed(e)) => FileState::Failed(e),
            (FileState::Discovered, FileEvent::Opened) => FileState::Opened,
            (FileState::Opened, FileEvent::Mapped) => FileState::Mapped,
            (FileState::Mapped, FileEvent::Located(jpeg)) => FileState::Located(jpeg),
            (FileState::Located(_), FileEvent::Written) => FileState::Written,
            _ => self,
        }
    }

    /// The result to report for a file in this state, once it is final.
    pub open spec fn outcome(self) -> Option<Result<(), ExtractionError>> {
        match self {
            FileState::Written => Some(Ok(())),
            FileState::Failed(e) => Some(Err(e)),
            _ => None,
        }
    }

    /// Moves a file on by one event.
    pub fn advance(self, event: FileEvent) -> (r: FileState)
        ensures
            r == self.after(event),
    {
        match self {
            FileState::Written => self,
            FileState::Failed(_) => self,
            _ => match event {
                FileEvent::Failed(e) => FileState::Failed(e),
                FileEvent::Opened => match self {
                    FileState::Discovered => FileState::Opened,
                    _ => self,
                },
                FileEvent::Mapped => match self {
                    FileState::Opened => FileState::Mapped,
                    _ => self,
                },
                FileEvent::Located(jpeg) => match self {
                    FileState::Mapped => FileState::Located(jpeg),
                    _ => self,
                },
                FileEvent::Written => match self {
                    FileState::Located(_) => FileState::Written,
                    _ => self,
                },
            },
        }
    }

    /// The result to report for the file, once it is final.
    pub fn result(&self) -> (r: Option<Result<(), ExtractionError>>)
        ensures
            r == self.outcome(),
    {
        match self {
            FileState::Written => Some(Ok(())),
            FileState::Failed(e) => Some(Err(*e)),
            _ => None,
        }
    }
}

/// A file never goes back: an event leaves its state alone or moves it
/// strictly further, and a final state stays as it is.
pub proof fn law_file_state_only_advances(state: FileState, event: FileEvent)
    ensures
        state.after(event) == state || state.rank() < state.after(event).rank(),
        state.is_final() ==> state.after(event) == state,
        !state.is_final() && event is Failed ==> state.after(event).is_final(),
{
}

} // verus!
