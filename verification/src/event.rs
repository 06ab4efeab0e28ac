//! What is announced of a transfer to whoever watches it.
use vstd::prelude::*;

use crate::task::Progress;

verus! {

/// An announcement.
#[derive(Debug)]
pub enum TransferEvent {
    /// The file is in place, at `file_path` where this side received it.
    Completed { id: String, file_path: Option<String> },
    Failed { id: String, error_message: String },
    Cancelled { id: String },
    Progress { id: String, transferred_bytes: u64, progress: Progress },
}

/// What a [`TransferEvent`] says.
pub enum EventView {
    Completed { id: Seq<char>, file_path: Option<Seq<char>> },
    Failed { id: Seq<char>, error_message: Seq<char> },
    Cancelled { id: Seq<char> },
    Progress { id: Seq<char>, transferred_bytes: u64, progress: Progress },
}

impl View for TransferEvent {
    type V = EventView;

    open spec fn view(&self) -> EventView {
        match self {
            TransferEvent::Completed { id, file_path } => EventView::Completed {
                id: id@,
                file_path: crate::task::opt_view(*file_path),
            },
            TransferEvent::Failed { id, error_message } => EventView::Failed {
                id: id@,
                error_message: error_message@,
            },
            TransferEvent::Cancelled { id } => EventView::Cancelled { id: id@ },
            TransferEvent::Progress { id, transferred_bytes, progress } => EventView::Progress {
                id: id@,
                transferred_bytes: *transferred_bytes,
                progress: *progress,
            },
        }
    }
}

/// What an optional announcement says.
pub open spec fn opt_event(e: Option<TransferEvent>) -> Option<EventView> {
    match e {
        Some(e) => Some(e@),
        None => None,
    }
}

} // verus!
