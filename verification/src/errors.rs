//! Why an operation of the service was refused.

use crate::entities::SystemType;
use crate::keyed::{text_views, Text};
use crate::text::{decimal, decimal_text, system_label, system_name};
use vstd::prelude::*;
use vstd::string::StringExecFns;

verus! {

/// What was looked for and not found.
#[derive(Debug, Clone, Copy, PartialEq, Eq, Structural)]
pub enum Entity {
    Scanner,
    Job,
}

/// Why the state of the service stood against an operation.
#[derive(Debug)]
pub enum Conflict {
    /// A job was asked for a scanner that is busy, offline or in error.
    ScannerNotAvailable,
    /// A scanner of one system was offered to a service that runs on another.
    SystemMismatch { scanner: SystemType, current: SystemType },
    /// A scanner was to be removed while these jobs of it were active.
    ActiveJobs { job_ids: Vec<String> },
    /// A job that is completed, failed or cancelled was to be cancelled.
    NotCancellable,
}

pub enum ConflictView {
    ScannerNotAvailable,
    SystemMismatch { scanner: SystemType, current: SystemType },
    ActiveJobs { job_ids: Seq<Text> },
    NotCancellable,
}

impl View for Conflict {
    type V = ConflictView;

    open spec fn view(&self) -> ConflictView {
        match self {
            Conflict::ScannerNotAvailable => ConflictView::ScannerNotAvailable,
            Conflict::SystemMismatch { scanner, current } => ConflictView::SystemMismatch {
                scanner: *scanner,
                current: *current,
            },
            Conflict::ActiveJobs { job_ids } => ConflictView::ActiveJobs {
                job_ids: text_views(job_ids@),
            },
            Conflict::NotCancellable => ConflictView::NotCancellable,
        }
    }
}

#[derive(Debug)]
pub enum ServiceError {
    NotFound { entity: Entity, id: String },
    Conflict(Conflict),
}

impl ServiceError {
    pub open spec fn is_not_found(self, entity: Entity, id: Text) -> bool {
        self matches ServiceError::NotFound { entity: e, id: i } && e == entity && i@ == id
    }

    pub open spec fn is_conflict(self, reason: ConflictView) -> bool {
        self matches ServiceError::Conflict(r) && r@ == reason
    }

    /// The sentence that tells a person what went wrong.
    pub open spec fn message_text(self) -> Text {
        match self {
            ServiceError::NotFound { entity: Entity::Scanner, id } => "Scanner with ID "@ + id@
                + " not found"@,
            ServiceError::NotFound { entity: Entity::Job, id } => "Job with ID "@ + id@
                + " not found"@,
            ServiceError::Conflict(Conflict::ScannerNotAvailable) => "Scanner is not available"@,
            ServiceError::Conflict(Conflict::SystemMismatch { scanner, current }) =>
                "Scanner system type "@ + system_name(scanner)
                    + " does not match current system "@ + system_name(current),
            ServiceError::Conflict(Conflict::ActiveJobs { job_ids }) =>
                "Cannot remove scanner with "@ + decimal_text(job_ids@.len())
                    + " active jobs. Cancel jobs first."@,
            ServiceError::Conflict(Conflict::NotCancellable) =>
                "Job cannot be cancelled in its current state"@,
        }
    }

    /// The error as a sentence, for a caller that passes errors on as text.
    pub fn message(&self) -> (text: String)
        ensures
            text@ == self.message_text(),
    {
        match self {
            ServiceError::NotFound { entity, id } => {
                let mut text = match entity {
                    Entity::Scanner => "Scanner with ID ".to_owned(),
                    Entity::Job => "Job with ID ".to_owned(),
                };
                text.append(id.as_str());
                text.append(" not found");
                text
            },
            ServiceError::Conflict(reason) => match reason {
                Conflict::ScannerNotAvailable => "Scanner is not available".to_owned(),
                Conflict::SystemMismatch { scanner, current } => {
                    let mut text = "Scanner system type ".to_owned();
                    text.append(system_label(*scanner));
                    text.append(" does not match current system ");
                    text.append(system_label(*current));
                    text
                },
                Conflict::ActiveJobs { job_ids } => {
                    let mut text = "Cannot remove scanner with ".to_owned();
                    let number = decimal(job_ids.len() as u64);
                    text.append(number.as_str());
                    text.append(" active jobs. Cancel jobs first.");
                    text
                },
                Conflict::NotCancellable => "Job cannot be cancelled in its current state".to_owned(),
            },
        }
    }
}

} // verus!
