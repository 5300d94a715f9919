use vstd::prelude::*;

use crate::event::EventTag;
use crate::task_id::TaskId;

verus! {

/// Why a field reference in a SELECT list could not be resolved.
#[derive(Debug, PartialEq, Eq)]
pub enum SqlError {
    /// The prefix of `prefix.attr` names none of the FROM items.
    UnknownCorrelation { prefix: String, attr: String },
    /// An unprefixed column with more than one FROM item: deciding which
    /// stream it comes from needs pipeline information.
    AmbiguousColumn { attr: String },
}

/// Why an option value was refused.
#[derive(Debug, Clone, Copy, PartialEq, Eq)]
pub enum OptionError {
    /// The key is not among the options.
    NotFound,
    /// The protocol is not one that the engine speaks.
    UnsupportedProtocol,
    /// The value is not an IP address.
    InvalidRemoteHost,
    /// The value is not a port number.
    InvalidPort,
}

/// Errors of the engine.
#[derive(Debug, PartialEq, Eq)]
pub enum SpringError {
    /// The SQL is not acceptable.
    Sql(SqlError),
    /// An option of a source reader or sink writer is missing or invalid;
    /// `value` is the refused value (empty when the key is missing).
    InvalidOption { key: String, value: String, cause: OptionError },
    /// No input row was available to the task.
    InputTimeout { task: TaskId },
    /// A subscriber of events with this tag stopped receiving them.
    EventNotDelivered { tag: EventTag },
}

} // verus!
