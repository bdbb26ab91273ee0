//! A typed, ownership-checked layer in front of an embedded graph database
//! engine.
//!
//! The engine owns the data. This crate owns the names of the engine's
//! objects: a catalog opens graphs, a graph begins transactions, a
//! transaction makes cursors, and each of these borrows the one that it came
//! from, so that none outlives it. Giving a value up consumes it and has the
//! engine close and destroy the object behind it, once.
//!
//! The engine itself is reached through the [`engine::Engine`] interface.
//! Every operation of this crate says, over the engine's exchange trace,
//! which requests it sent and how the answers became its result. What the
//! engine says of a failure becomes an [`Error`], which is classified by its
//! message.
//!
//! Three engines are here. [`carrier::Traced`] stands before an engine that
//! keeps no trace itself. [`script::Script`] answers from a list.
//! [`memory::Memory`] holds vertex labels and vertices, and moves cursors
//! over them as [`model`] says a cursor moves.

use vstd::prelude::*;

pub mod carrier;
pub mod cursor;
pub mod db;
pub mod decode;
pub mod engine;
pub mod field;
pub mod index;
pub mod keyed;
pub mod marshal;
pub mod memory;
pub mod model;
pub mod raw;
pub mod role_info;
pub mod script;
pub mod text;
pub mod txn;
pub mod types;
pub mod user_info;

use text::same_text;

verus! {

/// The classification of an engine failure, derived from its message text.
///
/// Messages that the table of [`kind_of`] does not list classify as
/// [`ErrorKind::Other`].
#[derive(Clone, Copy, Debug, PartialEq, Eq, Structural, Hash, PartialOrd, Ord)]
#[non_exhaustive]
pub enum ErrorKind {
    InvalidParameter,
    OutOfRange,
    InvalidGalaxy,
    InvalidGraphDB,
    InvalidTxn,
    InvalidIterator,
    InvalidFork,
    TxnConflict,
    WriteNotAllowed,
    DBNotExist,
    IOError,
    Unauthorized,
    Other,
}

/// The kind that a message text stands for: an exact match against the
/// engine's fixed exception texts.
pub open spec fn kind_of(message: Seq<char>) -> ErrorKind {
    if message == "Invalid parameter."@ {
        ErrorKind::InvalidParameter
    } else if message == "Invalid Galaxy."@ {
        ErrorKind::InvalidGalaxy
    } else if message == "Invalid GraphDB."@ {
        ErrorKind::InvalidGraphDB
    } else if message == "Invalid transaction."@ {
        ErrorKind::InvalidTxn
    } else if message == "Invalid iterator."@ {
        ErrorKind::InvalidIterator
    } else if message == "Write transactions cannot be forked."@ {
        ErrorKind::InvalidFork
    } else if message == "Transaction conflicts with an earlier one."@ {
        ErrorKind::TxnConflict
    } else if message == "Access denied."@ {
        ErrorKind::WriteNotAllowed
    } else if message == "The specified TuGraph DB does not exist."@ {
        ErrorKind::DBNotExist
    } else if message == "IO Error."@ {
        ErrorKind::IOError
    } else if message == "Unauthorized."@ {
        ErrorKind::Unauthorized
    } else {
        ErrorKind::Other
    }
}

/// Each of the engine's fixed texts stands for its own kind: no text of the
/// table is taken for another.
pub proof fn law_kinds()
    ensures
        kind_of("Invalid parameter."@) == ErrorKind::InvalidParameter,
        kind_of("Invalid Galaxy."@) == ErrorKind::InvalidGalaxy,
        kind_of("Invalid GraphDB."@) == ErrorKind::InvalidGraphDB,
        kind_of("Invalid transaction."@) == ErrorKind::InvalidTxn,
        kind_of("Invalid iterator."@) == ErrorKind::InvalidIterator,
        kind_of("Write transactions cannot be forked."@) == ErrorKind::InvalidFork,
        kind_of("Transaction conflicts with an earlier one."@) == ErrorKind::TxnConflict,
        kind_of("Access denied."@) == ErrorKind::WriteNotAllowed,
        kind_of("The specified TuGraph DB does not exist."@) == ErrorKind::DBNotExist,
        kind_of("IO Error."@) == ErrorKind::IOError,
        kind_of("Unauthorized."@) == ErrorKind::Unauthorized,
        kind_of(Seq::<char>::empty()) == ErrorKind::Other,
{
    reveal_strlit("Invalid parameter.");
    reveal_strlit("Invalid Galaxy.");
    reveal_strlit("Invalid GraphDB.");
    reveal_strlit("Invalid transaction.");
    reveal_strlit("Invalid iterator.");
    reveal_strlit("Write transactions cannot be forked.");
    reveal_strlit("Transaction conflicts with an earlier one.");
    reveal_strlit("Access denied.");
    reveal_strlit("The specified TuGraph DB does not exist.");
    reveal_strlit("IO Error.");
    reveal_strlit("Unauthorized.");
    assert("Invalid parameter."@.len() == 18);
    assert("Invalid Galaxy."@.len() == 15);
    assert("Invalid GraphDB."@.len() == 16);
    assert("Invalid transaction."@.len() == 20);
    assert("Invalid iterator."@.len() == 17);
    assert("Write transactions cannot be forked."@.len() == 36);
    assert("Transaction conflicts with an earlier one."@.len() == 42);
    assert("Access denied."@.len() == 14);
    assert("The specified TuGraph DB does not exist."@.len() == 40);
    assert("IO Error."@.len() == 9);
    assert("Unauthorized."@.len() == 13);
}

/// A failure reported by the engine: the message it gave, unchanged.
#[derive(Debug, Clone, PartialEq, Eq)]
pub struct Error {
    message: String,
}

impl View for Error {
    type V = Seq<char>;

    closed spec fn view(&self) -> Seq<char> {
        self.message@
    }
}

impl Error {
    /// An error that carries `message`.
    pub fn new(message: String) -> (e: Error)
        ensures
            e@ == message@,
    {
        Error { message }
    }

    /// The message, as an owned string.
    pub fn into_string(self) -> (s: String)
        ensures
            s@ == self@,
    {
        self.message
    }

    /// The message.
    pub fn msg(&self) -> (s: &str)
        ensures
            s@ == self@,
    {
        self.message.as_str()
    }

    /// The kind that the message stands for.
    pub fn kind(&self) -> (k: ErrorKind)
        ensures
            k == kind_of(self@),
    {
        let m = self.message.as_str();
        if same_text(m, "Invalid parameter.") {
            ErrorKind::InvalidParameter
        } else if same_text(m, "Invalid Galaxy.") {
            ErrorKind::InvalidGalaxy
        } else if same_text(m, "Invalid GraphDB.") {
            ErrorKind::InvalidGraphDB
        } else if same_text(m, "Invalid transaction.") {
            ErrorKind::InvalidTxn
        } else if same_text(m, "Invalid iterator.") {
            ErrorKind::InvalidIterator
        } else if same_text(m, "Write transactions cannot be forked.") {
            ErrorKind::InvalidFork
        } else if same_text(m, "Transaction conflicts with an earlier one.") {
            ErrorKind::TxnConflict
        } else if same_text(m, "Access denied.") {
            ErrorKind::WriteNotAllowed
        } else if same_text(m, "The specified TuGraph DB does not exist.") {
            ErrorKind::DBNotExist
        } else if same_text(m, "IO Error.") {
            ErrorKind::IOError
        } else if same_text(m, "Unauthorized.") {
            ErrorKind::Unauthorized
        } else {
            ErrorKind::Other
        }
    }
}

impl AsRef<str> for Error {
    /// The message.
    fn as_ref(&self) -> (s: &str)
        ensures
            s@ == self@,
    {
        self.message.as_str()
    }
}

pub type Result<T> = core::result::Result<T, Error>;

} // verus!
