//! Everything that can go wrong while handling a request.
use vstd::prelude::*;
use crate::ids::{Uuid, uuid_text_of};

verus! {

/// The closed set of request errors. Failures of the library engine, of I/O,
/// of serialization and of inter-task channels carry the text that the failing
/// component gave.
pub enum Error {
    NotExisted { got: String, field: String, expect: String },
    LibraryNotOpened(Uuid),
    NoParam(String),
    ParamInvalid { got: String, field: String, expect: String },
    AlreadyExisted { got: String, field: String },
    LibraryError(String),
    IOError(String),
    SerializeError(String),
    MultithreadError(String),
}

pub type Result<T> = core::result::Result<T, Error>;

/// The description of a path that is not on disk, or not of the kind expected.
pub open spec fn not_existed_text(got: Seq<char>, field: Seq<char>, expect: Seq<char>) -> Seq<
    char,
> {
    "Field "@ + field + ": `"@ + got + "` is not existed on the disk of server. Or it is not a "@
        + expect + "."@
}

impl Error {
    /// The human-readable description of the error.
    pub open spec fn describe_spec(&self) -> Seq<char> {
        match self {
            Error::NotExisted { got, field, expect } => not_existed_text(got@, field@, expect@),
            Error::AlreadyExisted { got, field } => "Field "@ + field@ + ": `"@ + got@
                + "` is already existed on the disk of server."@,
            Error::LibraryNotOpened(lib) => "Library `"@ + uuid_text_of(lib.value)
                + "` is not opened."@,
            Error::NoParam(what) => "Params "@ + what@ + " not provided."@,
            Error::ParamInvalid { got, field, expect } => "Param `"@ + field@
                + "` with value `"@ + got@ + "` cannot be parsed to `"@ + expect@ + "`."@,
            Error::LibraryError(e) => "Library Error: "@ + e@,
            Error::IOError(e) => "IO Error: "@ + e@,
            Error::SerializeError(e) => "Serialize Error: "@ + e@,
            Error::MultithreadError(e) => "Multithrad Error: "@ + e@,
        }
    }

    /// Renders the error as text.
    pub fn describe(&self) -> (r: String)
        ensures
            r@ == self.describe_spec(),
    {
        match self {
            Error::NotExisted { got, field, expect } => {
                let mut s = String::from_str("Field ");
                s.append(field.as_str());
                s.append(": `");
                s.append(got.as_str());
                s.append("` is not existed on the disk of server. Or it is not a ");
                s.append(expect.as_str());
                s.append(".");
                s
            },
            Error::AlreadyExisted { got, field } => {
                let mut s = String::from_str("Field ");
                s.append(field.as_str());
                s.append(": `");
                s.append(got.as_str());
                s.append("` is already existed on the disk of server.");
                s
            },
            Error::LibraryNotOpened(lib) => {
                let mut s = String::from_str("Library `");
                let t = lib.to_text();
                s.append(t.as_str());
                s.append("` is not opened.");
                s
            },
            Error::NoParam(what) => {
                let mut s = String::from_str("Params ");
                s.append(what.as_str());
                s.append(" not provided.");
                s
            },
            Error::ParamInvalid { got, field, expect } => {
                let mut s = String::from_str("Param `");
                s.append(field.as_str());
                s.append("` with value `");
                s.append(got.as_str());
                s.append("` cannot be parsed to `");
                s.append(expect.as_str());
                s.append("`.");
                s
            },
            Error::LibraryError(e) => {
                let mut s = String::from_str("Library Error: ");
                s.append(e.as_str());
                s
            },
            Error::IOError(e) => {
                let mut s = String::from_str("IO Error: ");
                s.append(e.as_str());
                s
            },
            Error::SerializeError(e) => {
                let mut s = String::from_str("Serialize Error: ");
                s.append(e.as_str());
                s
            },
            Error::MultithreadError(e) => {
                let mut s = String::from_str("Multithrad Error: ");
                s.append(e.as_str());
                s
            },
        }
    }
}

} // verus!
