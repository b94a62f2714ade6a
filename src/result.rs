//! The error model: native status codes mapped to a closed set of kinds.
use vstd::prelude::*;

verus! {

/// Status code the native interface returns on success.
pub const SIGAR_OK: i32 = 0;

/// Status code the native interface returns for a query the current
/// operating system does not provide.
pub const SIGAR_ENOTIMPL: i32 = 20001;

/// Reason given when the native text for a status code cannot be had.
pub const UNDESCRIBED: &'static str = "failed to describe error";

/// Errors of the telemetry queries.
#[derive(Debug)]
pub enum Error {
    /// The query is not implemented on the current operating system.
    NotImplementd,
    /// No such file or directory.
    ENOENT,
    /// Permission denied.
    EACCES,
    /// No such device or address.
    ENXIO,
    /// An argument could not be handed to the native side (an embedded
    /// zero byte in a name, for instance).
    CString(String),
    /// Any other failure, with the native description of it.
    Others(String),
}

/// Result of a telemetry query.
pub type SigarResult<T = ()> = Result<T, Error>;

/// The table that maps operating-system status codes to error kinds; the
/// codes differ between the two families of systems.
#[derive(Clone, Copy, Debug, PartialEq, Eq, Structural)]
pub enum Platform {
    Posix,
    Windows,
}

/// `e` is an `Others` error whose reason reads `text`.
pub open spec fn is_other(e: Error, text: Seq<char>) -> bool {
    e matches Error::Others(s) && s@ == text
}

/// `e` is a `CString` error whose reason reads `text`.
pub open spec fn is_malformed(e: Error, text: Seq<char>) -> bool {
    e matches Error::CString(s) && s@ == text
}

/// The error kind that the code table of `p` gives to `code`, if any.
pub open spec fn known_code(p: Platform, code: i32) -> Option<Error> {
    if code == SIGAR_ENOTIMPL {
        Some(Error::NotImplementd)
    } else {
        match p {
            Platform::Posix => {
                if code == 2 {
                    Some(Error::ENOENT)
                } else if code == 13 {
                    Some(Error::EACCES)
                } else if code == 6 {
                    Some(Error::ENXIO)
                } else {
                    None
                }
            },
            Platform::Windows => {
                if code == 0x2 {
                    Some(Error::ENOENT)
                } else if code == 0x5 {
                    Some(Error::EACCES)
                } else if code == 0x77 {
                    Some(Error::ENXIO)
                } else {
                    None
                }
            },
        }
    }
}

/// The error that a failed native call with status `code` stands for:
/// the table entry if there is one, else an `Others` error carrying the
/// native description `text`, or a fixed reason where there is none.
pub open spec fn mapped_error(p: Platform, code: i32, text: Option<Seq<char>>, e: Error) -> bool {
    match known_code(p, code) {
        Some(k) => e == k,
        None => match text {
            Some(t) => is_other(e, t),
            None => is_other(e, UNDESCRIBED@),
        },
    }
}

/// Looks `code` up in the code table of `p`.
pub fn match_code(p: Platform, code: i32) -> (r: Option<Error>)
    ensures
        r == known_code(p, code),
{
    if code == SIGAR_ENOTIMPL {
        return Some(Error::NotImplementd);
    }
    match p {
        Platform::Posix => {
            if code == 2 {
                Some(Error::ENOENT)
            } else if code == 13 {
                Some(Error::EACCES)
            } else if code == 6 {
                Some(Error::ENXIO)
            } else {
                None
            }
        },
        Platform::Windows => {
            if code == 0x2 {
                Some(Error::ENOENT)
            } else if code == 0x5 {
                Some(Error::EACCES)
            } else if code == 0x77 {
                Some(Error::ENXIO)
            } else {
                None
            }
        },
    }
}

impl Error {
    /// The text that `description` returns for this error.
    pub open spec fn spec_description(&self) -> Seq<char> {
        match self {
            Error::NotImplementd => "not implemented on current os"@,
            Error::ENOENT => "no such file or directory"@,
            Error::EACCES => "permission denied"@,
            Error::ENXIO => "no such device or address"@,
            Error::CString(reason) => reason@,
            Error::Others(reason) => reason@,
        }
    }

    /// Maps the status `code` of a failed native call to an error; `text` is
    /// the native description of the code, where one could be had.
    pub fn new(p: Platform, code: i32, text: Option<String>) -> (r: Error)
        ensures
            mapped_error(p, code, match text {
                Some(t) => Some(t@),
                None => None,
            }, r),
    {
        match match_code(p, code) {
            Some(e) => e,
            None => match text {
                Some(t) => Error::Others(t),
                None => Error::from_str(UNDESCRIBED),
            },
        }
    }

    /// An `Others` error with the given reason.
    pub fn from_str(s: &str) -> (r: Error)
        ensures
            is_other(r, s@),
    {
        Error::Others(s.to_owned())
    }

    /// An `Others` error with the given reason.
    pub fn from_string(s: String) -> (r: Error)
        ensures
            is_other(r, s@),
    {
        Error::Others(s)
    }

    /// A description of the error.
    pub fn description(&self) -> (r: &str)
        ensures
            r@ == self.spec_description(),
    {
        match self {
            Error::NotImplementd => "not implemented on current os",
            Error::ENOENT => "no such file or directory",
            Error::EACCES => "permission denied",
            Error::ENXIO => "no such device or address",
            Error::CString(reason) => reason.as_str(),
            Error::Others(reason) => reason.as_str(),
        }
    }

    /// Returns the error reason.
    pub fn reason(&self) -> (r: String)
        ensures
            r@ == self.spec_description(),
    {
        self.description().to_owned()
    }
}

impl PartialEq for Error {
    fn eq(&self, o: &Error) -> (r: bool) {
        match (self, o) {
            (Error::NotImplementd, Error::NotImplementd) => true,
            (Error::ENOENT, Error::ENOENT) => true,
            (Error::EACCES, Error::EACCES) => true,
            (Error::ENXIO, Error::ENXIO) => true,
            (Error::CString(a), Error::CString(b)) => a.eq(b),
            (Error::Others(a), Error::Others(b)) => a.eq(b),
            _ => false,
        }
    }
}

impl vstd::std_specs::cmp::PartialEqSpecImpl for Error {
    open spec fn obeys_eq_spec() -> bool {
        true
    }

    open spec fn eq_spec(&self, o: &Error) -> bool {
        match (self, o) {
            (Error::NotImplementd, Error::NotImplementd) => true,
            (Error::ENOENT, Error::ENOENT) => true,
            (Error::EACCES, Error::EACCES) => true,
            (Error::ENXIO, Error::ENXIO) => true,
            (Error::CString(a), Error::CString(b)) => a@ == b@,
            (Error::Others(a), Error::Others(b)) => a@ == b@,
            _ => false,
        }
    }
}

} // verus!
