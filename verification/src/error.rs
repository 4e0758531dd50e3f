//! Errors of the audio hardware API: the raw status codes the native calls
//! return and their decoded kinds.

use vstd::prelude::*;

verus! {

/// The kind of a hardware error, one per documented status code plus a
/// catch-all for everything undocumented.
#[derive(Clone, Copy, Debug, Eq, Hash, Ord, PartialEq, PartialOrd, Structural)]
pub enum ErrorKind {
    NotRunning,
    Unspecified,
    UnknownProperty,
    BadPropertySize,
    IllegalOperation,
    BadObject,
    BadDevice,
    BadStream,
    UnsupportedOperation,
    UnsupportedFormat,
    Permissions,
    Other,
}

/// The status code each kind stands for.  `Other` stands for every code
/// outside this table and has no code of its own.
pub open spec fn status_of_kind(kind: ErrorKind) -> int {
    match kind {
        ErrorKind::NotRunning => 1937010544,
        ErrorKind::Unspecified => 2003329396,
        ErrorKind::UnknownProperty => 2003332927,
        ErrorKind::BadPropertySize => 561211770,
        ErrorKind::IllegalOperation => 1852797029,
        ErrorKind::BadObject => 560947818,
        ErrorKind::BadDevice => 560227702,
        ErrorKind::BadStream => 561214578,
        ErrorKind::UnsupportedOperation => 1970171760,
        ErrorKind::UnsupportedFormat => 560226676,
        ErrorKind::Permissions => 560492391,
        ErrorKind::Other => 0,
    }
}

/// The kind a status code decodes to: the matching table entry, or
/// `Other` for any code outside the table.
pub open spec fn kind_of_status(status: int) -> ErrorKind {
    if status == 1937010544 {
        ErrorKind::NotRunning
    } else if status == 2003329396 {
        ErrorKind::Unspecified
    } else if status == 2003332927 {
        ErrorKind::UnknownProperty
    } else if status == 561211770 {
        ErrorKind::BadPropertySize
    } else if status == 1852797029 {
        ErrorKind::IllegalOperation
    } else if status == 560947818 {
        ErrorKind::BadObject
    } else if status == 560227702 {
        ErrorKind::BadDevice
    } else if status == 561214578 {
        ErrorKind::BadStream
    } else if status == 1970171760 {
        ErrorKind::UnsupportedOperation
    } else if status == 560226676 {
        ErrorKind::UnsupportedFormat
    } else if status == 560492391 {
        ErrorKind::Permissions
    } else {
        ErrorKind::Other
    }
}

impl ErrorKind {
    /// The description of this kind of error.
    pub open spec fn message(self) -> Seq<char> {
        match self {
            ErrorKind::NotRunning => "The function call requires that the hardware be running but it isn't."@,
            ErrorKind::Unspecified => "The function call failed while doing something that doesn't provide any error messages."@,
            ErrorKind::UnknownProperty => "The AudioObject doesn't know about the property at the given address."@,
            ErrorKind::BadPropertySize => "An improperly sized buffer was provided when accessing the data of a property."@,
            ErrorKind::IllegalOperation => "The requested operation couldn't be completed."@,
            ErrorKind::BadObject => "The AudioObjectID passed to the function doesn't map to a valid AudioObject."@,
            ErrorKind::BadDevice => "The AudioObjectID passed to the function doesn't map to a valid AudioDevice."@,
            ErrorKind::BadStream => "The AudioObjectID passed to the function doesn't map to a valid AudioStream."@,
            ErrorKind::UnsupportedOperation => "The AudioObject doesn't support the requested operation."@,
            ErrorKind::UnsupportedFormat => "The AudioStream doesn't support the requested format."@,
            ErrorKind::Permissions => "The requested operation can't be completed because the process doesn't have permission."@,
            ErrorKind::Other => "Unspecified error."@,
        }
    }

    /// The description of this kind of error.
    pub fn as_str(&self) -> (r: &'static str)
        ensures
            r@ == self.message(),
    {
        match *self {
            ErrorKind::NotRunning => "The function call requires that the hardware be running but it isn't.",
            ErrorKind::Unspecified => "The function call failed while doing something that doesn't provide any error messages.",
            ErrorKind::UnknownProperty => "The AudioObject doesn't know about the property at the given address.",
            ErrorKind::BadPropertySize => "An improperly sized buffer was provided when accessing the data of a property.",
            ErrorKind::IllegalOperation => "The requested operation couldn't be completed.",
            ErrorKind::BadObject => "The AudioObjectID passed to the function doesn't map to a valid AudioObject.",
            ErrorKind::BadDevice => "The AudioObjectID passed to the function doesn't map to a valid AudioDevice.",
            ErrorKind::BadStream => "The AudioObjectID passed to the function doesn't map to a valid AudioStream.",
            ErrorKind::UnsupportedOperation => "The AudioObject doesn't support the requested operation.",
            ErrorKind::UnsupportedFormat => "The AudioStream doesn't support the requested format.",
            ErrorKind::Permissions => "The requested operation can't be completed because the process doesn't have permission.",
            ErrorKind::Other => "Unspecified error.",
        }
    }

    /// The status code this kind stands for.  `Other` collects every code
    /// outside the table, so it has no code to give back.
    pub fn as_osstatus(&self) -> (r: i32)
        requires
            !(*self is Other),
        ensures
            r == status_of_kind(*self),
    {
        match *self {
            ErrorKind::NotRunning => 1937010544,
            ErrorKind::Unspecified => 2003329396,
            ErrorKind::UnknownProperty => 2003332927,
            ErrorKind::BadPropertySize => 561211770,
            ErrorKind::IllegalOperation => 1852797029,
            ErrorKind::BadObject => 560947818,
            ErrorKind::BadDevice => 560227702,
            ErrorKind::BadStream => 561214578,
            ErrorKind::UnsupportedOperation => 1970171760,
            ErrorKind::UnsupportedFormat => 560226676,
            ErrorKind::Permissions => 560492391,
            ErrorKind::Other => 0,
        }
    }
}

/// Encoding a kind as its status code and decoding it again gives the
/// kind back, for every kind that has a code of its own.
pub proof fn lemma_kind_status_round_trip(kind: ErrorKind)
    requires
        !(kind is Other),
    ensures
        kind_of_status(status_of_kind(kind)) == kind,
{
}

/// A raw status code returned by a native call.
pub struct Error(i32);

impl Error {
    /// The stored status code.
    pub closed spec fn status(self) -> int {
        self.0 as int
    }

    /// Wraps a raw status code.
    pub fn from_osstatus(err: i32) -> (r: Error)
        ensures
            r.status() == err,
    {
        Error(err)
    }

    /// The error standing for a known kind.
    pub fn from_kind(kind: ErrorKind) -> (r: Error)
        requires
            !(kind is Other),
        ensures
            r.status() == status_of_kind(kind),
            r.kind_spec() == kind,
    {
        proof {
            lemma_kind_status_round_trip(kind);
        }
        Error(kind.as_osstatus())
    }

    /// The stored status code.
    pub fn raw_osstatus(&self) -> (r: i32)
        ensures
            r == self.status(),
    {
        self.0
    }

    /// The kind this error's status code decodes to.
    pub open spec fn kind_spec(self) -> ErrorKind {
        kind_of_status(self.status())
    }

    /// The kind this error's status code decodes to.
    pub fn kind(&self) -> (r: ErrorKind)
        ensures
            r == self.kind_spec(),
    {
        decode_error_kind(self.0)
    }
}

/// Decodes a status code to its kind.
fn decode_error_kind(err: i32) -> (r: ErrorKind)
    ensures
        r == kind_of_status(err as int),
{
    match err {
        1937010544 => ErrorKind::NotRunning,
        2003329396 => ErrorKind::Unspecified,
        2003332927 => ErrorKind::UnknownProperty,
        561211770 => ErrorKind::BadPropertySize,
        1852797029 => ErrorKind::IllegalOperation,
        560947818 => ErrorKind::BadObject,
        560227702 => ErrorKind::BadDevice,
        561214578 => ErrorKind::BadStream,
        1970171760 => ErrorKind::UnsupportedOperation,
        560226676 => ErrorKind::UnsupportedFormat,
        560492391 => ErrorKind::Permissions,
        _ => ErrorKind::Other,
    }
}

/// Maps a status code to the unit result the native calls stand for:
/// zero is success, anything else carries the code as an error.
pub fn cvt_r(ret: i32) -> (r: Result<(), Error>)
    ensures
        ret == 0 <==> r is Ok,
        match r {
            Ok(u) => true,
            Err(e) => e.status() == ret,
        },
{
    match ret {
        0 => Ok(()),
        e => Err(Error::from_osstatus(e)),
    }
}

} // verus!
