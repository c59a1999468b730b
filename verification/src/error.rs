//! Total mapping from native status codes to a typed error taxonomy.
//!
//! The native runtime reports failures as plain integers drawn from three
//! documented ranges: client-side issues (1000s), server-side issues (2000s)
//! and binding-layer issues (3000s), with 0 meaning success. Every fallible
//! native-boundary operation pipes its raw status through this mapper; codes
//! outside all documented ranges resolve to `UNKNOWN`, so the mapping is
//! total and never itself fails.

use vstd::prelude::*;

verus! {

/// Typed view of a native status code.
#[allow(non_camel_case_types)]
#[derive(Clone, Copy, Debug, PartialEq, Eq, Structural)]
pub enum BrpcError {
    /// No error.
    NOERROR,
    /// Service not found.
    ENOSERVICE,
    /// Method not found.
    ENOMETHOD,
    /// Bad request.
    EREQUEST,
    /// Unauthorized.
    ERPCAUTH,
    /// Too many sub calls failed.
    ETOOMANYFAILS,
    /// Parallel channel finished.
    EPCHANFINISH,
    /// Sending backup request.
    EBACKUPREQUEST,
    /// RPC call timed out.
    ERPCTIMEDOUT,
    /// Broken socket.
    EFAILEDSOCKET,
    /// Bad http call.
    EHTTP,
    /// The server is overcrowded.
    EOVERCROWDED,
    /// Retrying client stream is publishable.
    ERTMPPUBLISHABLE,
    /// Stream creation was rejected.
    ERTMPCREATESTREAM,
    /// Got EOF.
    EEOF,
    /// The socket was not needed.
    EUNUSED,
    /// SSL related error.
    ESSL,
    /// The HTTP/2 socket ran out of streams.
    EH2RUNOUTSTREAMS,
    /// The request is rejected.
    EREJECT,
    /// Internal server error.
    EINTERNAL,
    /// Bad response.
    ERESPONSE,
    /// Server is stopping.
    ELOGOFF,
    /// Reached server's limit on resources.
    ELIMIT,
    /// Close socket initiatively.
    ECLOSE,
    /// Failed Itp response.
    EITP,
    /// Serialization error in the binding layer.
    ESERIALIZE,
    /// Deserialization error in the binding layer.
    EDESERIALIZE,
    /// FFI error in the binding layer.
    EFFI,
    /// Any code outside the documented ranges.
    UNKNOWN,
}

/// The numeric status code that a given error variant stands for.
pub open spec fn error_code(e: BrpcError) -> int {
    match e {
        BrpcError::NOERROR => 0,
        BrpcError::ENOSERVICE => 1001,
        BrpcError::ENOMETHOD => 1002,
        BrpcError::EREQUEST => 1003,
        BrpcError::ERPCAUTH => 1004,
        BrpcError::ETOOMANYFAILS => 1005,
        BrpcError::EPCHANFINISH => 1006,
        BrpcError::EBACKUPREQUEST => 1007,
        BrpcError::ERPCTIMEDOUT => 1008,
        BrpcError::EFAILEDSOCKET => 1009,
        BrpcError::EHTTP => 1010,
        BrpcError::EOVERCROWDED => 1011,
        BrpcError::ERTMPPUBLISHABLE => 1012,
        BrpcError::ERTMPCREATESTREAM => 1013,
        BrpcError::EEOF => 1014,
        BrpcError::EUNUSED => 1015,
        BrpcError::ESSL => 1016,
        BrpcError::EH2RUNOUTSTREAMS => 1017,
        BrpcError::EREJECT => 1018,
        BrpcError::EINTERNAL => 2001,
        BrpcError::ERESPONSE => 2002,
        BrpcError::ELOGOFF => 2003,
        BrpcError::ELIMIT => 2004,
        BrpcError::ECLOSE => 2005,
        BrpcError::EITP => 2006,
        BrpcError::ESERIALIZE => 3001,
        BrpcError::EDESERIALIZE => 3002,
        BrpcError::EFFI => 3003,
        BrpcError::UNKNOWN => 0xffff,
    }
}

/// Whether a numeric status code belongs to one of the documented ranges
/// (or is the success code 0).
pub open spec fn documented_code(c: int) -> bool {
    c == 0 || (1001 <= c <= 1018) || (2001 <= c <= 2006) || (3001 <= c <= 3003)
}

/// The error variant that a numeric status code maps to: the matching
/// variant for every documented code, `UNKNOWN` for everything else.
pub open spec fn error_of_code(c: int) -> BrpcError {
    if c == 0 {
        BrpcError::NOERROR
    } else if c == 1001 {
        BrpcError::ENOSERVICE
    } else if c == 1002 {
        BrpcError::ENOMETHOD
    } else if c == 1003 {
        BrpcError::EREQUEST
    } else if c == 1004 {
        BrpcError::ERPCAUTH
    } else if c == 1005 {
        BrpcError::ETOOMANYFAILS
    } else if c == 1006 {
        BrpcError::EPCHANFINISH
    } else if c == 1007 {
        BrpcError::EBACKUPREQUEST
    } else if c == 1008 {
        BrpcError::ERPCTIMEDOUT
    } else if c == 1009 {
        BrpcError::EFAILEDSOCKET
    } else if c == 1010 {
        BrpcError::EHTTP
    } else if c == 1011 {
        BrpcError::EOVERCROWDED
    } else if c == 1012 {
        BrpcError::ERTMPPUBLISHABLE
    } else if c == 1013 {
        BrpcError::ERTMPCREATESTREAM
    } else if c == 1014 {
        BrpcError::EEOF
    } else if c == 1015 {
        BrpcError::EUNUSED
    } else if c == 1016 {
        BrpcError::ESSL
    } else if c == 1017 {
        BrpcError::EH2RUNOUTSTREAMS
    } else if c == 1018 {
        BrpcError::EREJECT
    } else if c == 2001 {
        BrpcError::EINTERNAL
    } else if c == 2002 {
        BrpcError::ERESPONSE
    } else if c == 2003 {
        BrpcError::ELOGOFF
    } else if c == 2004 {
        BrpcError::ELIMIT
    } else if c == 2005 {
        BrpcError::ECLOSE
    } else if c == 2006 {
        BrpcError::EITP
    } else if c == 3001 {
        BrpcError::ESERIALIZE
    } else if c == 3002 {
        BrpcError::EDESERIALIZE
    } else if c == 3003 {
        BrpcError::EFFI
    } else {
        BrpcError::UNKNOWN
    }
}

impl From<i32> for BrpcError {
    /// Translate a raw native status code into its typed error.
    fn from(e: i32) -> BrpcError {
        match e {
            0 => BrpcError::NOERROR,
            1001 => BrpcError::ENOSERVICE,
            1002 => BrpcError::ENOMETHOD,
            1003 => BrpcError::EREQUEST,
            1004 => BrpcError::ERPCAUTH,
            1005 => BrpcError::ETOOMANYFAILS,
            1006 => BrpcError::EPCHANFINISH,
            1007 => BrpcError::EBACKUPREQUEST,
            1008 => BrpcError::ERPCTIMEDOUT,
            1009 => BrpcError::EFAILEDSOCKET,
            1010 => BrpcError::EHTTP,
            1011 => BrpcError::EOVERCROWDED,
            1012 => BrpcError::ERTMPPUBLISHABLE,
            1013 => BrpcError::ERTMPCREATESTREAM,
            1014 => BrpcError::EEOF,
            1015 => BrpcError::EUNUSED,
            1016 => BrpcError::ESSL,
            1017 => BrpcError::EH2RUNOUTSTREAMS,
            1018 => BrpcError::EREJECT,
            2001 => BrpcError::EINTERNAL,
            2002 => BrpcError::ERESPONSE,
            2003 => BrpcError::ELOGOFF,
            2004 => BrpcError::ELIMIT,
            2005 => BrpcError::ECLOSE,
            2006 => BrpcError::EITP,
            3001 => BrpcError::ESERIALIZE,
            3002 => BrpcError::EDESERIALIZE,
            3003 => BrpcError::EFFI,
            _ => BrpcError::UNKNOWN,
        }
    }
}

impl vstd::std_specs::convert::FromSpecImpl<i32> for BrpcError {
    open spec fn obeys_from_spec() -> bool {
        true
    }

    open spec fn from_spec(e: i32) -> BrpcError {
        error_of_code(e as int)
    }
}

impl BrpcError {
    /// The numeric status code this error stands for.
    pub fn code(&self) -> (c: i32)
        ensures
            c as int == error_code(*self),
    {
        match *self {
            BrpcError::NOERROR => 0,
            BrpcError::ENOSERVICE => 1001,
            BrpcError::ENOMETHOD => 1002,
            BrpcError::EREQUEST => 1003,
            BrpcError::ERPCAUTH => 1004,
            BrpcError::ETOOMANYFAILS => 1005,
            BrpcError::EPCHANFINISH => 1006,
            BrpcError::EBACKUPREQUEST => 1007,
            BrpcError::ERPCTIMEDOUT => 1008,
            BrpcError::EFAILEDSOCKET => 1009,
            BrpcError::EHTTP => 1010,
            BrpcError::EOVERCROWDED => 1011,
            BrpcError::ERTMPPUBLISHABLE => 1012,
            BrpcError::ERTMPCREATESTREAM => 1013,
            BrpcError::EEOF => 1014,
            BrpcError::EUNUSED => 1015,
            BrpcError::ESSL => 1016,
            BrpcError::EH2RUNOUTSTREAMS => 1017,
            BrpcError::EREJECT => 1018,
            BrpcError::EINTERNAL => 2001,
            BrpcError::ERESPONSE => 2002,
            BrpcError::ELOGOFF => 2003,
            BrpcError::ELIMIT => 2004,
            BrpcError::ECLOSE => 2005,
            BrpcError::EITP => 2006,
            BrpcError::ESERIALIZE => 3001,
            BrpcError::EDESERIALIZE => 3002,
            BrpcError::EFFI => 3003,
            BrpcError::UNKNOWN => 0xffff,
        }
    }
}

/// The error mapping is total and faithful: every documented status code
/// maps to the variant that carries exactly that code, and every code
/// outside the documented ranges maps to `UNKNOWN`.
pub proof fn lemma_error_mapping_total(c: int)
    ensures
        documented_code(c) ==> error_code(error_of_code(c)) == c,
        !documented_code(c) ==> error_of_code(c) == BrpcError::UNKNOWN,
{
}

/// Result type of fallible operations at the native boundary.
pub type BrpcResult<T> = Result<T, BrpcError>;

} // verus!
