//! The structured error classification type that every fallible
//! operation of the engine reports through: a closed taxonomy of
//! failure kinds, each reducible to a compact numeric wire code, plus
//! an error value that may carry an opaque causal diagnostic.

use vstd::prelude::*;
use serde_json::Error as SerdeJsonError;
use std::io::Error as StdIoError;

verus! {

/// The closed taxonomy of failure categories.
#[derive(Clone, Copy, Debug, Eq, Hash, Ord, PartialEq, PartialOrd, Structural)]
pub enum ErrorKind {
    InvalidArguments,
    ParseError,
    CryptoError,
    ChainRPCError,
    ContractCodeGT400,
    Unknown,
}

/// The numeric wire code of a kind: every kind has a unique non-zero
/// code, and `Unknown` has the sentinel `0xffff_ffff`.
pub open spec fn code_of_kind(kind: ErrorKind) -> u32 {
    match kind {
        ErrorKind::InvalidArguments => 1u32,
        ErrorKind::ParseError => 2u32,
        ErrorKind::CryptoError => 3u32,
        ErrorKind::ChainRPCError => 4u32,
        ErrorKind::ContractCodeGT400 => 5u32,
        ErrorKind::Unknown => 0xffff_ffffu32,
    }
}

/// The total decode direction: any code outside the known table yields
/// `Unknown`.
pub open spec fn kind_of_code(code: u32) -> ErrorKind {
    if code == 1u32 {
        ErrorKind::InvalidArguments
    } else if code == 2u32 {
        ErrorKind::ParseError
    } else if code == 3u32 {
        ErrorKind::CryptoError
    } else if code == 4u32 {
        ErrorKind::ChainRPCError
    } else if code == 5u32 {
        ErrorKind::ContractCodeGT400
    } else {
        ErrorKind::Unknown
    }
}

/// The fixed human-readable label of each kind.
pub open spec fn label_of_kind(kind: ErrorKind) -> Seq<char> {
    match kind {
        ErrorKind::InvalidArguments => "invalid arguments"@,
        ErrorKind::ParseError => "parsing error"@,
        ErrorKind::CryptoError => "crypto error"@,
        ErrorKind::ChainRPCError => "rpc to chain node error"@,
        ErrorKind::ContractCodeGT400 => "contract invoking return code greater than 400"@,
        ErrorKind::Unknown => "unknown error"@,
    }
}

impl ErrorKind {
    /// The fixed, stable label of the kind, meant for display rather
    /// than matching.
    pub fn as_str(self) -> (r: &'static str)
        ensures
            r@ == label_of_kind(self),
    {
        match self {
            ErrorKind::InvalidArguments => "invalid arguments",
            ErrorKind::ParseError => "parsing error",
            ErrorKind::CryptoError => "crypto error",
            ErrorKind::ChainRPCError => "rpc to chain node error",
            ErrorKind::ContractCodeGT400 => "contract invoking return code greater than 400",
            ErrorKind::Unknown => "unknown error",
        }
    }
}

/// Law: every kind except `Unknown` has a non-zero code and survives
/// the encode/decode round trip unchanged; the round trip makes the
/// encoding injective on the known kinds.
pub proof fn lemma_code_round_trip(kind: ErrorKind)
    requires
        kind != ErrorKind::Unknown,
    ensures
        kind_of_code(code_of_kind(kind)) == kind,
        code_of_kind(kind) != 0u32,
{
}

/// Law: decoding any code outside the known table `{1, 2, 3, 4, 5}`
/// yields `Unknown`, and `Unknown` itself encodes to the sentinel.
pub proof fn lemma_unknown_codes(code: u32)
    requires
        code != 1u32,
        code != 2u32,
        code != 3u32,
        code != 4u32,
        code != 5u32,
    ensures
        kind_of_code(code) == ErrorKind::Unknown,
        code_of_kind(ErrorKind::Unknown) == 0xffff_ffffu32,
{
}

#[derive(Debug)]
struct CustomError {
    kind: ErrorKind,
    error: String,
}

#[derive(Debug)]
enum Repr {
    Simple(ErrorKind),
    Custom(CustomError),
}

/// An error value: either a bare kind, or a kind paired with an owned
/// causal diagnostic. The diagnostic is process-local; only the kind
/// survives a wire boundary.
#[derive(Debug)]
pub struct Error {
    repr: Repr,
}

impl Error {
    /// The classification of the error, defined for both
    /// representations.
    pub closed spec fn kind_spec(self) -> ErrorKind {
        match self.repr {
            Repr::Simple(kind) => kind,
            Repr::Custom(c) => c.kind,
        }
    }

    /// The causal diagnostic carried by the error, if any.
    pub closed spec fn cause_spec(self) -> Option<Seq<char>> {
        match self.repr {
            Repr::Simple(_) => None,
            Repr::Custom(c) => Some(c.error@),
        }
    }

    /// Whether the error carries a causal diagnostic.
    pub open spec fn is_custom(self) -> bool {
        self.cause_spec() is Some
    }

    /// Constructs an error that records the given causal diagnostic
    /// under the given kind.
    pub fn new(kind: ErrorKind, error: String) -> (e: Error)
        ensures
            e.kind_spec() == kind,
            e.cause_spec() == Some(error@),
    {
        Error::_new(kind, error)
    }

    fn _new(kind: ErrorKind, error: String) -> (e: Error)
        ensures
            e.kind_spec() == kind,
            e.cause_spec() == Some(error@),
    {
        Error { repr: Repr::Custom(CustomError { kind, error }) }
    }

    /// A shared borrow of the causal diagnostic, when one is carried.
    pub fn get_ref(&self) -> (r: Option<&String>)
        ensures
            match r {
                Some(s) => self.cause_spec() == Some(s@),
                None => self.cause_spec() is None,
            },
    {
        match &self.repr {
            Repr::Simple(_) => None,
            Repr::Custom(c) => Some(&c.error),
        }
    }

    /// An exclusive borrow of the causal diagnostic, when one is
    /// carried; editing it leaves the kind untouched.
    pub fn get_mut(&mut self) -> (r: Option<&mut String>)
        ensures
            old(self).is_custom() <==> r is Some,
            r is None ==> *final(self) == *old(self),
            r matches Some(m) ==> {
                &&& Some((*m)@) == old(self).cause_spec()
                &&& final(self).kind_spec() == old(self).kind_spec()
                &&& final(self).cause_spec() == Some(final(m)@)
            },
    {
        match &mut self.repr {
            Repr::Simple(_) => None,
            Repr::Custom(c) => Some(&mut c.error),
        }
    }

    /// Consumes the error, handing out the causal diagnostic when one
    /// is carried.
    pub fn into_inner(self) -> (r: Option<String>)
        ensures
            match r {
                Some(s) => self.cause_spec() == Some(s@),
                None => self.cause_spec() is None,
            },
    {
        match self.repr {
            Repr::Simple(_) => None,
            Repr::Custom(c) => Some(c.error),
        }
    }

    /// Law: compacting an error keeps its kind exactly and discards the
    /// causal diagnostic for good; an error that is already bare comes
    /// back unchanged, so compacting twice is compacting once. The
    /// result is fit to cross a wire boundary.
    pub fn into_simple_error(self) -> (e: Error)
        ensures
            e.kind_spec() == self.kind_spec(),
            !e.is_custom(),
            !self.is_custom() ==> e == self,
    {
        match self.repr {
            Repr::Simple(_) => self,
            Repr::Custom(c) => Error::from(c.kind),
        }
    }

    /// The classification, regardless of representation.
    pub fn kind(&self) -> (k: ErrorKind)
        ensures
            k == self.kind_spec(),
    {
        match &self.repr {
            Repr::Custom(c) => c.kind,
            Repr::Simple(kind) => *kind,
        }
    }

    /// A bare error of the `Unknown` kind.
    pub fn unknown() -> (e: Error)
        ensures
            e.kind_spec() == ErrorKind::Unknown,
            !e.is_custom(),
    {
        Error::from(ErrorKind::Unknown)
    }

    /// The display text of the error: the causal diagnostic when one
    /// is carried, the kind's fixed label otherwise.
    pub fn display_string(&self) -> (r: String)
        ensures
            match self.cause_spec() {
                Some(cause) => r@ == cause,
                None => r@ == label_of_kind(self.kind_spec()),
            },
    {
        match &self.repr {
            Repr::Custom(c) => c.error.clone(),
            Repr::Simple(kind) => String::from_str(kind.as_str()),
        }
    }

    /// The encode direction of the wire mapping: the numeric code of
    /// the error's kind.
    pub fn into_code(self) -> (code: u32)
        ensures
            code == code_of_kind(self.kind_spec()),
    {
        match self.kind() {
            ErrorKind::InvalidArguments => 1u32,
            ErrorKind::ParseError => 2u32,
            ErrorKind::CryptoError => 3u32,
            ErrorKind::ChainRPCError => 4u32,
            ErrorKind::ContractCodeGT400 => 5u32,
            ErrorKind::Unknown => 0xffff_ffffu32,
        }
    }
}

/// Declares hex's error type for hex-decoding failures, so that a
/// value of it can be taken and recorded as a causal diagnostic.
#[verifier::external_type_specification]
#[verifier::external_body]
pub struct ExFromHexError(hex::FromHexError);

/// Declares serde_json's error type, so that a value of it can be
/// taken and recorded as a causal diagnostic.
#[verifier::external_type_specification]
#[verifier::external_body]
pub struct ExJsonError(SerdeJsonError);

/// Declares grpc's status type for failing RPC calls, so that a value
/// of it can be taken and recorded as a causal diagnostic.
#[verifier::external_type_specification]
#[verifier::external_body]
pub struct ExGrpcStatusError(grpc::StatusError);

/// Declares std's I/O error type, which vstd gives no specification,
/// so that a value of it can be taken and recorded as a causal
/// diagnostic.
#[verifier::external_type_specification]
#[verifier::external_body]
pub struct ExIoError(StdIoError);

/// The rendered text of a hex-decoding failure: a function of the
/// error value alone.
pub uninterp spec fn hex_error_text(err: hex::FromHexError) -> Seq<char>;

/// The message text of a failing RPC status: a function of the status
/// value alone.
pub uninterp spec fn grpc_status_text(err: grpc::StatusError) -> Seq<char>;

/// Relies on hex's display rendering of FromHexError, which writes a
/// fixed text per variant from the variant's own fields.
#[verifier::external_body]
fn hex_error_message(err: &hex::FromHexError) -> (r: String)
    ensures
        r@ == hex_error_text(*err),
{
    err.to_string()
}

/// Relies on serde_json's display rendering of its error. For
/// I/O-category errors the text comes from the wrapped I/O error, so
/// nothing is claimed of it beyond being a recorded diagnostic.
#[verifier::external_body]
fn json_error_message(err: &SerdeJsonError) -> String {
    err.to_string()
}

/// Relies on grpc::StatusError::message, a borrow of the status's own
/// message field.
#[verifier::external_body]
fn grpc_status_message(err: &grpc::StatusError) -> (r: String)
    ensures
        r@ == grpc_status_text(*err),
{
    err.message().to_string()
}

/// Relies on std's display rendering of std::io::Error. The text may
/// come from the C library's locale-dependent message table or from a
/// custom payload, so nothing is claimed of it beyond being a
/// recorded diagnostic.
#[verifier::external_body]
fn io_error_message(err: &StdIoError) -> String {
    err.to_string()
}

impl Error {
    /// Wraps a hex-decoding failure at its point of origin, classified
    /// as a parsing error and carrying the failure's own text as its
    /// cause.
    pub fn from_hex_error(err: hex::FromHexError) -> (e: Error)
        ensures
            e.kind_spec() == ErrorKind::ParseError,
            e.cause_spec() == Some(hex_error_text(err)),
    {
        Error::new(ErrorKind::ParseError, hex_error_message(&err))
    }

    /// Wraps a JSON serialization failure at its point of origin,
    /// classified as a parsing error and carrying a recorded
    /// diagnostic as its cause.
    pub fn from_json_error(err: SerdeJsonError) -> (e: Error)
        ensures
            e.kind_spec() == ErrorKind::ParseError,
            e.is_custom(),
    {
        Error::new(ErrorKind::ParseError, json_error_message(&err))
    }

    /// Wraps a failing RPC status at its point of origin, classified
    /// as a chain RPC error and carrying the status's own message as
    /// its cause.
    pub fn from_grpc_error(err: grpc::StatusError) -> (e: Error)
        ensures
            e.kind_spec() == ErrorKind::ChainRPCError,
            e.cause_spec() == Some(grpc_status_text(err)),
    {
        Error::new(ErrorKind::ChainRPCError, grpc_status_message(&err))
    }

    /// Wraps an I/O failure at its point of origin, classified as a
    /// parsing error and carrying a recorded diagnostic as its cause.
    pub fn from_io_error(err: StdIoError) -> (e: Error)
        ensures
            e.kind_spec() == ErrorKind::ParseError,
            e.is_custom(),
    {
        Error::new(ErrorKind::ParseError, io_error_message(&err))
    }
}

/// The bare-kind error value, as the `From` conversions below produce
/// it.
pub closed spec fn simple_error(kind: ErrorKind) -> Error {
    Error { repr: Repr::Simple(kind) }
}

/// Law: a bare-kind error classifies as that kind and carries no
/// causal diagnostic.
pub proof fn lemma_simple_error(kind: ErrorKind)
    ensures
        simple_error(kind).kind_spec() == kind,
        !simple_error(kind).is_custom(),
{
}

impl From<ErrorKind> for Error {
    /// Constructs a bare error of the given kind.
    fn from(kind: ErrorKind) -> (e: Error) {
        Error { repr: Repr::Simple(kind) }
    }
}

impl vstd::std_specs::convert::FromSpecImpl<ErrorKind> for Error {
    open spec fn obeys_from_spec() -> bool {
        true
    }

    open spec fn from_spec(kind: ErrorKind) -> Error {
        simple_error(kind)
    }
}

impl From<u32> for Error {
    /// Decodes a wire code into a bare error, with any unrecognized
    /// code falling back to `Unknown`.
    fn from(code: u32) -> (e: Error) {
        let kind = if code == 1u32 {
            ErrorKind::InvalidArguments
        } else if code == 2u32 {
            ErrorKind::ParseError
        } else if code == 3u32 {
            ErrorKind::CryptoError
        } else if code == 4u32 {
            ErrorKind::ChainRPCError
        } else if code == 5u32 {
            ErrorKind::ContractCodeGT400
        } else {
            ErrorKind::Unknown
        };
        Error { repr: Repr::Simple(kind) }
    }
}

impl vstd::std_specs::convert::FromSpecImpl<u32> for Error {
    open spec fn obeys_from_spec() -> bool {
        true
    }

    open spec fn from_spec(code: u32) -> Error {
        simple_error(kind_of_code(code))
    }
}

} // verus!
