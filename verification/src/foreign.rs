//! Failures that are raised outside this library and carried by it: the types
//! themselves, what is known of the text they print, and the table by which
//! each of them becomes the cause of one failure of the catalog.

use crate::chain::{lemma_wrap_keeps_parts, Cause, ProtoError};
use crate::kind::ProtoErrorKind;
use crate::not_openssl::SslErrorStack;
use futures::sync::oneshot::Canceled;
use vstd::prelude::*;
use vstd::std_specs::convert::FromSpec;

verus! {

/// `std::io::Error`, carried as it is. Nothing inside it is read here.
#[verifier::external_type_specification]
#[verifier::external_body]
pub struct ExIoError(std::io::Error);

/// `std::num::ParseIntError`, carried as it is.
#[verifier::external_type_specification]
#[verifier::external_body]
pub struct ExParseIntError(std::num::ParseIntError);

/// `std::string::FromUtf8Error`, carried as it is.
#[verifier::external_type_specification]
#[verifier::external_body]
pub struct ExFromUtf8Error(std::string::FromUtf8Error);

/// `openssl::error::ErrorStack`, carried as it is.
#[verifier::external_type_specification]
#[verifier::external_body]
pub struct ExErrorStack(openssl::error::ErrorStack);

/// `futures::sync::oneshot::Canceled`, the notice that a pending wait was
/// given up. It is a struct without fields.
#[verifier::external_type_specification]
#[verifier::external_body]
pub struct ExCanceled(futures::sync::oneshot::Canceled);

/// What a cancellation notice prints for diagnostics.
pub open spec fn canceled_debug_text() -> Seq<char> {
    "Canceled"@
}

/// What a cancellation notice prints as its message.
pub open spec fn canceled_message_text() -> Seq<char> {
    "oneshot canceled"@
}

/// Prints a cancellation notice with `{:?}`. `Canceled` is declared as
/// `pub struct Canceled;` with a derived `Debug`, which for a struct without
/// fields writes the struct's name and nothing else.
#[verifier::external_body]
pub(crate) fn canceled_debug(c: &Canceled) -> (s: String)
    ensures
        s@ == canceled_debug_text(),
{
    format!("{:?}", c)
}

/// Prints a cancellation notice with `{}`. The `Display` impl of `Canceled`
/// writes the fixed text `oneshot canceled`, whatever the value.
#[verifier::external_body]
pub(crate) fn canceled_message(c: &Canceled) -> (s: String)
    ensures
        s@ == canceled_message_text(),
{
    format!("{}", c)
}

/// A network address that could not be read from text, kept as the message
/// that the address parser gave for it.
#[derive(Debug, PartialEq, Eq)]
pub struct AddrParseFailure {
    message: String,
}

impl AddrParseFailure {
    /// The message of the failure.
    pub closed spec fn message_text(self) -> Seq<char> {
        self.message@
    }

    /// A failure with the given message.
    pub fn new(message: String) -> (failure: AddrParseFailure)
        ensures
            failure.message_text() == message@,
    {
        AddrParseFailure { message }
    }

    /// The message of the failure.
    pub fn message(&self) -> (s: &str)
        ensures
            s@ == self.message_text(),
    {
        self.message.as_str()
    }
}

impl From<std::io::Error> for ProtoError {
    /// A failed input or output operation becomes the cause of an `Io`
    /// failure.
    fn from(e: std::io::Error) -> (chain: ProtoError)
        ensures
            chain.spec_kind() == ProtoErrorKind::Io,
            chain.spec_cause() == Some(Cause::Io(e)),
    {
        ProtoError::wrap(ProtoErrorKind::Io, Some(Cause::Io(e)))
    }
}

impl vstd::std_specs::convert::FromSpecImpl<std::io::Error> for ProtoError {
    open spec fn obeys_from_spec() -> bool {
        true
    }

    open spec fn from_spec(e: std::io::Error) -> ProtoError {
        ProtoError::spec_wrap(ProtoErrorKind::Io, Some(Cause::Io(e)))
    }
}

impl From<AddrParseFailure> for ProtoError {
    /// An address that could not be read becomes the cause of an
    /// `AddrParseError` failure.
    fn from(e: AddrParseFailure) -> (chain: ProtoError)
        ensures
            chain.spec_kind() == ProtoErrorKind::AddrParseError,
            chain.spec_cause() == Some(Cause::AddrParse(e)),
    {
        ProtoError::wrap(ProtoErrorKind::AddrParseError, Some(Cause::AddrParse(e)))
    }
}

impl vstd::std_specs::convert::FromSpecImpl<AddrParseFailure> for ProtoError {
    open spec fn obeys_from_spec() -> bool {
        true
    }

    open spec fn from_spec(e: AddrParseFailure) -> ProtoError {
        ProtoError::spec_wrap(ProtoErrorKind::AddrParseError, Some(Cause::AddrParse(e)))
    }
}

impl From<std::num::ParseIntError> for ProtoError {
    /// An integer that could not be read becomes the cause of a
    /// `ParseIntError` failure.
    fn from(e: std::num::ParseIntError) -> (chain: ProtoError)
        ensures
            chain.spec_kind() == ProtoErrorKind::ParseIntError,
            chain.spec_cause() == Some(Cause::ParseInt(e)),
    {
        ProtoError::wrap(ProtoErrorKind::ParseIntError, Some(Cause::ParseInt(e)))
    }
}

impl vstd::std_specs::convert::FromSpecImpl<std::num::ParseIntError> for ProtoError {
    open spec fn obeys_from_spec() -> bool {
        true
    }

    open spec fn from_spec(e: std::num::ParseIntError) -> ProtoError {
        ProtoError::spec_wrap(ProtoErrorKind::ParseIntError, Some(Cause::ParseInt(e)))
    }
}

impl From<std::string::FromUtf8Error> for ProtoError {
    /// Bytes that were not valid UTF-8 become the cause of a `FromUtf8Error`
    /// failure.
    fn from(e: std::string::FromUtf8Error) -> (chain: ProtoError)
        ensures
            chain.spec_kind() == ProtoErrorKind::FromUtf8Error,
            chain.spec_cause() == Some(Cause::FromUtf8(e)),
    {
        ProtoError::wrap(ProtoErrorKind::FromUtf8Error, Some(Cause::FromUtf8(e)))
    }
}

impl vstd::std_specs::convert::FromSpecImpl<std::string::FromUtf8Error> for ProtoError {
    open spec fn obeys_from_spec() -> bool {
        true
    }

    open spec fn from_spec(e: std::string::FromUtf8Error) -> ProtoError {
        ProtoError::spec_wrap(ProtoErrorKind::FromUtf8Error, Some(Cause::FromUtf8(e)))
    }
}

impl From<SslErrorStack> for ProtoError {
    /// The placeholder for the backend's failure becomes the cause of an
    /// `SSL` failure, as the backend's own failure does.
    fn from(e: SslErrorStack) -> (chain: ProtoError)
        ensures
            chain.spec_kind() == ProtoErrorKind::SSL,
            chain.spec_cause() == Some(Cause::Ssl(e)),
    {
        ProtoError::wrap(ProtoErrorKind::SSL, Some(Cause::Ssl(e)))
    }
}

impl vstd::std_specs::convert::FromSpecImpl<SslErrorStack> for ProtoError {
    open spec fn obeys_from_spec() -> bool {
        true
    }

    open spec fn from_spec(e: SslErrorStack) -> ProtoError {
        ProtoError::spec_wrap(ProtoErrorKind::SSL, Some(Cause::Ssl(e)))
    }
}

impl From<openssl::error::ErrorStack> for ProtoError {
    /// A failure of the cryptographic backend becomes the cause of an `SSL`
    /// failure.
    fn from(e: openssl::error::ErrorStack) -> (chain: ProtoError)
        ensures
            chain.spec_kind() == ProtoErrorKind::SSL,
            chain.spec_cause() == Some(Cause::SslBackend(e)),
    {
        ProtoError::wrap(ProtoErrorKind::SSL, Some(Cause::SslBackend(e)))
    }
}

impl vstd::std_specs::convert::FromSpecImpl<openssl::error::ErrorStack> for ProtoError {
    open spec fn obeys_from_spec() -> bool {
        true
    }

    open spec fn from_spec(e: openssl::error::ErrorStack) -> ProtoError {
        ProtoError::spec_wrap(ProtoErrorKind::SSL, Some(Cause::SslBackend(e)))
    }
}

impl From<Canceled> for ProtoError {
    /// The notice that a pending wait was given up becomes a `Canceled`
    /// failure, which carries the notice, and the cause of that failure.
    fn from(c: Canceled) -> (chain: ProtoError)
        ensures
            chain.spec_kind() == ProtoErrorKind::Canceled(c),
            chain.spec_cause() == Some(Cause::Canceled(c)),
    {
        ProtoError::wrap(ProtoErrorKind::Canceled(c), Some(Cause::Canceled(c)))
    }
}

impl vstd::std_specs::convert::FromSpecImpl<Canceled> for ProtoError {
    open spec fn obeys_from_spec() -> bool {
        true
    }

    open spec fn from_spec(c: Canceled) -> ProtoError {
        ProtoError::spec_wrap(ProtoErrorKind::Canceled(c), Some(Cause::Canceled(c)))
    }
}

/// Converting a failed input or output operation loses nothing: the cause of
/// the chain is the value that was converted, and the failure is `Io`.
pub proof fn lemma_from_io_keeps_value(e: std::io::Error)
    ensures
        <ProtoError as FromSpec<std::io::Error>>::from_spec(e).spec_cause() == Some(Cause::Io(e)),
        <ProtoError as FromSpec<std::io::Error>>::from_spec(e).spec_kind() == ProtoErrorKind::Io,
{
    lemma_wrap_keeps_parts(ProtoErrorKind::Io, Some(Cause::Io(e)));
}

/// Converting an address that could not be read loses nothing.
pub proof fn lemma_from_addr_parse_keeps_value(e: AddrParseFailure)
    ensures
        <ProtoError as FromSpec<AddrParseFailure>>::from_spec(e).spec_cause() == Some(
            Cause::AddrParse(e),
        ),
        <ProtoError as FromSpec<AddrParseFailure>>::from_spec(e).spec_kind()
            == ProtoErrorKind::AddrParseError,
{
    lemma_wrap_keeps_parts(ProtoErrorKind::AddrParseError, Some(Cause::AddrParse(e)));
}

/// Converting an integer that could not be read loses nothing.
pub proof fn lemma_from_parse_int_keeps_value(e: std::num::ParseIntError)
    ensures
        <ProtoError as FromSpec<std::num::ParseIntError>>::from_spec(e).spec_cause() == Some(
            Cause::ParseInt(e),
        ),
        <ProtoError as FromSpec<std::num::ParseIntError>>::from_spec(e).spec_kind()
            == ProtoErrorKind::ParseIntError,
{
    lemma_wrap_keeps_parts(ProtoErrorKind::ParseIntError, Some(Cause::ParseInt(e)));
}

/// Converting bytes that were not valid UTF-8 loses nothing.
pub proof fn lemma_from_utf8_keeps_value(e: std::string::FromUtf8Error)
    ensures
        <ProtoError as FromSpec<std::string::FromUtf8Error>>::from_spec(e).spec_cause() == Some(
            Cause::FromUtf8(e),
        ),
        <ProtoError as FromSpec<std::string::FromUtf8Error>>::from_spec(e).spec_kind()
            == ProtoErrorKind::FromUtf8Error,
{
    lemma_wrap_keeps_parts(ProtoErrorKind::FromUtf8Error, Some(Cause::FromUtf8(e)));
}

/// Converting the backend's failure, or the placeholder for it, loses
/// nothing, and both give an `SSL` failure.
pub proof fn lemma_from_ssl_keeps_value(placeholder: SslErrorStack, e: openssl::error::ErrorStack)
    ensures
        <ProtoError as FromSpec<SslErrorStack>>::from_spec(placeholder).spec_cause() == Some(
            Cause::Ssl(placeholder),
        ),
        <ProtoError as FromSpec<SslErrorStack>>::from_spec(placeholder).spec_kind()
            == ProtoErrorKind::SSL,
        <ProtoError as FromSpec<openssl::error::ErrorStack>>::from_spec(e).spec_cause() == Some(
            Cause::SslBackend(e),
        ),
        <ProtoError as FromSpec<openssl::error::ErrorStack>>::from_spec(e).spec_kind()
            == ProtoErrorKind::SSL,
{
    lemma_wrap_keeps_parts(ProtoErrorKind::SSL, Some(Cause::Ssl(placeholder)));
    lemma_wrap_keeps_parts(ProtoErrorKind::SSL, Some(Cause::SslBackend(e)));
}

/// Converting the notice that a wait was given up loses nothing: the failure
/// carries the notice, and so does the cause.
pub proof fn lemma_from_canceled_keeps_value(c: Canceled)
    ensures
        <ProtoError as FromSpec<Canceled>>::from_spec(c).spec_cause() == Some(Cause::Canceled(c)),
        <ProtoError as FromSpec<Canceled>>::from_spec(c).spec_kind() == ProtoErrorKind::Canceled(c),
{
    lemma_wrap_keeps_parts(ProtoErrorKind::Canceled(c), Some(Cause::Canceled(c)));
}

} // verus!
