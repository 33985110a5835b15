//! The catalog of failures: every condition that any layer of the stack can
//! report, each with the values needed to diagnose it.

use crate::foreign::{canceled_debug, canceled_debug_text};
use crate::text::{
    binary_text, contains_text, decimal_text, hex_text, holds_in_order,
    lemma_held_part_is_contained, lemma_holds_itself, lemma_holds_last, lemma_holds_two,
    push_binary, push_decimal, push_hex,
};
use futures::sync::oneshot::Canceled;
use vstd::prelude::*;

verus! {

/// One failure condition. The set is closed: whoever matches on it handles
/// every variant.
///
/// A number has the width of the protocol field it reports. A domain name
/// and a zone-file token are kept as the text they print.
#[derive(Debug, PartialEq, Eq)]
pub enum ProtoErrorKind {
    /// An input or output operation failed.
    Io,
    /// A network address could not be read from text.
    AddrParseError,
    /// An integer could not be read from text.
    ParseIntError,
    /// Bytes were not valid UTF-8.
    FromUtf8Error,
    /// The cryptographic backend failed.
    SSL,
    /// A pending wait was given up before it produced a result.
    Canceled(Canceled),
    /// A character-data field is longer than 255 octets; the length seen.
    CharacterDataTooLong(usize),
    /// The protocol field of a DNSKEY is not 3; the value seen.
    DnsKeyProtocolNot3(u8),
    /// A domain name is longer than 255 octets; the length seen.
    DomainNameTooLong(usize),
    /// The owner name of an EDNS record is not the root; the name seen.
    EdnsNameNotRoot(String),
    /// A label is longer than 63 octets; the length seen.
    LabelBytesTooLong(usize),
    /// A failure that is only a fixed message.
    Message(&'static str),
    /// No failure: a response that reports success in so many words.
    NoError,
    /// Fewer or more bytes were sent than had to be; sent, then expected.
    NotAllBytesSent(usize, usize),
    /// Fewer or more bytes were received than had to be; received, then
    /// expected.
    NotAllBytesReceived(usize, usize),
    /// A response carries another identifier than its request; got, then
    /// expected.
    IncorrectMessageId(u16, u16),
    /// The resource data read is not as long as declared; read, then declared.
    IncorrectRDataLengthRead(usize, usize),
    /// An operation ran past its deadline.
    Timeout,
    /// An algorithm number that is not known.
    UnknownAlgorithmTypeValue(u8),
    /// A class name that is not known.
    UnknownDnsClassStr(String),
    /// A class number that is not known.
    UnknownDnsClassValue(u16),
    /// The leading bits of a label are no known label code.
    UnrecognizedLabelCode(u8),
    /// The flag octet of an NSEC3 record has a reserved bit set.
    UnrecognizedNsec3Flags(u8),
    /// A record type name that is not known.
    UnknownRecordTypeStr(String),
    /// A record type number that is not known.
    UnknownRecordTypeValue(u16),
    /// An escape sequence stands outside character data.
    EscapedCharOutsideCharData,
    /// A character that may not stand where it was found.
    IllegalCharacter(char),
    /// A character that no rule accepts.
    UnrecognizedChar(char),
    /// An escape sequence that is not known.
    BadEscapedData(String),
    /// An octal or numeric escape that is not known.
    UnrecognizedOctet(u32),
    /// A quoted string was not closed.
    UnclosedQuotedString,
    /// A list was not closed.
    UnclosedList,
    /// A directive that is not known.
    UnrecognizedDollar(String),
    /// The input ended too early.
    EOF,
    /// The parser is in a state that it must not reach.
    IllegalState(&'static str),
    /// Another token was found than the one expected; the token found, as it
    /// prints for diagnostics.
    UnexpectedToken(String),
    /// A token that has to be there is not.
    MissingToken(String),
    /// A character that is no digit was to be read as one.
    CharToIntError(char),
    /// A time that could not be read from text.
    ParseTimeError(String),
}

impl ProtoErrorKind {
    /// The short description of the failure. It names the condition and, but
    /// for `Message`, does not depend on the values carried.
    pub open spec fn description_text(self) -> Seq<char> {
        match self {
            ProtoErrorKind::Io => "io error"@,
            ProtoErrorKind::AddrParseError => "network address parse error"@,
            ProtoErrorKind::ParseIntError => "error parsing number"@,
            ProtoErrorKind::FromUtf8Error => "utf8 conversion error"@,
            ProtoErrorKind::SSL => "ssl error"@,
            ProtoErrorKind::Canceled(_) => "future was canceled"@,
            ProtoErrorKind::CharacterDataTooLong(_) => "char data length exceeds 255"@,
            ProtoErrorKind::DnsKeyProtocolNot3(_) => "dns key value unknown, must be 3"@,
            ProtoErrorKind::DomainNameTooLong(_) => "name label data exceed 255"@,
            ProtoErrorKind::EdnsNameNotRoot(_) => "edns resource record label must be the root label (.)"@,
            ProtoErrorKind::LabelBytesTooLong(_) => "label bytes exceed 63"@,
            ProtoErrorKind::Message(msg) => msg@,
            ProtoErrorKind::NoError => "no error specified"@,
            ProtoErrorKind::NotAllBytesSent(_, _) => "not all bytes were sent"@,
            ProtoErrorKind::NotAllBytesReceived(_, _) => "not all bytes were recieved"@,
            ProtoErrorKind::IncorrectMessageId(_, _) => "incorrectMessageId received"@,
            ProtoErrorKind::IncorrectRDataLengthRead(_, _) => "incorrect rdata length read"@,
            ProtoErrorKind::Timeout => "request timeout"@,
            ProtoErrorKind::UnknownAlgorithmTypeValue(_) => "algorithm type value unknown"@,
            ProtoErrorKind::UnknownDnsClassStr(_) => "dns class string unknown"@,
            ProtoErrorKind::UnknownDnsClassValue(_) => "dns class value unknown"@,
            ProtoErrorKind::UnrecognizedLabelCode(_) => "unrecognized label code"@,
            ProtoErrorKind::UnrecognizedNsec3Flags(_) => "nsec3 flags should be 0b0000000*"@,
            ProtoErrorKind::UnknownRecordTypeStr(_) => "record type string unknown"@,
            ProtoErrorKind::UnknownRecordTypeValue(_) => "record type value unknown"@,
            ProtoErrorKind::EscapedCharOutsideCharData => "escaped character outside character data"@,
            ProtoErrorKind::IllegalCharacter(_) => "illegal character input"@,
            ProtoErrorKind::UnrecognizedChar(_) => "unrecognized character input"@,
            ProtoErrorKind::BadEscapedData(_) => "escaped data not recognized"@,
            ProtoErrorKind::UnrecognizedOctet(_) => "unrecognized octet"@,
            ProtoErrorKind::UnclosedQuotedString => "unclosed quoted string"@,
            ProtoErrorKind::UnclosedList => "unclosed list, missing ')'"@,
            ProtoErrorKind::UnrecognizedDollar(_) => "unrecognized dollar content"@,
            ProtoErrorKind::EOF => "unexpected end of input"@,
            ProtoErrorKind::IllegalState(_) => "illegal state"@,
            ProtoErrorKind::UnexpectedToken(_) => "unrecognized token in stream"@,
            ProtoErrorKind::MissingToken(_) => "token is missing"@,
            ProtoErrorKind::CharToIntError(_) => "invalid numerical character"@,
            ProtoErrorKind::ParseTimeError(_) => "invalid time string"@,
        }
    }

    /// The values that the failure carries, each as it is written out, in the
    /// order in which the variant holds them: lengths, counts, codes and
    /// identifiers in decimal, a label code and a flag octet in binary, an
    /// octet in lower-case hexadecimal, a character and a text as they are.
    pub open spec fn payload_texts(self) -> Seq<Seq<char>> {
        match self {
            ProtoErrorKind::Canceled(_) => seq![canceled_debug_text()],
            ProtoErrorKind::CharacterDataTooLong(len) => seq![decimal_text(len as nat)],
            ProtoErrorKind::DnsKeyProtocolNot3(value) => seq![decimal_text(value as nat)],
            ProtoErrorKind::DomainNameTooLong(len) => seq![decimal_text(len as nat)],
            ProtoErrorKind::EdnsNameNotRoot(found) => seq![found@],
            ProtoErrorKind::LabelBytesTooLong(len) => seq![decimal_text(len as nat)],
            ProtoErrorKind::Message(msg) => seq![msg@],
            ProtoErrorKind::NotAllBytesSent(sent, expect) => seq![
                decimal_text(sent as nat),
                decimal_text(expect as nat),
            ],
            ProtoErrorKind::NotAllBytesReceived(received, expect) => seq![
                decimal_text(received as nat),
                decimal_text(expect as nat),
            ],
            ProtoErrorKind::IncorrectMessageId(got, expect) => seq![
                decimal_text(got as nat),
                decimal_text(expect as nat),
            ],
            ProtoErrorKind::IncorrectRDataLengthRead(read, len) => seq![
                decimal_text(read as nat),
                decimal_text(len as nat),
            ],
            ProtoErrorKind::UnknownAlgorithmTypeValue(value) => seq![decimal_text(value as nat)],
            ProtoErrorKind::UnknownDnsClassStr(value) => seq![value@],
            ProtoErrorKind::UnknownDnsClassValue(value) => seq![decimal_text(value as nat)],
            ProtoErrorKind::UnrecognizedLabelCode(value) => seq![binary_text(value as nat)],
            ProtoErrorKind::UnrecognizedNsec3Flags(value) => seq![binary_text(value as nat)],
            ProtoErrorKind::UnknownRecordTypeStr(value) => seq![value@],
            ProtoErrorKind::UnknownRecordTypeValue(value) => seq![decimal_text(value as nat)],
            ProtoErrorKind::IllegalCharacter(ch) => seq![seq![ch]],
            ProtoErrorKind::UnrecognizedChar(ch) => seq![seq![ch]],
            ProtoErrorKind::BadEscapedData(string) => seq![string@],
            ProtoErrorKind::UnrecognizedOctet(octet) => seq![hex_text(octet as nat)],
            ProtoErrorKind::UnrecognizedDollar(string) => seq![string@],
            ProtoErrorKind::IllegalState(string) => seq![string@],
            ProtoErrorKind::UnexpectedToken(token) => seq![token@],
            ProtoErrorKind::MissingToken(string) => seq![string@],
            ProtoErrorKind::CharToIntError(ch) => seq![seq![ch]],
            ProtoErrorKind::ParseTimeError(string) => seq![string@],
            _ => Seq::empty(),
        }
    }

    /// The full message of the failure: a fixed wording for the variant, with
    /// the values carried written into it.
    pub open spec fn rendering(self) -> Seq<char> {
        match self {
            ProtoErrorKind::Io => "io error"@,
            ProtoErrorKind::AddrParseError => "network address parse error"@,
            ProtoErrorKind::ParseIntError => "error parsing number"@,
            ProtoErrorKind::FromUtf8Error => "utf8 conversion error"@,
            ProtoErrorKind::SSL => "ssl error"@,
            ProtoErrorKind::Canceled(_) => "future was canceled: "@ + canceled_debug_text(),
            ProtoErrorKind::CharacterDataTooLong(len) => "char data length exceeds 255: "@
                + decimal_text(len as nat),
            ProtoErrorKind::DnsKeyProtocolNot3(value) => "dns key value unknown, must be 3: "@
                + decimal_text(value as nat),
            ProtoErrorKind::DomainNameTooLong(len) => "name label data exceed 255: "@
                + decimal_text(len as nat),
            ProtoErrorKind::EdnsNameNotRoot(found) =>
                "edns resource record label must be the root label (.): "@ + found@,
            ProtoErrorKind::LabelBytesTooLong(len) => "label bytes exceed 63: "@ + decimal_text(
                len as nat,
            ),
            ProtoErrorKind::Message(msg) => msg@,
            ProtoErrorKind::NoError => "no error specified"@,
            ProtoErrorKind::NotAllBytesSent(sent, expect) => "not all bytes were sent: "@
                + decimal_text(sent as nat) + ", expected: "@ + decimal_text(expect as nat),
            ProtoErrorKind::NotAllBytesReceived(received, expect) =>
                "not all bytes were recieved: "@ + decimal_text(received as nat) + ", expected: "@
                    + decimal_text(expect as nat),
            ProtoErrorKind::IncorrectMessageId(got, expect) => "incorrectMessageId got: "@
                + decimal_text(got as nat) + ", expected: "@ + decimal_text(expect as nat),
            ProtoErrorKind::IncorrectRDataLengthRead(read, len) => "incorrect rdata length read: "@
                + decimal_text(read as nat) + " expected: "@ + decimal_text(len as nat),
            ProtoErrorKind::Timeout => "request timed out"@,
            ProtoErrorKind::UnknownAlgorithmTypeValue(value) => "algorithm type value unknown: "@
                + decimal_text(value as nat),
            ProtoErrorKind::UnknownDnsClassStr(value) => "dns class string unknown: "@ + value@,
            ProtoErrorKind::UnknownDnsClassValue(value) => "dns class value unknown: "@
                + decimal_text(value as nat),
            ProtoErrorKind::UnrecognizedLabelCode(value) => "unrecognized label code: "@
                + binary_text(value as nat),
            ProtoErrorKind::UnrecognizedNsec3Flags(value) => "nsec3 flags should be 0b0000000*: "@
                + binary_text(value as nat),
            ProtoErrorKind::UnknownRecordTypeStr(value) => "record type string unknown: "@ + value@,
            ProtoErrorKind::UnknownRecordTypeValue(value) => "record type value unknown: "@
                + decimal_text(value as nat),
            ProtoErrorKind::EscapedCharOutsideCharData =>
                "escaped character outside character data"@,
            ProtoErrorKind::IllegalCharacter(ch) => "illegal character input: "@ + seq![ch],
            ProtoErrorKind::UnrecognizedChar(ch) => "unrecognized character input: "@ + seq![ch],
            ProtoErrorKind::BadEscapedData(string) => "escaped data not recognized: "@ + string@,
            ProtoErrorKind::UnrecognizedOctet(octet) => "unrecognized octet: "@ + hex_text(
                octet as nat,
            ),
            ProtoErrorKind::UnclosedQuotedString => "unclosed quoted string"@,
            ProtoErrorKind::UnclosedList => "unclosed list, missing ')'"@,
            ProtoErrorKind::UnrecognizedDollar(string) => "unrecognized dollar content: "@
                + string@,
            ProtoErrorKind::EOF => "unexpected end of input"@,
            ProtoErrorKind::IllegalState(string) => "illegal state: "@ + string@,
            ProtoErrorKind::UnexpectedToken(token) => "unrecognized token in stream: "@ + token@,
            ProtoErrorKind::MissingToken(string) => "token is missing: "@ + string@,
            ProtoErrorKind::CharToIntError(ch) => "invalid numerical character: "@ + seq![ch],
            ProtoErrorKind::ParseTimeError(string) => "invalid time string: "@ + string@,
        }
    }

    /// The short description of the failure.
    pub fn description(&self) -> (s: &'static str)
        ensures
            s@ == self.description_text(),
    {
        match self {
            ProtoErrorKind::Io => "io error",
            ProtoErrorKind::AddrParseError => "network address parse error",
            ProtoErrorKind::ParseIntError => "error parsing number",
            ProtoErrorKind::FromUtf8Error => "utf8 conversion error",
            ProtoErrorKind::SSL => "ssl error",
            ProtoErrorKind::Canceled(_) => "future was canceled",
            ProtoErrorKind::CharacterDataTooLong(_) => "char data length exceeds 255",
            ProtoErrorKind::DnsKeyProtocolNot3(_) => "dns key value unknown, must be 3",
            ProtoErrorKind::DomainNameTooLong(_) => "name label data exceed 255",
            ProtoErrorKind::EdnsNameNotRoot(_) => "edns resource record label must be the root label (.)",
            ProtoErrorKind::LabelBytesTooLong(_) => "label bytes exceed 63",
            ProtoErrorKind::Message(msg) => *msg,
            ProtoErrorKind::NoError => "no error specified",
            ProtoErrorKind::NotAllBytesSent(_, _) => "not all bytes were sent",
            ProtoErrorKind::NotAllBytesReceived(_, _) => "not all bytes were recieved",
            ProtoErrorKind::IncorrectMessageId(_, _) => "incorrectMessageId received",
            ProtoErrorKind::IncorrectRDataLengthRead(_, _) => "incorrect rdata length read",
            ProtoErrorKind::Timeout => "request timeout",
            ProtoErrorKind::UnknownAlgorithmTypeValue(_) => "algorithm type value unknown",
            ProtoErrorKind::UnknownDnsClassStr(_) => "dns class string unknown",
            ProtoErrorKind::UnknownDnsClassValue(_) => "dns class value unknown",
            ProtoErrorKind::UnrecognizedLabelCode(_) => "unrecognized label code",
            ProtoErrorKind::UnrecognizedNsec3Flags(_) => "nsec3 flags should be 0b0000000*",
            ProtoErrorKind::UnknownRecordTypeStr(_) => "record type string unknown",
            ProtoErrorKind::UnknownRecordTypeValue(_) => "record type value unknown",
            ProtoErrorKind::EscapedCharOutsideCharData => "escaped character outside character data",
            ProtoErrorKind::IllegalCharacter(_) => "illegal character input",
            ProtoErrorKind::UnrecognizedChar(_) => "unrecognized character input",
            ProtoErrorKind::BadEscapedData(_) => "escaped data not recognized",
            ProtoErrorKind::UnrecognizedOctet(_) => "unrecognized octet",
            ProtoErrorKind::UnclosedQuotedString => "unclosed quoted string",
            ProtoErrorKind::UnclosedList => "unclosed list, missing ')'",
            ProtoErrorKind::UnrecognizedDollar(_) => "unrecognized dollar content",
            ProtoErrorKind::EOF => "unexpected end of input",
            ProtoErrorKind::IllegalState(_) => "illegal state",
            ProtoErrorKind::UnexpectedToken(_) => "unrecognized token in stream",
            ProtoErrorKind::MissingToken(_) => "token is missing",
            ProtoErrorKind::CharToIntError(_) => "invalid numerical character",
            ProtoErrorKind::ParseTimeError(_) => "invalid time string",
        }
    }

    /// The full message of the failure, for display.
    pub fn render(&self) -> (s: String)
        ensures
            s@ == self.rendering(),
    {
        match self {
            ProtoErrorKind::Canceled(c) => {
                let printed = canceled_debug(c);
                with_text("future was canceled: ", printed.as_str())
            },
            ProtoErrorKind::CharacterDataTooLong(len) => with_decimal(
                "char data length exceeds 255: ",
                *len as u64,
            ),
            ProtoErrorKind::DnsKeyProtocolNot3(value) => with_decimal(
                "dns key value unknown, must be 3: ",
                *value as u64,
            ),
            ProtoErrorKind::DomainNameTooLong(len) => with_decimal(
                "name label data exceed 255: ",
                *len as u64,
            ),
            ProtoErrorKind::EdnsNameNotRoot(found) => with_text(
                "edns resource record label must be the root label (.): ",
                found.as_str(),
            ),
            ProtoErrorKind::LabelBytesTooLong(len) => with_decimal(
                "label bytes exceed 63: ",
                *len as u64,
            ),
            ProtoErrorKind::Message(msg) => String::from_str(*msg),
            ProtoErrorKind::NotAllBytesSent(sent, expect) => with_two_decimals(
                "not all bytes were sent: ",
                *sent as u64,
                ", expected: ",
                *expect as u64,
            ),
            ProtoErrorKind::NotAllBytesReceived(received, expect) => with_two_decimals(
                "not all bytes were recieved: ",
                *received as u64,
                ", expected: ",
                *expect as u64,
            ),
            ProtoErrorKind::IncorrectMessageId(got, expect) => with_two_decimals(
                "incorrectMessageId got: ",
                *got as u64,
                ", expected: ",
                *expect as u64,
            ),
            ProtoErrorKind::IncorrectRDataLengthRead(read, len) => with_two_decimals(
                "incorrect rdata length read: ",
                *read as u64,
                " expected: ",
                *len as u64,
            ),
            ProtoErrorKind::Timeout => String::from_str("request timed out"),
            ProtoErrorKind::UnknownAlgorithmTypeValue(value) => with_decimal(
                "algorithm type value unknown: ",
                *value as u64,
            ),
            ProtoErrorKind::UnknownDnsClassStr(value) => with_text(
                "dns class string unknown: ",
                value.as_str(),
            ),
            ProtoErrorKind::UnknownDnsClassValue(value) => with_decimal(
                "dns class value unknown: ",
                *value as u64,
            ),
            ProtoErrorKind::UnrecognizedLabelCode(value) => with_binary(
                "unrecognized label code: ",
                *value as u64,
            ),
            ProtoErrorKind::UnrecognizedNsec3Flags(value) => with_binary(
                "nsec3 flags should be 0b0000000*: ",
                *value as u64,
            ),
            ProtoErrorKind::UnknownRecordTypeStr(value) => with_text(
                "record type string unknown: ",
                value.as_str(),
            ),
            ProtoErrorKind::UnknownRecordTypeValue(value) => with_decimal(
                "record type value unknown: ",
                *value as u64,
            ),
            ProtoErrorKind::IllegalCharacter(ch) => with_char("illegal character input: ", *ch),
            ProtoErrorKind::UnrecognizedChar(ch) => with_char(
                "unrecognized character input: ",
                *ch,
            ),
            ProtoErrorKind::BadEscapedData(string) => with_text(
                "escaped data not recognized: ",
                string.as_str(),
            ),
            ProtoErrorKind::UnrecognizedOctet(octet) => with_hex(
                "unrecognized octet: ",
                *octet as u64,
            ),
            ProtoErrorKind::UnrecognizedDollar(string) => with_text(
                "unrecognized dollar content: ",
                string.as_str(),
            ),
            ProtoErrorKind::IllegalState(string) => with_text("illegal state: ", *string),
            ProtoErrorKind::UnexpectedToken(token) => with_text(
                "unrecognized token in stream: ",
                token.as_str(),
            ),
            ProtoErrorKind::MissingToken(string) => with_text(
                "token is missing: ",
                string.as_str(),
            ),
            ProtoErrorKind::CharToIntError(ch) => with_char("invalid numerical character: ", *ch),
            ProtoErrorKind::ParseTimeError(string) => with_text(
                "invalid time string: ",
                string.as_str(),
            ),
            _ => String::from_str(self.description()),
        }
    }
}

/// `head` followed by `tail`.
fn with_text(head: &str, tail: &str) -> (s: String)
    ensures
        s@ == head@ + tail@,
{
    let mut s = String::from_str(head);
    s.append(tail);
    s
}

/// `head` followed by the one character `ch`.
fn with_char(head: &str, ch: char) -> (s: String)
    ensures
        s@ == head@ + seq![ch],
{
    let mut s = String::from_str(head);
    s.push(ch);
    assert(s@ =~= head@ + seq![ch]);
    s
}

/// `head` followed by `n` in decimal.
fn with_decimal(head: &str, n: u64) -> (s: String)
    ensures
        s@ == head@ + decimal_text(n as nat),
{
    let mut s = String::from_str(head);
    push_decimal(&mut s, n);
    s
}

/// `head` followed by `n` in binary.
fn with_binary(head: &str, n: u64) -> (s: String)
    ensures
        s@ == head@ + binary_text(n as nat),
{
    let mut s = String::from_str(head);
    push_binary(&mut s, n);
    s
}

/// `head` followed by `n` in lower-case hexadecimal.
fn with_hex(head: &str, n: u64) -> (s: String)
    ensures
        s@ == head@ + hex_text(n as nat),
{
    let mut s = String::from_str(head);
    push_hex(&mut s, n);
    s
}

/// `head`, `a` in decimal, `between`, and `b` in decimal.
fn with_two_decimals(head: &str, a: u64, between: &str, b: u64) -> (s: String)
    ensures
        s@ == head@ + decimal_text(a as nat) + between@ + decimal_text(b as nat),
{
    let mut s = String::from_str(head);
    push_decimal(&mut s, a);
    s.append(between);
    push_decimal(&mut s, b);
    s
}

/// The message of every failure holds each value that the failure carries,
/// written out in full, and holds them in the order in which the variant
/// carries them.
pub proof fn lemma_rendering_holds_payload(kind: ProtoErrorKind)
    ensures
        holds_in_order(kind.rendering(), kind.payload_texts()),
        forall|i: int|
            0 <= i < kind.payload_texts().len() ==> contains_text(
                kind.rendering(),
                #[trigger] kind.payload_texts()[i],
            ),
{
    lemma_rendering_holds_payload_in_order(kind);
    assert forall|i: int| 0 <= i < kind.payload_texts().len() implies contains_text(
        kind.rendering(),
        #[trigger] kind.payload_texts()[i],
    ) by {
        lemma_held_part_is_contained(kind.rendering(), kind.payload_texts(), i);
    }
}

/// The values that a failure carries stand in its message in the order in
/// which the variant carries them.
proof fn lemma_rendering_holds_payload_in_order(kind: ProtoErrorKind)
    ensures
        holds_in_order(kind.rendering(), kind.payload_texts()),
{
    match kind {
        ProtoErrorKind::Canceled(_) => lemma_holds_last(
            "future was canceled: "@,
            canceled_debug_text(),
        ),
        ProtoErrorKind::CharacterDataTooLong(len) => lemma_holds_last(
            "char data length exceeds 255: "@,
            decimal_text(len as nat),
        ),
        ProtoErrorKind::DnsKeyProtocolNot3(value) => lemma_holds_last(
            "dns key value unknown, must be 3: "@,
            decimal_text(value as nat),
        ),
        ProtoErrorKind::DomainNameTooLong(len) => lemma_holds_last(
            "name label data exceed 255: "@,
            decimal_text(len as nat),
        ),
        ProtoErrorKind::EdnsNameNotRoot(found) => lemma_holds_last(
            "edns resource record label must be the root label (.): "@,
            found@,
        ),
        ProtoErrorKind::LabelBytesTooLong(len) => lemma_holds_last(
            "label bytes exceed 63: "@,
            decimal_text(len as nat),
        ),
        ProtoErrorKind::Message(msg) => lemma_holds_itself(msg@),
        ProtoErrorKind::NotAllBytesSent(sent, expect) => lemma_holds_two(
            "not all bytes were sent: "@,
            decimal_text(sent as nat),
            ", expected: "@,
            decimal_text(expect as nat),
        ),
        ProtoErrorKind::NotAllBytesReceived(received, expect) => lemma_holds_two(
            "not all bytes were recieved: "@,
            decimal_text(received as nat),
            ", expected: "@,
            decimal_text(expect as nat),
        ),
        ProtoErrorKind::IncorrectMessageId(got, expect) => lemma_holds_two(
            "incorrectMessageId got: "@,
            decimal_text(got as nat),
            ", expected: "@,
            decimal_text(expect as nat),
        ),
        ProtoErrorKind::IncorrectRDataLengthRead(read, len) => lemma_holds_two(
            "incorrect rdata length read: "@,
            decimal_text(read as nat),
            " expected: "@,
            decimal_text(len as nat),
        ),
        ProtoErrorKind::UnknownAlgorithmTypeValue(value) => lemma_holds_last(
            "algorithm type value unknown: "@,
            decimal_text(value as nat),
        ),
        ProtoErrorKind::UnknownDnsClassStr(value) => lemma_holds_last(
            "dns class string unknown: "@,
            value@,
        ),
        ProtoErrorKind::UnknownDnsClassValue(value) => lemma_holds_last(
            "dns class value unknown: "@,
            decimal_text(value as nat),
        ),
        ProtoErrorKind::UnrecognizedLabelCode(value) => lemma_holds_last(
            "unrecognized label code: "@,
            binary_text(value as nat),
        ),
        ProtoErrorKind::UnrecognizedNsec3Flags(value) => lemma_holds_last(
            "nsec3 flags should be 0b0000000*: "@,
            binary_text(value as nat),
        ),
        ProtoErrorKind::UnknownRecordTypeStr(value) => lemma_holds_last(
            "record type string unknown: "@,
            value@,
        ),
        ProtoErrorKind::UnknownRecordTypeValue(value) => lemma_holds_last(
            "record type value unknown: "@,
            decimal_text(value as nat),
        ),
        ProtoErrorKind::IllegalCharacter(ch) => lemma_holds_last(
            "illegal character input: "@,
            seq![ch],
        ),
        ProtoErrorKind::UnrecognizedChar(ch) => lemma_holds_last(
            "unrecognized character input: "@,
            seq![ch],
        ),
        ProtoErrorKind::BadEscapedData(string) => lemma_holds_last(
            "escaped data not recognized: "@,
            string@,
        ),
        ProtoErrorKind::UnrecognizedOctet(octet) => lemma_holds_last(
            "unrecognized octet: "@,
            hex_text(octet as nat),
        ),
        ProtoErrorKind::UnrecognizedDollar(string) => lemma_holds_last(
            "unrecognized dollar content: "@,
            string@,
        ),
        ProtoErrorKind::IllegalState(string) => lemma_holds_last("illegal state: "@, string@),
        ProtoErrorKind::UnexpectedToken(token) => lemma_holds_last(
            "unrecognized token in stream: "@,
            token@,
        ),
        ProtoErrorKind::MissingToken(string) => lemma_holds_last("token is missing: "@, string@),
        ProtoErrorKind::CharToIntError(ch) => lemma_holds_last(
            "invalid numerical character: "@,
            seq![ch],
        ),
        ProtoErrorKind::ParseTimeError(string) => lemma_holds_last(
            "invalid time string: "@,
            string@,
        ),
        _ => {},
    }
}

} // verus!
