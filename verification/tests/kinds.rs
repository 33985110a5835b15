use futures::sync::oneshot::Canceled;
use proto_error::{ProtoError, ProtoErrorKind};

/// Every variant of the catalog, with its description and its message.
fn catalog() -> Vec<(ProtoErrorKind, &'static str, &'static str)> {
    vec![
        (ProtoErrorKind::Io, "io error", "io error"),
        (
            ProtoErrorKind::AddrParseError,
            "network address parse error",
            "network address parse error",
        ),
        (ProtoErrorKind::ParseIntError, "error parsing number", "error parsing number"),
        (ProtoErrorKind::FromUtf8Error, "utf8 conversion error", "utf8 conversion error"),
        (ProtoErrorKind::SSL, "ssl error", "ssl error"),
        (
            ProtoErrorKind::Canceled(Canceled),
            "future was canceled",
            "future was canceled: Canceled",
        ),
        (
            ProtoErrorKind::CharacterDataTooLong(256),
            "char data length exceeds 255",
            "char data length exceeds 255: 256",
        ),
        (
            ProtoErrorKind::DnsKeyProtocolNot3(4),
            "dns key value unknown, must be 3",
            "dns key value unknown, must be 3: 4",
        ),
        (
            ProtoErrorKind::DomainNameTooLong(300),
            "name label data exceed 255",
            "name label data exceed 255: 300",
        ),
        (
            ProtoErrorKind::EdnsNameNotRoot("example.com.".to_string()),
            "edns resource record label must be the root label (.)",
            "edns resource record label must be the root label (.): example.com.",
        ),
        (
            ProtoErrorKind::LabelBytesTooLong(70),
            "label bytes exceed 63",
            "label bytes exceed 63: 70",
        ),
        (ProtoErrorKind::Message("bad things"), "bad things", "bad things"),
        (ProtoErrorKind::NoError, "no error specified", "no error specified"),
        (
            ProtoErrorKind::NotAllBytesSent(10, 512),
            "not all bytes were sent",
            "not all bytes were sent: 10, expected: 512",
        ),
        (
            ProtoErrorKind::NotAllBytesReceived(600, 512),
            "not all bytes were recieved",
            "not all bytes were recieved: 600, expected: 512",
        ),
        (
            ProtoErrorKind::IncorrectMessageId(42, 7),
            "incorrectMessageId received",
            "incorrectMessageId got: 42, expected: 7",
        ),
        (
            ProtoErrorKind::IncorrectRDataLengthRead(12, 16),
            "incorrect rdata length read",
            "incorrect rdata length read: 12 expected: 16",
        ),
        (ProtoErrorKind::Timeout, "request timeout", "request timed out"),
        (
            ProtoErrorKind::UnknownAlgorithmTypeValue(200),
            "algorithm type value unknown",
            "algorithm type value unknown: 200",
        ),
        (
            ProtoErrorKind::UnknownDnsClassStr("XX".to_string()),
            "dns class string unknown",
            "dns class string unknown: XX",
        ),
        (
            ProtoErrorKind::UnknownDnsClassValue(65535),
            "dns class value unknown",
            "dns class value unknown: 65535",
        ),
        (
            ProtoErrorKind::UnrecognizedLabelCode(0b1000_0000),
            "unrecognized label code",
            "unrecognized label code: 10000000",
        ),
        (
            ProtoErrorKind::UnrecognizedNsec3Flags(0b0000_0110),
            "nsec3 flags should be 0b0000000*",
            "nsec3 flags should be 0b0000000*: 110",
        ),
        (
            ProtoErrorKind::UnknownRecordTypeStr("BOGUS".to_string()),
            "record type string unknown",
            "record type string unknown: BOGUS",
        ),
        (
            ProtoErrorKind::UnknownRecordTypeValue(1234),
            "record type value unknown",
            "record type value unknown: 1234",
        ),
        (
            ProtoErrorKind::EscapedCharOutsideCharData,
            "escaped character outside character data",
            "escaped character outside character data",
        ),
        (
            ProtoErrorKind::IllegalCharacter('#'),
            "illegal character input",
            "illegal character input: #",
        ),
        (
            ProtoErrorKind::UnrecognizedChar('\u{e9}'),
            "unrecognized character input",
            "unrecognized character input: \u{e9}",
        ),
        (
            ProtoErrorKind::BadEscapedData("\\q".to_string()),
            "escaped data not recognized",
            "escaped data not recognized: \\q",
        ),
        (
            ProtoErrorKind::UnrecognizedOctet(0x1af),
            "unrecognized octet",
            "unrecognized octet: 1af",
        ),
        (
            ProtoErrorKind::UnclosedQuotedString,
            "unclosed quoted string",
            "unclosed quoted string",
        ),
        (ProtoErrorKind::UnclosedList, "unclosed list, missing ')'", "unclosed list, missing ')'"),
        (
            ProtoErrorKind::UnrecognizedDollar("$FOO".to_string()),
            "unrecognized dollar content",
            "unrecognized dollar content: $FOO",
        ),
        (ProtoErrorKind::EOF, "unexpected end of input", "unexpected end of input"),
        (
            ProtoErrorKind::IllegalState("no origin"),
            "illegal state",
            "illegal state: no origin",
        ),
        (
            ProtoErrorKind::UnexpectedToken("CharData(\"IN\")".to_string()),
            "unrecognized token in stream",
            "unrecognized token in stream: CharData(\"IN\")",
        ),
        (
            ProtoErrorKind::MissingToken("ttl".to_string()),
            "token is missing",
            "token is missing: ttl",
        ),
        (
            ProtoErrorKind::CharToIntError('x'),
            "invalid numerical character",
            "invalid numerical character: x",
        ),
        (
            ProtoErrorKind::ParseTimeError("1x".to_string()),
            "invalid time string",
            "invalid time string: 1x",
        ),
    ]
}

#[test]
fn catalog_has_every_variant_once() {
    let all = catalog();
    assert_eq!(all.len(), 39);
    for i in 0..all.len() {
        for j in 0..all.len() {
            if i != j {
                assert_ne!(all[i].0, all[j].0);
            }
        }
    }
}

#[test]
fn every_kind_describes_itself() {
    for (kind, description, _) in catalog() {
        assert_eq!(kind.description(), description);
    }
}

#[test]
fn every_kind_renders_its_template() {
    for (kind, _, message) in catalog() {
        assert_eq!(kind.render(), message);
    }
}

#[test]
fn rendering_is_the_same_each_time() {
    for (kind, _, _) in catalog() {
        assert_eq!(kind.render(), kind.render());
        assert_eq!(kind.description(), kind.description());
    }
}

#[test]
fn description_does_not_depend_on_the_payload() {
    assert_eq!(
        ProtoErrorKind::LabelBytesTooLong(64).description(),
        ProtoErrorKind::LabelBytesTooLong(1000).description()
    );
    assert_eq!(
        ProtoErrorKind::NotAllBytesSent(1, 2).description(),
        ProtoErrorKind::NotAllBytesSent(3, 4).description()
    );
    assert_eq!(
        ProtoErrorKind::UnknownDnsClassStr("A".to_string()).description(),
        ProtoErrorKind::UnknownDnsClassStr("B".to_string()).description()
    );
}

#[test]
fn label_bytes_too_long_renders_the_length() {
    let chain = ProtoError::from(ProtoErrorKind::LabelBytesTooLong(70));
    let text = chain.render();
    assert!(text.contains("70"));
    assert_eq!(text, "label bytes exceed 63: 70");
}

#[test]
fn incorrect_message_id_renders_got_then_expected() {
    let text = ProtoErrorKind::IncorrectMessageId(42, 7).render();
    assert_eq!(text, "incorrectMessageId got: 42, expected: 7");
    let got = text.find("42").unwrap();
    let expect = text.rfind("7").unwrap();
    assert!(got < expect);
}

#[test]
fn two_values_keep_their_order() {
    assert_eq!(
        ProtoErrorKind::NotAllBytesSent(7, 42).render(),
        "not all bytes were sent: 7, expected: 42"
    );
    assert_eq!(
        ProtoErrorKind::NotAllBytesSent(42, 7).render(),
        "not all bytes were sent: 42, expected: 7"
    );
    assert_eq!(
        ProtoErrorKind::IncorrectRDataLengthRead(0, 65535).render(),
        "incorrect rdata length read: 0 expected: 65535"
    );
}

#[test]
fn numbers_render_at_their_limits() {
    assert_eq!(
        ProtoErrorKind::LabelBytesTooLong(0).render(),
        "label bytes exceed 63: 0"
    );
    assert_eq!(
        ProtoErrorKind::DomainNameTooLong(usize::MAX).render(),
        format!("name label data exceed 255: {}", usize::MAX)
    );
    assert_eq!(
        ProtoErrorKind::DnsKeyProtocolNot3(255).render(),
        "dns key value unknown, must be 3: 255"
    );
    assert_eq!(
        ProtoErrorKind::UnknownRecordTypeValue(0).render(),
        "record type value unknown: 0"
    );
    assert_eq!(
        ProtoErrorKind::IncorrectMessageId(65535, 0).render(),
        "incorrectMessageId got: 65535, expected: 0"
    );
}

#[test]
fn flag_octets_render_in_binary() {
    for value in 0..=255u8 {
        assert_eq!(
            ProtoErrorKind::UnrecognizedLabelCode(value).render(),
            format!("unrecognized label code: {:b}", value)
        );
        assert_eq!(
            ProtoErrorKind::UnrecognizedNsec3Flags(value).render(),
            format!("nsec3 flags should be 0b0000000*: {:b}", value)
        );
    }
}

#[test]
fn octets_render_in_lower_case_hexadecimal() {
    for octet in [0u32, 9, 10, 15, 16, 255, 256, 0xabcdef, 0xdead_beef, u32::MAX] {
        assert_eq!(
            ProtoErrorKind::UnrecognizedOctet(octet).render(),
            format!("unrecognized octet: {:x}", octet)
        );
    }
}

#[test]
fn texts_render_as_they_are() {
    assert_eq!(
        ProtoErrorKind::MissingToken(String::new()).render(),
        "token is missing: "
    );
    assert_eq!(ProtoErrorKind::Message("").render(), "");
    assert_eq!(ProtoErrorKind::Message("").description(), "");
    assert_eq!(
        ProtoErrorKind::UnknownRecordTypeStr("\u{4f8b}\u{3048}".to_string()).render(),
        "record type string unknown: \u{4f8b}\u{3048}"
    );
    assert_eq!(
        ProtoErrorKind::IllegalCharacter('\u{1f600}').render(),
        "illegal character input: \u{1f600}"
    );
}

#[test]
fn canceled_renders_the_notice_as_it_prints() {
    assert_eq!(
        ProtoErrorKind::Canceled(Canceled).render(),
        format!("future was canceled: {:?}", Canceled)
    );
}

#[test]
fn from_kind_round_trips_every_variant() {
    let expected = catalog();
    let mut i: usize = 0;
    for (kind, _, message) in catalog() {
        let chain = ProtoError::from(kind);
        assert_eq!(chain.kind(), &expected[i].0);
        assert!(chain.cause().is_none());
        assert_eq!(chain.render(), message);
        assert_eq!(chain.description(), expected[i].1);
        i += 1;
    }
    assert_eq!(i, 39);
}

#[test]
fn from_kind_and_the_named_constructor_agree() {
    let a = ProtoError::from(ProtoErrorKind::Timeout);
    let b = ProtoError::from_kind(ProtoErrorKind::Timeout);
    let c: ProtoError = ProtoErrorKind::Timeout.into();
    assert_eq!(a.kind(), b.kind());
    assert_eq!(b.kind(), c.kind());
    assert!(b.cause().is_none());
    assert!(c.cause().is_none());
}
