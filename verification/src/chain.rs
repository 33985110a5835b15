//! The chain: a failure of the catalog together with what caused it, and the
//! message of the whole.

use crate::foreign::{canceled_message, canceled_message_text, AddrParseFailure};
use crate::kind::ProtoErrorKind;
use crate::not_openssl::SslErrorStack;
use crate::text::{
    contains_text, holds_in_order, lemma_held_part_is_contained, lemma_holds_in_order_after,
    lemma_holds_in_order_first, lemma_holds_itself,
};
use futures::sync::oneshot::Canceled;
use vstd::prelude::*;
use vstd::std_specs::convert::FromSpec;

verus! {

/// What caused a failure: a failure raised outside the catalog, kept as the
/// value that was raised, or another chain.
#[derive(Debug)]
pub enum Cause {
    /// An input or output operation failed.
    Io(std::io::Error),
    /// A network address could not be read from text.
    AddrParse(AddrParseFailure),
    /// An integer could not be read from text.
    ParseInt(std::num::ParseIntError),
    /// Bytes were not valid UTF-8.
    FromUtf8(std::string::FromUtf8Error),
    /// The cryptographic backend is not in use.
    Ssl(SslErrorStack),
    /// The cryptographic backend failed.
    SslBackend(openssl::error::ErrorStack),
    /// A pending wait was given up.
    Canceled(Canceled),
    /// A failure of the catalog, with its own cause.
    Chain(Box<ProtoError>),
}

/// A failure of the catalog together with what caused it, if that is known.
/// A chain is made once and not changed afterwards; it owns its cause.
#[derive(Debug)]
pub struct ProtoError {
    kind: ProtoErrorKind,
    cause: Option<Cause>,
}

/// The outcome of an operation that fails with a chain.
pub type ProtoResult<T> = Result<T, ProtoError>;

/// What stands between the message of a failure and the message of its cause.
pub open spec fn caused_by() -> Seq<char> {
    ": caused by "@
}

impl Cause {
    /// Whether the cause is a value whose message is written by code outside
    /// this library and not fixed here.
    pub open spec fn is_outside(self) -> bool {
        self is Io || self is ParseInt || self is FromUtf8 || self is SslBackend
    }

    /// Whether the chain of causes that starts here ends in such a value.
    pub open spec fn has_outside_root(self) -> bool
        decreases self,
    {
        match self {
            Cause::Chain(inner) => inner.has_outside_root(),
            _ => self.is_outside(),
        }
    }

    /// Whether the chain of causes that starts here ends in a value whose
    /// message is written outside this library, and `text` is what that value
    /// prints.
    pub open spec fn root_prints(self, text: String) -> bool
        decreases self,
    {
        match self {
            Cause::Io(e) => vstd::string::to_string_from_display_ensures::<std::io::Error>(
                &e,
                text,
            ),
            Cause::ParseInt(e) => vstd::string::to_string_from_display_ensures::<
                std::num::ParseIntError,
            >(&e, text),
            Cause::FromUtf8(e) => vstd::string::to_string_from_display_ensures::<
                std::string::FromUtf8Error,
            >(&e, text),
            Cause::SslBackend(e) => vstd::string::to_string_from_display_ensures::<
                openssl::error::ErrorStack,
            >(&e, text),
            Cause::Chain(inner) => inner.root_prints(text),
            _ => false,
        }
    }

    /// The message of the cause, where `leaf` is what the value at the end of
    /// the chain prints if that value is one whose message is not fixed here.
    pub open spec fn rendering_with(self, leaf: Seq<char>) -> Seq<char>
        decreases self,
    {
        match self {
            Cause::AddrParse(failure) => failure.message_text(),
            Cause::Ssl(_) => SslErrorStack::message(),
            Cause::Canceled(_) => canceled_message_text(),
            Cause::Chain(inner) => inner.rendering_with(leaf),
            _ => leaf,
        }
    }

    /// The message of a cause that does not end in a value whose message is
    /// written outside this library.
    pub open spec fn rendering(self) -> Seq<char> {
        self.rendering_with(Seq::empty())
    }

    /// The messages along the chain of causes that starts here, outermost
    /// first.
    pub open spec fn messages_with(self, leaf: Seq<char>) -> Seq<Seq<char>>
        decreases self,
    {
        match self {
            Cause::Chain(inner) => inner.messages_with(leaf),
            _ => seq![self.rendering_with(leaf)],
        }
    }

    /// What a cause that is not a chain prints, if its message is written
    /// outside this library.
    fn value_text(&self) -> (text: Option<String>)
        requires
            !(self is Chain),
        ensures
            match text {
                Some(printed) => self.root_prints(printed),
                None => !self.is_outside(),
            },
    {
        match self {
            Cause::Io(e) => Some(e.to_string()),
            Cause::ParseInt(e) => Some(e.to_string()),
            Cause::FromUtf8(e) => Some(e.to_string()),
            Cause::SslBackend(e) => Some(e.to_string()),
            _ => None,
        }
    }

    /// The message of a cause that is not a chain.
    fn render_value(&self, leaf: &str) -> (s: String)
        requires
            !(self is Chain),
        ensures
            s@ == self.rendering_with(leaf@),
    {
        match self {
            Cause::AddrParse(failure) => String::from_str(failure.message()),
            Cause::Ssl(placeholder) => placeholder.render(),
            Cause::Canceled(c) => canceled_message(c),
            _ => String::from_str(leaf),
        }
    }

    /// What the value at the end of the chain prints, if its message is
    /// written outside this library; `None` if the chain does not end in such
    /// a value. Nothing is known of the text but that it is what the value
    /// printed.
    pub fn outside_text(&self) -> (text: Option<String>)
        ensures
            match text {
                Some(printed) => self.root_prints(printed),
                None => !self.has_outside_root(),
            },
    {
        match self {
            Cause::Chain(inner) => inner.outside_text(),
            _ => self.value_text(),
        }
    }

    /// The message of the cause, given what the value at the end of the chain
    /// prints.
    pub fn render_with(&self, leaf: &str) -> (s: String)
        ensures
            s@ == self.rendering_with(leaf@),
    {
        match self {
            Cause::Chain(inner) => inner.render_with(leaf),
            _ => self.render_value(leaf),
        }
    }

    /// The message of the cause, for display. Where the chain ends in a value
    /// whose message is written outside this library, that value is asked for
    /// it.
    pub fn render(&self) -> (s: String)
        ensures
            self.has_outside_root() ==> exists|leaf: String| #[trigger]
                self.root_prints(leaf) && s@ == self.rendering_with(leaf@),
            !self.has_outside_root() ==> s@ == self.rendering(),
    {
        match self.outside_text() {
            Some(leaf) => {
                proof {
                    if let Cause::Chain(inner) = self {
                        lemma_printing_root_is_outside(**inner, leaf);
                    }
                }
                self.render_with(leaf.as_str())
            },
            None => {
                proof {
                    reveal_strlit("");
                    assert(""@ =~= Seq::<char>::empty());
                }
                self.render_with("")
            },
        }
    }
}

impl ProtoError {
    /// The failure that the chain reports.
    pub closed spec fn spec_kind(self) -> ProtoErrorKind {
        self.kind
    }

    /// What caused the failure, if that is known.
    pub closed spec fn spec_cause(self) -> Option<Cause> {
        self.cause
    }

    /// The chain that reports `kind` as caused by `cause`.
    pub closed spec fn spec_wrap(kind: ProtoErrorKind, cause: Option<Cause>) -> ProtoError {
        ProtoError { kind, cause }
    }

    /// Whether the chain ends in a value whose message is written by code
    /// outside this library and not fixed here.
    pub open spec fn has_outside_root(self) -> bool
        decreases self,
    {
        match self.spec_cause() {
            Some(cause) => cause.has_outside_root(),
            None => false,
        }
    }

    /// Whether the chain ends in a value whose message is written outside this
    /// library, and `text` is what that value prints.
    pub open spec fn root_prints(self, text: String) -> bool
        decreases self,
    {
        match self.spec_cause() {
            Some(cause) => cause.root_prints(text),
            None => false,
        }
    }

    /// The number of causes below the failure that the chain reports.
    pub open spec fn depth(self) -> nat
        decreases self,
    {
        match self.spec_cause() {
            Some(Cause::Chain(inner)) => 1 + inner.depth(),
            Some(_) => 1,
            None => 0,
        }
    }

    /// The message of the whole chain: the message of the failure and, where
    /// there is a cause, `: caused by ` and the message of the cause, which is
    /// made in the same way. `leaf` is what the value at the end of the chain
    /// prints if that value is one whose message is not fixed here.
    pub open spec fn rendering_with(self, leaf: Seq<char>) -> Seq<char>
        decreases self,
    {
        match self.spec_cause() {
            Some(cause) => self.spec_kind().rendering() + caused_by() + cause.rendering_with(leaf),
            None => self.spec_kind().rendering(),
        }
    }

    /// The message of a chain that does not end in a value whose message is
    /// written outside this library.
    pub open spec fn rendering(self) -> Seq<char> {
        self.rendering_with(Seq::empty())
    }

    /// The messages along the chain, outermost first: the message of the
    /// failure, then that of each cause down to the last.
    pub open spec fn messages_with(self, leaf: Seq<char>) -> Seq<Seq<char>>
        decreases self,
    {
        match self.spec_cause() {
            Some(cause) => seq![self.spec_kind().rendering()] + cause.messages_with(leaf),
            None => seq![self.spec_kind().rendering()],
        }
    }

    /// Attaches a cause, if there is one, to a failure.
    pub fn wrap(kind: ProtoErrorKind, cause: Option<Cause>) -> (chain: ProtoError)
        ensures
            chain == Self::spec_wrap(kind, cause),
            chain.spec_kind() == kind,
            chain.spec_cause() == cause,
    {
        ProtoError { kind, cause }
    }

    /// The chain for a failure that has no cause.
    pub fn from_kind(kind: ProtoErrorKind) -> (chain: ProtoError)
        ensures
            chain == Self::spec_wrap(kind, None),
            chain.spec_kind() == kind,
            chain.spec_cause() is None,
    {
        ProtoError { kind, cause: None }
    }

    /// The failure that the chain reports.
    pub fn kind(&self) -> (kind: &ProtoErrorKind)
        ensures
            *kind == self.spec_kind(),
    {
        &self.kind
    }

    /// What caused the failure, if that is known.
    pub fn cause(&self) -> (cause: Option<&Cause>)
        ensures
            match cause {
                Some(c) => self.spec_cause() == Some(*c),
                None => self.spec_cause() is None,
            },
    {
        self.cause.as_ref()
    }

    /// Takes the chain apart into the failure and what caused it.
    pub fn into_parts(self) -> (parts: (ProtoErrorKind, Option<Cause>))
        ensures
            parts.0 == self.spec_kind(),
            parts.1 == self.spec_cause(),
    {
        (self.kind, self.cause)
    }

    /// The short description of the failure that the chain reports.
    pub fn description(&self) -> (s: &'static str)
        ensures
            s@ == self.spec_kind().description_text(),
    {
        self.kind.description()
    }

    /// What the value at the end of the chain prints, if its message is
    /// written outside this library; `None` if the chain does not end in such
    /// a value.
    pub fn outside_text(&self) -> (text: Option<String>)
        ensures
            match text {
                Some(printed) => self.root_prints(printed),
                None => !self.has_outside_root(),
            },
    {
        let mut link: &ProtoError = self;
        loop
            invariant
                link.has_outside_root() == self.has_outside_root(),
                forall|printed: String| link.root_prints(printed) == self.root_prints(printed),
            decreases link.depth(),
        {
            match &link.cause {
                Some(Cause::Chain(inner)) => {
                    link = &**inner;
                },
                Some(cause) => {
                    return cause.value_text();
                },
                None => {
                    return None;
                },
            }
        }
    }

    /// The message of the whole chain, given what the value at its end prints.
    /// The chain is walked link by link, however long it is.
    pub fn render_with(&self, leaf: &str) -> (s: String)
        ensures
            s@ == self.rendering_with(leaf@),
    {
        let mut s = String::new();
        let mut link: &ProtoError = self;
        loop
            invariant
                s@ + link.rendering_with(leaf@) == self.rendering_with(leaf@),
            decreases link.depth(),
        {
            let message = link.kind.render();
            s.append(message.as_str());
            match &link.cause {
                Some(Cause::Chain(inner)) => {
                    s.append(": caused by ");
                    assert(s@ + inner.rendering_with(leaf@) =~= self.rendering_with(leaf@));
                    link = &**inner;
                },
                Some(cause) => {
                    let last = cause.render_value(leaf);
                    s.append(": caused by ");
                    s.append(last.as_str());
                    assert(s@ =~= self.rendering_with(leaf@));
                    return s;
                },
                None => {
                    assert(s@ =~= self.rendering_with(leaf@));
                    return s;
                },
            }
        }
    }

    /// The message of the whole chain, for display. Where the chain ends in a
    /// value whose message is written outside this library, that value is
    /// asked for it.
    pub fn render(&self) -> (s: String)
        ensures
            self.has_outside_root() ==> exists|leaf: String| #[trigger]
                self.root_prints(leaf) && s@ == self.rendering_with(leaf@),
            !self.has_outside_root() ==> s@ == self.rendering(),
    {
        match self.outside_text() {
            Some(leaf) => {
                proof {
                    lemma_printing_root_is_outside(*self, leaf);
                }
                self.render_with(leaf.as_str())
            },
            None => {
                proof {
                    reveal_strlit("");
                    assert(""@ =~= Seq::<char>::empty());
                }
                self.render_with("")
            },
        }
    }
}

impl From<ProtoErrorKind> for ProtoError {
    /// A failure found here, with no cause.
    fn from(kind: ProtoErrorKind) -> (chain: ProtoError)
        ensures
            chain.spec_kind() == kind,
            chain.spec_cause() is None,
    {
        ProtoError::from_kind(kind)
    }
}

impl vstd::std_specs::convert::FromSpecImpl<ProtoErrorKind> for ProtoError {
    open spec fn obeys_from_spec() -> bool {
        true
    }

    open spec fn from_spec(kind: ProtoErrorKind) -> ProtoError {
        ProtoError::spec_wrap(kind, None)
    }
}

/// A chain is what it was made of: reading back the failure and the cause of
/// a chain gives the failure and the cause that it was made with.
pub proof fn lemma_wrap_keeps_parts(kind: ProtoErrorKind, cause: Option<Cause>)
    ensures
        ProtoError::spec_wrap(kind, cause).spec_kind() == kind,
        ProtoError::spec_wrap(kind, cause).spec_cause() == cause,
{
}

/// The chain made from a failure alone reports that failure, whichever it
/// is, and has no cause.
pub proof fn lemma_from_kind_round_trip(kind: ProtoErrorKind)
    ensures
        <ProtoError as FromSpec<ProtoErrorKind>>::from_spec(kind).spec_kind() == kind,
        <ProtoError as FromSpec<ProtoErrorKind>>::from_spec(kind).spec_cause() is None,
{
}

/// The message of a chain that does not end in a value whose message is
/// written outside this library is the same whatever such a value would
/// print.
pub proof fn lemma_rendering_ignores_leaf(chain: ProtoError, a: Seq<char>, b: Seq<char>)
    requires
        !chain.has_outside_root(),
    ensures
        chain.rendering_with(a) == chain.rendering_with(b),
    decreases chain,
{
    match chain.spec_cause() {
        Some(Cause::Chain(inner)) => lemma_rendering_ignores_leaf(*inner, a, b),
        _ => {},
    }
}

/// The message of a chain with a cause holds the message of the failure and
/// after it the message of the cause.
pub proof fn lemma_rendering_holds_failure_then_cause(chain: ProtoError, leaf: Seq<char>)
    requires
        chain.spec_cause() is Some,
    ensures
        holds_in_order(
            chain.rendering_with(leaf),
            seq![
                chain.spec_kind().rendering(),
                chain.spec_cause().unwrap().rendering_with(leaf),
            ],
        ),
{
    let outer = chain.spec_kind().rendering();
    let below = chain.spec_cause().unwrap().rendering_with(leaf);
    lemma_holds_itself(below);
    lemma_holds_in_order_after(caused_by(), below, seq![below]);
    lemma_holds_in_order_first(outer, caused_by() + below, seq![below]);
    assert(seq![outer] + seq![below] =~= seq![outer, below]);
    assert(outer + (caused_by() + below) =~= outer + caused_by() + below);
}

/// The message of a chain holds the message of every failure along the chain
/// and that of the last cause, outermost first, however long the chain is.
pub proof fn lemma_rendering_holds_messages(chain: ProtoError, leaf: Seq<char>)
    ensures
        holds_in_order(chain.rendering_with(leaf), chain.messages_with(leaf)),
        chain.messages_with(leaf).len() == chain.depth() + 1,
        forall|i: int|
            0 <= i <= chain.depth() ==> contains_text(
                chain.rendering_with(leaf),
                #[trigger] chain.messages_with(leaf)[i],
            ),
{
    lemma_rendering_holds_messages_in_order(chain, leaf);
    assert forall|i: int| 0 <= i <= chain.depth() implies contains_text(
        chain.rendering_with(leaf),
        #[trigger] chain.messages_with(leaf)[i],
    ) by {
        lemma_held_part_is_contained(chain.rendering_with(leaf), chain.messages_with(leaf), i);
    }
}

/// The messages along a chain stand in the message of the chain in their
/// order, and there is one for the failure and one for each cause.
proof fn lemma_rendering_holds_messages_in_order(chain: ProtoError, leaf: Seq<char>)
    ensures
        holds_in_order(chain.rendering_with(leaf), chain.messages_with(leaf)),
        chain.messages_with(leaf).len() == chain.depth() + 1,
    decreases chain,
{
    let outer = chain.spec_kind().rendering();
    match chain.spec_cause() {
        Some(cause) => {
            let below = cause.rendering_with(leaf);
            let messages = cause.messages_with(leaf);
            match cause {
                Cause::Chain(inner) => lemma_rendering_holds_messages_in_order(*inner, leaf),
                _ => lemma_holds_itself(below),
            }
            lemma_holds_in_order_after(caused_by(), below, messages);
            lemma_holds_in_order_first(outer, caused_by() + below, messages);
            assert(outer + (caused_by() + below) =~= outer + caused_by() + below);
        },
        None => lemma_holds_itself(outer),
    }
}

/// Only a chain that ends in a value whose message is written outside this
/// library has a text that such a value prints.
proof fn lemma_printing_root_is_outside(chain: ProtoError, text: String)
    requires
        chain.root_prints(text),
    ensures
        chain.has_outside_root(),
    decreases chain,
{
    match chain.spec_cause() {
        Some(Cause::Chain(inner)) => lemma_printing_root_is_outside(*inner, text),
        _ => {},
    }
}

} // verus!
