//! The principal error type: a category tag plus a message, optionally
//! wrapping another error as its cause. Causes form a singly linked chain
//! that always ends in a leaf (an error with no cause).

use vstd::prelude::*;

verus! {

/// The closed set of error categories.
#[derive(Clone, Copy, Debug, PartialEq, Eq, Structural)]
pub enum MiMuErrorKind {
    Misc,
}

impl MiMuErrorKind {
    /// The user-facing rendering of the category tag alone.
    pub open spec fn spec_display(self) -> Seq<char> {
        match self {
            MiMuErrorKind::Misc => "Misc"@,
        }
    }

    /// Renders the category tag as text.
    pub fn to_display_string(&self) -> (r: String)
        ensures
            r@ == self.spec_display(),
    {
        match self {
            MiMuErrorKind::Misc => "Misc".to_owned(),
        }
    }
}

/// The result type used throughout for operations that can fail with a
/// `MiMuError`.
pub type MiMuResult<T> = Result<T, MiMuError>;

/// The closed set of error families that a `MiMuError` may wrap as its
/// cause. Each family a wrapped cause can belong to gets its own variant;
/// at present the only family is `MiMuError` itself.
pub enum MiMuWrappedError {
    MiMu(Box<MiMuError>),
}

impl MiMuWrappedError {
    /// The error inside, whichever variant holds it.
    pub open spec fn spec_inner(self) -> MiMuError {
        match self {
            MiMuWrappedError::MiMu(e) => *e,
        }
    }

    /// The user-facing rendering, forwarded to the inner error.
    pub open spec fn spec_display(self) -> Seq<char> {
        self.spec_inner().spec_display()
    }

    /// The diagnostic rendering, forwarded to the inner error.
    pub open spec fn spec_debug(self) -> Seq<char> {
        self.spec_inner().spec_debug()
    }

    /// What the causal-chain accessor returns, forwarded to the inner
    /// error's own accessor (not the inner error itself).
    pub open spec fn spec_source(self) -> Option<MiMuError> {
        self.spec_inner().spec_source()
    }

    /// A reference to the error inside, whichever variant holds it.
    pub fn inner(&self) -> (r: &MiMuError)
        ensures
            *r == self.spec_inner(),
    {
        match self {
            MiMuWrappedError::MiMu(e) => e,
        }
    }

    /// Renders the inner error for users.
    pub fn to_display_string(&self) -> (r: String)
        ensures
            r@ == self.spec_display(),
    {
        self.inner().to_display_string()
    }

    /// Renders the inner error for diagnostics.
    pub fn to_debug_string(&self) -> (r: String)
        ensures
            r@ == self.spec_debug(),
        decreases *self,
    {
        match self {
            MiMuWrappedError::MiMu(e) => e.to_debug_string(),
        }
    }

    /// Calls the causal-chain accessor of the inner error and returns the
    /// result.
    pub fn source(&self) -> (r: Option<&MiMuError>)
        ensures
            r is None,
            self.spec_source() is None,
        decreases *self,
    {
        match self {
            MiMuWrappedError::MiMu(e) => e.source(),
        }
    }
}

/// Principal error value: a category tag, a message, and an optional
/// wrapped cause. Immutable once constructed.
pub struct MiMuError {
    kind: MiMuErrorKind,
    message: String,
    wrapped: Option<MiMuWrappedError>,
}

impl MiMuError {
    /// The category tag.
    pub closed spec fn spec_kind(self) -> MiMuErrorKind {
        self.kind
    }

    /// The message, as a sequence of characters.
    pub closed spec fn spec_message(self) -> Seq<char> {
        self.message@
    }

    /// The wrapped cause, if any.
    pub closed spec fn spec_wrapped(self) -> Option<MiMuWrappedError> {
        self.wrapped
    }

    /// A leaf error wraps no cause.
    pub open spec fn is_leaf(self) -> bool {
        self.spec_wrapped() is None
    }

    /// The user-facing rendering: the message alone, never the cause.
    pub closed spec fn spec_display(self) -> Seq<char> {
        self.message@
    }

    /// The diagnostic rendering: the message, then, if a cause is wrapped,
    /// the literal tag `"[WRAPPED ERROR]: "` followed by the cause's own
    /// diagnostic rendering.
    pub closed spec fn spec_debug(self) -> Seq<char>
        decreases self,
    {
        match self.wrapped {
            None => self.message@,
            Some(MiMuWrappedError::MiMu(e)) => self.message@ + "[WRAPPED ERROR]: "@ + e.spec_debug(),
        }
    }

    /// What the causal-chain accessor returns: nothing for a leaf, and for
    /// a wrapping error whatever the wrapped cause's own accessor returns.
    /// The wrapped cause forwards to the inner error, so each level hands
    /// the question one link further down; see `lemma_source_is_always_none`
    /// for the net effect of this forwarding.
    pub closed spec fn spec_source(self) -> Option<MiMuError>
        decreases self,
    {
        match self.wrapped {
            None => None,
            Some(MiMuWrappedError::MiMu(e)) => e.spec_source(),
        }
    }

    /// Creates a leaf error with a category tag and a message, wrapping no
    /// cause. For wrapping a cause, use `wrap`.
    pub fn new(kind: MiMuErrorKind, message: String) -> (r: Self)
        ensures
            r.spec_kind() == kind,
            r.spec_message() == message@,
            r.spec_wrapped() is None,
            r.spec_display() == message@,
            r.spec_debug() == message@,
            r.spec_source() is None,
    {
        Self { kind, message, wrapped: None }
    }

    /// Like `new`, but the error takes ownership of a wrapped cause.
    ///
    /// Only errors for which `MiMuWrappedError` has a variant can be
    /// wrapped. The diagnostic rendering of the result is exactly the
    /// message, then the literal tag `"[WRAPPED ERROR]: "`, then the
    /// cause's diagnostic rendering, with no added separators.
    pub fn wrap(kind: MiMuErrorKind, message: String, wrapped: MiMuWrappedError) -> (r: Self)
        ensures
            r.spec_kind() == kind,
            r.spec_message() == message@,
            r.spec_wrapped() == Some(wrapped),
            r.spec_display() == message@,
            r.spec_debug() == message@ + "[WRAPPED ERROR]: "@ + wrapped.spec_debug(),
            r.spec_source() == wrapped.spec_source(),
    {
        Self { kind, message, wrapped: Some(wrapped) }
    }

    /// Renders the error for users: the message alone, never the cause.
    pub fn to_display_string(&self) -> (r: String)
        ensures
            r@ == self.spec_display(),
    {
        self.message.clone()
    }

    /// Renders the error for diagnostics: the message, and after it each
    /// error of the causal chain in turn, each one introduced by the
    /// literal tag `"[WRAPPED ERROR]: "`.
    pub fn to_debug_string(&self) -> (r: String)
        ensures
            r@ == self.spec_debug(),
        decreases *self,
    {
        match &self.wrapped {
            None => self.message.clone(),
            Some(w) => {
                let mut r = self.message.clone();
                r.append("[WRAPPED ERROR]: ");
                let inner = w.to_debug_string();
                r.append(inner.as_str());
                r
            },
        }
    }

    /// If a cause is wrapped, calls the cause's own causal-chain accessor
    /// and returns the result; returns nothing for a leaf. The cause
    /// forwards to the error it holds, so the question is handed one link
    /// further down at every level and the answer is always empty; see
    /// `lemma_source_is_always_none`.
    pub fn source(&self) -> (r: Option<&MiMuError>)
        ensures
            r is None,
            self.spec_source() is None,
        decreases *self,
    {
        match &self.wrapped {
            None => None,
            Some(w) => w.source(),
        }
    }
}

/// A leaf error's causal-chain accessor returns nothing.
pub proof fn lemma_leaf_source_is_none(e: MiMuError)
    requires
        e.is_leaf(),
    ensures
        e.spec_source() is None,
{
}

/// For a two-level chain — an outer error wrapping a leaf — the outer
/// error's causal-chain accessor returns nothing: the accessor skips the
/// immediately wrapped error and reports what that error's own accessor
/// reports, which for a leaf is nothing.
pub proof fn lemma_two_level_source_is_none(outer: MiMuError)
    requires
        outer.spec_wrapped() matches Some(w) && w.spec_inner().is_leaf(),
    ensures
        outer.spec_source() is None,
{
    match outer.spec_wrapped() {
        Some(w) => {
            assert(outer.spec_source() == w.spec_inner().spec_source());
        },
        None => {},
    }
}

/// The net effect of the forwarding: because every level hands the
/// causal-chain question to the wrapped error's own accessor rather than
/// reporting the wrapped error itself, the accessor returns nothing for
/// every error, however long its chain.
pub proof fn lemma_source_is_always_none(e: MiMuError)
    ensures
        e.spec_source() is None,
    decreases e,
{
    match e.spec_wrapped() {
        Some(w) => lemma_source_is_always_none(w.spec_inner()),
        None => {},
    }
}

/// Rendering is stable: each rendering is a function of the (immutable)
/// error value alone, so rendering the same value twice gives identical
/// results.
pub proof fn lemma_rendering_is_stable(e: MiMuError, first: Seq<char>, second: Seq<char>)
    requires
        first == e.spec_display(),
        second == e.spec_display(),
    ensures
        first == second,
{
}

} // verus!
