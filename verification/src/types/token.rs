//! Consistency tokens: opaque markers of a point in time at the server.

use crate::error::{result_view, Error, ErrorView};
use crate::model::option_view;
use crate::proto;
use vstd::prelude::*;
use vstd::std_specs::cmp::PartialEqSpecImpl;

verus! {

/// An opaque, non-empty marker of a revision at the server.
///
/// Tokens are returned by mutating operations and handed back through
/// [`Consistency`](crate::Consistency) to order reads after writes. A token
/// may be sensitive, so its renderings never show the raw text.
#[derive(Eq, Hash)]
pub struct ZedToken {
    token: String,
}

/// Whether `needle` occurs in `haystack` as a contiguous part.
pub open spec fn occurs_in(needle: Seq<char>, haystack: Seq<char>) -> bool {
    exists|i: int|
        0 <= i && i + needle.len() <= haystack.len() && #[trigger] haystack.subrange(
            i,
            i + needle.len(),
        ) == needle
}

/// Mathematical model of [`ZedToken`].
pub struct ZedTokenView {
    pub token: Seq<char>,
}

impl ZedTokenView {
    /// The invariant of every token: its text is not empty.
    pub open spec fn is_valid(self) -> bool {
        self.token.len() > 0
    }

    /// What constructing a token from `token` yields.
    pub open spec fn new(token: Seq<char>) -> Result<ZedTokenView, ErrorView> {
        if token.len() == 0 {
            Err(ErrorView::InvalidArgument("ZedToken must not be empty"@))
        } else {
            Ok(ZedTokenView { token })
        }
    }

    /// The wire form of a token.
    pub open spec fn to_proto(self) -> proto::base::ZedTokenView {
        proto::base::ZedTokenView { token: self.token }
    }

    /// What decoding a wire token yields: the token is validated anew, and
    /// an empty text makes the wire message malformed.
    pub open spec fn from_proto(p: proto::base::ZedTokenView) -> Result<ZedTokenView, ErrorView> {
        if p.token.len() == 0 {
            Err(ErrorView::Serialization("ZedToken must not be empty"@))
        } else {
            Ok(ZedTokenView { token: p.token })
        }
    }

    /// The debug rendering of a token: a fixed text.
    pub open spec fn debug_text(self) -> Seq<char> {
        "ZedToken(\"***\")"@
    }

    /// The display rendering of a token: a fixed text.
    pub open spec fn display_text(self) -> Seq<char> {
        "ZedToken(***)"@
    }
}

/// The token that a response carries beside its result: the wire token, if
/// one is present and not empty.
pub open spec fn attached_token(token: Option<proto::base::ZedTokenView>) -> Option<ZedTokenView> {
    match token {
        Some(t) => if t.token.len() > 0 {
            Some(ZedTokenView { token: t.token })
        } else {
            None
        },
        None => None,
    }
}

impl View for ZedToken {
    type V = ZedTokenView;

    closed spec fn view(&self) -> ZedTokenView {
        ZedTokenView { token: self.token@ }
    }
}

impl ZedToken {
    /// Every value of this type is valid.
    #[verifier::type_invariant]
    pub open spec fn well_formed(self) -> bool {
        self@.is_valid()
    }

    /// Creates a token from its text; the empty text is rejected.
    pub fn new(token: &str) -> (r: Result<ZedToken, Error>)
        ensures
            result_view(r) == ZedTokenView::new(token@),
    {
        if token.is_empty() {
            Err(Error::invalid_argument("ZedToken must not be empty"))
        } else {
            Ok(ZedToken { token: token.to_owned() })
        }
    }

    /// Returns the raw token text.
    pub fn token(&self) -> (s: &str)
        ensures
            s@ == self@.token,
    {
        self.token.as_str()
    }

    /// The rendering for debug output; it shows no part of the token.
    pub fn debug_string(&self) -> (s: String)
        ensures
            s@ == self@.debug_text(),
    {
        "ZedToken(\"***\")".to_owned()
    }

    /// The rendering for display; it shows no part of the token.
    pub fn to_string(&self) -> (s: String)
        ensures
            s@ == self@.display_text(),
    {
        "ZedToken(***)".to_owned()
    }

    /// The wire form of this token.
    pub fn to_proto(&self) -> (p: proto::ZedToken)
        ensures
            p@ == self@.to_proto(),
            ZedTokenView::from_proto(p@) == Ok::<ZedTokenView, ErrorView>(self@),
    {
        proof {
            use_type_invariant(self);
        }
        proto::ZedToken { token: self.token.clone() }
    }

    /// Decodes a wire token, rejecting the empty text.
    pub fn from_proto(p: proto::ZedToken) -> (r: Result<ZedToken, Error>)
        ensures
            result_view(r) == ZedTokenView::from_proto(p@),
    {
        if p.token.as_str().is_empty() {
            Err(Error::serialization("ZedToken must not be empty"))
        } else {
            Ok(ZedToken { token: p.token })
        }
    }
}

/// Reads the token that a response carries beside its result.
pub fn token_attached(token: Option<proto::ZedToken>) -> (r: Option<ZedToken>)
    ensures
        option_view(r) == attached_token(option_view(token)),
{
    match token {
        Some(t) => if t.token.as_str().is_empty() {
            None
        } else {
            Some(ZedToken { token: t.token })
        },
        None => None,
    }
}

impl PartialEq for ZedToken {
    fn eq(&self, other: &Self) -> (r: bool) {
        self.token == other.token
    }
}

impl PartialEqSpecImpl for ZedToken {
    open spec fn obeys_eq_spec() -> bool {
        true
    }

    /// Two tokens are equal when their texts are.
    open spec fn eq_spec(&self, other: &Self) -> bool {
        self@ == other@
    }
}

impl Clone for ZedToken {
    fn clone(&self) -> (r: Self)
        ensures
            r@ == self@,
    {
        proof {
            use_type_invariant(self);
        }
        ZedToken { token: self.token.clone() }
    }
}

/// Decoding the wire form of a valid token gives the token back.
pub proof fn lemma_zed_token_roundtrip(t: ZedTokenView)
    requires
        t.is_valid(),
    ensures
        ZedTokenView::from_proto(t.to_proto()) == Ok::<ZedTokenView, ErrorView>(t),
{
}

/// A wire token that fails to decode fails as a malformed message.
pub proof fn lemma_zed_token_decode_failure(p: proto::base::ZedTokenView)
    ensures
        ZedTokenView::from_proto(p) matches Err(e) ==> e is Serialization,
        ZedTokenView::from_proto(p) matches Ok(t) ==> t.is_valid(),
{
}

/// The renderings of two tokens never differ: nothing of a token's text
/// flows into them.
pub proof fn lemma_renderings_are_constant(a: ZedTokenView, b: ZedTokenView)
    ensures
        a.debug_text() == b.debug_text(),
        a.display_text() == b.display_text(),
{
}

/// The renderings of a token do not show its text, unless the text happens
/// to be a part of the fixed rendering itself (as `***` is).
pub proof fn lemma_renderings_hide_token(t: ZedTokenView)
    requires
        !occurs_in(t.token, "ZedToken(\"***\")"@),
        !occurs_in(t.token, "ZedToken(***)"@),
    ensures
        !occurs_in(t.token, t.debug_text()),
        !occurs_in(t.token, t.display_text()),
{
}

/// A token of more than fifteen characters is longer than either rendering
/// and so is never shown by them.
pub proof fn lemma_renderings_hide_long_token(t: ZedTokenView)
    requires
        t.token.len() > 15,
    ensures
        !occurs_in(t.token, t.debug_text()),
        !occurs_in(t.token, t.display_text()),
{
    reveal_strlit("ZedToken(\"***\")");
    reveal_strlit("ZedToken(***)");
}

} // verus!
