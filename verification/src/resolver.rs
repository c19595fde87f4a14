//! Version resolution: from what the user typed to one concrete release.
//!
//! Resolution never reads or fetches anything itself. Where it needs to know
//! more, it ends in a [`Query`]; whoever drives it finds the [`Answer`] and
//! hands it to [`proceed`].

use crate::release::{
    classify, commit_like, is_commit_like, kind_of, normalize, normalized, recognize, recognized,
    tags_are_canonical, ReleaseKind, Version, VersionView,
};
use crate::text::{option_view, same};
use vstd::prelude::*;
use vstd::string::*;

verus! {

/// What the user asked for.
#[derive(Debug, PartialEq, Eq)]
pub enum ResolverInput {
    /// A release, by its tag in canonical form.
    Literal(String),
    /// Whatever release is in use.
    ActiveAlias,
}

/// What a [`ResolverInput`] is, as a value.
pub enum ResolverInputView {
    Literal(Seq<char>),
    ActiveAlias,
}

impl View for ResolverInput {
    type V = ResolverInputView;

    open spec fn view(&self) -> ResolverInputView {
        match self {
            ResolverInput::Literal(tag) => ResolverInputView::Literal(tag@),
            ResolverInput::ActiveAlias => ResolverInputView::ActiveAlias,
        }
    }
}

/// Why a token names no release.
#[derive(Clone, Copy, Debug, PartialEq, Eq, Structural)]
pub enum ResolutionError {
    /// The release in use was asked for, and none is in use.
    NoActiveVersion,
    /// No release goes by that name.
    UnknownVersion,
}

/// What the release listing says of a token.
#[derive(Debug, PartialEq, Eq)]
pub enum ListingReply {
    /// The release that the token names.
    Found { tag: String, kind: ReleaseKind },
    /// The token names no release.
    NotFound,
}

/// What a [`ListingReply`] is, as a value.
pub enum ListingReplyView {
    Found { tag: Seq<char>, kind: ReleaseKind },
    NotFound,
}

impl View for ListingReply {
    type V = ListingReplyView;

    open spec fn view(&self) -> ListingReplyView {
        match self {
            ListingReply::Found { tag, kind } => ListingReplyView::Found { tag: tag@, kind: *kind },
            ListingReply::NotFound => ListingReplyView::NotFound,
        }
    }
}

/// What resolution needs to know before it can go on.
#[derive(Debug, PartialEq, Eq)]
pub enum Query {
    /// Which tag the marker of the release in use names.
    ActiveMarker,
    /// What the release listing says of `token`.
    Listing { token: String },
    /// Whether the commit `tag` has been downloaded.
    Cache { tag: String },
}

/// What a [`Query`] is, as a value.
pub enum QueryView {
    ActiveMarker,
    Listing { token: Seq<char> },
    Cache { tag: Seq<char> },
}

impl View for Query {
    type V = QueryView;

    open spec fn view(&self) -> QueryView {
        match self {
            Query::ActiveMarker => QueryView::ActiveMarker,
            Query::Listing { token } => QueryView::Listing { token: token@ },
            Query::Cache { tag } => QueryView::Cache { tag: tag@ },
        }
    }
}

/// What was found out for a [`Query`].
#[derive(Debug, PartialEq, Eq)]
pub enum Answer {
    /// The tag that the marker names; `None` where there is no marker.
    ActiveMarker(Option<String>),
    /// What the release listing says.
    Listing(ListingReply),
    /// Whether the commit has been downloaded.
    Cache(bool),
}

/// What an [`Answer`] is, as a value.
pub enum AnswerView {
    ActiveMarker(Option<Seq<char>>),
    Listing(ListingReplyView),
    Cache(bool),
}

impl View for Answer {
    type V = AnswerView;

    open spec fn view(&self) -> AnswerView {
        match self {
            Answer::ActiveMarker(named) => AnswerView::ActiveMarker(option_view(*named)),
            Answer::Listing(reply) => AnswerView::Listing(reply@),
            Answer::Cache(present) => AnswerView::Cache(*present),
        }
    }
}

/// How far resolution has come.
#[derive(Debug)]
pub enum Resolution {
    /// The token names this release.
    Resolved(Version),
    /// The token names no release.
    Failed(ResolutionError),
    /// Resolution goes on once this is answered.
    Pending(Query),
}

/// What a [`Resolution`] is, as a value.
pub enum ResolutionView {
    Resolved(VersionView),
    Failed(ResolutionError),
    Pending(QueryView),
}

impl View for Resolution {
    type V = ResolutionView;

    open spec fn view(&self) -> ResolutionView {
        match self {
            Resolution::Resolved(version) => ResolutionView::Resolved(version@),
            Resolution::Failed(error) => ResolutionView::Failed(*error),
            Resolution::Pending(query) => ResolutionView::Pending(query@),
        }
    }
}

/// The token `active`.
pub open spec fn active_token() -> Seq<char> {
    seq!['a', 'c', 't', 'i', 'v', 'e']
}

/// The token `current`.
pub open spec fn current_token() -> Seq<char> {
    seq!['c', 'u', 'r', 'r', 'e', 'n', 't']
}

/// What a token asks for: the release in use if it is `active` or `current`,
/// else the release whose tag is the token's canonical form.
pub open spec fn input_of(token: Seq<char>) -> ResolverInputView {
    if token == active_token() || token == current_token() {
        ResolverInputView::ActiveAlias
    } else {
        ResolverInputView::Literal(normalized(token))
    }
}

/// Where resolution starts.
///
/// The release in use is found through the marker. A tag that tells its own
/// kind is resolved at once; any other is looked up in the release listing.
pub open spec fn begun(input: ResolverInputView) -> ResolutionView {
    match input {
        ResolverInputView::ActiveAlias => ResolutionView::Pending(QueryView::ActiveMarker),
        ResolverInputView::Literal(tag) => match recognized(tag) {
            Some(kind) => ResolutionView::Resolved(VersionView { tag, kind }),
            None => ResolutionView::Pending(QueryView::Listing { token: tag }),
        },
    }
}

/// How resolution goes on from `query` once `answer` is known.
///
/// - The marker names the release in use; without a marker none is in use.
/// - A release that the listing knows is the one asked for.
/// - A token that the listing does not know may still name a commit, and does
///   if that commit has been downloaded.
/// - An answer to another question changes nothing: the query stands.
pub open spec fn proceeded(query: QueryView, answer: AnswerView) -> ResolutionView {
    match (query, answer) {
        (QueryView::ActiveMarker, AnswerView::ActiveMarker(Some(named))) => ResolutionView::Resolved(
            VersionView { tag: normalized(named), kind: kind_of(normalized(named)) },
        ),
        (QueryView::ActiveMarker, AnswerView::ActiveMarker(None)) => ResolutionView::Failed(
            ResolutionError::NoActiveVersion,
        ),
        (
            QueryView::Listing { token },
            AnswerView::Listing(ListingReplyView::Found { tag, kind }),
        ) => ResolutionView::Resolved(VersionView { tag: normalized(tag), kind }),
        (QueryView::Listing { token }, AnswerView::Listing(ListingReplyView::NotFound)) => {
            if is_commit_like(token) {
                ResolutionView::Pending(QueryView::Cache { tag: token })
            } else {
                ResolutionView::Failed(ResolutionError::UnknownVersion)
            }
        },
        (QueryView::Cache { tag }, AnswerView::Cache(true)) => ResolutionView::Resolved(
            VersionView { tag: normalized(tag), kind: ReleaseKind::Commit },
        ),
        (QueryView::Cache { tag }, AnswerView::Cache(false)) => ResolutionView::Failed(
            ResolutionError::UnknownVersion,
        ),
        _ => ResolutionView::Pending(query),
    }
}

/// What `token` asks for.
pub fn parse_input(token: &str) -> (r: ResolverInput)
    ensures
        r@ == input_of(token@),
{
    proof {
        reveal_strlit("active");
        reveal_strlit("current");
        assert("active"@ =~= active_token());
        assert("current"@ =~= current_token());
    }
    if same(token, "active") || same(token, "current") {
        ResolverInput::ActiveAlias
    } else {
        ResolverInput::Literal(normalize(token))
    }
}

/// Starts resolving `input`.
pub fn begin(input: ResolverInput) -> (r: Resolution)
    ensures
        r@ == begun(input@),
{
    match input {
        ResolverInput::ActiveAlias => Resolution::Pending(Query::ActiveMarker),
        ResolverInput::Literal(tag) => match recognize(tag.as_str()) {
            Some(kind) => {
                proof {
                    tags_are_canonical(tag@);
                }
                Resolution::Resolved(Version::new(tag, kind))
            },
            None => Resolution::Pending(Query::Listing { token: tag }),
        },
    }
}

/// Starts resolving `token`.
pub fn resolve(token: &str) -> (r: Resolution)
    ensures
        r@ == begun(input_of(token@)),
{
    begin(parse_input(token))
}

/// Goes on from `query`, now that `answer` is known.
pub fn proceed(query: Query, answer: Answer) -> (r: Resolution)
    ensures
        r@ == proceeded(query@, answer@),
{
    match (query, answer) {
        (Query::ActiveMarker, Answer::ActiveMarker(Some(named))) => {
            let tag = normalize(named.as_str());
            let kind = classify(tag.as_str());
            Resolution::Resolved(Version::new(tag, kind))
        },
        (Query::ActiveMarker, Answer::ActiveMarker(None)) => Resolution::Failed(
            ResolutionError::NoActiveVersion,
        ),
        (Query::Listing { token }, Answer::Listing(ListingReply::Found { tag, kind })) => {
            Resolution::Resolved(Version::new(normalize(tag.as_str()), kind))
        },
        (Query::Listing { token }, Answer::Listing(ListingReply::NotFound)) => {
            if commit_like(token.as_str()) {
                Resolution::Pending(Query::Cache { tag: token })
            } else {
                Resolution::Failed(ResolutionError::UnknownVersion)
            }
        },
        (Query::Cache { tag }, Answer::Cache(true)) => Resolution::Resolved(
            Version::new(normalize(tag.as_str()), ReleaseKind::Commit),
        ),
        (Query::Cache { tag }, Answer::Cache(false)) => Resolution::Failed(
            ResolutionError::UnknownVersion,
        ),
        (query, _) => Resolution::Pending(query),
    }
}

} // verus!
