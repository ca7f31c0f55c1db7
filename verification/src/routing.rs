//! What becomes of a request: the rules by which it is passed through, rewritten or rejected.

use crate::filter::FilterError;
use crate::header::{version_of, XApiVersion};
use crate::text::{decimal, push_decimal};
use crate::versions::{valid_versions, ApiVersions};
use vstd::prelude::*;

verus! {

/// What the middleware is set up with.
pub struct Config {
    /// The base path, where only requests under a base path are rewritten. Without one, a
    /// filter decides request by request.
    pub base_path: Option<Seq<char>>,
    /// The supported versions.
    pub versions: Seq<u16>,
}

/// Whether `path` is a base path in its normal form: it begins with a `/` and does not end
/// with one, so it is not empty and not `/` alone.
pub open spec fn is_base_path(path: Seq<char>) -> bool {
    &&& path.len() > 0
    &&& path[0] == '/'
    &&& path.last() != '/'
}

impl Config {
    /// Whether the versions are valid and the base path, where there is one, is in normal form.
    pub open spec fn valid(self) -> bool {
        &&& valid_versions(self.versions)
        &&& self.base_path matches Some(base) ==> is_base_path(base)
    }
}

/// The number of characters of the path of a request target: those before the first `?`.
pub open spec fn path_len(target: Seq<char>) -> nat
    decreases target.len(),
{
    if target.len() == 0 || target[0] == '?' {
        0
    } else {
        1 + path_len(target.drop_first())
    }
}

/// The path of a request target.
pub open spec fn path_of(target: Seq<char>) -> Seq<char> {
    target.take(path_len(target) as int)
}

/// What follows the path in a request target: nothing, or `?` and the query.
pub open spec fn query_part(target: Seq<char>) -> Seq<char> {
    target.skip(path_len(target) as int)
}

/// The path of a target ends before the first `?` of the target, or at its end where it holds
/// none. The path and what follows it make up the target.
pub proof fn lemma_path_ends_at_query(target: Seq<char>)
    ensures
        path_len(target) <= target.len(),
        forall|i: int| 0 <= i < path_len(target) ==> target[i] != '?',
        path_len(target) < target.len() ==> target[path_len(target) as int] == '?',
        path_of(target) + query_part(target) == target,
    decreases target.len(),
{
    if target.len() > 0 && target[0] != '?' {
        let rest = target.drop_first();
        lemma_path_ends_at_query(rest);
        assert forall|i: int| 0 <= i < path_len(target) implies target[i] != '?' by {
            if i > 0 {
                assert(rest[i - 1] != '?');
            }
        }
    }
}

/// The path segment that addresses `version`, as in `/v0` or `/v17`.
pub open spec fn version_segment(version: u16) -> Seq<char> {
    seq!['/', 'v'] + decimal(version as nat)
}

/// The version segment as a path begins with it: alone, or closed by a `/`.
pub open spec fn version_prefix(version: u16, closed: bool) -> Seq<char> {
    if closed {
        version_segment(version).push('/')
    } else {
        version_segment(version)
    }
}

/// Whether `path` begins with the segment of one of `versions`; with `closed`, whether the
/// segment is also followed by a `/`.
pub open spec fn begins_with_version(versions: Seq<u16>, path: Seq<char>, closed: bool) -> bool {
    exists|i: int|
        0 <= i < versions.len() && (#[trigger] version_prefix(versions[i], closed)).is_prefix_of(
            path,
        )
}

/// Where the scope check sends a request.
#[derive(Debug, Clone, Copy, PartialEq, Eq, Structural)]
pub enum Scope {
    /// The path addresses a version itself, which a client may not do where a filter is in
    /// place: the request is rejected.
    Rejected,
    /// The request is none of the middleware's: it lies outside the base path, or its path
    /// names a version already. It is passed through.
    Bypass,
    /// The filter decides whether the request is rewritten.
    Filter,
    /// The request is to be rewritten to the version it resolves to.
    Resolve,
}

/// The scope check. Without a base path, a path that begins with the segment of a supported
/// version is rejected, and any other goes to the filter. With a base path, a path under it is
/// resolved, unless what follows the base path begins with a supported version's segment and a
/// `/`; such a path, and any path outside the base path, is bypassed.
pub open spec fn scope(config: Config, target: Seq<char>) -> Scope {
    let path = path_of(target);
    match config.base_path {
        None => if begins_with_version(config.versions, path, false) {
            Scope::Rejected
        } else {
            Scope::Filter
        },
        Some(base) => if base.is_prefix_of(path) && !begins_with_version(
            config.versions,
            path.skip(base.len() as int),
            true,
        ) {
            Scope::Resolve
        } else {
            Scope::Bypass
        },
    }
}

/// The version of a request: the one it asks for in its header or, without such a header, the
/// highest one. `Err` with that version where it is none of `versions`.
pub open spec fn resolved(versions: Seq<u16>, requested: Option<u16>) -> Result<u16, u16> {
    let version = match requested {
        Some(version) => version,
        None => versions.last(),
    };
    if versions.contains(version) {
        Ok(version)
    } else {
        Err(version)
    }
}

impl<const N: usize> ApiVersions<N> {
    /// Resolves the version of a request from its `x-api-version` header, if it has one: the
    /// version that the header designates or, without a header, the highest version. `Err`
    /// with the designated version where it is none of these versions.
    pub fn resolve(&self, header: Option<XApiVersion>) -> (version: Result<u16, u16>)
        ensures
            version == resolved(self@, version_of(header)),
    {
        let version = match header {
            Some(header) => header.version(),
            None => self.highest(),
        };
        if self.contains(version) {
            Ok(version)
        } else {
            Err(version)
        }
    }
}

/// The target of a request after `version` was written into its path. Without a base path the
/// version segment is put in front of the path, and stands for the path where that is `/`.
/// With a base path it is put between the base path and what follows. The rest of the target,
/// a `?` and the query, is kept as it is.
pub open spec fn rewritten(
    base_path: Option<Seq<char>>,
    version: u16,
    target: Seq<char>,
) -> Seq<char> {
    match base_path {
        None => if path_of(target) == seq!['/'] {
            version_segment(version) + query_part(target)
        } else {
            version_segment(version) + target
        },
        Some(base) => base + version_segment(version) + target.skip(base.len() as int),
    }
}

/// Why a request is answered at once instead of being handed on.
#[derive(Debug, PartialEq, Eq)]
pub enum Rejection {
    /// The path begins with a version segment, which is not allowed where a filter is in place.
    VersionPrefix,
    /// The request asks for a version that is not supported.
    UnknownVersion(u16),
    /// The filter failed.
    Filter(FilterError),
}

/// A [`Rejection`] as a plain value.
pub enum RejectionView {
    VersionPrefix,
    UnknownVersion(u16),
    Filter(Seq<char>),
}

impl View for Rejection {
    type V = RejectionView;

    open spec fn view(&self) -> RejectionView {
        match self {
            Rejection::VersionPrefix => RejectionView::VersionPrefix,
            Rejection::UnknownVersion(version) => RejectionView::UnknownVersion(*version),
            Rejection::Filter(error) => RejectionView::Filter(error@),
        }
    }
}

impl Clone for Rejection {
    fn clone(&self) -> (rejection: Self)
        ensures
            rejection@ == self@,
    {
        match self {
            Rejection::VersionPrefix => Rejection::VersionPrefix,
            Rejection::UnknownVersion(version) => Rejection::UnknownVersion(*version),
            Rejection::Filter(error) => Rejection::Filter(error.clone()),
        }
    }
}

/// The HTTP status code with which a rejected request is answered: 400 where the path names a
/// version, 404 where the version is not supported, 500 where the filter failed.
pub open spec fn status_of(rejection: RejectionView) -> u16 {
    match rejection {
        RejectionView::VersionPrefix => 400,
        RejectionView::UnknownVersion(_) => 404,
        RejectionView::Filter(_) => 500,
    }
}

/// The text with which a rejected request is answered. It names the unknown version, and says
/// nothing of why a filter failed.
pub open spec fn message_of(rejection: RejectionView) -> Seq<char> {
    match rejection {
        RejectionView::VersionPrefix => "path must not start with version prefix like '/v0'"@,
        RejectionView::UnknownVersion(version) => "unknown version '"@ + decimal(version as nat)
            + "'"@,
        RejectionView::Filter(_) => Seq::empty(),
    }
}

impl Rejection {
    /// The HTTP status code of the answer.
    pub fn status_code(&self) -> (code: u16)
        ensures
            code == status_of(self@),
    {
        match self {
            Rejection::VersionPrefix => 400,
            Rejection::UnknownVersion(_) => 404,
            Rejection::Filter(_) => 500,
        }
    }

    /// The text of the answer.
    pub fn message(&self) -> (message: String)
        ensures
            message@ == message_of(self@),
    {
        match self {
            Rejection::VersionPrefix => String::from_str(
                "path must not start with version prefix like '/v0'",
            ),
            Rejection::UnknownVersion(version) => {
                let mut message = String::from_str("unknown version '");
                push_decimal(&mut message, *version);
                message.append("'");
                message
            },
            Rejection::Filter(_) => String::new(),
        }
    }
}

/// What the middleware does with a request.
#[derive(Debug, PartialEq, Eq)]
pub enum Routing {
    /// The request is handed on as it came.
    PassThrough,
    /// The request is handed on with this target in place of its own.
    Rewrite(String),
    /// The request is answered at once.
    Reject(Rejection),
}

/// A [`Routing`] as a plain value.
pub enum RoutingView {
    PassThrough,
    Rewrite(Seq<char>),
    Reject(RejectionView),
}

impl View for Routing {
    type V = RoutingView;

    open spec fn view(&self) -> RoutingView {
        match self {
            Routing::PassThrough => RoutingView::PassThrough,
            Routing::Rewrite(target) => RoutingView::Rewrite(target@),
            Routing::Reject(rejection) => RoutingView::Reject(rejection@),
        }
    }
}

impl Clone for Routing {
    fn clone(&self) -> (routing: Self)
        ensures
            routing@ == self@,
    {
        match self {
            Routing::PassThrough => Routing::PassThrough,
            Routing::Rewrite(target) => Routing::Rewrite(target.clone()),
            Routing::Reject(rejection) => Routing::Reject(rejection.clone()),
        }
    }
}

/// The routing of a request that is to be rewritten: to the version it resolves to, or
/// rejected where that version is not supported.
pub open spec fn versioned(
    config: Config,
    target: Seq<char>,
    requested: Option<u16>,
) -> RoutingView {
    match resolved(config.versions, requested) {
        Ok(version) => RoutingView::Rewrite(rewritten(config.base_path, version, target)),
        Err(version) => RoutingView::Reject(RejectionView::UnknownVersion(version)),
    }
}

/// The routing of a request, given the verdict of the filter. The verdict counts only where
/// the scope check sends the request to the filter.
pub open spec fn routing(
    config: Config,
    target: Seq<char>,
    requested: Option<u16>,
    verdict: Result<bool, Seq<char>>,
) -> RoutingView {
    match scope(config, target) {
        Scope::Rejected => RoutingView::Reject(RejectionView::VersionPrefix),
        Scope::Bypass => RoutingView::PassThrough,
        Scope::Filter => match verdict {
            Err(message) => RoutingView::Reject(RejectionView::Filter(message)),
            Ok(false) => RoutingView::PassThrough,
            Ok(true) => versioned(config, target, requested),
        },
        Scope::Resolve => versioned(config, target, requested),
    }
}

} // verus!
