//! What holds of the routing rules, whatever the setup and the request.

use crate::routing::{
    begins_with_version, lemma_path_ends_at_query, path_len, path_of, query_part, resolved,
    routing, scope, version_prefix, version_segment, Config, RejectionView, RoutingView, Scope,
};
use crate::text::lemma_decimal_is_numeral;
use crate::versions::valid_versions;
use vstd::prelude::*;

verus! {

/// Whether `text` holds no `?`.
pub open spec fn without_query_mark(text: Seq<char>) -> bool {
    forall|i: int| 0 <= i < text.len() ==> text[i] != '?'
}

/// Where a target begins with a text without `?`, its path begins with that text, and goes on
/// as the path of the rest does. What follows the path is what follows the path of the rest.
pub proof fn lemma_path_after_prefix(prefix: Seq<char>, rest: Seq<char>)
    requires
        without_query_mark(prefix),
    ensures
        path_len(prefix + rest) == prefix.len() + path_len(rest),
        path_of(prefix + rest) == prefix + path_of(rest),
        query_part(prefix + rest) == query_part(rest),
    decreases prefix.len(),
{
    if prefix.len() > 0 {
        let tail = prefix.drop_first();
        assert((prefix + rest).drop_first() =~= tail + rest);
        lemma_path_after_prefix(tail, rest);
    }
    lemma_path_ends_at_query(rest);
}

/// A version segment holds no `?`.
pub proof fn lemma_segment_without_query_mark(version: u16)
    ensures
        without_query_mark(version_segment(version)),
{
    lemma_decimal_is_numeral(version as nat);
}

/// A request whose path names a supported version already is never rewritten. Without a base
/// path it is rejected, and the answer has status 400. With a base path, where the version
/// segment and a `/` follow the base path, it is passed through.
pub proof fn lemma_versioned_path_is_not_rewritten(
    config: Config,
    target: Seq<char>,
    requested: Option<u16>,
    verdict: Result<bool, Seq<char>>,
)
    requires
        match config.base_path {
            None => begins_with_version(config.versions, path_of(target), false),
            Some(base) => base.is_prefix_of(path_of(target)) && begins_with_version(
                config.versions,
                path_of(target).skip(base.len() as int),
                true,
            ),
        },
    ensures
        config.base_path is None ==> routing(config, target, requested, verdict)
            == RoutingView::Reject(RejectionView::VersionPrefix),
        config.base_path is Some ==> routing(config, target, requested, verdict)
            == RoutingView::PassThrough,
{
}

/// Rewriting puts the segment of a supported version into the path, after the base path where
/// there is one, and keeps the `?` and the query of the target as they are.
pub proof fn lemma_rewriting_keeps_query(
    config: Config,
    target: Seq<char>,
    requested: Option<u16>,
    verdict: Result<bool, Seq<char>>,
)
    requires
        routing(config, target, requested, verdict) is Rewrite,
    ensures
        ({
            let out = routing(config, target, requested, verdict)->Rewrite_0;
            let version = resolved(config.versions, requested)->Ok_0;
            let segment = version_segment(version);
            let path = path_of(target);
            &&& config.versions.contains(version)
            &&& query_part(out) == query_part(target)
            &&& path_of(out) == match config.base_path {
                None => if path == seq!['/'] {
                    segment
                } else {
                    segment + path
                },
                Some(base) => base + segment + path.skip(base.len() as int),
            }
        }),
{
    let version = resolved(config.versions, requested)->Ok_0;
    let segment = version_segment(version);
    lemma_segment_without_query_mark(version);
    lemma_path_ends_at_query(target);
    match config.base_path {
        None => {
            if path_of(target) == seq!['/'] {
                lemma_path_after_prefix(segment, query_part(target));
                lemma_path_ends_at_query(query_part(target));
            } else {
                lemma_path_after_prefix(segment, target);
            }
        },
        Some(base) => {
            let path = path_of(target);
            let rest = target.skip(base.len() as int);
            assert(without_query_mark(base));
            assert(without_query_mark(base + segment));
            lemma_path_after_prefix(base, rest);
            assert(base + rest =~= target);
            lemma_path_after_prefix(base + segment, rest);
        },
    }
}

/// A rewritten request is not rewritten once more: routed again, whatever version it then asks
/// for and whatever the filter then finds, it is rejected with status 400 where there is no
/// base path, and passed through where there is one. With a base path this holds of every
/// request whose path goes on with a `/` after the base path.
pub proof fn lemma_rewritten_is_not_rewritten_again(
    config: Config,
    target: Seq<char>,
    requested: Option<u16>,
    verdict: Result<bool, Seq<char>>,
    later_requested: Option<u16>,
    later_verdict: Result<bool, Seq<char>>,
)
    requires
        routing(config, target, requested, verdict) is Rewrite,
        config.base_path matches Some(base) ==> {
            &&& base.len() < path_len(target)
            &&& target[base.len() as int] == '/'
        },
    ensures
        ({
            let out = routing(config, target, requested, verdict)->Rewrite_0;
            let again = routing(config, out, later_requested, later_verdict);
            &&& config.base_path is None ==> again == RoutingView::Reject(
                RejectionView::VersionPrefix,
            )
            &&& config.base_path is Some ==> again == RoutingView::PassThrough
        }),
{
    let out = routing(config, target, requested, verdict)->Rewrite_0;
    let version = resolved(config.versions, requested)->Ok_0;
    let segment = version_segment(version);
    lemma_rewriting_keeps_query(config, target, requested, verdict);
    let i = choose|i: int| 0 <= i < config.versions.len() && config.versions[i] == version;
    match config.base_path {
        None => {
            assert(version_prefix(config.versions[i], false).is_prefix_of(path_of(out)));
        },
        Some(base) => {
            let path = path_of(target);
            let tail = path.skip(base.len() as int);
            lemma_path_ends_at_query(target);
            assert(version_prefix(config.versions[i], true).is_prefix_of(segment + tail));
        },
    }
}

/// A request that asks for no version resolves to the highest version, and no supported version
/// is higher. A request that asks for a version resolves to that version where it is supported,
/// and to no version where it is not.
pub proof fn lemma_resolution(versions: Seq<u16>, requested: Option<u16>)
    requires
        valid_versions(versions),
    ensures
        requested is None ==> resolved(versions, requested) == Ok::<u16, u16>(versions.last()),
        forall|i: int| 0 <= i < versions.len() ==> versions[i] <= versions.last(),
        requested matches Some(version) ==> resolved(versions, requested) == if versions.contains(
            version,
        ) {
            Ok::<u16, u16>(version)
        } else {
            Err::<u16, u16>(version)
        },
        resolved(versions, requested) matches Ok(version) ==> versions.contains(version),
{
}

/// With a base path the filter is not asked and its verdict does not count, and no request is
/// rejected but for an unknown version. Without a base path no request is passed through
/// unless the filter says so.
pub proof fn lemma_outcomes_by_setup(
    config: Config,
    target: Seq<char>,
    requested: Option<u16>,
    verdict: Result<bool, Seq<char>>,
)
    ensures
        ({
            let routed = routing(config, target, requested, verdict);
            &&& config.base_path is Some ==> {
                &&& scope(config, target) != Scope::Filter
                &&& scope(config, target) != Scope::Rejected
                &&& routed == routing(config, target, requested, Ok(true))
                &&& routed is Reject ==> routed->Reject_0 is UnknownVersion
            }
            &&& config.base_path is None ==> {
                &&& scope(config, target) != Scope::Bypass
                &&& scope(config, target) != Scope::Resolve
                &&& routed is PassThrough ==> verdict == Ok::<bool, Seq<char>>(false)
            }
        }),
{
}

} // verus!
