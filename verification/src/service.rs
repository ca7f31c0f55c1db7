//! The middleware: a layer that holds the setup, and the service that it wraps around the next
//! stage and that routes each request.

use crate::filter::{verdict_of, FilterError, RewriteFilter};
use crate::header::{version_of, XApiVersion};
use crate::routing::{
    begins_with_version, is_base_path, lemma_path_ends_at_query, path_len, path_of, rewritten,
    routing, scope, version_prefix, version_segment, Config, Rejection, Routing, Scope,
};
use crate::text::{chars_of, decimal_chars, owned_text_of, push_decimal, starts_with, text_of};
use crate::versions::ApiVersions;
use vstd::prelude::*;
use vstd::slice::slice_subrange;

verus! {

/// `path` without the slashes at its end.
pub open spec fn trim_trailing_slashes(path: Seq<char>) -> Seq<char>
    decreases path.len(),
{
    if path.len() > 0 && path.last() == '/' {
        trim_trailing_slashes(path.drop_last())
    } else {
        path
    }
}

/// Whether `path` can be given as a base path: without the slashes at its end it is not empty
/// and begins with a `/`.
pub open spec fn accepts_base_path(path: Seq<char>) -> bool {
    trim_trailing_slashes(path).len() > 0 && trim_trailing_slashes(path)[0] == '/'
}

/// What is left of a path without the slashes at its end is the longest part from its start
/// that does not end with a slash. Of a path that can be given as a base path, it is a base
/// path in normal form.
pub proof fn lemma_trim_trailing_slashes(path: Seq<char>)
    ensures
        trim_trailing_slashes(path).is_prefix_of(path),
        trim_trailing_slashes(path).len() > 0 ==> trim_trailing_slashes(path).last() != '/',
        forall|i: int| trim_trailing_slashes(path).len() <= i < path.len() ==> path[i] == '/',
        accepts_base_path(path) ==> is_base_path(trim_trailing_slashes(path)),
    decreases path.len(),
{
    if path.len() > 0 && path.last() == '/' {
        let front = path.drop_last();
        lemma_trim_trailing_slashes(front);
        assert forall|i: int| trim_trailing_slashes(path).len() <= i < path.len() implies path[i]
            == '/' by {
            if i < front.len() {
                assert(front[i] == '/');
            }
        }
    }
}

/// The number of characters of `chars` before the slashes at its end.
fn trimmed_len(chars: &[char]) -> (len: usize)
    ensures
        len <= chars@.len(),
        chars@.take(len as int) == trim_trailing_slashes(chars@),
{
    let mut len = chars.len();
    assert(chars@.take(len as int) =~= chars@);
    while len > 0 && chars[len - 1] == '/'
        invariant
            len <= chars@.len(),
            trim_trailing_slashes(chars@) == trim_trailing_slashes(chars@.take(len as int)),
        decreases len,
    {
        assert(chars@.take(len as int).drop_last() =~= chars@.take(len - 1));
        len -= 1;
    }
    len
}

/// Tells whether `path` can be given to [`ApiVersionLayer::new`] as a base path.
pub fn is_valid_base_path(path: &str) -> (valid: bool)
    ensures
        valid == accepts_base_path(path@),
{
    let chars = chars_of(path);
    let len = trimmed_len(chars.as_slice());
    len > 0 && chars[0] == '/'
}

/// The number of characters of the path of a target.
fn path_length(target: &[char]) -> (len: usize)
    ensures
        len == path_len(target@),
        len <= target@.len(),
{
    let mut len: usize = 0;
    assert(target@.skip(0) =~= target@);
    while len < target.len() && target[len] != '?'
        invariant
            len <= target@.len(),
            path_len(target@) == len + path_len(target@.skip(len as int)),
        decreases target@.len() - len,
    {
        assert(target@.skip(len as int).drop_first() =~= target@.skip(len + 1));
        len += 1;
    }
    len
}

/// Tells whether `path` begins with the segment of one of `versions`, closed by a `/` or not.
fn has_version_prefix<const N: usize>(
    versions: &ApiVersions<N>,
    path: &[char],
    closed: bool,
) -> (found: bool)
    ensures
        found == begins_with_version(versions@, path@, closed),
{
    let numbers = versions.as_array();
    let mut i: usize = 0;
    while i < N
        invariant
            i <= N,
            numbers@ == versions@,
            numbers@.len() == N,
            forall|k: int|
                0 <= k < i ==> !(#[trigger] version_prefix(versions@[k], closed)).is_prefix_of(
                    path@,
                ),
        decreases N - i,
    {
        let mut prefix: Vec<char> = Vec::new();
        prefix.push('/');
        prefix.push('v');
        let mut digits = decimal_chars(numbers[i]);
        prefix.append(&mut digits);
        if closed {
            prefix.push('/');
        }
        assert(prefix@ =~= version_prefix(versions@[i as int], closed));
        if starts_with(path, prefix.as_slice()) {
            return true;
        }
        i += 1;
    }
    false
}

/// Layer that wraps a service into an [`ApiVersionService`], which rewrites requests such that
/// a version prefix is added to the path. The version is taken from the `x-api-version` header
/// of the request; without such a header it is the highest version.
///
/// A layer is made in one of two ways. With a base path, requests under the base path are
/// rewritten, unless their path names a version already. Without one, a filter decides for each
/// request whether it is rewritten, and paths that name a version are rejected.
#[derive(Debug)]
pub struct ApiVersionLayer<const N: usize> {
    base_path: Option<String>,
    versions: ApiVersions<N>,
}

impl<const N: usize> View for ApiVersionLayer<N> {
    type V = Config;

    closed spec fn view(&self) -> Config {
        Config { base_path: owned_text_of(self.base_path), versions: self.versions@ }
    }
}

impl<const N: usize> ApiVersionLayer<N> {
    #[verifier::type_invariant]
    spec fn well_formed(self) -> bool {
        self@.valid()
    }

    /// Creates a layer with the given base path and API versions. Slashes at the end of the
    /// base path are dropped. What is left must begin with a `/`, so it must not be empty.
    pub fn new(base_path: &str, versions: ApiVersions<N>) -> (layer: Self)
        requires
            accepts_base_path(base_path@),
        ensures
            layer@ == (Config {
                base_path: Some(trim_trailing_slashes(base_path@)),
                versions: versions@,
            }),
            layer@.valid(),
    {
        let chars = chars_of(base_path);
        let len = trimmed_len(chars.as_slice());
        let trimmed = base_path.substring_char(0, len).to_owned();
        proof {
            lemma_trim_trailing_slashes(base_path@);
            use_type_invariant(&versions);
        }
        ApiVersionLayer { base_path: Some(trimmed), versions }
    }

    /// Creates a layer without a base path, for the given API versions: a filter decides for
    /// each request whether it is rewritten.
    pub fn filtered(versions: ApiVersions<N>) -> (layer: Self)
        ensures
            layer@ == (Config { base_path: None, versions: versions@ }),
            layer@.valid(),
    {
        proof {
            use_type_invariant(&versions);
        }
        ApiVersionLayer { base_path: None, versions }
    }

    /// Wraps `inner` into a service that routes requests as this layer is set up.
    pub fn layer<S>(&self, inner: S) -> (service: ApiVersionService<N, S>)
        ensures
            service@ == self@,
            service.wrapped() == inner,
    {
        ApiVersionService { inner, setup: self.clone() }
    }

    /// The base path, without slashes at its end; `None` where a filter decides.
    pub fn base_path(&self) -> (base_path: Option<&str>)
        ensures
            text_of(base_path) == self@.base_path,
            self@.valid(),
    {
        proof {
            use_type_invariant(self);
        }
        match &self.base_path {
            Some(base) => Some(base.as_str()),
            None => None,
        }
    }

    /// The supported versions.
    pub fn versions(&self) -> (versions: &ApiVersions<N>)
        ensures
            versions@ == self@.versions,
    {
        &self.versions
    }

    /// The scope check on the characters of a target.
    fn scope_of(&self, target: &[char]) -> (found: Scope)
        ensures
            found == scope(self@, target@),
    {
        let path = slice_subrange(target, 0, path_length(target));
        match &self.base_path {
            None => {
                if has_version_prefix(&self.versions, path, false) {
                    Scope::Rejected
                } else {
                    Scope::Filter
                }
            },
            Some(base) => {
                let base_chars = chars_of(base.as_str());
                if !starts_with(path, base_chars.as_slice()) {
                    return Scope::Bypass;
                }
                let rest = slice_subrange(path, base_chars.len(), path.len());
                if has_version_prefix(&self.versions, rest, true) {
                    Scope::Bypass
                } else {
                    Scope::Resolve
                }
            },
        }
    }

    /// The target with `version` written into its path. `chars` are the characters of the
    /// target.
    fn rewrite(&self, version: u16, target: &str, chars: &[char]) -> (out: String)
        requires
            chars@ == target@,
            self@.base_path matches Some(base) ==> base.len() <= target@.len(),
        ensures
            out@ == rewritten(self@.base_path, version, target@),
    {
        proof {
            reveal_strlit("/v");
        }
        match &self.base_path {
            None => {
                let mut out = String::from_str("/v");
                push_decimal(&mut out, version);
                if path_length(chars) == 1 && chars[0] == '/' {
                    assert(path_of(target@) =~= seq!['/']);
                    out.append(target.substring_char(1, chars.len()));
                } else {
                    assert(path_of(target@) != seq!['/']) by {
                        assert(path_of(target@).len() == path_len(target@));
                        if path_len(target@) == 1 {
                            assert(path_of(target@)[0] == target@[0]);
                        }
                    }
                    out.append(target);
                }
                out
            },
            Some(base) => {
                let mut out = base.clone();
                out.append("/v");
                push_decimal(&mut out, version);
                let base_len = base.as_str().unicode_len();
                out.append(target.substring_char(base_len, chars.len()));
                out
            },
        }
    }

    /// Routes a request that the scope check has sent to `found`.
    fn route_from(
        &self,
        found: Scope,
        target: &str,
        chars: &[char],
        header: Option<XApiVersion>,
        verdict: Result<bool, FilterError>,
    ) -> (routed: Routing)
        requires
            chars@ == target@,
            found == scope(self@, target@),
        ensures
            routed@ == routing(self@, target@, version_of(header), verdict_of(verdict)),
    {
        match found {
            Scope::Rejected => {
                return Routing::Reject(Rejection::VersionPrefix);
            },
            Scope::Bypass => {
                return Routing::PassThrough;
            },
            Scope::Filter => {
                match verdict {
                    Err(error) => {
                        return Routing::Reject(Rejection::Filter(error));
                    },
                    Ok(false) => {
                        return Routing::PassThrough;
                    },
                    Ok(true) => {},
                }
            },
            Scope::Resolve => {},
        }
        proof {
            lemma_path_ends_at_query(target@);
        }
        match self.versions.resolve(header) {
            Ok(version) => Routing::Rewrite(self.rewrite(version, target, chars)),
            Err(version) => Routing::Reject(Rejection::UnknownVersion(version)),
        }
    }
}

impl<const N: usize> Clone for ApiVersionLayer<N> {
    fn clone(&self) -> (layer: Self)
        ensures
            layer@ == self@,
    {
        proof {
            use_type_invariant(self);
        }
        let base_path = match &self.base_path {
            Some(base) => Some(base.clone()),
            None => None,
        };
        ApiVersionLayer { base_path, versions: self.versions }
    }
}

/// See [`ApiVersionLayer`].
#[derive(Debug)]
pub struct ApiVersionService<const N: usize, S> {
    inner: S,
    setup: ApiVersionLayer<N>,
}

impl<const N: usize, S> View for ApiVersionService<N, S> {
    type V = Config;

    closed spec fn view(&self) -> Config {
        self.setup@
    }
}

impl<const N: usize, S> ApiVersionService<N, S> {
    /// The service that this one is wrapped around.
    pub closed spec fn wrapped(&self) -> S {
        self.inner
    }

    /// The service that this one is wrapped around, to which requests are handed on.
    pub fn inner(&self) -> (inner: &S)
        ensures
            *inner == self.wrapped(),
    {
        &self.inner
    }

    /// The service that this one is wrapped around, for a caller that drives it.
    pub fn inner_mut(&mut self) -> (inner: &mut S)
        ensures
            *inner == old(self).wrapped(),
            final(self).wrapped() == *final(inner),
            final(self)@ == old(self)@,
    {
        &mut self.inner
    }

    /// Takes the service apart and gives back the one that it was wrapped around.
    pub fn into_inner(self) -> (inner: S)
        ensures
            inner == self.wrapped(),
    {
        self.inner
    }

    /// The scope check, the first stage of routing: tells whether the request with the given
    /// target is rejected, passed through, put before the filter, or rewritten.
    pub fn scope_check(&self, target: &str) -> (found: Scope)
        ensures
            found == scope(self@, target@),
            self@.valid(),
    {
        proof {
            use_type_invariant(&self.setup);
        }
        let chars = chars_of(target);
        self.setup.scope_of(chars.as_slice())
    }

    /// Routes the request with the given target and the given `x-api-version` header, if it
    /// has one. `verdict` is what the filter found for the target; it counts only where
    /// [`ApiVersionService::scope_check`] gives [`Scope::Filter`].
    pub fn route(
        &self,
        target: &str,
        header: Option<XApiVersion>,
        verdict: Result<bool, FilterError>,
    ) -> (routed: Routing)
        ensures
            routed@ == routing(self@, target@, version_of(header), verdict_of(verdict)),
            self@.valid(),
    {
        proof {
            use_type_invariant(&self.setup);
        }
        let chars = chars_of(target);
        let found = self.setup.scope_of(chars.as_slice());
        self.setup.route_from(found, target, chars.as_slice(), header, verdict)
    }

    /// Routes the request with the given target and the given `x-api-version` header, if it
    /// has one. Where the scope check puts the request before the filter, `filter` is asked
    /// for its verdict on the target, once; else it is not asked.
    pub fn route_with<F: RewriteFilter>(
        &self,
        filter: &F,
        target: &str,
        header: Option<XApiVersion>,
    ) -> (routed: Routing)
        ensures
            scope(self@, target@) == Scope::Filter ==> exists|verdict: Result<bool, FilterError>|
                call_ensures(F::should_rewrite, (filter, target), verdict) && routed@ == routing(
                    self@,
                    target@,
                    version_of(header),
                    verdict_of(verdict),
                ),
            scope(self@, target@) != Scope::Filter ==> routed@ == routing(
                self@,
                target@,
                version_of(header),
                Ok(true),
            ),
            self@.valid(),
    {
        proof {
            use_type_invariant(&self.setup);
        }
        let chars = chars_of(target);
        let found = self.setup.scope_of(chars.as_slice());
        let verdict = match found {
            Scope::Filter => filter.should_rewrite(target),
            _ => Ok(true),
        };
        self.setup.route_from(found, target, chars.as_slice(), header, verdict)
    }
}

impl<const N: usize, S: Clone> Clone for ApiVersionService<N, S> {
    fn clone(&self) -> (service: Self)
        ensures
            service@ == self@,
            cloned(self.wrapped(), service.wrapped()),
    {
        ApiVersionService { inner: self.inner.clone(), setup: self.setup.clone() }
    }
}

} // verus!
