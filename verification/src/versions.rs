//! The set of API versions a service supports.

use vstd::prelude::*;

verus! {

/// Every supported version is smaller than this bound, so that a version never takes more than
/// four decimal digits.
pub const VERSION_LIMIT: u16 = 10_000;

/// Whether every element of `versions` is strictly smaller than all elements after it.
pub open spec fn strictly_increasing(versions: Seq<u16>) -> bool {
    forall|i: int, j: int| 0 <= i < j < versions.len() ==> versions[i] < versions[j]
}

/// Whether `versions` may serve as a set of API versions: it is not empty, strictly increasing
/// and its highest version is below [`VERSION_LIMIT`].
pub open spec fn valid_versions(versions: Seq<u16>) -> bool {
    &&& versions.len() > 0
    &&& strictly_increasing(versions)
    &&& versions.last() < VERSION_LIMIT
}

/// Why a sequence of numbers is no set of API versions.
#[derive(Debug, Clone, Copy, PartialEq, Eq, Structural)]
pub enum ValidationError {
    /// There is no version at all.
    Empty,
    /// Some version is not smaller than its successor.
    NotIncreasing,
    /// The highest version is not below [`VERSION_LIMIT`].
    OutOfRange,
}

/// The first defect of `versions`, if it has one: emptiness is looked for first, then the order,
/// then the range.
pub open spec fn validation_error(versions: Seq<u16>) -> Option<ValidationError> {
    if versions.len() == 0 {
        Some(ValidationError::Empty)
    } else if !strictly_increasing(versions) {
        Some(ValidationError::NotIncreasing)
    } else if versions.last() >= VERSION_LIMIT {
        Some(ValidationError::OutOfRange)
    } else {
        None
    }
}

/// The valid sequences are those without a defect. The versions of a valid sequence are all
/// below the limit, and none of them occurs twice.
pub proof fn lemma_valid_versions(versions: Seq<u16>)
    ensures
        valid_versions(versions) <==> validation_error(versions) is None,
        valid_versions(versions) ==> forall|i: int|
            0 <= i < versions.len() ==> versions[i] < VERSION_LIMIT,
        valid_versions(versions) ==> versions.no_duplicates(),
{
}

/// Tells whether the given numbers are strictly monotonically increasing.
pub fn is_monotonically_increasing<const N: usize>(versions: [u16; N]) -> (increasing: bool)
    ensures
        increasing == strictly_increasing(versions@),
{
    if N < 2 {
        return true;
    }
    let mut n: usize = 1;
    while n < N
        invariant
            1 <= n <= N,
            versions@.len() == N,
            forall|i: int, j: int| 0 <= i < j < n ==> versions@[i] < versions@[j],
        decreases N - n,
    {
        if versions[n - 1] >= versions[n] {
            return false;
        }
        n += 1;
    }
    true
}

/// API versions: a validated, immutable, strictly increasing sequence of version numbers below
/// [`VERSION_LIMIT`].
#[derive(Debug, Clone, Copy, PartialEq, Eq)]
pub struct ApiVersions<const N: usize>([u16; N]);

impl<const N: usize> View for ApiVersions<N> {
    type V = Seq<u16>;

    closed spec fn view(&self) -> Seq<u16> {
        self.0@
    }
}

impl<const N: usize> ApiVersions<N> {
    /// What holds of every value of this type: its versions are valid.
    #[verifier::type_invariant]
    pub open spec fn well_formed(self) -> bool {
        valid_versions(self@)
    }

    /// Creates API versions from the given numbers, which must not be empty, must be strictly
    /// monotonically increasing and below [`VERSION_LIMIT`].
    pub fn new(versions: [u16; N]) -> (result: Result<Self, ValidationError>)
        ensures
            result is Ok <==> valid_versions(versions@),
            match result {
                Ok(created) => created@ == versions@,
                Err(error) => validation_error(versions@) == Some(error),
            },
    {
        if N == 0 {
            return Err(ValidationError::Empty);
        }
        if !is_monotonically_increasing(versions) {
            return Err(ValidationError::NotIncreasing);
        }
        if versions[N - 1] >= VERSION_LIMIT {
            return Err(ValidationError::OutOfRange);
        }
        Ok(Self(versions))
    }

    /// The versions in increasing order.
    pub fn as_array(&self) -> (versions: &[u16; N])
        ensures
            versions@ == self@,
            valid_versions(versions@),
    {
        proof {
            use_type_invariant(self);
        }
        &self.0
    }

    /// The highest version, which is the last one.
    pub fn highest(&self) -> (version: u16)
        ensures
            version == self@.last(),
            self@.contains(version),
            forall|i: int| 0 <= i < self@.len() ==> self@[i] <= version,
            version < VERSION_LIMIT,
    {
        proof {
            use_type_invariant(self);
        }
        let version = self.0[N - 1];
        version
    }

    /// Tells whether `version` is one of these versions.
    pub fn contains(&self, version: u16) -> (found: bool)
        ensures
            found == self@.contains(version),
    {
        let mut i: usize = 0;
        while i < N
            invariant
                i <= N,
                self@.len() == N,
                forall|k: int| 0 <= k < i ==> self@[k] != version,
            decreases N - i,
        {
            if self.0[i] == version {
                return true;
            }
            i += 1;
        }
        false
    }
}

impl<const N: usize> std::ops::Deref for ApiVersions<N> {
    type Target = [u16; N];

    fn deref(&self) -> (versions: &[u16; N])
        ensures
            versions@ == self@,
    {
        &self.0
    }
}

} // verus!
