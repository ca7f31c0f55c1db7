//! The `x-api-version` header, by which a client names the API version it wants.

use crate::text::{
    chars_of, decimal, decimal_value, is_digit, is_numeral, lemma_decimal_is_numeral,
    lemma_decimal_len, lemma_decimal_of_decimal_value, lemma_decimal_value_of_decimal, pow10,
    text_of,
};
use crate::versions::VERSION_LIMIT;
use vstd::prelude::*;

verus! {

/// Name of the [`XApiVersion`] header.
pub const X_API_VERSION: &'static str = "x-api-version";

/// The designator of `version`: the letter `v` and the decimal numeral of the version, as in
/// `v0` or `v17`.
pub open spec fn designator(version: u16) -> Seq<char> {
    seq!['v'] + decimal(version as nat)
}

/// Whether `value` is a version designator: the letter `v`, then one to four decimal digits
/// without a leading zero, except for `v0` itself. As a regular expression, the designators are
/// `v(0|[1-9][0-9]{0,3})`.
pub open spec fn is_designator(value: Seq<char>) -> bool {
    &&& 2 <= value.len() <= 5
    &&& value[0] == 'v'
    &&& is_numeral(value.skip(1))
}

/// The version that `value` designates, if it is a designator.
pub open spec fn designated(value: Seq<char>) -> Option<u16> {
    if is_designator(value) {
        Some(decimal_value(value.skip(1)) as u16)
    } else {
        None
    }
}

/// The version that a request asks for explicitly: the one its header designates, if the
/// header is there and is a designator.
pub open spec fn requested(header: Option<Seq<char>>) -> Option<u16> {
    match header {
        Some(value) => designated(value),
        None => None,
    }
}

/// The version of an optional header.
pub open spec fn version_of(header: Option<XApiVersion>) -> Option<u16> {
    match header {
        Some(header) => Some(header@),
        None => None,
    }
}

/// Every version below the limit is designated by its own designator.
pub proof fn lemma_designator_designates(version: u16)
    requires
        version < VERSION_LIMIT,
    ensures
        is_designator(designator(version)),
        designated(designator(version)) == Some(version),
{
    let numeral = decimal(version as nat);
    assert(designator(version).skip(1) =~= numeral);
    lemma_decimal_is_numeral(version as nat);
    lemma_decimal_value_of_decimal(version as nat);
    assert(numeral.len() <= 4) by {
        reveal_with_fuel(pow10, 5);
        lemma_decimal_len(version as nat, 4);
    }
}

/// A designator designates a version below the limit, and is the designator of that version:
/// the designators are exactly `v0`, `v1`, and so on up to `v9999`.
pub proof fn lemma_designated_is_canonical(value: Seq<char>)
    requires
        is_designator(value),
    ensures
        decimal_value(value.skip(1)) < VERSION_LIMIT,
        value == designator(decimal_value(value.skip(1)) as u16),
{
    let numeral = value.skip(1);
    lemma_decimal_of_decimal_value(numeral);
    assert(decimal_value(numeral) < pow10(4)) by {
        lemma_decimal_len(decimal_value(numeral), 4);
    }
    assert(pow10(4) == 10_000) by {
        reveal_with_fuel(pow10, 5);
    }
}

/// The numeral of a version designator: for `v17` the text `17`. `None` where `value` is no
/// designator.
pub fn version_digits<'a>(value: &'a str) -> (digits: Option<&'a str>)
    ensures
        match digits {
            Some(numeral) => is_designator(value@) && numeral@ == value@.skip(1),
            None => !is_designator(value@),
        },
{
    let chars = chars_of(value);
    let len = chars.len();
    if len < 2 || len > 5 || chars[0] != 'v' {
        return None;
    }
    let mut i: usize = 1;
    while i < len
        invariant
            1 <= i <= len,
            len == chars@.len(),
            chars@ == value@,
            forall|k: int| 1 <= k < i ==> is_digit(#[trigger] chars@[k]),
        decreases len - i,
    {
        let c = chars[i];
        if !('0' <= c && c <= '9') {
            assert(!is_digit(value@.skip(1)[i - 1]));
            return None;
        }
        i += 1;
    }
    if len > 2 && chars[1] == '0' {
        return None;
    }
    assert(is_numeral(value@.skip(1)));
    Some(value.substring_char(1, len))
}

/// The number that the numeral `digits` denotes.
fn numeral_value(digits: &str) -> (value: u16)
    requires
        is_numeral(digits@),
        digits@.len() <= 4,
    ensures
        value == decimal_value(digits@),
        value < VERSION_LIMIT,
{
    let chars = chars_of(digits);
    let mut value: u16 = 0;
    let mut i: usize = 0;
    while i < chars.len()
        invariant
            i <= chars@.len() <= 4,
            chars@ == digits@,
            is_numeral(digits@),
            value == decimal_value(chars@.take(i as int)),
            value < pow10(i as nat),
        decreases chars@.len() - i,
    {
        let c = chars[i];
        assert(chars@.take(i + 1).drop_last() =~= chars@.take(i as int));
        assert(pow10(i as nat) <= 1000) by {
            reveal_with_fuel(pow10, 5);
        }
        assert(pow10((i + 1) as nat) == 10 * pow10(i as nat)) by {
            reveal_with_fuel(pow10, 2);
        }
        value = value * 10 + (c as u16 - 48);
        i += 1;
    }
    assert(chars@.take(i as int) =~= digits@);
    assert(pow10(4) == 10_000 && pow10(i as nat) <= pow10(4)) by {
        reveal_with_fuel(pow10, 5);
    }
    value
}

/// A header that is absent or holds no version designator.
#[derive(Debug, Clone, Copy, PartialEq, Eq, Structural)]
pub struct InvalidHeader;

/// Custom HTTP header conveying the API version, which is expected to be a version designator
/// starting with `'v'` followed by a number within `0u16..10_000` without leading zero, e.g.
/// `v0`.
#[derive(Debug, Clone, Copy, PartialEq, Eq, Structural)]
pub struct XApiVersion(u16);

impl View for XApiVersion {
    type V = u16;

    closed spec fn view(&self) -> u16 {
        self.0
    }
}

impl XApiVersion {
    #[verifier::type_invariant]
    spec fn in_range(self) -> bool {
        self.0 < VERSION_LIMIT
    }

    /// The name of the header.
    pub fn name() -> (name: &'static str)
        ensures
            name@ == X_API_VERSION@,
    {
        X_API_VERSION
    }

    /// Decodes the first value of the header, which is `None` where the request has no such
    /// header or its value is no text.
    pub fn decode(value: Option<&str>) -> (decoded: Result<Self, InvalidHeader>)
        ensures
            match decoded {
                Ok(header) => requested(text_of(value)) == Some(header@),
                Err(_) => requested(text_of(value)) is None,
            },
    {
        let Some(text) = value else {
            return Err(InvalidHeader);
        };
        match version_digits(text) {
            Some(digits) => Ok(XApiVersion(numeral_value(digits))),
            None => Err(InvalidHeader),
        }
    }

    /// The version that the header designates.
    pub fn version(&self) -> (version: u16)
        ensures
            version == self@,
            version < VERSION_LIMIT,
    {
        proof {
            use_type_invariant(self);
        }
        self.0
    }
}

} // verus!
