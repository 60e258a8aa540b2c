//! The resource model: passive data that travels as the payload of events.

use vstd::prelude::*;

verus! {

/// The user-defined payload of a book resource.
#[derive(Clone, Debug, PartialEq, Eq)]
pub struct Book {
    pub title: String,
    pub authors: Option<Vec<String>>,
}

/// The identity block of a resource instance.
///
/// `(namespace, name)` identifies a live instance; `resource_version` is the
/// server's token for the state that the instance was in.
#[derive(Clone, Debug, PartialEq, Eq)]
pub struct Metadata {
    pub name: String,
    pub namespace: String,
    pub resource_version: u64,
}

/// One instance of a custom resource whose payload is a `P`.
#[derive(Clone, Debug, PartialEq, Eq)]
pub struct Resource<P> {
    pub metadata: Metadata,
    pub spec: P,
}

/// The value of a string of decimal digits, most significant digit first.
pub open spec fn decimal_value(digits: Seq<char>) -> nat
    decreases digits.len(),
{
    if digits.len() == 0 {
        0
    } else {
        decimal_value(digits.drop_last()) * 10 + digit_value(digits.last())
    }
}

/// The value of one decimal digit.
pub open spec fn digit_value(c: char) -> nat {
    (c as nat - '0' as nat) as nat
}

/// Whether `c` is one of `'0'` to `'9'`.
pub open spec fn is_digit(c: char) -> bool {
    '0' <= c && c <= '9'
}

/// Whether `text` is a resource version that this crate can order: a
/// non-empty string of decimal digits whose value fits in a `u64`.
pub open spec fn is_resource_version(text: Seq<char>) -> bool {
    &&& text.len() > 0
    &&& forall|i: int| 0 <= i < text.len() ==> is_digit(#[trigger] text[i])
    &&& decimal_value(text) <= u64::MAX
}

/// A longer string of digits has a value at least as large as that of any of
/// its prefixes.
proof fn lemma_decimal_value_grows(digits: Seq<char>, k: int)
    requires
        0 <= k <= digits.len(),
    ensures
        decimal_value(digits.subrange(0, k)) <= decimal_value(digits),
    decreases digits.len() - k,
{
    if k == digits.len() {
        assert(digits.subrange(0, k) =~= digits);
    } else {
        lemma_decimal_value_grows(digits.drop_last(), k);
        assert(digits.drop_last().subrange(0, k) =~= digits.subrange(0, k));
    }
}

/// Reads the server's resource version token as a number.
///
/// Returns the value exactly when the token is a non-empty string of decimal
/// digits that fits in a `u64`, and `None` for every other token.
pub fn parse_resource_version(text: &str) -> (version: Option<u64>)
    ensures
        version.is_some() <==> is_resource_version(text@),
        version.is_some() ==> version.unwrap() == decimal_value(text@),
{
    if !text.is_ascii() {
        proof {
            if is_resource_version(text@) {
                assert forall|i: int| 0 <= i < text@.len() implies (text@[i] as nat) < 128 by {
                    assert(is_digit(text@[i]));
                }
                assert(false);
            }
        }
        return None;
    }
    let n: usize = text.unicode_len();
    if n == 0 {
        return None;
    }
    let mut value: u64 = 0;
    let mut i: usize = 0;
    while i < n
        invariant
            text.is_ascii(),
            n == text@.len(),
            0 <= i <= n,
            forall|j: int| 0 <= j < i ==> is_digit(#[trigger] text@[j]),
            value == decimal_value(text@.subrange(0, i as int)),
        decreases n - i,
    {
        let b: u8 = text.get_ascii(i);
        let ghost prefix = text@.subrange(0, i as int + 1);
        proof {
            assert(prefix.drop_last() =~= text@.subrange(0, i as int));
            assert(prefix.last() == text@[i as int]);
        }
        if b < 48 || b > 57 {
            assert(!is_digit(text@[i as int]));
            return None;
        }
        let d: u64 = (b - 48) as u64;
        assert(d == digit_value(text@[i as int]));
        if value > (u64::MAX - d) / 10 {
            proof {
                assert(decimal_value(prefix) == value * 10 + d);
                assert(decimal_value(prefix) > u64::MAX);
                lemma_decimal_value_grows(text@, i as int + 1);
            }
            return None;
        }
        value = value * 10 + d;
        i = i + 1;
    }
    assert(text@.subrange(0, n as int) =~= text@);
    Some(value)
}

} // verus!
