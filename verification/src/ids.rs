//! Identifiers of virtual machines, containers and images. An identifier is a
//! UUID, held as the 128-bit number that it stands for.
use crate::text;
use vstd::arithmetic::power::pow;
use vstd::prelude::*;

verus! {

/// What `uuid::Uuid::parse_str` gives for a text: the identifier, or what its
/// error reads as.
pub uninterp spec fn uuid_parsed(s: Seq<char>) -> Result<u128, Seq<char>>;

/// Whether a text stands for an identifier.
pub open spec fn reads_as(s: Seq<char>, id: u128) -> bool {
    uuid_parsed(s) == Ok::<u128, Seq<char>>(id)
}

/// Whether a text stands for no identifier, and `message` says why.
pub open spec fn refused_as(s: Seq<char>, message: Seq<char>) -> bool {
    uuid_parsed(s) == Err::<u128, Seq<char>>(message)
}

/// The `k`-th hexadecimal digit of an identifier, from the most significant one.
pub open spec fn nibble(id: u128, k: int) -> nat {
    ((id as int / pow(16, (31 - k) as nat)) % 16) as nat
}

/// The usual form of an identifier: 32 lower-case hexadecimal digits in groups of
/// 8, 4, 4, 4 and 12, with hyphens between them.
pub open spec fn hyphenated(id: u128) -> Seq<char> {
    Seq::new(
        36,
        |i: int|
            if i == 8 || i == 13 || i == 18 || i == 23 {
                '-'
            } else {
                let hyphens: int = if i > 23 {
                    4
                } else if i > 18 {
                    3
                } else if i > 13 {
                    2
                } else if i > 8 {
                    1
                } else {
                    0
                };
                text::digit_char(nibble(id, i - hyphens))
            },
    )
}

/// The version and variant bits of a random identifier: version 4, RFC 4122.
pub open spec fn is_random_form(id: u128) -> bool {
    &&& (id as int / pow(2, 76)) % 16 == 4
    &&& (id as int / pow(2, 62)) % 4 == 2
}

/// Whether a text is as long as one of the forms of an identifier: 32 digits, the
/// same with four hyphens, that in braces, or that behind `urn:uuid:`.
pub open spec fn has_id_length(s: Seq<char>) -> bool {
    s.len() == 32 || s.len() == 36 || s.len() == 38 || s.len() == 45
}

/// Calls `uuid::Uuid::parse_str`. What it gives depends on the text alone: the
/// number of the identifier, or the text of its error. A text of any other length
/// than those of the four forms is refused.
#[verifier::external_body]
pub(crate) fn parse_uuid(s: &str) -> (r: Result<u128, String>)
    ensures
        r is Ok ==> has_id_length(s@),
        match r {
            Ok(id) => uuid_parsed(s@) == Ok::<u128, Seq<char>>(id),
            Err(e) => uuid_parsed(s@) == Err::<u128, Seq<char>>(e@),
        },
{
    uuid::Uuid::parse_str(s).map(|u| u.as_u128()).map_err(|e| e.to_string())
}

/// Calls `to_string` of `uuid::Uuid`, which writes the hyphenated form in lower
/// case; `uuid::Uuid::parse_str` reads that form back as the same identifier.
#[verifier::external_body]
pub(crate) fn format_uuid(id: u128) -> (s: String)
    ensures
        s@ == hyphenated(id),
        reads_as(s@, id),
{
    uuid::Uuid::from_u128(id).to_string()
}

/// Calls `uuid::Uuid::new_v4`: a random identifier, of which only the version and
/// variant bits are known.
#[verifier::external_body]
pub(crate) fn new_uuid() -> (id: u128)
    ensures
        is_random_form(id),
{
    uuid::Uuid::new_v4().as_u128()
}

/// The text of an identifier.
pub fn id_text(id: u128) -> (s: String)
    ensures
        s@ == hyphenated(id),
        reads_as(s@, id),
{
    format_uuid(id)
}

/// The identifier that a text stands for.
pub fn id_of(s: &str) -> (r: Result<u128, String>)
    ensures
        r is Ok ==> has_id_length(s@),
        match r {
            Ok(id) => reads_as(s@, id),
            Err(e) => refused_as(s@, e@),
        },
{
    parse_uuid(s)
}

/// A fresh identifier.
pub fn fresh_id() -> (id: u128)
    ensures
        is_random_form(id),
        id != 0,
{
    let id = new_uuid();
    proof {
        assert(pow(2, 76) > 0) by {
            vstd::arithmetic::power::lemma_pow_positive(2, 76);
        }
        assert(0int / pow(2, 76) == 0) by {
            vstd::arithmetic::div_mod::lemma_div_basics(pow(2, 76));
        }
    }
    id
}

} // verus!
