//! Machine identifiers: their textual form, the reserved placeholders and
//! the drawing of fresh ones.
use vstd::prelude::*;

use crate::text::same_text;

verus! {

/// A lower-case hexadecimal digit.
pub open spec fn is_lower_hex(c: char) -> bool {
    ('0' <= c && c <= '9') || ('a' <= c && c <= 'f')
}

/// The hyphenated text of a random (version 4) UUID:
/// 8-4-4-4-12 lower-case hex digits, version digit `4`, variant digit one of `8 9 a b`.
pub open spec fn is_uuid_text(s: Seq<char>) -> bool {
    &&& s.len() == 36
    &&& forall|i: int|
        0 <= i < 36 ==> if i == 8 || i == 13 || i == 18 || i == 23 {
            #[trigger] s[i] == '-'
        } else {
            is_lower_hex(s[i])
        }
    &&& s[14] == '4'
    &&& (s[19] == '8' || s[19] == '9' || s[19] == 'a' || s[19] == 'b')
}

/// The identifier an agent presents before it has one of its own.
pub open spec fn unregistered_id() -> Seq<char> {
    seq!['U', 'N', 'R', 'E', 'G', 'I', 'S', 'T', 'E', 'R', 'E', 'D']
}

/// The second reserved placeholder.
pub open spec fn unknown_id() -> Seq<char> {
    seq!['U', 'N', 'K', 'N', 'O', 'W', 'N']
}

/// An identifier that stands for "none yet": empty, or one of the placeholders.
pub open spec fn is_placeholder_id(id: Seq<char>) -> bool {
    id.len() == 0 || id == unregistered_id() || id == unknown_id()
}

/// The placeholder text an agent sends when it holds no identifier.
pub fn unregistered_text() -> (r: String)
    ensures
        r@ == unregistered_id(),
{
    let s = "UNREGISTERED";
    proof {
        reveal_strlit("UNREGISTERED");
    }
    assert(s@ =~= unregistered_id());
    String::from_str(s)
}

/// Whether `id` is empty or one of the placeholders.
pub fn is_placeholder(id: &str) -> (r: bool)
    ensures
        r == is_placeholder_id(id@),
{
    let a = "UNREGISTERED";
    let b = "UNKNOWN";
    proof {
        reveal_strlit("UNREGISTERED");
        reveal_strlit("UNKNOWN");
    }
    assert(a@ =~= unregistered_id());
    assert(b@ =~= unknown_id());
    id.unicode_len() == 0 || same_text(id, a) || same_text(id, b)
}

/// A placeholder is never the text of a UUID.
pub proof fn lemma_uuid_is_not_placeholder(s: Seq<char>)
    requires
        is_uuid_text(s),
    ensures
        !is_placeholder_id(s),
{
    assert(s.len() != unregistered_id().len());
    assert(s.len() != unknown_id().len());
}

/// Relies on `uuid::Uuid::new_v4` and its `Display`: a random version 4 UUID,
/// written hyphenated in lower case.
#[verifier::external_body]
pub(crate) fn fresh_uuid_text() -> (r: String)
    ensures
        is_uuid_text(r@),
{
    uuid::Uuid::new_v4().to_string()
}

} // verus!
