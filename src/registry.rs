//! The registry's answers to an identity exchange, how each is written on
//! the wire, and how an agent reads one back.
use vstd::prelude::*;

use crate::text::{has_prefix, same_text, starts_with_text};

verus! {

/// The registry's answer to one identity exchange.
#[derive(Debug, Clone, PartialEq, Eq)]
pub enum RegistryReply {
    /// A new record was stored under this identifier.
    Registered(String),
    /// The record with this identifier was refreshed (ip and hostname).
    Updated(String),
    /// The identifier belongs to another machine.
    UuidInUse,
    /// Any failure, described in free text.
    Failed(String),
}

/// The abstract content of a [`RegistryReply`].
pub enum ReplyModel {
    Registered(Seq<char>),
    Updated(Seq<char>),
    UuidInUse,
    Failed(Seq<char>),
}

impl View for RegistryReply {
    type V = ReplyModel;

    open spec fn view(&self) -> ReplyModel {
        match self {
            RegistryReply::Registered(id) => ReplyModel::Registered(id@),
            RegistryReply::Updated(id) => ReplyModel::Updated(id@),
            RegistryReply::UuidInUse => ReplyModel::UuidInUse,
            RegistryReply::Failed(t) => ReplyModel::Failed(t@),
        }
    }
}

pub open spec fn registered_tag() -> Seq<char> {
    seq!['r', 'e', 'g', 'i', 's', 't', 'e', 'r', 'e', 'd', ':']
}

pub open spec fn updated_tag() -> Seq<char> {
    seq!['u', 'p', 'd', 'a', 't', 'e', 'd', ':']
}

pub open spec fn in_use_tag() -> Seq<char> {
    seq!['U', 'U', 'I', 'D', '_', 'I', 'N', '_', 'U', 'S', 'E']
}

/// The text of a reply on the wire.
pub open spec fn reply_text(r: ReplyModel) -> Seq<char> {
    match r {
        ReplyModel::Registered(id) => registered_tag() + id,
        ReplyModel::Updated(id) => updated_tag() + id,
        ReplyModel::UuidInUse => in_use_tag(),
        ReplyModel::Failed(t) => t,
    }
}

/// How a text received from the registry is understood.
pub open spec fn reply_of_text(t: Seq<char>) -> ReplyModel {
    if has_prefix(t, registered_tag()) {
        ReplyModel::Registered(t.subrange(registered_tag().len() as int, t.len() as int))
    } else if has_prefix(t, updated_tag()) {
        ReplyModel::Updated(t.subrange(updated_tag().len() as int, t.len() as int))
    } else if t == in_use_tag() {
        ReplyModel::UuidInUse
    } else {
        ReplyModel::Failed(t)
    }
}

pub open spec fn parse_failure_text(detail: Seq<char>) -> Seq<char> {
    "Error parsing client info: "@ + detail
}

pub open spec fn store_failure_text(detail: Seq<char>) -> Seq<char> {
    "Database error: "@ + detail
}

pub open spec fn duplicate_id_text() -> Seq<char> {
    "Database error: identifier already stored"@
}

impl RegistryReply {
    /// The reply's text on the wire.
    pub fn to_wire(&self) -> (r: String)
        ensures
            r@ == reply_text(self@),
    {
        match self {
            RegistryReply::Registered(id) => {
                let tag = "registered:";
                proof {
                    reveal_strlit("registered:");
                }
                assert(tag@ =~= registered_tag());
                String::from_str(tag).concat(id.as_str())
            },
            RegistryReply::Updated(id) => {
                let tag = "updated:";
                proof {
                    reveal_strlit("updated:");
                }
                assert(tag@ =~= updated_tag());
                String::from_str(tag).concat(id.as_str())
            },
            RegistryReply::UuidInUse => {
                let tag = "UUID_IN_USE";
                proof {
                    reveal_strlit("UUID_IN_USE");
                }
                assert(tag@ =~= in_use_tag());
                String::from_str(tag)
            },
            RegistryReply::Failed(t) => t.clone(),
        }
    }

    /// Reads a reply received from the registry.
    pub fn from_wire(text: &str) -> (r: RegistryReply)
        ensures
            r@ == reply_of_text(text@),
    {
        let reg = "registered:";
        let upd = "updated:";
        let used = "UUID_IN_USE";
        proof {
            reveal_strlit("registered:");
            reveal_strlit("updated:");
            reveal_strlit("UUID_IN_USE");
        }
        assert(reg@ =~= registered_tag());
        assert(upd@ =~= updated_tag());
        assert(used@ =~= in_use_tag());
        let n = text.unicode_len();
        if starts_with_text(text, reg) {
            RegistryReply::Registered(String::from_str(text.substring_char(11, n)))
        } else if starts_with_text(text, upd) {
            RegistryReply::Updated(String::from_str(text.substring_char(8, n)))
        } else if same_text(text, used) {
            RegistryReply::UuidInUse
        } else {
            RegistryReply::Failed(String::from_str(text))
        }
    }

    /// The reply to a payload that could not be read as an identity.
    pub fn parse_failure(detail: &str) -> (r: RegistryReply)
        ensures
            r@ == ReplyModel::Failed(parse_failure_text(detail@)),
    {
        RegistryReply::Failed(String::from_str("Error parsing client info: ").concat(detail))
    }

    /// The reply to a failure of the identity store.
    pub fn store_failure(detail: &str) -> (r: RegistryReply)
        ensures
            r@ == ReplyModel::Failed(store_failure_text(detail@)),
    {
        RegistryReply::Failed(String::from_str("Database error: ").concat(detail))
    }
}

/// Every reply but a free-text failure reads back as itself.
pub proof fn lemma_reply_round_trip(r: ReplyModel)
    requires
        !(r is Failed),
    ensures
        reply_of_text(reply_text(r)) == r,
{
    let t = reply_text(r);
    match r {
        ReplyModel::Registered(id) => {
            assert(t.subrange(0, 11) =~= registered_tag());
            assert(t.subrange(11, t.len() as int) =~= id);
        },
        ReplyModel::Updated(id) => {
            assert(t.subrange(0, 8) =~= updated_tag());
            assert(t.subrange(8, t.len() as int) =~= id);
            if t.len() >= 11 {
                assert(t.subrange(0, 11)[0] != registered_tag()[0]);
            }
        },
        ReplyModel::UuidInUse => {
            assert(t.subrange(0, 11)[0] == 'U');
            assert(t.subrange(0, 8)[0] == 'U');
        },
        ReplyModel::Failed(_) => {},
    }
}

} // verus!
