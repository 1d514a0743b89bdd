//! The agent: what it presents to the registry, how it reacts to each reply,
//! and what it does with one dispatch connection.
use vstd::prelude::*;

use crate::identity::{unregistered_id, unregistered_text};
use crate::registry::RegistryReply;
use crate::types::{ClientInfo, IdentityView};

verus! {

/// How many identity exchanges an agent makes at most before it gives up.
pub const DEFAULT_MAX_ATTEMPTS: u32 = 5;

/// The identity an agent presents: the identifier it stored earlier, or the
/// placeholder when it has none, with the facts it gathered about itself.
pub fn identity_payload(stored_id: Option<String>, hostname: String, ip: String, mac_address: String) -> (r: ClientInfo)
    ensures
        r@ == (IdentityView {
            uuid: match stored_id {
                Some(s) => s@,
                None => unregistered_id(),
            },
            hostname: Some(hostname@),
            ip: ip@,
            mac_address: Some(mac_address@),
        }),
{
    let uuid = match stored_id {
        Some(s) => s,
        None => unregistered_text(),
    };
    ClientInfo { uuid, hostname: Some(hostname), ip, mac_address: Some(mac_address) }
}

/// Why registration ended without an identifier.
#[derive(Debug, Clone, PartialEq, Eq)]
pub enum RegistrationError {
    /// The registry answered something other than an identifier or `UUID_IN_USE`.
    Rejected(String),
    /// Every allowed exchange ended in `UUID_IN_USE`.
    RetriesExhausted(u32),
}

/// What the agent does after one reply of the registry.
#[derive(Debug, Clone, PartialEq, Eq)]
pub enum RegistrationStep {
    /// Store this identifier locally: registration is complete.
    Persist(String),
    /// Forget the stored identifier and register again with the placeholder.
    Retry,
    /// Stop: the agent must not listen without an identifier.
    Fail(RegistrationError),
}

/// The registration sequence of one agent: counts exchanges, bounded by `max_attempts`.
pub struct RegistrationSession {
    attempts: u32,
    max_attempts: u32,
}

impl RegistrationSession {
    pub closed spec fn attempts_spec(&self) -> nat {
        self.attempts as nat
    }

    pub closed spec fn max_spec(&self) -> nat {
        self.max_attempts as nat
    }

    pub open spec fn wf(&self) -> bool {
        self.attempts_spec() <= self.max_spec()
    }

    /// A session that allows `max_attempts` exchanges.
    pub fn new(max_attempts: u32) -> (r: RegistrationSession)
        ensures
            r.wf(),
            r.attempts_spec() == 0,
            r.max_spec() == max_attempts,
    {
        RegistrationSession { attempts: 0, max_attempts }
    }

    /// The number of exchanges made so far.
    pub fn attempts(&self) -> (r: u32)
        ensures
            r == self.attempts_spec(),
    {
        self.attempts
    }

    /// Decides what follows one reply of the registry.
    pub fn on_reply(&mut self, reply: &RegistryReply) -> (r: RegistrationStep)
        requires
            old(self).wf(),
        ensures
            final(self).wf(),
            final(self).max_spec() == old(self).max_spec(),
            final(self).attempts_spec() == if old(self).attempts_spec() < old(self).max_spec() {
                old(self).attempts_spec() + 1
            } else {
                old(self).attempts_spec()
            },
            match reply {
                RegistryReply::Registered(id) => r is Persist && r->Persist_0@ == id@,
                RegistryReply::Updated(id) => r is Persist && r->Persist_0@ == id@,
                RegistryReply::UuidInUse => if final(self).attempts_spec() < final(self).max_spec() {
                    r == RegistrationStep::Retry
                } else {
                    r == RegistrationStep::Fail(RegistrationError::RetriesExhausted(final(self).max_spec() as u32))
                },
                RegistryReply::Failed(t) => r is Fail && r->Fail_0 is Rejected && r->Fail_0->Rejected_0@ == t@,
            },
            r is Retry ==> final(self).attempts_spec() < final(self).max_spec(),
    {
        if self.attempts < self.max_attempts {
            self.attempts = self.attempts + 1;
        }
        match reply {
            RegistryReply::Registered(id) => RegistrationStep::Persist(id.clone()),
            RegistryReply::Updated(id) => RegistrationStep::Persist(id.clone()),
            RegistryReply::UuidInUse => if self.attempts < self.max_attempts {
                RegistrationStep::Retry
            } else {
                RegistrationStep::Fail(RegistrationError::RetriesExhausted(self.max_attempts))
            },
            RegistryReply::Failed(t) => RegistrationStep::Fail(RegistrationError::Rejected(t.clone())),
        }
    }
}

/// The byte that ends a dispatch message on the wire.
pub const FRAME_END: u8 = 10;

/// A message as sent: its bytes, then the newline.
pub open spec fn frame_of(payload: Seq<u8>) -> Seq<u8> {
    payload.push(FRAME_END)
}

/// `k` is the position of the first newline of `received`.
pub open spec fn is_first_newline(received: Seq<u8>, k: int) -> bool {
    0 <= k < received.len() && received[k] == FRAME_END && forall|j: int|
        0 <= j < k ==> #[trigger] received[j] != FRAME_END
}

/// The message in what was received: the bytes before the first newline;
/// none when the connection closed before any newline.
pub open spec fn payload_of(received: Seq<u8>) -> Option<Seq<u8>> {
    if exists|k: int| is_first_newline(received, k) {
        Some(received.subrange(0, choose|k: int| is_first_newline(received, k)))
    } else {
        None
    }
}

/// A buffer has at most one first newline.
proof fn lemma_first_newline_unique(received: Seq<u8>, k: int, m: int)
    requires
        is_first_newline(received, k),
        is_first_newline(received, m),
    ensures
        k == m,
{
    if k < m {
        assert(received[k] != FRAME_END);
    } else if m < k {
        assert(received[m] != FRAME_END);
    }
}

/// Frames a message for sending: the bytes, then the newline.
pub fn frame_message(payload: &Vec<u8>) -> (r: Vec<u8>)
    ensures
        r@ == frame_of(payload@),
{
    let mut r = crate::text::copy_bytes(payload);
    r.push(FRAME_END);
    r
}

/// The message in what a dispatch connection delivered.
pub fn frame_payload(received: &Vec<u8>) -> (r: Option<Vec<u8>>)
    ensures
        opt_bytes(r) == payload_of(received@),
{
    let mut out: Vec<u8> = Vec::new();
    let mut i: usize = 0;
    while i < received.len()
        invariant
            i <= received@.len(),
            out@ == received@.subrange(0, i as int),
            forall|j: int| 0 <= j < i ==> #[trigger] received@[j] != FRAME_END,
        decreases received@.len() - i,
    {
        if received[i] == FRAME_END {
            proof {
                assert(is_first_newline(received@, i as int));
                let k = choose|k: int| is_first_newline(received@, k);
                lemma_first_newline_unique(received@, i as int, k);
            }
            return Some(out);
        }
        out.push(received[i]);
        i = i + 1;
    }
    proof {
        if exists|k: int| is_first_newline(received@, k) {
            let k = choose|k: int| is_first_newline(received@, k);
            assert(received@[k] != FRAME_END);
        }
    }
    None
}

pub open spec fn opt_bytes(o: Option<Vec<u8>>) -> Option<Seq<u8>> {
    match o {
        Some(v) => Some(v@),
        None => None,
    }
}

/// A message without a newline of its own reads back whole from its frame.
pub proof fn lemma_frame_round_trip(payload: Seq<u8>)
    requires
        forall|j: int| 0 <= j < payload.len() ==> payload[j] != FRAME_END,
    ensures
        payload_of(frame_of(payload)) == Some(payload),
{
    let f = frame_of(payload);
    let n = payload.len() as int;
    assert(is_first_newline(f, n));
    let k = choose|k: int| is_first_newline(f, k);
    lemma_first_newline_unique(f, n, k);
    assert(f.subrange(0, n) =~= payload);
}

/// The host part of `host:port`: the text before the first `:`, or all of it.
pub open spec fn host_of(address: Seq<char>) -> Seq<char> {
    if exists|k: int| 0 <= k < address.len() && address[k] == ':' {
        address.subrange(
            0,
            choose|k: int|
                0 <= k < address.len() && address[k] == ':' && forall|j: int|
                    0 <= j < k ==> #[trigger] address[j] != ':',
        )
    } else {
        address
    }
}

/// The name the registry's certificate is checked against: the host part of its address.
pub fn registry_host(address: &str) -> (r: String)
    ensures
        r@ == host_of(address@),
{
    let n = address.unicode_len();
    let mut i: usize = 0;
    while i < n
        invariant
            n == address@.len(),
            i <= n,
            forall|j: int| 0 <= j < i ==> #[trigger] address@[j] != ':',
        decreases n - i,
    {
        if address.get_char(i) == ':' {
            proof {
                let p = |k: int|
                    0 <= k < address@.len() && address@[k] == ':' && forall|j: int|
                        0 <= j < k ==> #[trigger] address@[j] != ':';
                assert(p(i as int));
                let k = choose|k: int|
                    0 <= k < address@.len() && address@[k] == ':' && forall|j: int|
                        0 <= j < k ==> #[trigger] address@[j] != ':';
                if k < i {
                    assert(address@[k] != ':');
                } else if i < k {
                    assert(address@[i as int] != ':');
                }
            }
            return String::from_str(address.substring_char(0, i));
        }
        i = i + 1;
    }
    proof {
        if exists|k: int| 0 <= k < address@.len() && address@[k] == ':' {
            let k = choose|k: int| 0 <= k < address@.len() && address@[k] == ':';
            assert(address@[k] != ':');
        }
    }
    String::from_str(address)
}

} // verus!
