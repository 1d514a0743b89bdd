//! The dispatcher: which files it reads, which agent it connects to, and the
//! audit record it keeps of each dispatch.
use vstd::prelude::*;

use crate::store::{any_match, is_first_match, resolve_target, ResolveError};
use crate::text::{decimal, decimal_text, opt_text};
use crate::types::{ClientInfo, DispatchFile, DispatchFileMetadata, DispatchMessage};

verus! {

/// The pieces of `s` between the occurrences of `sep`, as `str::split` gives them.
pub open spec fn split_on(s: Seq<char>, sep: char) -> Seq<Seq<char>>
    decreases s.len(),
{
    if s.len() == 0 {
        seq![Seq::<char>::empty()]
    } else {
        let init = split_on(s.drop_last(), sep);
        if s.last() == sep {
            init.push(Seq::<char>::empty())
        } else {
            init.update(init.len() - 1, init.last().push(s.last()))
        }
    }
}

/// Splitting always yields at least one piece.
pub proof fn lemma_split_nonempty(s: Seq<char>, sep: char)
    ensures
        split_on(s, sep).len() >= 1,
    decreases s.len(),
{
    if s.len() > 0 {
        lemma_split_nonempty(s.drop_last(), sep);
    }
}

/// Splits `s` at every comma.
pub fn split_commas(s: &str) -> (r: Vec<String>)
    ensures
        r@.map_values(|x: String| x@) == split_on(s@, ','),
{
    let n = s.unicode_len();
    let mut done: Vec<String> = Vec::new();
    let mut cur = String::new();
    let mut i: usize = 0;
    assert(s@.subrange(0, 0) =~= Seq::<char>::empty());
    assert(done@.map_values(|x: String| x@).push(cur@) =~= split_on(Seq::<char>::empty(), ','));
    while i < n
        invariant
            n == s@.len(),
            i <= n,
            done@.map_values(|x: String| x@).push(cur@) == split_on(s@.subrange(0, i as int), ','),
        decreases n - i,
    {
        let ghost before = s@.subrange(0, i as int);
        let ghost next = s@.subrange(0, i + 1);
        assert(next.drop_last() =~= before);
        assert(next.last() == s@[i as int]);
        proof {
            lemma_split_nonempty(before, ',');
        }
        let c = s.get_char(i);
        if c == ',' {
            let piece = cur;
            let ghost old_done = done@;
            done.push(piece);
            cur = String::new();
            assert(done@.map_values(|x: String| x@).push(cur@) =~= split_on(next, ','));
        } else {
            let ghost old_cur = cur@;
            cur.append(s.substring_char(i, i + 1));
            assert(s@.subrange(i as int, i + 1) =~= seq![c]);
            assert(cur@ =~= old_cur.push(c));
            let ghost init = split_on(before, ',');
            assert(init =~= done@.map_values(|x: String| x@).push(old_cur));
            assert(init.last() == old_cur);
            assert(done@.map_values(|x: String| x@).push(cur@) =~= split_on(next, ','));
        }
        i = i + 1;
    }
    assert(s@.subrange(0, n as int) =~= s@);
    done.push(cur);
    assert(done@.map_values(|x: String| x@) =~= split_on(s@, ','));
    done
}

/// The text that `str::trim` leaves of `s`.
pub uninterp spec fn trimmed(s: Seq<char>) -> Seq<char>;

/// Relies on `str::trim`: `s` without its leading and trailing white space.
#[verifier::external_body]
fn trim_text(s: &str) -> (r: String)
    ensures
        r@ == trimmed(s@),
{
    String::from(s.trim())
}

/// The file paths named by a comma-separated list, each trimmed of white space.
pub fn file_list(arg: &str) -> (r: Vec<String>)
    ensures
        r@.len() == split_on(arg@, ',').len(),
        forall|i: int| 0 <= i < r@.len() ==> #[trigger] r@[i]@ == trimmed(split_on(arg@, ',')[i]),
{
    let pieces = split_commas(arg);
    let mut r: Vec<String> = Vec::new();
    let mut i: usize = 0;
    while i < pieces.len()
        invariant
            i <= pieces@.len(),
            pieces@.map_values(|x: String| x@) == split_on(arg@, ','),
            r@.len() == i,
            forall|j: int| 0 <= j < i ==> #[trigger] r@[j]@ == trimmed(split_on(arg@, ',')[j]),
        decreases pieces@.len() - i,
    {
        assert(pieces@.map_values(|x: String| x@)[i as int] == pieces@[i as int]@);
        r.push(trim_text(pieces[i].as_str()));
        i = i + 1;
    }
    r
}

pub open spec fn localhost() -> Seq<char> {
    seq!['l', 'o', 'c', 'a', 'l', 'h', 'o', 's', 't']
}

/// The name a TLS connection to an agent checks the certificate against:
/// the agent's hostname, else `localhost`.
pub open spec fn server_name_of(hostname: Option<Seq<char>>) -> Seq<char> {
    match hostname {
        Some(h) => h,
        None => localhost(),
    }
}

pub fn server_name_for(hostname: &Option<String>) -> (r: String)
    ensures
        r@ == server_name_of(opt_text(*hostname)),
{
    match hostname {
        Some(h) => h.clone(),
        None => {
            let l = "localhost";
            proof {
                reveal_strlit("localhost");
            }
            assert(l@ =~= localhost());
            String::from_str(l)
        },
    }
}

/// Where the dispatcher connects, and to whom.
#[derive(Debug, Clone, PartialEq, Eq)]
pub struct Connection {
    /// `ip:port` of the agent.
    pub address: String,
    /// The name its certificate is checked against.
    pub server_name: String,
    /// The record the target resolved to.
    pub client: ClientInfo,
}

pub open spec fn address_of(ip: Seq<char>, port: u16) -> Seq<char> {
    ip + seq![':'] + decimal(port as nat)
}

/// Resolves `target` among `rows` and says where to connect: the first record
/// that answers to it, at its ip and `port`. When no record answers, the
/// dispatch ends there, with no connection to make.
pub fn connection_plan(rows: &Vec<ClientInfo>, target: &str, port: u16) -> (r: Result<Connection, ResolveError>)
    ensures
        match r {
            Ok(c) => {
                &&& is_first_match(rows@.map_values(|c: ClientInfo| c@), target@, c.client@)
                &&& c.address@ == address_of(c.client@.ip, port)
                &&& c.server_name@ == server_name_of(c.client@.hostname)
            },
            Err(ResolveError::NotFound(t)) => t@ == target@ && !any_match(rows@.map_values(|c: ClientInfo| c@), target@),
        },
{
    match resolve_target(rows, target) {
        Ok(client) => {
            let sep = ":";
            proof {
                reveal_strlit(":");
            }
            assert(sep@ =~= seq![':']);
            let digits = decimal_text(port as u64);
            let address = client.ip.clone().concat(sep).concat(digits.as_str());
            let server_name = server_name_for(&client.hostname);
            Ok(Connection { address, server_name, client })
        },
        Err(e) => Err(e),
    }
}

/// The audit record of one completed dispatch.
#[derive(Debug, Clone, PartialEq, Eq)]
pub struct DispatchEvent {
    pub timestamp: u64,
    pub client_id: String,
    pub client_ip: String,
    pub command: String,
    pub response: String,
    pub files: Vec<DispatchFileMetadata>,
}

/// The names of the attached files, in order; the contents are left out.
pub fn file_metadata(files: &Vec<DispatchFile>) -> (r: Vec<DispatchFileMetadata>)
    ensures
        r@.len() == files@.len(),
        forall|i: int| 0 <= i < r@.len() ==> #[trigger] r@[i].name@ == files@[i].name@,
{
    let mut r: Vec<DispatchFileMetadata> = Vec::new();
    let mut i: usize = 0;
    while i < files.len()
        invariant
            i <= files@.len(),
            r@.len() == i,
            forall|j: int| 0 <= j < i ==> #[trigger] r@[j].name@ == files@[j].name@,
        decreases files@.len() - i,
    {
        r.push(DispatchFileMetadata { name: files[i].name.clone() });
        i = i + 1;
    }
    r
}

/// The audit record of a dispatch of `message` to `client` that received `response`.
pub fn audit_event(timestamp: u64, client: &ClientInfo, message: &DispatchMessage, response: &str) -> (r: DispatchEvent)
    ensures
        r.timestamp == timestamp,
        r.client_id@ == client@.uuid,
        r.client_ip@ == client@.ip,
        r.command@ == message.command@,
        r.response@ == response@,
        r.files@.len() == message.files@.len(),
        forall|i: int| 0 <= i < r.files@.len() ==> #[trigger] r.files@[i].name@ == message.files@[i].name@,
{
    DispatchEvent {
        timestamp,
        client_id: client.uuid.clone(),
        client_ip: client.ip.clone(),
        command: message.command.clone(),
        response: String::from_str(response),
        files: file_metadata(&message.files),
    }
}

} // verus!
