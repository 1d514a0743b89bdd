//! The identity store and the registry's admission rule: an identifier that is
//! already stored is accepted again only from the machine with the same MAC address.
use vstd::prelude::*;

use crate::identity::{fresh_uuid_text, is_placeholder, is_placeholder_id, is_uuid_text, lemma_uuid_is_not_placeholder};
use crate::registry::{duplicate_id_text, RegistryReply, ReplyModel};
use crate::text::{opt_text, same_optional_text, same_text};
use crate::types::{ClientInfo, IdentityView};

verus! {

/// What the registry does with one presented identity.
#[derive(Debug, Clone, PartialEq, Eq)]
pub enum RegistrationAction {
    /// Store this new record.
    Insert(ClientInfo),
    /// Overwrite the stored record of the same identifier with this one.
    Update(ClientInfo),
    /// Refuse: the identifier belongs to a machine with another MAC address.
    Reject,
}

/// The abstract content of a [`RegistrationAction`].
pub enum ActionModel {
    Insert(IdentityView),
    Update(IdentityView),
    Reject,
}

impl View for RegistrationAction {
    type V = ActionModel;

    open spec fn view(&self) -> ActionModel {
        match self {
            RegistrationAction::Insert(c) => ActionModel::Insert(c@),
            RegistrationAction::Update(c) => ActionModel::Update(c@),
            RegistrationAction::Reject => ActionModel::Reject,
        }
    }
}

pub open spec fn opt_identity(o: Option<ClientInfo>) -> Option<IdentityView> {
    match o {
        Some(c) => Some(c@),
        None => None,
    }
}

/// The admission rule. `existing` is the stored record with the presented
/// identifier, if any; `fresh` is the identifier to hand out when the
/// presented one is a placeholder.
pub open spec fn decision(p: IdentityView, existing: Option<IdentityView>, fresh: Seq<char>) -> ActionModel {
    match existing {
        None => ActionModel::Insert(
            IdentityView {
                uuid: if is_placeholder_id(p.uuid) { fresh } else { p.uuid },
                hostname: p.hostname,
                ip: p.ip,
                mac_address: p.mac_address,
            },
        ),
        Some(e) => if e.mac_address == p.mac_address {
            ActionModel::Update(
                IdentityView {
                    uuid: e.uuid,
                    hostname: p.hostname,
                    ip: p.ip,
                    mac_address: e.mac_address,
                },
            )
        } else {
            ActionModel::Reject
        },
    }
}

/// The reply owed once an action has been carried out.
pub open spec fn action_reply(a: ActionModel) -> ReplyModel {
    match a {
        ActionModel::Insert(row) => ReplyModel::Registered(row.uuid),
        ActionModel::Update(row) => ReplyModel::Updated(row.uuid),
        ActionModel::Reject => ReplyModel::UuidInUse,
    }
}

/// Applies the admission rule to a presented identity and the stored record
/// found under its identifier.
pub fn decide_registration(presented: &ClientInfo, existing: &Option<ClientInfo>, fresh: &String) -> (r: RegistrationAction)
    ensures
        r@ == decision(presented@, opt_identity(*existing), fresh@),
{
    match existing {
        None => {
            let uuid = if is_placeholder(presented.uuid.as_str()) {
                fresh.clone()
            } else {
                presented.uuid.clone()
            };
            let row = ClientInfo { uuid, ..presented.duplicate() };
            RegistrationAction::Insert(row)
        },
        Some(e) => {
            if same_optional_text(&e.mac_address, &presented.mac_address) {
                let p = presented.duplicate();
                let s = e.duplicate();
                RegistrationAction::Update(
                    ClientInfo { uuid: s.uuid, hostname: p.hostname, ip: p.ip, mac_address: s.mac_address },
                )
            } else {
                RegistrationAction::Reject
            }
        },
    }
}

/// Like [`decide_registration`], drawing a fresh random identifier only when
/// the presented one is a placeholder with no stored record.
pub fn plan_registration(presented: &ClientInfo, existing: &Option<ClientInfo>) -> (r: RegistrationAction)
    ensures
        exists|fresh: Seq<char>|
            is_uuid_text(fresh) && r@ == decision(presented@, opt_identity(*existing), fresh),
{
    if existing.is_none() && is_placeholder(presented.uuid.as_str()) {
        let fresh = fresh_uuid_text();
        decide_registration(presented, existing, &fresh)
    } else {
        let r = decide_registration(presented, existing, &String::new());
        proof {
            lemma_sample_uuid();
            assert(r@ == decision(presented@, opt_identity(*existing), sample_uuid()));
        }
        r
    }
}

/// A fixed text of UUID shape: `00000000-0000-4000-8000-000000000000`.
pub open spec fn sample_uuid() -> Seq<char> {
    Seq::new(
        36,
        |i: int|
            if i == 8 || i == 13 || i == 18 || i == 23 {
                '-'
            } else if i == 14 {
                '4'
            } else if i == 19 {
                '8'
            } else {
                '0'
            },
    )
}

/// The sample text has the shape of a random UUID.
pub proof fn lemma_sample_uuid()
    ensures
        is_uuid_text(sample_uuid()),
{
}

impl RegistrationAction {
    /// The reply to send once this action has been carried out.
    pub fn reply(&self) -> (r: RegistryReply)
        ensures
            r@ == action_reply(self@),
    {
        match self {
            RegistrationAction::Insert(row) => RegistryReply::Registered(row.uuid.clone()),
            RegistrationAction::Update(row) => RegistryReply::Updated(row.uuid.clone()),
            RegistrationAction::Reject => RegistryReply::UuidInUse,
        }
    }
}

/// The stored records, in order of insertion.
pub struct IdentityStore {
    rows: Vec<ClientInfo>,
}

/// Whether some record carries identifier `id`.
pub open spec fn holds_id(s: Seq<IdentityView>, id: Seq<char>) -> bool {
    exists|i: int| 0 <= i < s.len() && s[i].uuid == id
}

/// The position of the record with identifier `id` (meaningful when there is one).
pub open spec fn position_of(s: Seq<IdentityView>, id: Seq<char>) -> int {
    choose|i: int| 0 <= i < s.len() && s[i].uuid == id
}

/// The record with identifier `id`, if any.
pub open spec fn lookup(s: Seq<IdentityView>, id: Seq<char>) -> Option<IdentityView> {
    if holds_id(s, id) {
        Some(s[position_of(s, id)])
    } else {
        None
    }
}

/// The store's invariant: identifiers are unique, and none is a placeholder.
pub open spec fn rows_wf(s: Seq<IdentityView>) -> bool {
    &&& forall|i: int, j: int| 0 <= i < j < s.len() ==> s[i].uuid != s[j].uuid
    &&& forall|i: int| 0 <= i < s.len() ==> !is_placeholder_id(#[trigger] s[i].uuid)
}

/// One registration against the records `s`: the reply, and the records after it.
pub open spec fn register_model(s: Seq<IdentityView>, p: IdentityView, fresh: Seq<char>) -> (ReplyModel, Seq<IdentityView>) {
    match decision(p, lookup(s, p.uuid), fresh) {
        ActionModel::Insert(row) => if holds_id(s, row.uuid) {
            (ReplyModel::Failed(duplicate_id_text()), s)
        } else {
            (ReplyModel::Registered(row.uuid), s.push(row))
        },
        ActionModel::Update(row) => (ReplyModel::Updated(row.uuid), s.update(position_of(s, p.uuid), row)),
        ActionModel::Reject => (ReplyModel::UuidInUse, s),
    }
}

/// In well-formed records, a record's identifier leads back to its own position.
pub proof fn lemma_position_unique(s: Seq<IdentityView>, k: int)
    requires
        rows_wf(s),
        0 <= k < s.len(),
    ensures
        holds_id(s, s[k].uuid),
        position_of(s, s[k].uuid) == k,
{
    let id = s[k].uuid;
    assert(0 <= k < s.len() && s[k].uuid == id);
    let j = position_of(s, id);
    if j < k {
        assert(s[j].uuid != s[k].uuid);
    } else if k < j {
        assert(s[k].uuid != s[j].uuid);
    }
}

impl View for IdentityStore {
    type V = Seq<IdentityView>;

    closed spec fn view(&self) -> Seq<IdentityView> {
        self.rows@.map_values(|c: ClientInfo| c@)
    }
}

impl IdentityStore {
    pub open spec fn wf(&self) -> bool {
        rows_wf(self@)
    }

    /// An empty store.
    pub fn new() -> (r: IdentityStore)
        ensures
            r.wf(),
            r@ == Seq::<IdentityView>::empty(),
    {
        let r = IdentityStore { rows: Vec::new() };
        assert(r@ =~= Seq::<IdentityView>::empty());
        r
    }

    /// The number of records.
    pub fn len(&self) -> (r: usize)
        ensures
            r == self@.len(),
    {
        self.rows.len()
    }

    /// A copy of the record at position `i`.
    pub fn get(&self, i: usize) -> (r: ClientInfo)
        requires
            i < self@.len(),
        ensures
            r@ == self@[i as int],
    {
        self.rows[i].duplicate()
    }

    /// The position of the record with identifier `id`.
    pub fn find(&self, id: &str) -> (r: Option<usize>)
        ensures
            match r {
                Some(i) => i < self@.len() && self@[i as int].uuid == id@,
                None => !holds_id(self@, id@),
            },
    {
        let mut i: usize = 0;
        while i < self.rows.len()
            invariant
                i <= self.rows@.len(),
                forall|j: int| 0 <= j < i ==> self@[j].uuid != id@,
            decreases self.rows@.len() - i,
        {
            if same_text(self.rows[i].uuid.as_str(), id) {
                return Some(i);
            }
            i = i + 1;
        }
        None
    }

    /// The stored record with identifier `id`, if any.
    pub fn lookup(&self, id: &str) -> (r: Option<ClientInfo>)
        requires
            self.wf(),
        ensures
            opt_identity(r) == lookup(self@, id@),
    {
        match self.find(id) {
            Some(i) => {
                proof {
                    lemma_position_unique(self@, i as int);
                }
                Some(self.rows[i].duplicate())
            },
            None => None,
        }
    }

    /// Registers `presented`, handing out `fresh` if its identifier is a placeholder.
    pub fn register_with(&mut self, presented: &ClientInfo, fresh: &String) -> (r: RegistryReply)
        requires
            old(self).wf(),
            is_placeholder_id(presented@.uuid) ==> is_uuid_text(fresh@),
        ensures
            final(self).wf(),
            (r@, final(self)@) == register_model(old(self)@, presented@, fresh@),
    {
        let existing = self.lookup(presented.uuid.as_str());
        let action = decide_registration(presented, &existing, fresh);
        proof {
            if is_placeholder_id(presented@.uuid) {
                lemma_uuid_is_not_placeholder(fresh@);
            }
        }
        match action {
            RegistrationAction::Insert(row) => {
                if self.find(row.uuid.as_str()).is_some() {
                    let r = RegistryReply::Failed(String::from_str("Database error: identifier already stored"));
                    return r;
                }
                let reply = RegistryReply::Registered(row.uuid.clone());
                let ghost before = self@;
                self.rows.push(row);
                assert(self@ =~= before.push(row@));
                reply
            },
            RegistrationAction::Update(row) => {
                let i = self.find(presented.uuid.as_str()).unwrap();
                proof {
                    lemma_position_unique(self@, i as int);
                }
                let reply = RegistryReply::Updated(row.uuid.clone());
                let ghost before = self@;
                self.rows[i] = row;
                assert(self@ =~= before.update(i as int, row@));
                reply
            },
            RegistrationAction::Reject => RegistryReply::UuidInUse,
        }
    }

    /// Registers `presented`, drawing a fresh random identifier if it
    /// presents a placeholder.
    pub fn register(&mut self, presented: &ClientInfo) -> (r: RegistryReply)
        requires
            old(self).wf(),
        ensures
            final(self).wf(),
            exists|fresh: Seq<char>|
                is_uuid_text(fresh) && (r@, final(self)@) == register_model(old(self)@, presented@, fresh),
    {
        if is_placeholder(presented.uuid.as_str()) {
            let fresh = fresh_uuid_text();
            return self.register_with(presented, &fresh);
        }
        let r = self.register_with(presented, &String::new());
        proof {
            lemma_sample_uuid();
            assert(register_model(old(self)@, presented@, Seq::empty()) == register_model(
                old(self)@,
                presented@,
                sample_uuid(),
            ));
        }
        r
    }
}

/// Checking in twice with a stored identifier and the MAC address stored with
/// it answers `updated:<id>` both times. Every identifier and MAC address stays
/// as it was; only the record's ip and hostname follow the latest check-in.
pub proof fn lemma_idempotent_check_in(
    s: Seq<IdentityView>,
    first: IdentityView,
    second: IdentityView,
    fresh1: Seq<char>,
    fresh2: Seq<char>,
)
    requires
        rows_wf(s),
        holds_id(s, first.uuid),
        second.uuid == first.uuid,
        second.mac_address == first.mac_address,
        s[position_of(s, first.uuid)].mac_address == first.mac_address,
    ensures
        register_model(s, first, fresh1).0 == ReplyModel::Updated(first.uuid),
        register_model(register_model(s, first, fresh1).1, second, fresh2).0 == ReplyModel::Updated(first.uuid),
        ({
            let k = position_of(s, first.uuid);
            let after = register_model(register_model(s, first, fresh1).1, second, fresh2).1;
            &&& rows_wf(after)
            &&& after.len() == s.len()
            &&& forall|i: int|
                0 <= i < s.len() ==> after[i].uuid == s[i].uuid && after[i].mac_address == s[i].mac_address
            &&& forall|i: int| 0 <= i < s.len() && i != k ==> after[i] == s[i]
            &&& after[k].ip == second.ip && after[k].hostname == second.hostname
        }),
{
    let k = position_of(s, first.uuid);
    assert(0 <= k < s.len() && s[k].uuid == first.uuid);
    let s1 = register_model(s, first, fresh1).1;
    assert(s1 == s.update(k, s1[k]));
    assert(rows_wf(s1)) by {
        assert forall|i: int| 0 <= i < s1.len() implies s1[i].uuid == s[i].uuid by {}
    }
    lemma_position_unique(s1, k);
    let s2 = register_model(s1, second, fresh2).1;
    assert(rows_wf(s2)) by {
        assert forall|i: int| 0 <= i < s2.len() implies s2[i].uuid == s[i].uuid by {}
    }
}

/// Presenting a stored identifier with a different MAC address answers
/// `UUID_IN_USE` and leaves the store as it was.
pub proof fn lemma_collision_detected(s: Seq<IdentityView>, p: IdentityView, fresh: Seq<char>)
    requires
        rows_wf(s),
        holds_id(s, p.uuid),
        s[position_of(s, p.uuid)].mac_address != p.mac_address,
    ensures
        register_model(s, p, fresh) == (ReplyModel::UuidInUse, s),
{
}

/// Presenting a placeholder identifier stores the record under the fresh
/// identifier, a UUID that no stored record carried, and answers `registered:<fresh>`.
pub proof fn lemma_fresh_assignment(s: Seq<IdentityView>, p: IdentityView, fresh: Seq<char>)
    requires
        rows_wf(s),
        is_placeholder_id(p.uuid),
        is_uuid_text(fresh),
        !holds_id(s, fresh),
    ensures
        register_model(s, p, fresh).0 == ReplyModel::Registered(fresh),
        register_model(s, p, fresh).1 == s.push(
            IdentityView { uuid: fresh, hostname: p.hostname, ip: p.ip, mac_address: p.mac_address },
        ),
        rows_wf(register_model(s, p, fresh).1),
{
    if holds_id(s, p.uuid) {
        let k = choose|i: int| 0 <= i < s.len() && s[i].uuid == p.uuid;
        assert(!is_placeholder_id(s[k].uuid));
    }
    lemma_uuid_is_not_placeholder(fresh);
    let t = register_model(s, p, fresh).1;
    assert forall|i: int, j: int| 0 <= i < j < t.len() implies t[i].uuid != t[j].uuid by {
        if j == s.len() {
            assert(!(0 <= i < s.len() && s[i].uuid == fresh));
        }
    }
}

/// The lookup of a dispatch target found no record.
#[derive(Debug, Clone, PartialEq, Eq)]
pub enum ResolveError {
    NotFound(String),
}

/// Whether a record answers to `target` by identifier, ip, hostname or MAC address.
pub open spec fn matches_target(r: IdentityView, target: Seq<char>) -> bool {
    r.uuid == target || r.ip == target || r.hostname == Some(target) || r.mac_address == Some(target)
}

/// `r` is the first record of `s` that answers to `target`.
pub open spec fn is_first_match(s: Seq<IdentityView>, target: Seq<char>, r: IdentityView) -> bool {
    exists|i: int|
        0 <= i < s.len() && matches_target(s[i], target) && s[i] == r && forall|j: int|
            0 <= j < i ==> !matches_target(#[trigger] s[j], target)
}

/// Whether any record of `s` answers to `target`.
pub open spec fn any_match(s: Seq<IdentityView>, target: Seq<char>) -> bool {
    exists|i: int| 0 <= i < s.len() && matches_target(s[i], target)
}

fn optional_is(o: &Option<String>, t: &str) -> (r: bool)
    ensures
        r == (opt_text(*o) == Some(t@)),
{
    match o {
        Some(x) => same_text(x.as_str(), t),
        None => false,
    }
}

/// Whether `row` answers to `target`.
pub fn answers_to(row: &ClientInfo, target: &str) -> (r: bool)
    ensures
        r == matches_target(row@, target@),
{
    same_text(row.uuid.as_str(), target) || same_text(row.ip.as_str(), target) || optional_is(&row.hostname, target)
        || optional_is(&row.mac_address, target)
}

/// Finds the record a dispatch target names: the first of `rows` that answers
/// to it, or `NotFound` when none does.
pub fn resolve_target(rows: &Vec<ClientInfo>, target: &str) -> (r: Result<ClientInfo, ResolveError>)
    ensures
        match r {
            Ok(c) => is_first_match(rows@.map_values(|c: ClientInfo| c@), target@, c@),
            Err(ResolveError::NotFound(t)) => t@ == target@ && !any_match(rows@.map_values(|c: ClientInfo| c@), target@),
        },
{
    let ghost s = rows@.map_values(|c: ClientInfo| c@);
    let mut i: usize = 0;
    while i < rows.len()
        invariant
            i <= rows@.len(),
            s == rows@.map_values(|c: ClientInfo| c@),
            forall|j: int| 0 <= j < i ==> !matches_target(#[trigger] s[j], target@),
        decreases rows@.len() - i,
    {
        if answers_to(&rows[i], target) {
            let c = rows[i].duplicate();
            assert(matches_target(s[i as int], target@) && s[i as int] == c@);
            return Ok(c);
        }
        i = i + 1;
    }
    Err(ResolveError::NotFound(String::from_str(target)))
}

} // verus!
