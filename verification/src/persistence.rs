//! The token store: an indexed in-memory collection of clients, grant types
//! and issued tokens — the engine's persistence collaborator, where a
//! deployment would put an external database. Records are only ever inserted, never
//! mutated or deleted, so uniqueness of token values inside the store is
//! uniqueness across all time.

use vstd::prelude::*;

use crate::models::db::{AccessToken, Client, GrantType, NewAccessToken, NewRefreshToken,
    RefreshToken};
use crate::strutil::str_eq;

verus! {

pub struct TokenStore {
    pub clients: Vec<Client>,
    pub grant_types: Vec<GrantType>,
    pub access_tokens: Vec<AccessToken>,
    pub refresh_tokens: Vec<RefreshToken>,
    pub next_access_token_id: i32,
    pub next_refresh_token_id: i32,
}

impl TokenStore {
    /// Well-formedness: client identifiers, client ids and grant-type names
    /// are unique; token values are unique across both token collections;
    /// and every token's expiry, when present, is no earlier than its issue
    /// time (both non-negative).
    pub open spec fn wf(self) -> bool {
        &&& forall|i: int, j: int|
            0 <= i < j < self.clients@.len() ==> self.clients@[i].identifier@
                != self.clients@[j].identifier@
        &&& forall|i: int, j: int|
            0 <= i < j < self.clients@.len() ==> self.clients@[i].id != self.clients@[j].id
        &&& forall|i: int, j: int|
            0 <= i < j < self.grant_types@.len() ==> self.grant_types@[i].name@
                != self.grant_types@[j].name@
        &&& forall|i: int, j: int|
            0 <= i < j < self.access_tokens@.len() ==> self.access_tokens@[i].token@
                != self.access_tokens@[j].token@
        &&& forall|i: int, j: int|
            0 <= i < j < self.refresh_tokens@.len() ==> self.refresh_tokens@[i].token@
                != self.refresh_tokens@[j].token@
        &&& forall|i: int, j: int|
            0 <= i < self.access_tokens@.len() && 0 <= j < self.refresh_tokens@.len()
                ==> self.access_tokens@[i].token@ != self.refresh_tokens@[j].token@
        &&& forall|i: int| #![trigger self.access_tokens@[i]]
            0 <= i < self.access_tokens@.len() ==> 0 <= self.access_tokens@[i].issued_at
                <= self.access_tokens@[i].expires_at
        &&& forall|i: int| #![trigger self.refresh_tokens@[i]]
            0 <= i < self.refresh_tokens@.len() ==> 0 <= self.refresh_tokens@[i].issued_at
                && (self.refresh_tokens@[i].expires_at matches Some(e)
                ==> self.refresh_tokens@[i].issued_at <= e)
    }

    pub open spec fn has_client(self, ident: Seq<char>) -> bool {
        exists|i: int| 0 <= i < self.clients@.len() && self.clients@[i].identifier@ == ident
    }

    pub open spec fn has_client_with_id(self, id: i32) -> bool {
        exists|i: int| 0 <= i < self.clients@.len() && self.clients@[i].id == id
    }

    pub open spec fn has_grant_type(self, name: Seq<char>) -> bool {
        exists|i: int| 0 <= i < self.grant_types@.len() && self.grant_types@[i].name@ == name
    }

    pub open spec fn has_access_token(self, v: Seq<char>) -> bool {
        exists|i: int| 0 <= i < self.access_tokens@.len() && self.access_tokens@[i].token@ == v
    }

    pub open spec fn has_refresh_token(self, v: Seq<char>) -> bool {
        exists|i: int| 0 <= i < self.refresh_tokens@.len() && self.refresh_tokens@[i].token@ == v
    }

    /// Whether any issued token, of either kind, carries the value `v`.
    pub open spec fn token_value_used(self, v: Seq<char>) -> bool {
        self.has_access_token(v) || self.has_refresh_token(v)
    }

    /// An empty store.
    pub fn new() -> (r: TokenStore)
        ensures
            r.wf(),
            r.clients@.len() == 0,
            r.grant_types@.len() == 0,
            r.access_tokens@.len() == 0,
            r.refresh_tokens@.len() == 0,
    {
        TokenStore {
            clients: Vec::new(),
            grant_types: Vec::new(),
            access_tokens: Vec::new(),
            refresh_tokens: Vec::new(),
            next_access_token_id: 1,
            next_refresh_token_id: 1,
        }
    }

    pub fn find_client_by_identifier(&self, ident: &str) -> (r: Option<Client>)
        ensures
            match r {
                Some(c) => self.clients@.contains(c) && c.identifier@ == ident@,
                None => !self.has_client(ident@),
            },
    {
        let mut i: usize = 0;
        while i < self.clients.len()
            invariant
                i <= self.clients@.len(),
                forall|j: int| 0 <= j < i ==> self.clients@[j].identifier@ != ident@,
            decreases self.clients@.len() - i,
        {
            if str_eq(self.clients[i].identifier.as_str(), ident) {
                return Some(self.clients[i].clone());
            }
            i = i + 1;
        }
        None
    }

    pub fn find_grant_type_by_name(&self, name: &str) -> (r: Option<GrantType>)
        ensures
            match r {
                Some(g) => self.grant_types@.contains(g) && g.name@ == name@,
                None => !self.has_grant_type(name@),
            },
    {
        let mut i: usize = 0;
        while i < self.grant_types.len()
            invariant
                i <= self.grant_types@.len(),
                forall|j: int| 0 <= j < i ==> self.grant_types@[j].name@ != name@,
            decreases self.grant_types@.len() - i,
        {
            if str_eq(self.grant_types[i].name.as_str(), name) {
                return Some(self.grant_types[i].clone());
            }
            i = i + 1;
        }
        None
    }

    pub fn find_access_token_by_value(&self, v: &str) -> (r: Option<AccessToken>)
        ensures
            match r {
                Some(t) => self.access_tokens@.contains(t) && t.token@ == v@,
                None => !self.has_access_token(v@),
            },
    {
        let mut i: usize = 0;
        while i < self.access_tokens.len()
            invariant
                i <= self.access_tokens@.len(),
                forall|j: int| 0 <= j < i ==> self.access_tokens@[j].token@ != v@,
            decreases self.access_tokens@.len() - i,
        {
            if str_eq(self.access_tokens[i].token.as_str(), v) {
                return Some(self.access_tokens[i].clone());
            }
            i = i + 1;
        }
        None
    }

    pub fn find_refresh_token_by_value(&self, v: &str) -> (r: Option<RefreshToken>)
        ensures
            match r {
                Some(t) => self.refresh_tokens@.contains(t) && t.token@ == v@,
                None => !self.has_refresh_token(v@),
            },
    {
        let mut i: usize = 0;
        while i < self.refresh_tokens.len()
            invariant
                i <= self.refresh_tokens@.len(),
                forall|j: int| 0 <= j < i ==> self.refresh_tokens@[j].token@ != v@,
            decreases self.refresh_tokens@.len() - i,
        {
            if str_eq(self.refresh_tokens[i].token.as_str(), v) {
                return Some(self.refresh_tokens[i].clone());
            }
            i = i + 1;
        }
        None
    }

    pub fn is_token_value_used(&self, v: &str) -> (r: bool)
        ensures
            r == self.token_value_used(v@),
    {
        self.find_access_token_by_value(v).is_some() || self.find_refresh_token_by_value(
            v,
        ).is_some()
    }

    /// Inserts a freshly minted access token, assigning it the next record
    /// id. Uniqueness of the value must have been checked beforehand; a
    /// collision is a fatal service error upstream, never an OAuth2 error.
    pub fn insert_access_token(&mut self, new: NewAccessToken) -> (r: AccessToken)
        requires
            old(self).wf(),
            !old(self).token_value_used(new.token@),
            0 <= new.issued_at <= new.expires_at,
            old(self).next_access_token_id < i32::MAX,
        ensures
            final(self).wf(),
            r == (AccessToken {
                id: old(self).next_access_token_id,
                token: new.token,
                client_id: new.client_id,
                grant_id: new.grant_id,
                scope: new.scope,
                issued_at: new.issued_at,
                expires_at: new.expires_at,
            }),
            final(self).access_tokens@ == old(self).access_tokens@.push(r),
            final(self).clients@ == old(self).clients@,
            final(self).grant_types@ == old(self).grant_types@,
            final(self).refresh_tokens@ == old(self).refresh_tokens@,
            final(self).next_access_token_id == old(self).next_access_token_id + 1,
            final(self).next_refresh_token_id == old(self).next_refresh_token_id,
    {
        let record = AccessToken {
            id: self.next_access_token_id,
            token: new.token,
            client_id: new.client_id,
            grant_id: new.grant_id,
            scope: new.scope,
            issued_at: new.issued_at,
            expires_at: new.expires_at,
        };
        let r = record.clone();
        self.access_tokens.push(record);
        self.next_access_token_id = self.next_access_token_id + 1;
        r
    }

    /// Inserts a freshly minted refresh token; see `insert_access_token`.
    pub fn insert_refresh_token(&mut self, new: NewRefreshToken) -> (r: RefreshToken)
        requires
            old(self).wf(),
            !old(self).token_value_used(new.token@),
            0 <= new.issued_at,
            new.expires_at matches Some(e) ==> new.issued_at <= e,
            old(self).next_refresh_token_id < i32::MAX,
        ensures
            final(self).wf(),
            r == (RefreshToken {
                id: old(self).next_refresh_token_id,
                token: new.token,
                client_id: new.client_id,
                scope: new.scope,
                issued_at: new.issued_at,
                expires_at: new.expires_at,
            }),
            final(self).refresh_tokens@ == old(self).refresh_tokens@.push(r),
            final(self).clients@ == old(self).clients@,
            final(self).grant_types@ == old(self).grant_types@,
            final(self).access_tokens@ == old(self).access_tokens@,
            final(self).next_refresh_token_id == old(self).next_refresh_token_id + 1,
            final(self).next_access_token_id == old(self).next_access_token_id,
    {
        let record = RefreshToken {
            id: self.next_refresh_token_id,
            token: new.token,
            client_id: new.client_id,
            scope: new.scope,
            issued_at: new.issued_at,
            expires_at: new.expires_at,
        };
        let r = record.clone();
        self.refresh_tokens.push(record);
        self.next_refresh_token_id = self.next_refresh_token_id + 1;
        r
    }

    /// Two stored clients sharing an identifier are the same record.
    pub proof fn lemma_client_unique(self, c1: Client, c2: Client)
        requires
            self.wf(),
            self.clients@.contains(c1),
            self.clients@.contains(c2),
            c1.identifier@ == c2.identifier@,
        ensures
            c1 == c2,
    {
        let i = choose|i: int| 0 <= i < self.clients@.len() && self.clients@[i] == c1;
        let j = choose|j: int| 0 <= j < self.clients@.len() && self.clients@[j] == c2;
        if i != j {
            assert(self.clients@[i].identifier@ != self.clients@[j].identifier@);
        }
    }

    /// Two stored grant types sharing a name are the same record.
    pub proof fn lemma_grant_type_unique(self, g1: GrantType, g2: GrantType)
        requires
            self.wf(),
            self.grant_types@.contains(g1),
            self.grant_types@.contains(g2),
            g1.name@ == g2.name@,
        ensures
            g1 == g2,
    {
        let i = choose|i: int| 0 <= i < self.grant_types@.len() && self.grant_types@[i] == g1;
        let j = choose|j: int| 0 <= j < self.grant_types@.len() && self.grant_types@[j] == g2;
        if i != j {
            assert(self.grant_types@[i].name@ != self.grant_types@[j].name@);
        }
    }

    /// Two stored access tokens sharing a value are the same record.
    pub proof fn lemma_access_token_unique(self, t1: AccessToken, t2: AccessToken)
        requires
            self.wf(),
            self.access_tokens@.contains(t1),
            self.access_tokens@.contains(t2),
            t1.token@ == t2.token@,
        ensures
            t1 == t2,
    {
        let i = choose|i: int| 0 <= i < self.access_tokens@.len() && self.access_tokens@[i] == t1;
        let j = choose|j: int| 0 <= j < self.access_tokens@.len() && self.access_tokens@[j] == t2;
        if i != j {
            assert(self.access_tokens@[i].token@ != self.access_tokens@[j].token@);
        }
    }

    /// Two stored refresh tokens sharing a value are the same record.
    pub proof fn lemma_refresh_token_unique(self, t1: RefreshToken, t2: RefreshToken)
        requires
            self.wf(),
            self.refresh_tokens@.contains(t1),
            self.refresh_tokens@.contains(t2),
            t1.token@ == t2.token@,
        ensures
            t1 == t2,
    {
        let i = choose|i: int|
            0 <= i < self.refresh_tokens@.len() && self.refresh_tokens@[i] == t1;
        let j = choose|j: int|
            0 <= j < self.refresh_tokens@.len() && self.refresh_tokens@[j] == t2;
        if i != j {
            assert(self.refresh_tokens@[i].token@ != self.refresh_tokens@[j].token@);
        }
    }

    /// Registers a client; reference data set up at provisioning time.
    pub fn add_client(&mut self, c: Client) -> (r: bool)
        requires
            old(self).wf(),
        ensures
            final(self).wf(),
            r == (!old(self).has_client(c.identifier@) && !old(self).has_client_with_id(c.id)),
            r ==> final(self).clients@ == old(self).clients@.push(c),
            !r ==> *final(self) == *old(self),
            final(self).grant_types@ == old(self).grant_types@,
            final(self).access_tokens@ == old(self).access_tokens@,
            final(self).refresh_tokens@ == old(self).refresh_tokens@,
    {
        if self.find_client_by_identifier(c.identifier.as_str()).is_some() {
            return false;
        }
        let mut i: usize = 0;
        while i < self.clients.len()
            invariant
                *self == *old(self),
                old(self).wf(),
                i <= self.clients@.len(),
                forall|j: int| 0 <= j < i ==> self.clients@[j].id != c.id,
            decreases self.clients@.len() - i,
        {
            if self.clients[i].id == c.id {
                return false;
            }
            i = i + 1;
        }
        self.clients.push(c);
        true
    }

    /// Registers a grant type; reference data set up at provisioning time.
    pub fn add_grant_type(&mut self, g: GrantType) -> (r: bool)
        requires
            old(self).wf(),
        ensures
            final(self).wf(),
            r == !old(self).has_grant_type(g.name@),
            r ==> final(self).grant_types@ == old(self).grant_types@.push(g),
            !r ==> *final(self) == *old(self),
            final(self).clients@ == old(self).clients@,
            final(self).access_tokens@ == old(self).access_tokens@,
            final(self).refresh_tokens@ == old(self).refresh_tokens@,
    {
        if self.find_grant_type_by_name(g.name.as_str()).is_some() {
            return false;
        }
        self.grant_types.push(g);
        true
    }
}

} // verus!
