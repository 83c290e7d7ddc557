//! The tokens that open the service to callers.

use crate::db::experiments::{Database, DatabaseView};
use crate::db::{lemma_key_absent, lemma_key_found, lemma_key_index};
use crate::model::{opt_view, views};
use crate::server::ident::{random_bytes, token_from_bytes};
use crate::text::str_eq;
use crate::time::Timestamp;
use crate::{Error, Fallible};
use vstd::prelude::*;

verus! {

/// What a token allows.
#[derive(Debug, PartialEq, Eq, Hash, Clone, Copy, Structural)]
pub enum Permission {
    ReadExperiments,
    WriteExperiments,
    ManageAgents,
    /// Everything.
    Admin,
}

impl Permission {
    /// The name of the value.
    pub open spec fn spec_str(self) -> Seq<char> {
        match self {
            Permission::ReadExperiments => "read_experiments"@,
            Permission::WriteExperiments => "write_experiments"@,
            Permission::ManageAgents => "manage_agents"@,
            Permission::Admin => "admin"@,
        }
    }

    /// The value that a name stands for.
    pub open spec fn spec_parse(s: Seq<char>) -> Option<Permission> {
        if s == "read_experiments"@ {
            Some(Permission::ReadExperiments)
        } else if s == "write_experiments"@ {
            Some(Permission::WriteExperiments)
        } else if s == "manage_agents"@ {
            Some(Permission::ManageAgents)
        } else if s == "admin"@ {
            Some(Permission::Admin)
        } else {
            None
        }
    }

    pub fn to_str(&self) -> (r: &'static str)
        ensures
            r@ == self.spec_str(),
    {
        match self {
            Permission::ReadExperiments => "read_experiments",
            Permission::WriteExperiments => "write_experiments",
            Permission::ManageAgents => "manage_agents",
            Permission::Admin => "admin",
        }
    }

    pub fn to_string(&self) -> (r: String)
        ensures
            r@ == self.spec_str(),
    {
        self.to_str().to_owned()
    }

    /// Parses a name; `BadRequest` where the string is none.
    pub fn from_str(s: &str) -> (r: Result<Permission, Error>)
        ensures
            match Self::spec_parse(s@) {
                Some(v) => r == Ok::<Permission, Error>(v),
                None => r == Err::<Permission, Error>(Error::BadRequest),
            },
    {
        if str_eq(s, "read_experiments") {
            Ok(Permission::ReadExperiments)
        } else if str_eq(s, "write_experiments") {
            Ok(Permission::WriteExperiments)
        } else if str_eq(s, "manage_agents") {
            Ok(Permission::ManageAgents)
        } else if str_eq(s, "admin") {
            Ok(Permission::Admin)
        } else {
            Err(Error::BadRequest)
        }
    }

    /// Parsing the name of a value gives the value back.
    pub proof fn lemma_parse_str(v: Permission)
        ensures
            Self::spec_parse(v.spec_str()) == Some(v),
    {
        reveal_strlit("read_experiments");
        reveal_strlit("write_experiments");
        reveal_strlit("manage_agents");
        reveal_strlit("admin");
        assert("read_experiments"@.len() == 16);
        assert("write_experiments"@.len() == 17);
        assert("manage_agents"@.len() == 13);
        assert("admin"@.len() == 5);
    }
}

impl std::str::FromStr for Permission {
    type Err = Error;

    fn from_str(s: &str) -> (r: Result<Permission, Error>)
        ensures
            match Permission::spec_parse(s@) {
                Some(v) => r == Ok::<Permission, Error>(v),
                None => r == Err::<Permission, Error>(Error::BadRequest),
            },
    {
        Permission::from_str(s)
    }
}

/// A token and what it allows.
#[derive(Debug, PartialEq, Eq)]
pub struct ApiToken {
    pub token: String,
    pub name: String,
    pub permissions: Vec<Permission>,
    pub created_at: Timestamp,
    pub expires_at: Option<Timestamp>,
}

pub struct ApiTokenView {
    pub token: Seq<char>,
    pub name: Seq<char>,
    pub permissions: Seq<Permission>,
    pub created_at: Timestamp,
    pub expires_at: Option<Timestamp>,
}

impl View for ApiToken {
    type V = ApiTokenView;

    open spec fn view(&self) -> ApiTokenView {
        ApiTokenView {
            token: self.token@,
            name: self.name@,
            permissions: self.permissions@,
            created_at: self.created_at,
            expires_at: self.expires_at,
        }
    }
}

impl Clone for ApiToken {
    fn clone(&self) -> (r: Self)
        ensures
            r@ == self@,
    {
        let permissions = self.permissions.clone();
        assert(permissions@ =~= self.permissions@);
        ApiToken {
            token: self.token.clone(),
            name: self.name.clone(),
            permissions,
            created_at: self.created_at,
            expires_at: self.expires_at,
        }
    }
}

impl ApiTokenView {
    /// Whether the token allows what `required` names: it holds that
    /// permission, or the one that allows everything.
    pub open spec fn allows(self, required: Permission) -> bool {
        self.permissions.contains(required) || self.permissions.contains(Permission::Admin)
    }

    /// Whether the token is still good at `now`: it has no end, or its end
    /// is later than `now`. At the instant of its end it is good no more.
    pub open spec fn is_live_at(self, now: Timestamp) -> bool {
        match self.expires_at {
            Some(end) => now.total_nanos() < end.total_nanos(),
            None => true,
        }
    }
}

/// A token that holds the permission for everything passes every check.
pub proof fn lemma_admin_allows_all(token: ApiTokenView, required: Permission)
    requires
        token.permissions.contains(Permission::Admin),
    ensures
        token.allows(required),
{
}

impl ApiToken {
    /// Whether the token allows what `required` names.
    pub fn has_permission(&self, required: Permission) -> (r: bool)
        ensures
            r == self@.allows(required),
    {
        let mut found = false;
        let mut i: usize = 0;
        while i < self.permissions.len()
            invariant
                0 <= i <= self.permissions.len(),
                found == exists|j: int|
                    0 <= j < i && (self.permissions@[j] == required || self.permissions@[j]
                        == Permission::Admin),
            decreases self.permissions.len() - i,
        {
            let p = self.permissions[i];
            if p == required || p == Permission::Admin {
                found = true;
            }
            i += 1;
        }
        found
    }
}

/// The view of what an operation on tokens gives back.
pub open spec fn token_result_view(r: Result<ApiToken, Error>) -> Result<ApiTokenView, Error> {
    match r {
        Ok(t) => Ok(t@),
        Err(e) => Err(e),
    }
}

impl DatabaseView {
    /// The record of `token`, where the store holds the token and it is
    /// still good at `now`.
    pub open spec fn valid_token(self, token: Seq<char>, now: Timestamp) -> Option<ApiTokenView> {
        match self.find_token(token) {
            Some(i) => if self.tokens[i].is_live_at(now) {
                Some(self.tokens[i])
            } else {
                None
            },
            None => None,
        }
    }

    /// What making a token does to the store and gives back.
    pub open spec fn create_token_outcome(
        self,
        after: DatabaseView,
        r: Result<ApiTokenView, Error>,
        record: ApiTokenView,
    ) -> bool {
        if self.find_token(record.token) is Some {
            r == Err::<ApiTokenView, Error>(Error::AlreadyExists) && after == self
        } else {
            r == Ok::<ApiTokenView, Error>(record) && after == DatabaseView {
                tokens: self.tokens.push(record),
                ..self
            }
        }
    }

    /// What revoking a token does to the store and gives back.
    pub open spec fn revoke_outcome(
        self,
        after: DatabaseView,
        r: Result<(), Error>,
        token: Seq<char>,
    ) -> bool {
        match self.find_token(token) {
            None => r == Err::<(), Error>(Error::NotFound) && after == self,
            Some(i) => r == Ok::<(), Error>(()) && after == DatabaseView {
                tokens: self.tokens.remove(i),
                ..self
            },
        }
    }
}

/// A revoked token is no longer valid, at any time.
pub proof fn lemma_revoked_is_invalid(
    db: DatabaseView,
    after: DatabaseView,
    token: Seq<char>,
    now: Timestamp,
)
    requires
        db.wf(),
        db.revoke_outcome(after, Ok(()), token),
    ensures
        after.valid_token(token, now) is None,
{
    lemma_key_index(db.token_keys(), token);
    let i = db.find_token(token).unwrap();
    assert(after.token_keys() =~= db.token_keys().remove(i));
    assert forall|j: int| 0 <= j < after.token_keys().len() implies after.token_keys()[j]
        != token by {
        let j0 = if j < i { j } else { j + 1 };
        assert(after.token_keys()[j] == db.token_keys()[j0]);
    }
    lemma_key_absent(after.token_keys(), token);
}

impl Database {
    /// Where the token `token` stands.
    pub(crate) fn token_position(&self, token: &str) -> (r: Option<usize>)
        requires
            self@.wf(),
        ensures
            match r {
                Some(i) => self@.find_token(token@) == Some(i as int) && i < self.tokens.len(),
                None => self@.find_token(token@) is None,
            },
    {
        let mut i: usize = 0;
        while i < self.tokens.len()
            invariant
                0 <= i <= self.tokens.len(),
                self@.wf(),
                forall|j: int| 0 <= j < i ==> self@.token_keys()[j] != token@,
            decreases self.tokens.len() - i,
        {
            if str_eq(self.tokens[i].token.as_str(), token) {
                proof {
                    assert(self@.token_keys()[i as int] == token@);
                    lemma_key_found(self@.token_keys(), token@, i as int);
                }
                return Some(i);
            }
            i += 1;
        }
        proof {
            lemma_key_absent(self@.token_keys(), token@);
        }
        None
    }

    /// Stores `record` as a new token. `AlreadyExists` where the store
    /// holds a token with that string.
    pub fn create_token_as(&mut self, record: ApiToken) -> (r: Fallible<ApiToken>)
        requires
            old(self)@.wf(),
        ensures
            final(self)@.wf(),
            old(self)@.create_token_outcome(final(self)@, token_result_view(r), record@),
    {
        if self.token_position(record.token.as_str()).is_some() {
            return Err(Error::AlreadyExists);
        }
        let ghost before = self@;
        let copy = record.clone();
        self.tokens.push(record);
        proof {
            let after = DatabaseView { tokens: before.tokens.push(record@), ..before };
            assert(self@.tokens =~= after.tokens);
            assert(self@.experiments =~= before.experiments);
            assert(self@ == after);
            assert(after.token_keys() =~= before.token_keys().push(record@.token));
            lemma_key_index(before.token_keys(), record@.token);
            assert(after.names() =~= before.names());
            assert(after.agent_ids() =~= before.agent_ids());
        }
        Ok(copy)
    }

    /// Makes a token with a fresh string and no end, at the time the clock
    /// shows. `Internal`, and nothing done, where the clock shows no
    /// instant.
    pub fn create_token(&mut self, name: &str, permissions: Vec<Permission>) -> (r: Fallible<
        ApiToken,
    >)
        requires
            old(self)@.wf(),
        ensures
            final(self)@.wf(),
            (r == Err::<ApiToken, Error>(Error::Internal) && final(self)@ == old(self)@) || exists|
                record: ApiTokenView,
            |
                {
                    &&& #[trigger] old(self)@.create_token_outcome(
                        final(self)@,
                        token_result_view(r),
                        record,
                    )
                    &&& record.name == name@
                    &&& record.permissions == permissions@
                    &&& record.expires_at is None
                    &&& exists|bytes: Seq<u8>|
                        bytes.len() == 16 && record.token == crate::server::ident::token_text(bytes)
                },
    {
        match Timestamp::now() {
            Some(now) => {
                let bytes = random_bytes();
                let record = ApiToken {
                    token: token_from_bytes(&bytes),
                    name: name.to_owned(),
                    permissions,
                    created_at: now,
                    expires_at: None,
                };
                let ghost rv = record@;
                let r = self.create_token_as(record);
                assert(old(self)@.create_token_outcome(self@, token_result_view(r), rv));
                assert(bytes@.len() == 16 && rv.token == crate::server::ident::token_text(bytes@));
                r
            },
            None => Err(Error::Internal),
        }
    }

    /// The record of `token`, where the store holds the token and it is
    /// still good at `now`.
    pub fn validate_token_at(&self, token: &str, now: Timestamp) -> (r: Fallible<Option<ApiToken>>)
        requires
            self@.wf(),
        ensures
            r is Ok,
            opt_view(r.unwrap()) == self@.valid_token(token@, now),
    {
        match self.token_position(token) {
            Some(i) => {
                let live = match self.tokens[i].expires_at {
                    Some(end) => now.is_before(&end),
                    None => true,
                };
                if live {
                    Ok(Some(self.tokens[i].clone()))
                } else {
                    Ok(None)
                }
            },
            None => Ok(None),
        }
    }

    /// The record of `token`, where the store holds the token and it is
    /// still good at the time the clock shows. `Internal` where the clock
    /// shows no instant.
    pub fn validate_token(&self, token: &str) -> (r: Fallible<Option<ApiToken>>)
        requires
            self@.wf(),
        ensures
            match r {
                Ok(found) => exists|now: Timestamp| opt_view(found) == #[trigger] self@.valid_token(
                    token@,
                    now,
                ),
                Err(e) => e == Error::Internal,
            },
            self@.find_token(token@) is None ==> r is Err || r.unwrap() is None,
    {
        match Timestamp::now() {
            Some(now) => {
                let r = self.validate_token_at(token, now);
                assert(opt_view(r.unwrap()) == self@.valid_token(token@, now));
                r
            },
            None => Err(Error::Internal),
        }
    }

    /// Revokes `token`. `NotFound` where the store holds no such token.
    pub fn revoke_token(&mut self, token: &str) -> (r: Fallible<()>)
        requires
            old(self)@.wf(),
        ensures
            final(self)@.wf(),
            old(self)@.revoke_outcome(final(self)@, r, token@),
    {
        let i = match self.token_position(token) {
            Some(i) => i,
            None => {
                return Err(Error::NotFound);
            },
        };
        let ghost before = self@;
        self.tokens.remove(i);
        proof {
            let after = DatabaseView { tokens: before.tokens.remove(i as int), ..before };
            assert(self@.tokens =~= after.tokens);
            assert(self@.experiments =~= before.experiments);
            assert(self@ == after);
            assert(after.token_keys() =~= before.token_keys().remove(i as int));
            assert forall|a: int, b: int|
                0 <= a < after.token_keys().len() && 0 <= b < after.token_keys().len() && a
                    != b implies after.token_keys()[a] != after.token_keys()[b] by {
                let a0 = if a < i { a } else { a + 1 };
                let b0 = if b < i { b } else { b + 1 };
                assert(after.token_keys()[a] == before.token_keys()[a0]);
                assert(after.token_keys()[b] == before.token_keys()[b0]);
            }
            assert(after.names() =~= before.names());
            assert(after.agent_ids() =~= before.agent_ids());
        }
        Ok(())
    }

    /// All tokens, in the order in which they were made.
    pub fn list_tokens(&self) -> (r: Fallible<Vec<ApiToken>>)
        requires
            self@.wf(),
        ensures
            r is Ok,
            views(r.unwrap()@) == self@.tokens,
    {
        let mut out: Vec<ApiToken> = Vec::new();
        let mut i: usize = 0;
        while i < self.tokens.len()
            invariant
                0 <= i <= self.tokens.len(),
                out@.len() == i,
                forall|j: int| 0 <= j < i ==> out@[j]@ == self.tokens@[j]@,
            decreases self.tokens.len() - i,
        {
            out.push(self.tokens[i].clone());
            i += 1;
        }
        assert(views(out@) =~= self@.tokens);
        Ok(out)
    }
}

/// A token as a row of text, the form in which it is kept on disk: the
/// permissions as a JSON list of their names, the times as RFC 3339 texts.
#[derive(Debug, PartialEq, Eq)]
pub struct ApiTokenDBRecord {
    pub token: String,
    pub name: String,
    pub permissions: String,
    pub created_at: String,
    pub expires_at: Option<String>,
}

pub struct ApiTokenDBRecordView {
    pub token: Seq<char>,
    pub name: Seq<char>,
    pub permissions: Seq<char>,
    pub created_at: Seq<char>,
    pub expires_at: Option<Seq<char>>,
}

impl View for ApiTokenDBRecord {
    type V = ApiTokenDBRecordView;

    open spec fn view(&self) -> ApiTokenDBRecordView {
        ApiTokenDBRecordView {
            token: self.token@,
            name: self.name@,
            permissions: self.permissions@,
            created_at: self.created_at@,
            expires_at: opt_view(self.expires_at),
        }
    }
}

/// The names of permissions.
pub open spec fn permission_names(permissions: Seq<Permission>) -> Seq<Seq<char>> {
    Seq::new(permissions.len(), |i: int| permissions[i].spec_str())
}

/// The permissions that names stand for, where each of them names one.
pub open spec fn parse_permissions(names: Seq<Seq<char>>) -> Option<Seq<Permission>> {
    if forall|i: int| 0 <= i < names.len() ==> (#[trigger] Permission::spec_parse(names[i])) is Some {
        Some(Seq::new(names.len(), |i: int| Permission::spec_parse(names[i]).unwrap()))
    } else {
        None
    }
}

/// The names of permissions stand for those permissions.
pub proof fn lemma_parse_permission_names(permissions: Seq<Permission>)
    ensures
        parse_permissions(permission_names(permissions)) == Some(permissions),
{
    let names = permission_names(permissions);
    assert forall|i: int| 0 <= i < names.len() implies (#[trigger] Permission::spec_parse(
        names[i],
    )) == Some(permissions[i]) by {
        Permission::lemma_parse_str(permissions[i]);
    }
    assert(Seq::new(names.len(), |i: int| Permission::spec_parse(names[i]).unwrap())
        =~= permissions);
}

/// The names of permissions.
pub fn names_of(permissions: &Vec<Permission>) -> (r: Vec<String>)
    ensures
        views(r@) == permission_names(permissions@),
{
    let mut out: Vec<String> = Vec::new();
    let mut i: usize = 0;
    while i < permissions.len()
        invariant
            0 <= i <= permissions.len(),
            out@.len() == i,
            forall|j: int| 0 <= j < i ==> out@[j]@ == permissions@[j].spec_str(),
        decreases permissions.len() - i,
    {
        out.push(permissions[i].to_string());
        i += 1;
    }
    assert(views(out@) =~= permission_names(permissions@));
    out
}

/// The permissions that names stand for; nothing where one of them names
/// none.
pub fn permissions_of(names: &Vec<String>) -> (r: Option<Vec<Permission>>)
    ensures
        match parse_permissions(views(names@)) {
            Some(p) => r is Some && r.unwrap()@ == p,
            None => r is None,
        },
{
    let mut out: Vec<Permission> = Vec::new();
    let mut i: usize = 0;
    while i < names.len()
        invariant
            0 <= i <= names.len(),
            out@.len() == i,
            forall|j: int|
                0 <= j < i ==> (#[trigger] Permission::spec_parse(views(names@)[j])) == Some(
                    out@[j],
                ),
        decreases names.len() - i,
    {
        match Permission::from_str(names[i].as_str()) {
            Ok(p) => {
                out.push(p);
            },
            Err(_) => {
                assert(Permission::spec_parse(views(names@)[i as int]) is None);
                return None;
            },
        }
        i += 1;
    }
    assert(out@ =~= Seq::new(
        views(names@).len(),
        |i: int| Permission::spec_parse(views(names@)[i]).unwrap(),
    ));
    Some(out)
}

impl ApiTokenDBRecordView {
    /// The token that a row stands for, where its permissions and its
    /// times parse.
    pub open spec fn parse(self) -> Option<ApiTokenView> {
        match (
            crate::utils::json::serde_list_items(self.permissions),
            Timestamp::spec_parse(self.created_at),
            crate::experiments::parse_opt_time(self.expires_at),
        ) {
            (Some(names), Some(created_at), Some(expires_at)) => match parse_permissions(names) {
                Some(permissions) => Some(
                    ApiTokenView {
                        token: self.token,
                        name: self.name,
                        permissions,
                        created_at,
                        expires_at,
                    },
                ),
                None => None,
            },
            _ => None,
        }
    }
}

impl ApiTokenView {
    /// The row that stands for the token, where its times and the names
    /// of its permissions have texts.
    pub open spec fn record(self) -> Option<ApiTokenDBRecordView> {
        match (
            crate::time::rfc3339_text(self.created_at.spec_secs(), self.created_at.spec_nanos()),
            crate::experiments::opt_time_text(self.expires_at),
            crate::utils::json::serde_list_text(permission_names(self.permissions)),
        ) {
            (Some(created_at), Some(expires_at), Some(permissions)) => Some(
                ApiTokenDBRecordView {
                    token: self.token,
                    name: self.name,
                    permissions,
                    created_at,
                    expires_at,
                },
            ),
            _ => None,
        }
    }
}

impl ApiToken {
    /// The token that a row of the store stands for; `Internal` where its
    /// permissions or its times do not parse.
    pub fn from_record(record: &ApiTokenDBRecord) -> (r: Result<ApiToken, Error>)
        ensures
            match record@.parse() {
                Some(t) => r is Ok && r.unwrap()@ == t,
                None => r == Err::<ApiToken, Error>(Error::Internal),
            },
    {
        let names = match crate::utils::json::read_string_list(record.permissions.as_str()) {
            Some(n) => n,
            None => {
                return Err(Error::Internal);
            },
        };
        let created_at = match Timestamp::parse_from_rfc3339(record.created_at.as_str()) {
            Ok(t) => t,
            Err(_) => {
                return Err(Error::Internal);
            },
        };
        let expires_at = match crate::experiments::parse_time_field(&record.expires_at) {
            Ok(t) => t,
            Err(_) => {
                return Err(Error::Internal);
            },
        };
        let permissions = match permissions_of(&names) {
            Some(p) => p,
            None => {
                return Err(Error::Internal);
            },
        };
        Ok(
            ApiToken {
                token: record.token.clone(),
                name: record.name.clone(),
                permissions,
                created_at,
                expires_at,
            },
        )
    }

    /// The row that stands for the token; `Internal` where one of its
    /// times or the names of its permissions have no text.
    pub fn to_record(&self) -> (r: Result<ApiTokenDBRecord, Error>)
        ensures
            match self@.record() {
                Some(rec) => r is Ok && r.unwrap()@ == rec,
                None => r == Err::<ApiTokenDBRecord, Error>(Error::Internal),
            },
    {
        let created_at = match self.created_at.to_rfc3339() {
            Some(t) => t,
            None => {
                return Err(Error::Internal);
            },
        };
        let expires_at = match crate::experiments::time_field(&self.expires_at) {
            Ok(t) => t,
            Err(_) => {
                return Err(Error::Internal);
            },
        };
        let names = names_of(&self.permissions);
        let permissions = match crate::utils::json::write_string_list(&names) {
            Some(p) => p,
            None => {
                return Err(Error::Internal);
            },
        };
        Ok(
            ApiTokenDBRecord {
                token: self.token.clone(),
                name: self.name.clone(),
                permissions,
                created_at,
                expires_at,
            },
        )
    }
}

/// What a store of tokens offers. The store of this crate is one.
pub trait TokenManager: View<V = DatabaseView> + Sized {
    /// Makes a token with a fresh string and no end.
    fn create_token(&mut self, name: &str, permissions: Vec<Permission>) -> (r: Fallible<ApiToken>)
        requires
            old(self)@.wf(),
        ensures
            final(self)@.wf(),
            (r == Err::<ApiToken, Error>(Error::Internal) && final(self)@ == old(self)@) || exists|
                record: ApiTokenView,
            |
                {
                    &&& #[trigger] old(self)@.create_token_outcome(
                        final(self)@,
                        token_result_view(r),
                        record,
                    )
                    &&& record.name == name@
                    &&& record.permissions == permissions@
                    &&& record.expires_at is None
                    &&& exists|bytes: Seq<u8>|
                        bytes.len() == 16 && record.token == crate::server::ident::token_text(bytes)
                },
    ;

    /// The record of `token`, where the store holds the token and it is
    /// still good.
    fn validate_token(&self, token: &str) -> (r: Fallible<Option<ApiToken>>)
        requires
            self@.wf(),
        ensures
            match r {
                Ok(found) => exists|now: Timestamp| opt_view(found) == #[trigger] self@.valid_token(
                    token@,
                    now,
                ),
                Err(e) => e == Error::Internal,
            },
    ;

    /// Revokes `token`.
    fn revoke_token(&mut self, token: &str) -> (r: Fallible<()>)
        requires
            old(self)@.wf(),
        ensures
            final(self)@.wf(),
            old(self)@.revoke_outcome(final(self)@, r, token@),
    ;

    /// All tokens.
    fn list_tokens(&self) -> (r: Fallible<Vec<ApiToken>>)
        requires
            self@.wf(),
        ensures
            r is Ok,
            views(r.unwrap()@) == self@.tokens,
    ;
}

impl TokenManager for Database {
    fn create_token(&mut self, name: &str, permissions: Vec<Permission>) -> (r: Fallible<ApiToken>) {
        Database::create_token(self, name, permissions)
    }

    fn validate_token(&self, token: &str) -> (r: Fallible<Option<ApiToken>>) {
        Database::validate_token(self, token)
    }

    fn revoke_token(&mut self, token: &str) -> (r: Fallible<()>) {
        Database::revoke_token(self, token)
    }

    fn list_tokens(&self) -> (r: Fallible<Vec<ApiToken>>) {
        Database::list_tokens(self)
    }
}

} // verus!
