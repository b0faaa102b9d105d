//! The persistence side: the stored shape of a record, and the outcome of
//! storing one as callers of the gateway see it.
use vstd::prelude::*;

use mongodb::bson::Document;
use mongodb::Collection;

use crate::payload::{Field, User, UserFields};

verus! {

#[verifier::external_type_specification]
#[verifier::external_body]
pub struct ExDocument(Document);

#[verifier::external_type_specification]
#[verifier::external_body]
#[verifier::reject_recursive_types(T)]
pub struct ExCollection<T>(Collection<T>);

/// The string-valued entries of a document, by key.
pub uninterp spec fn doc_strings(d: Document) -> Map<Seq<char>, Seq<char>>;

/// Relies on `bson::Document::new`: a document with no entries.
#[verifier::external_body]
fn empty_document() -> (r: Document)
    ensures
        doc_strings(r).dom().len() == 0,
        doc_strings(r).dom().finite(),
{
    Document::new()
}

/// Relies on `bson::Document::insert`: the entry for `k` becomes the string
/// `v`, replacing any earlier value under `k`.
#[verifier::external_body]
fn put_str(d: &mut Document, k: &str, v: &String)
    ensures
        doc_strings(*final(d)) == doc_strings(*old(d)).insert(k@, v@),
{
    d.insert(k, v.clone());
}

/// Relies on `bson::Document::get_str`: the value under `k` where it is a
/// string, and an error otherwise.
#[verifier::external_body]
fn get_str(d: &Document, k: &str) -> (r: Option<String>)
    ensures
        doc_strings(*d).contains_key(k@) ==> r is Some && r->Some_0@ == doc_strings(*d)[k@],
        !doc_strings(*d).contains_key(k@) ==> r is None,
{
    d.get_str(k).ok().map(|s| s.to_string())
}

/// The stored entries of a record: one string entry per field.
pub open spec fn record_entries(u: UserFields) -> Map<Seq<char>, Seq<char>> {
    Map::empty().insert(Field::FirstName.spec_key(), u.first_name).insert(
        Field::LastName.spec_key(),
        u.last_name,
    ).insert(Field::Username.spec_key(), u.username).insert(
        Field::Password.spec_key(),
        u.password,
    ).insert(Field::Avatar.spec_key(), u.avatar).insert(Field::Email.spec_key(), u.email)
}

/// Whether every field's key has a string entry in `m`.
pub open spec fn has_all_fields(m: Map<Seq<char>, Seq<char>>) -> bool {
    forall|f: Field| m.contains_key(#[trigger] f.spec_key())
}

/// The record that the entries `m` hold, where each field's key has one.
pub open spec fn record_of(m: Map<Seq<char>, Seq<char>>) -> Option<UserFields> {
    if has_all_fields(m) {
        Some(
            UserFields {
                first_name: m[Field::FirstName.spec_key()],
                last_name: m[Field::LastName.spec_key()],
                username: m[Field::Username.spec_key()],
                password: m[Field::Password.spec_key()],
                avatar: m[Field::Avatar.spec_key()],
                email: m[Field::Email.spec_key()],
            },
        )
    } else {
        None
    }
}

/// The document that stores `u`.
pub fn user_document(u: &User) -> (d: Document)
    ensures
        doc_strings(d) == record_entries(u@),
{
    let mut d = empty_document();
    put_str(&mut d, Field::FirstName.key(), &u.first_name);
    put_str(&mut d, Field::LastName.key(), &u.last_name);
    put_str(&mut d, Field::Username.key(), &u.username);
    put_str(&mut d, Field::Password.key(), &u.password);
    put_str(&mut d, Field::Avatar.key(), &u.avatar);
    put_str(&mut d, Field::Email.key(), &u.email);
    d
}

/// The record that a stored document holds; `None` where a field's key has
/// no string entry.
pub fn user_from_document(d: &Document) -> (r: Option<User>)
    ensures
        match record_of(doc_strings(*d)) {
            Some(u) => r is Some && r->Some_0@ == u,
            None => r is None,
        },
{
    let ghost m = doc_strings(*d);
    let first_name = match get_str(d, Field::FirstName.key()) {
        Some(v) => v,
        None => {
            assert(!m.contains_key(Field::FirstName.spec_key()));
            return None;
        },
    };
    let last_name = match get_str(d, Field::LastName.key()) {
        Some(v) => v,
        None => {
            assert(!m.contains_key(Field::LastName.spec_key()));
            return None;
        },
    };
    let username = match get_str(d, Field::Username.key()) {
        Some(v) => v,
        None => {
            assert(!m.contains_key(Field::Username.spec_key()));
            return None;
        },
    };
    let password = match get_str(d, Field::Password.key()) {
        Some(v) => v,
        None => {
            assert(!m.contains_key(Field::Password.spec_key()));
            return None;
        },
    };
    let avatar = match get_str(d, Field::Avatar.key()) {
        Some(v) => v,
        None => {
            assert(!m.contains_key(Field::Avatar.spec_key()));
            return None;
        },
    };
    let email = match get_str(d, Field::Email.key()) {
        Some(v) => v,
        None => {
            assert(!m.contains_key(Field::Email.spec_key()));
            return None;
        },
    };
    assert forall|f: Field| m.contains_key(#[trigger] f.spec_key()) by {
        match f {
            Field::FirstName => {},
            Field::LastName => {},
            Field::Username => {},
            Field::Password => {},
            Field::Avatar => {},
            Field::Email => {},
        }
    }
    Some(User { first_name, last_name, username, password, avatar, email })
}

/// Distinct fields have distinct keys.
pub proof fn lemma_keys_distinct(f: Field, g: Field)
    ensures
        f != g ==> f.spec_key() != g.spec_key(),
{
    reveal_strlit("first_name");
    reveal_strlit("last_name");
    reveal_strlit("username");
    reveal_strlit("password");
    reveal_strlit("avatar");
    reveal_strlit("email");
    assert("first_name"@.len() == 10);
    assert("last_name"@.len() == 9);
    assert("username"@.len() == 8);
    assert("password"@.len() == 8);
    assert("avatar"@.len() == 6);
    assert("email"@.len() == 5);
    assert("username"@[0] != "password"@[0]);
}

/// A record stored as a document reads back as the same record.
pub proof fn lemma_record_round_trip(u: UserFields)
    ensures
        record_of(record_entries(u)) == Some(u),
{
    assert forall|f: Field, g: Field| f != g implies f.spec_key() != g.spec_key() by {
        lemma_keys_distinct(f, g);
    }
    let m = record_entries(u);
    assert forall|f: Field| m.contains_key(#[trigger] f.spec_key()) by {
        match f {
            Field::FirstName => {},
            Field::LastName => {},
            Field::Username => {},
            Field::Password => {},
            Field::Avatar => {},
            Field::Email => {},
        }
    }
    assert(Field::FirstName != Field::LastName);
    assert(m[Field::FirstName.spec_key()] == u.first_name);
    assert(m[Field::LastName.spec_key()] == u.last_name);
    assert(m[Field::Username.spec_key()] == u.username);
    assert(m[Field::Password.spec_key()] == u.password);
    assert(m[Field::Avatar.spec_key()] == u.avatar);
}

/// The database that holds the records.
pub fn database_name() -> (r: &'static str)
    ensures
        r@ == "warpy"@,
{
    "warpy"
}

/// The collection that holds the records.
pub fn collection_name() -> (r: &'static str)
    ensures
        r@ == "users"@,
{
    "users"
}

/// What went wrong on the store's side when a record was not stored.
#[derive(PartialEq, Eq, Structural, Clone, Copy, Debug)]
pub enum StoreFailure {
    DuplicateKey,
    ConnectionLost,
    Timeout,
    Unknown,
}

/// The server's code for a write that would duplicate a unique key.
pub const DUPLICATE_KEY_CODE: i32 = 11000;

impl StoreFailure {
    /// The cause of a failed insert, from what the store's error reports: the
    /// server's write error code, if any, and whether the failure was a
    /// timeout or a lost or unreachable connection.
    pub fn classify(write_code: Option<i32>, timed_out: bool, connection: bool) -> (r: StoreFailure)
        ensures
            write_code == Some(DUPLICATE_KEY_CODE) ==> r == StoreFailure::DuplicateKey,
            write_code != Some(DUPLICATE_KEY_CODE) && timed_out ==> r == StoreFailure::Timeout,
            write_code != Some(DUPLICATE_KEY_CODE) && !timed_out && connection ==> r
                == StoreFailure::ConnectionLost,
            write_code != Some(DUPLICATE_KEY_CODE) && !timed_out && !connection ==> r
                == StoreFailure::Unknown,
    {
        match write_code {
            Some(c) if c == DUPLICATE_KEY_CODE => StoreFailure::DuplicateKey,
            _ => if timed_out {
                StoreFailure::Timeout
            } else if connection {
                StoreFailure::ConnectionLost
            } else {
                StoreFailure::Unknown
            },
        }
    }
}

/// The one error kind that callers of the gateway see; the store's cause is
/// kept for callers that want it.
#[derive(PartialEq, Eq, Structural, Clone, Copy, Debug)]
pub struct AddUserError {
    pub cause: StoreFailure,
}

/// The persistence gateway: a handle on the collection of records.
pub struct UserDAO {
    collection: Collection<Document>,
}

impl UserDAO {
    /// A gateway over an opened collection.
    pub fn from_collection(collection: Collection<Document>) -> (r: UserDAO)
        ensures
            r.spec_collection() == collection,
    {
        UserDAO { collection }
    }

    pub closed spec fn spec_collection(&self) -> Collection<Document> {
        self.collection
    }

    /// The collection that records are stored in.
    pub fn collection(&self) -> (r: &Collection<Document>)
        ensures
            *r == self.spec_collection(),
    {
        &self.collection
    }

    /// What `add_user` returns, given the store's answer to the insert: the
    /// assigned identifier, or the one gateway error with its cause.
    pub fn add_user_outcome(answer: Result<String, StoreFailure>) -> (r: Result<String, AddUserError>)
        ensures
            match answer {
                Ok(id) => r is Ok && r->Ok_0@ == id@,
                Err(cause) => r == Err::<String, AddUserError>(AddUserError { cause }),
            },
    {
        match answer {
            Ok(id) => Ok(id),
            Err(cause) => Err(AddUserError { cause }),
        }
    }
}

} // verus!
