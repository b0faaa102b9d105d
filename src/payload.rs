//! The user-creation request, the record derived from it, and decoding a
//! request from a delivery body.
use vstd::prelude::*;

use crate::json::{members_view, object_members, parse_object, Member};
use crate::text::{chars_eq, chars_of, string_of};

verus! {

/// A required field of a request.
#[derive(PartialEq, Eq, Structural, Clone, Copy, Debug)]
pub enum Field {
    FirstName,
    LastName,
    Username,
    Password,
    Avatar,
    Email,
}

impl Field {
    /// The field's key in a request body.
    pub open spec fn spec_key(self) -> Seq<char> {
        match self {
            Field::FirstName => "first_name"@,
            Field::LastName => "last_name"@,
            Field::Username => "username"@,
            Field::Password => "password"@,
            Field::Avatar => "avatar"@,
            Field::Email => "email"@,
        }
    }

    pub fn key(self) -> (r: &'static str)
        ensures
            r@ == self.spec_key(),
    {
        match self {
            Field::FirstName => "first_name",
            Field::LastName => "last_name",
            Field::Username => "username",
            Field::Password => "password",
            Field::Avatar => "avatar",
            Field::Email => "email",
        }
    }
}

/// Why a delivery body is not a request.
#[derive(PartialEq, Eq, Structural, Clone, Copy, Debug)]
pub enum DecodeError {
    /// The body is not UTF-8 text.
    NotText,
    /// The body is not an object whose member values are all strings.
    Malformed,
    /// A required field does not occur.
    Missing(Field),
    /// A required field occurs more than once.
    Duplicate(Field),
}

/// The six fields of a request or of a record, as character sequences.
pub struct UserFields {
    pub first_name: Seq<char>,
    pub last_name: Seq<char>,
    pub username: Seq<char>,
    pub password: Seq<char>,
    pub avatar: Seq<char>,
    pub email: Seq<char>,
}

impl UserFields {
    pub open spec fn get(self, f: Field) -> Seq<char> {
        match f {
            Field::FirstName => self.first_name,
            Field::LastName => self.last_name,
            Field::Username => self.username,
            Field::Password => self.password,
            Field::Avatar => self.avatar,
            Field::Email => self.email,
        }
    }

    /// Every field holds at least one character.
    pub open spec fn all_non_empty(self) -> bool {
        forall|f: Field| #[trigger] self.get(f).len() > 0
    }
}

/// A decoded user-creation request.
pub struct CreateWithPassword {
    pub first_name: String,
    pub last_name: String,
    pub username: String,
    pub password: String,
    pub avatar: String,
    pub email: String,
}

impl View for CreateWithPassword {
    type V = UserFields;

    open spec fn view(&self) -> UserFields {
        UserFields {
            first_name: self.first_name@,
            last_name: self.last_name@,
            username: self.username@,
            password: self.password@,
            avatar: self.avatar@,
            email: self.email@,
        }
    }
}

/// The values that key `k` has among the members `ms`, in input order.
pub open spec fn values_of(ms: Seq<(Seq<char>, Seq<char>)>, k: Seq<char>) -> Seq<Seq<char>>
    decreases ms.len(),
{
    if ms.len() == 0 {
        seq![]
    } else {
        let rest = values_of(ms.drop_last(), k);
        if ms.last().0 == k {
            rest.push(ms.last().1)
        } else {
            rest
        }
    }
}

/// The value of a required field: it must occur exactly once.
pub open spec fn field_value(ms: Seq<(Seq<char>, Seq<char>)>, f: Field) -> Result<
    Seq<char>,
    DecodeError,
> {
    let vs = values_of(ms, f.spec_key());
    if vs.len() == 0 {
        Err(DecodeError::Missing(f))
    } else if vs.len() > 1 {
        Err(DecodeError::Duplicate(f))
    } else {
        Ok(vs[0])
    }
}

/// The first required field, in declaration order, that is missing or
/// repeated among `ms`.
pub open spec fn fields_error(ms: Seq<(Seq<char>, Seq<char>)>) -> Option<DecodeError> {
    if field_value(ms, Field::FirstName) is Err {
        Some(field_value(ms, Field::FirstName)->Err_0)
    } else if field_value(ms, Field::LastName) is Err {
        Some(field_value(ms, Field::LastName)->Err_0)
    } else if field_value(ms, Field::Username) is Err {
        Some(field_value(ms, Field::Username)->Err_0)
    } else if field_value(ms, Field::Password) is Err {
        Some(field_value(ms, Field::Password)->Err_0)
    } else if field_value(ms, Field::Avatar) is Err {
        Some(field_value(ms, Field::Avatar)->Err_0)
    } else if field_value(ms, Field::Email) is Err {
        Some(field_value(ms, Field::Email)->Err_0)
    } else {
        None
    }
}

/// What a request body decodes to: members with other keys are ignored.
pub open spec fn decode_text(s: Seq<char>) -> Result<UserFields, DecodeError> {
    match object_members(s) {
        None => Err(DecodeError::Malformed),
        Some(ms) => match fields_error(ms) {
            Some(e) => Err(e),
            None => Ok(
                UserFields {
                    first_name: field_value(ms, Field::FirstName)->Ok_0,
                    last_name: field_value(ms, Field::LastName)->Ok_0,
                    username: field_value(ms, Field::Username)->Ok_0,
                    password: field_value(ms, Field::Password)->Ok_0,
                    avatar: field_value(ms, Field::Avatar)->Ok_0,
                    email: field_value(ms, Field::Email)->Ok_0,
                },
            ),
        },
    }
}

/// The value of field `f` among `ms`.
fn find_field(ms: &Vec<Member>, f: Field) -> (r: Result<String, DecodeError>)
    ensures
        match field_value(members_view(ms@), f) {
            Ok(v) => r is Ok && r->Ok_0@ == v,
            Err(e) => r == Err::<String, DecodeError>(e),
        },
{
    let key = chars_of(f.key());
    let ghost view = members_view(ms@);
    let mut count: usize = 0;
    let mut first: usize = 0;
    let mut i: usize = 0;
    while i < ms.len()
        invariant
            i <= ms.len(),
            view == members_view(ms@),
            key@ == f.spec_key(),
            count <= i,
            count == values_of(view.take(i as int), key@).len(),
            count > 0 ==> first < ms.len() && values_of(view.take(i as int), key@)[0]
                == ms@[first as int].value@,
        decreases ms.len() - i,
    {
        assert(view.take(i as int + 1).drop_last() =~= view.take(i as int));
        if chars_eq(&ms[i].key, &key) {
            if count == 0 {
                first = i;
            }
            count += 1;
        }
        i += 1;
    }
    assert(view.take(ms.len() as int) =~= view);
    if count == 0 {
        Err(DecodeError::Missing(f))
    } else if count > 1 {
        Err(DecodeError::Duplicate(f))
    } else {
        Ok(string_of(&ms[first].value))
    }
}

/// What `bytes` reads as, where it is UTF-8 text.
pub uninterp spec fn utf8_text(bytes: Seq<u8>) -> Option<Seq<char>>;

/// Relies on `String::from_utf8`: the text that valid UTF-8 bytes encode, or
/// an error where they are not valid UTF-8.
#[verifier::external_body]
fn text_of(bytes: &Vec<u8>) -> (r: Option<String>)
    ensures
        match utf8_text(bytes@) {
            Some(t) => r is Some && r->Some_0@ == t,
            None => r is None,
        },
{
    String::from_utf8(bytes.clone()).ok()
}

impl CreateWithPassword {
    /// Decodes a request from its text: an object whose member values are all
    /// strings, holding each of the six required keys exactly once.
    pub fn decode(text: &str) -> (r: Result<CreateWithPassword, DecodeError>)
        ensures
            match decode_text(text@) {
                Ok(u) => r is Ok && r->Ok_0@ == u,
                Err(e) => r == Err::<CreateWithPassword, DecodeError>(e),
            },
    {
        let chars = chars_of(text);
        let ms = match parse_object(&chars) {
            Some(ms) => ms,
            None => return Err(DecodeError::Malformed),
        };
        let first_name = match find_field(&ms, Field::FirstName) {
            Ok(v) => v,
            Err(e) => return Err(e),
        };
        let last_name = match find_field(&ms, Field::LastName) {
            Ok(v) => v,
            Err(e) => return Err(e),
        };
        let username = match find_field(&ms, Field::Username) {
            Ok(v) => v,
            Err(e) => return Err(e),
        };
        let password = match find_field(&ms, Field::Password) {
            Ok(v) => v,
            Err(e) => return Err(e),
        };
        let avatar = match find_field(&ms, Field::Avatar) {
            Ok(v) => v,
            Err(e) => return Err(e),
        };
        let email = match find_field(&ms, Field::Email) {
            Ok(v) => v,
            Err(e) => return Err(e),
        };
        Ok(CreateWithPassword { first_name, last_name, username, password, avatar, email })
    }

    /// Decodes a request from a delivery body: the body must be UTF-8 text,
    /// which then decodes as `decode` says.
    pub fn decode_body(body: &Vec<u8>) -> (r: Result<CreateWithPassword, DecodeError>)
        ensures
            match utf8_text(body@) {
                None => r == Err::<CreateWithPassword, DecodeError>(DecodeError::NotText),
                Some(t) => match decode_text(t) {
                    Ok(u) => r is Ok && r->Ok_0@ == u,
                    Err(e) => r == Err::<CreateWithPassword, DecodeError>(e),
                },
            },
    {
        match text_of(body) {
            Some(t) => CreateWithPassword::decode(t.as_str()),
            None => Err(DecodeError::NotText),
        }
    }
}

/// The record that is stored for a request.
pub struct User {
    pub first_name: String,
    pub last_name: String,
    pub username: String,
    pub password: String,
    pub avatar: String,
    pub email: String,
}

impl View for User {
    type V = UserFields;

    open spec fn view(&self) -> UserFields {
        UserFields {
            first_name: self.first_name@,
            last_name: self.last_name@,
            username: self.username@,
            password: self.password@,
            avatar: self.avatar@,
            email: self.email@,
        }
    }
}

impl User {
    /// The record for a request: its six fields, unchanged.
    pub fn from_request(req: CreateWithPassword) -> (r: User)
        ensures
            r@ == req@,
    {
        User {
            first_name: req.first_name,
            last_name: req.last_name,
            username: req.username,
            password: req.password,
            avatar: req.avatar,
            email: req.email,
        }
    }
}

} // verus!
