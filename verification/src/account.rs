//! Reading the backend's answers to the account forms: registration, login
//! and e-mail verification.

use vstd::prelude::*;
use crate::error::ClientError;
use crate::http::{is_success, Response};
use crate::json::{
    json_model, json_parse, members_of, models_of, parse_value, text_member, value_as_array,
    value_as_str, value_entries, value_get, Json,
};
use crate::store::TokenStore;
use crate::text::same_text;
use crate::token::Token;

verus! {

/// The endpoint that registers an account.
pub const REGISTER_PATH: &'static str = "/api/auth/register/";

/// The endpoint that logs a user in.
pub const LOGIN_PATH: &'static str = "/api/auth/login/";

/// The endpoint that verifies an e-mail address with a one-time code.
pub const VERIFY_PATH: &'static str = "/api/auth/verify-user/";

/// The endpoint that sends the one-time code again.
pub const RESEND_PATH: &'static str = "/api/resend-email/";

/// The fields of the registration form.
#[derive(Debug, Clone, Copy, PartialEq, Eq, Structural)]
pub enum Field {
    Username,
    Email,
    Password,
    RePassword,
    FirstName,
    LastName,
}

impl Field {
    /// The key under which the backend reports the field.
    pub open spec fn key_text(self) -> Seq<char> {
        match self {
            Field::Username => "username"@,
            Field::Email => "email"@,
            Field::Password => "password"@,
            Field::RePassword => "re_password"@,
            Field::FirstName => "first_name"@,
            Field::LastName => "last_name"@,
        }
    }

    /// The field that the backend reports under `key`, if it is one.
    pub open spec fn of_key(key: Seq<char>) -> Option<Field> {
        if exists|field: Field| field.key_text() == key {
            Some(choose|field: Field| field.key_text() == key)
        } else {
            None
        }
    }

    /// The key under which the backend reports the field.
    pub fn key(self) -> (key: &'static str)
        ensures
            key@ == self.key_text(),
    {
        match self {
            Field::Username => "username",
            Field::Email => "email",
            Field::Password => "password",
            Field::RePassword => "re_password",
            Field::FirstName => "first_name",
            Field::LastName => "last_name",
        }
    }

    /// The field that the backend reports under `key`; `None` for any other
    /// key.
    pub fn from_key(key: &str) -> (field: Option<Field>)
        ensures
            field == Field::of_key(key@),
    {
        let field = if same_text(key, "email") {
            Some(Field::Email)
        } else if same_text(key, "password") {
            Some(Field::Password)
        } else if same_text(key, "re_password") {
            Some(Field::RePassword)
        } else if same_text(key, "username") {
            Some(Field::Username)
        } else if same_text(key, "first_name") {
            Some(Field::FirstName)
        } else if same_text(key, "last_name") {
            Some(Field::LastName)
        } else {
            None
        };
        proof {
            match field {
                Some(found) => {
                    assert(found.key_text() == key@);
                    lemma_field_keys_round_trip(found);
                },
                None => {
                    assert forall|other: Field| other.key_text() != key@ by {}
                },
            }
        }
        field
    }
}

/// No two fields are reported under the same key.
pub proof fn lemma_field_keys_differ(a: Field, b: Field)
    requires
        a.key_text() == b.key_text(),
    ensures
        a == b,
{
    reveal_strlit("username");
    reveal_strlit("email");
    reveal_strlit("password");
    reveal_strlit("re_password");
    reveal_strlit("first_name");
    reveal_strlit("last_name");
    assert("username"@.len() == 8 && "username"@[0] == 'u');
    assert("email"@.len() == 5);
    assert("password"@.len() == 8 && "password"@[0] == 'p');
    assert("re_password"@.len() == 11);
    assert("first_name"@.len() == 10);
    assert("last_name"@.len() == 9);
}

/// A field is found again by its key.
pub proof fn lemma_field_keys_round_trip(field: Field)
    ensures
        Field::of_key(field.key_text()) == Some(field),
{
    let found = choose|other: Field| other.key_text() == field.key_text();
    lemma_field_keys_differ(found, field);
}

/// One complaint of the backend about one field of the registration form.
#[derive(Debug, Clone, PartialEq, Eq)]
pub struct ValidationError {
    pub field: Field,
    pub message: String,
}

impl View for ValidationError {
    type V = (Field, Seq<char>);

    open spec fn view(&self) -> (Field, Seq<char>) {
        (self.field, self.message@)
    }
}

/// The complaints in a list, as mathematical values.
pub open spec fn complaints(errors: Seq<ValidationError>) -> Seq<(Field, Seq<char>)> {
    errors.map_values(|error: ValidationError| error@)
}

/// Whether every item of a JSON array is a string.
pub open spec fn all_text(items: Seq<Json>) -> bool {
    forall|i: int| 0 <= i < items.len() ==> (#[trigger] items[i]) is Text
}

/// The messages of a field, each paired with the field.
pub open spec fn field_complaints(field: Field, items: Seq<Json>) -> Seq<(Field, Seq<char>)> {
    items.map_values(|item: Json| (field, item->Text_0))
}

/// The complaints that one member of the backend's answer holds: its key
/// names a field, and its value is an array of messages. `None` for a member
/// of any other shape.
pub open spec fn member_complaints(member: (Seq<char>, Json)) -> Option<Seq<(Field, Seq<char>)>> {
    match (Field::of_key(member.0), member.1) {
        (Some(field), Json::Array(items)) => if all_text(items) {
            Some(field_complaints(field, items))
        } else {
            None
        },
        _ => None,
    }
}

/// Whether every member of the backend's answer holds complaints.
pub open spec fn all_complaints(members: Seq<(Seq<char>, Json)>) -> bool {
    forall|i: int| 0 <= i < members.len() ==> member_complaints(#[trigger] members[i]) is Some
}

/// The complaints of all members, in the order of the members and, within a
/// member, of its messages.
pub open spec fn gathered_complaints(members: Seq<(Seq<char>, Json)>) -> Seq<(Field, Seq<char>)>
    decreases members.len(),
{
    if members.len() == 0 {
        Seq::empty()
    } else {
        gathered_complaints(members.drop_last()) + member_complaints(members.last())->0
    }
}

/// The validation errors that a refused registration reports: the answer is
/// an object whose every key names a field of the form and whose every value
/// is an array of messages. `None` for an answer of any other shape.
pub open spec fn validation_errors_of(document: Json) -> Option<Seq<(Field, Seq<char>)>> {
    match document {
        Json::Object(members) => if all_complaints(members) {
            Some(gathered_complaints(members))
        } else {
            None
        },
        _ => None,
    }
}

/// Puts the messages of one member behind `errors`. Gives `false`, with
/// `errors` in an unspecified state, where an item is no string.
fn push_messages(
    errors: &mut Vec<ValidationError>,
    field: Field,
    items: &Vec<serde_json::Value>,
) -> (done: bool)
    ensures
        done == all_text(models_of(items@)),
        done ==> complaints(final(errors)@) == complaints(old(errors)@) + field_complaints(
            field,
            models_of(items@),
        ),
{
    let mut i: usize = 0;
    while i < items.len()
        invariant
            i <= items.len(),
            all_text(models_of(items@).take(i as int)),
            complaints(errors@) == complaints(old(errors)@) + field_complaints(
                field,
                models_of(items@).take(i as int),
            ),
        decreases items.len() - i,
    {
        let ghost before = errors@;
        match value_as_str(&items[i]) {
            Some(message) => {
                errors.push(ValidationError { field, message: message.to_owned() });
                assert(all_text(models_of(items@).take(i + 1))) by {
                    assert forall|j: int| 0 <= j < i + 1 implies (#[trigger] models_of(items@).take(
                        i + 1,
                    )[j]) is Text by {
                        if j < i {
                            assert(models_of(items@).take(i as int)[j] is Text);
                        }
                    }
                }
                assert(complaints(errors@) =~= complaints(before).push((field, message@)));
                assert(field_complaints(field, models_of(items@).take(i + 1)) =~= field_complaints(
                    field,
                    models_of(items@).take(i as int),
                ).push((field, message@)));
                assert(complaints(errors@) =~= complaints(old(errors)@) + field_complaints(
                    field,
                    models_of(items@).take(i + 1),
                ));
            },
            None => {
                assert(!(models_of(items@)[i as int] is Text));
                return false;
            },
        }
        i += 1;
    }
    assert(models_of(items@).take(items.len() as int) =~= models_of(items@));
    true
}

/// The validation errors in the parsed answer to a refused registration, or
/// [`ClientError::Decode`] where the answer has not that shape.
pub fn validation_errors_in(document: &serde_json::Value) -> (decoded: Result<
    Vec<ValidationError>,
    ClientError,
>)
    ensures
        match decoded {
            Ok(errors) => validation_errors_of(json_model(*document)) == Some(complaints(errors@)),
            Err(error) => error == ClientError::Decode && validation_errors_of(
                json_model(*document),
            ) is None,
        },
{
    let entries = match value_entries(document) {
        Some(entries) => entries,
        None => {
            return Err(ClientError::Decode);
        },
    };
    let ghost members = members_of(entries@);
    let mut errors: Vec<ValidationError> = Vec::new();
    let mut i: usize = 0;
    while i < entries.len()
        invariant
            i <= entries.len(),
            members == members_of(entries@),
            json_model(*document) == Json::Object(members),
            all_complaints(members.take(i as int)),
            complaints(errors@) == gathered_complaints(members.take(i as int)),
        decreases entries.len() - i,
    {
        let entry = &entries[i];
        let ghost member = members[i as int];
        let field = match Field::from_key(entry.0.as_str()) {
            Some(field) => field,
            None => {
                assert(member_complaints(member) is None);
                return Err(ClientError::Decode);
            },
        };
        let items = match value_as_array(entry.1) {
            Some(items) => items,
            None => {
                assert(member_complaints(member) is None);
                return Err(ClientError::Decode);
            },
        };
        if !push_messages(&mut errors, field, items) {
            assert(member_complaints(member) is None);
            return Err(ClientError::Decode);
        }
        proof {
            let next = members.take(i + 1);
            assert(next.drop_last() =~= members.take(i as int));
            assert(next.last() == member);
            assert(all_complaints(next)) by {
                assert forall|j: int| 0 <= j < next.len() implies member_complaints(
                    #[trigger] next[j],
                ) is Some by {
                    if j < i {
                        assert(members.take(i as int)[j] == next[j]);
                    }
                }
            }
        }
        i += 1;
    }
    assert(members.take(entries.len() as int) =~= members);
    Ok(errors)
}

/// What came of a registration.
#[derive(Debug, Clone, PartialEq, Eq)]
pub enum Registration {
    /// The account exists now; its e-mail address is to be verified next.
    Registered,
    /// The backend refused the form, for these reasons.
    Invalid(Vec<ValidationError>),
}

/// What the body of a refused registration amounts to: the validation errors
/// that it reports, or `None` where it is not JSON of that shape.
pub open spec fn refusal_of(body: Seq<char>) -> Option<Seq<(Field, Seq<char>)>> {
    match json_parse(body) {
        Some(document) => validation_errors_of(document),
        None => None,
    }
}

/// Reads the answer to a registration. A status of success means that the
/// account was registered. Any other status comes with the validation errors
/// of the form, field by field; a body that does not hold them is a
/// [`ClientError::Decode`].
pub fn read_registration(response: &Response) -> (outcome: Result<Registration, ClientError>)
    ensures
        is_success(response.status) ==> outcome == Ok::<Registration, ClientError>(
            Registration::Registered,
        ),
        !is_success(response.status) ==> match outcome {
            Ok(Registration::Invalid(errors)) => refusal_of(response.body@) == Some(
                complaints(errors@),
            ),
            Ok(Registration::Registered) => false,
            Err(error) => error == ClientError::Decode && refusal_of(response.body@) is None,
        },
{
    if response.ok() {
        return Ok(Registration::Registered);
    }
    match parse_value(response.body.as_str()) {
        Ok(document) => match validation_errors_in(&document) {
            Ok(errors) => Ok(Registration::Invalid(errors)),
            Err(error) => Err(error),
        },
        Err(_) => Err(ClientError::Decode),
    }
}

/// What came of a login.
#[derive(Debug)]
pub enum Login {
    /// The backend accepted the login and issued this credential.
    Token(Token),
    /// The backend refused the login, with this explanation.
    Refused(String),
}

/// The credential in the answer to an accepted login: the text under `user`
/// and then `access`.
pub open spec fn login_token_of(document: Json) -> Option<Seq<char>> {
    match document.member("user"@) {
        Some(user) => user.text_member("access"@),
        None => None,
    }
}

/// The explanation in the answer to a refused login: the text under `detail`.
pub open spec fn login_refusal_of(document: Json) -> Option<Seq<char>> {
    document.text_member("detail"@)
}

/// What the answer to a login amounts to.
pub enum LoginReply {
    /// A status of success, with the credential.
    Accepted { token: Seq<char> },
    /// Another status, with the backend's explanation.
    Refused { detail: Seq<char> },
    /// A body that does not hold what its status promises.
    Malformed,
}

/// Reads the answer to a login from its status and its parsed body.
pub open spec fn read_login(success: bool, document: Option<Json>) -> LoginReply {
    match document {
        None => LoginReply::Malformed,
        Some(document) => if success {
            match login_token_of(document) {
                Some(token) => LoginReply::Accepted { token },
                None => LoginReply::Malformed,
            }
        } else {
            match login_refusal_of(document) {
                Some(detail) => LoginReply::Refused { detail },
                None => LoginReply::Malformed,
            }
        },
    }
}

/// Reads the parsed answer to a login: the credential where the status was
/// one of success, the backend's explanation where it was not.
pub fn login_in(success: bool, document: &serde_json::Value) -> (outcome: Result<
    Login,
    ClientError,
>)
    ensures
        match read_login(success, Some(json_model(*document))) {
            LoginReply::Accepted { token } => outcome matches Ok(Login::Token(held)) && held@
                == token,
            LoginReply::Refused { detail } => outcome matches Ok(Login::Refused(told)) && told@
                == detail,
            LoginReply::Malformed => outcome matches Err(ClientError::Decode),
        },
{
    if success {
        let found = match value_get(document, "user") {
            Some(user) => text_member(user, "access"),
            None => None,
        };
        match found {
            Some(text) => Ok(Login::Token(Token::new(text))),
            None => Err(ClientError::Decode),
        }
    } else {
        match text_member(document, "detail") {
            Some(detail) => Ok(Login::Refused(detail)),
            None => Err(ClientError::Decode),
        }
    }
}

/// Takes the answer to a login, or `None` where no answer arrived. An
/// accepted login installs its credential in `store`; anything else leaves
/// `store` as it was.
pub fn on_login_reply(reply: Option<Response>, store: &mut TokenStore) -> (outcome: Result<
    Login,
    ClientError,
>)
    ensures
        match reply {
            None => outcome matches Err(ClientError::Network) && final(store)@ == old(store)@,
            Some(response) => match read_login(
                is_success(response.status),
                json_parse(response.body@),
            ) {
                LoginReply::Accepted { token } => {
                    &&& outcome matches Ok(Login::Token(held))
                    &&& held@ == token
                    &&& final(store)@ == old(store)@.after_set(token)
                },
                LoginReply::Refused { detail } => {
                    &&& outcome matches Ok(Login::Refused(told))
                    &&& told@ == detail
                    &&& final(store)@ == old(store)@
                },
                LoginReply::Malformed => {
                    &&& outcome matches Err(ClientError::Decode)
                    &&& final(store)@ == old(store)@
                },
            },
        },
{
    let response = match reply {
        Some(response) => response,
        None => {
            return Err(ClientError::Network);
        },
    };
    let document = match parse_value(response.body.as_str()) {
        Ok(document) => document,
        Err(_) => {
            return Err(ClientError::Decode);
        },
    };
    let outcome = login_in(response.ok(), &document);
    match &outcome {
        Ok(Login::Token(token)) => {
            store.set(token.clone());
        },
        _ => {},
    }
    outcome
}

/// What came of the verification of an e-mail address.
#[derive(Debug, Clone, Copy, PartialEq, Eq, Structural)]
pub enum Verification {
    /// The address is verified now.
    Verified,
    /// The address was verified before.
    AlreadyVerified,
    /// The address and the one-time code do not belong together.
    Mismatch,
}

/// The meaning of the status of an answer to a verification.
pub open spec fn verification_of(status: u16) -> Option<Verification> {
    if status == 200 {
        Some(Verification::Verified)
    } else if status == 208 {
        Some(Verification::AlreadyVerified)
    } else if status == 404 {
        Some(Verification::Mismatch)
    } else {
        None
    }
}

/// Reads the answer to a verification by its status: 200, 208 and 404 have a
/// meaning of their own; any other status is handed on as a
/// [`ClientError::Http`] with the body.
pub fn read_verification(response: Response) -> (outcome: Result<Verification, ClientError>)
    ensures
        match verification_of(response.status) {
            Some(meaning) => outcome == Ok::<Verification, ClientError>(meaning),
            None => outcome == Err::<Verification, ClientError>(
                ClientError::Http { status: response.status, body: response.body },
            ),
        },
{
    if response.status == 200 {
        Ok(Verification::Verified)
    } else if response.status == 208 {
        Ok(Verification::AlreadyVerified)
    } else if response.status == 404 {
        Ok(Verification::Mismatch)
    } else {
        Err(ClientError::Http { status: response.status, body: response.body })
    }
}

/// Reads the answer to a request for another one-time code: status 200 means
/// that it was sent; any other status is handed on as a
/// [`ClientError::Http`] with the body.
pub fn read_resend(response: Response) -> (outcome: Result<(), ClientError>)
    ensures
        response.status == 200 ==> outcome is Ok,
        response.status != 200 ==> outcome == Err::<(), ClientError>(
            ClientError::Http { status: response.status, body: response.body },
        ),
{
    if response.status == 200 {
        Ok(())
    } else {
        Err(ClientError::Http { status: response.status, body: response.body })
    }
}

} // verus!
