use bookup_client::account::{
    login_in, on_login_reply, read_registration, read_resend, read_verification,
    validation_errors_in, Field, Login, Registration, ValidationError, Verification, LOGIN_PATH,
    REGISTER_PATH, RESEND_PATH, VERIFY_PATH,
};
use bookup_client::error::ClientError;
use bookup_client::http::{post_outcome, Response};
use bookup_client::json::text_member;
use bookup_client::storage::LocalStorage;
use bookup_client::store::TokenStore;
use bookup_client::text::{joined, same_text, to_standard_base64};
use bookup_client::token::Token;

fn response(status: u16, body: &str) -> Response {
    Response {
        status,
        status_text: String::new(),
        body: body.to_string(),
    }
}

fn complaint(field: Field, message: &str) -> ValidationError {
    ValidationError {
        field,
        message: message.to_string(),
    }
}

fn json(text: &str) -> serde_json::Value {
    serde_json::from_str(text).unwrap()
}

#[test]
fn endpoints_are_fixed() {
    assert_eq!(REGISTER_PATH, "/api/auth/register/");
    assert_eq!(LOGIN_PATH, "/api/auth/login/");
    assert_eq!(VERIFY_PATH, "/api/auth/verify-user/");
    assert_eq!(RESEND_PATH, "/api/resend-email/");
}

#[test]
fn field_keys_round_trip() {
    for (field, key) in [
        (Field::Username, "username"),
        (Field::Email, "email"),
        (Field::Password, "password"),
        (Field::RePassword, "re_password"),
        (Field::FirstName, "first_name"),
        (Field::LastName, "last_name"),
    ] {
        assert_eq!(field.key(), key);
        assert_eq!(Field::from_key(key), Some(field));
    }
    assert_eq!(Field::from_key("Email"), None);
    assert_eq!(Field::from_key("detail"), None);
    assert_eq!(Field::from_key(""), None);
}

#[test]
fn register_400_is_a_per_field_error() {
    let reply = post_outcome(Some(response(400, "{\"email\": [\"already taken\"]}")));
    let outcome = read_registration(&reply.unwrap());
    assert_eq!(
        outcome,
        Ok(Registration::Invalid(vec![complaint(
            Field::Email,
            "already taken"
        )]))
    );
    assert_ne!(outcome, Err(ClientError::Network));
}

#[test]
fn register_success_ignores_the_body() {
    assert_eq!(
        read_registration(&response(201, "not even json")),
        Ok(Registration::Registered)
    );
    assert_eq!(
        read_registration(&response(200, "{\"email\": [\"x\"]}")),
        Ok(Registration::Registered)
    );
}

#[test]
fn register_errors_come_in_document_order() {
    let body = "{\"username\": [\"too short\", \"taken\"], \"email\": [\"invalid\"], \"re_password\": [], \"password\": [\"weak\"]}";
    assert_eq!(
        read_registration(&response(400, body)),
        Ok(Registration::Invalid(vec![
            complaint(Field::Email, "invalid"),
            complaint(Field::Password, "weak"),
            complaint(Field::Username, "too short"),
            complaint(Field::Username, "taken"),
        ]))
    );
}

#[test]
fn register_empty_object_has_no_errors() {
    assert_eq!(
        read_registration(&response(422, "{}")),
        Ok(Registration::Invalid(vec![]))
    );
}

#[test]
fn register_malformed_answers_are_decode_errors() {
    for body in [
        "",
        "oops",
        "[]",
        "\"email\"",
        "null",
        "{\"detail\": [\"unexpected key\"]}",
        "{\"email\": \"not an array\"}",
        "{\"email\": [1]}",
        "{\"email\": [\"fine\", null]}",
        "{\"email\": [\"fine\"], \"phone\": [\"unknown\"]}",
        "{\"email\": {\"nested\": []}}",
    ] {
        assert_eq!(
            read_registration(&response(400, body)),
            Err(ClientError::Decode),
            "{}",
            body
        );
    }
}

#[test]
fn validation_errors_of_a_parsed_document() {
    assert_eq!(
        validation_errors_in(&json("{\"last_name\":[\"a\"],\"first_name\":[\"b\",\"c\"]}")),
        Ok(vec![
            complaint(Field::FirstName, "b"),
            complaint(Field::FirstName, "c"),
            complaint(Field::LastName, "a"),
        ])
    );
    assert_eq!(validation_errors_in(&json("[]")), Err(ClientError::Decode));
    assert_eq!(validation_errors_in(&json("7")), Err(ClientError::Decode));
}

#[test]
fn login_success_installs_the_token() {
    let mut store = TokenStore::new(LocalStorage::new());
    let outcome = on_login_reply(
        Some(response(200, "{\"user\":{\"access\":\"tok123\",\"refresh\":\"r\"}}")),
        &mut store,
    );
    match outcome {
        Ok(Login::Token(token)) => assert_eq!(token, Token::new("tok123".to_string())),
        other => panic!("unexpected outcome {:?}", other),
    }
    assert_eq!(store.get(), Some(Token::new("tok123".to_string())));
    assert_eq!(
        store.reload().get(),
        Some(Token::new("tok123".to_string()))
    );
}

#[test]
fn login_refusal_carries_the_detail() {
    let mut store = TokenStore::new(LocalStorage::new());
    store.set(Token::new("earlier".to_string()));
    let outcome = on_login_reply(
        Some(response(401, "{\"detail\":\"Invalid credentials\"}")),
        &mut store,
    );
    match outcome {
        Ok(Login::Refused(detail)) => assert_eq!(detail, "Invalid credentials"),
        other => panic!("unexpected outcome {:?}", other),
    }
    assert_eq!(store.get(), Some(Token::new("earlier".to_string())));
}

#[test]
fn login_failures() {
    let mut store = TokenStore::new(LocalStorage::new());
    assert!(matches!(
        on_login_reply(None, &mut store),
        Err(ClientError::Network)
    ));
    for (status, body) in [
        (200, "{\"user\":{}}"),
        (200, "{\"user\":{\"access\":17}}"),
        (200, "{\"access\":\"tok123\"}"),
        (200, "{\"detail\":\"x\"}"),
        (200, "<html>"),
        (403, "{\"user\":{\"access\":\"tok123\"}}"),
        (403, "{\"detail\":[\"x\"]}"),
        (500, ""),
    ] {
        assert!(
            matches!(
                on_login_reply(Some(response(status, body)), &mut store),
                Err(ClientError::Decode)
            ),
            "{} {}",
            status,
            body
        );
        assert_eq!(store.get(), None);
    }
}

#[test]
fn login_in_reads_a_parsed_document() {
    let document = json("{\"user\":{\"access\":\"t\"},\"detail\":\"d\"}");
    assert!(matches!(login_in(true, &document), Ok(Login::Token(token)) if token.as_str() == "t"));
    assert!(matches!(login_in(false, &document), Ok(Login::Refused(detail)) if detail == "d"));
    assert!(matches!(
        login_in(true, &json("[]")),
        Err(ClientError::Decode)
    ));
}

#[test]
fn verification_statuses() {
    assert_eq!(
        read_verification(response(200, "")),
        Ok(Verification::Verified)
    );
    assert_eq!(
        read_verification(response(208, "")),
        Ok(Verification::AlreadyVerified)
    );
    assert_eq!(
        read_verification(response(404, "")),
        Ok(Verification::Mismatch)
    );
    assert_eq!(
        read_verification(response(500, "boom")),
        Err(ClientError::Http {
            status: 500,
            body: "boom".to_string()
        })
    );
    assert_eq!(
        read_verification(response(201, "")),
        Err(ClientError::Http {
            status: 201,
            body: String::new()
        })
    );
}

#[test]
fn resend_statuses() {
    assert_eq!(read_resend(response(200, "sent")), Ok(()));
    assert_eq!(
        read_resend(response(204, "")),
        Err(ClientError::Http {
            status: 204,
            body: String::new()
        })
    );
    assert_eq!(
        read_resend(response(429, "slow down")),
        Err(ClientError::Http {
            status: 429,
            body: "slow down".to_string()
        })
    );
}

#[test]
fn text_member_reads_strings_only() {
    let document = json("{\"a\":\"x\",\"b\":1,\"c\":null,\"d\":{\"a\":\"y\"},\"\":\"empty key\"}");
    assert_eq!(text_member(&document, "a"), Some("x".to_string()));
    assert_eq!(text_member(&document, "b"), None);
    assert_eq!(text_member(&document, "c"), None);
    assert_eq!(text_member(&document, "d"), None);
    assert_eq!(text_member(&document, "e"), None);
    assert_eq!(text_member(&document, ""), Some("empty key".to_string()));
    assert_eq!(text_member(&json("[\"a\"]"), "a"), None);
    assert_eq!(text_member(&json("\"a\""), "a"), None);
}

#[test]
fn text_helpers() {
    assert!(same_text("abc", "abc"));
    assert!(!same_text("abc", "abd"));
    assert!(!same_text("abc", "ab"));
    assert!(same_text("", ""));
    assert_eq!(joined("Bearer ", "tok"), "Bearer tok");
    assert_eq!(joined("", ""), "");
    assert_eq!(to_standard_base64("a-b_c"), "a+b/c");
    assert_eq!(to_standard_base64("--__"), "++//");
    assert_eq!(to_standard_base64("h\u{e9}llo+/"), "h\u{e9}llo+/");
    assert_eq!(to_standard_base64(""), "");
}
