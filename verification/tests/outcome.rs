use xornet_signup::auth_manager::{
    AuthManager, Body, BodyShape, Reply, SignupResponse, SignupResponseError,
};
use xornet_signup::error::SignupError;

fn token(text: &str) -> Body<SignupResponse> {
    Body::Parsed(SignupResponse { access_token: text.to_string() })
}

fn rejection(text: &str) -> Body<SignupResponseError> {
    Body::Parsed(SignupResponseError { error: text.to_string() })
}

/// Reads a body as the caller of the library does: the member `name` of a
/// JSON object, which must be a string.
fn read_member(text: &str, name: &str) -> Result<String, String> {
    let value: serde_json::Value = match serde_json::from_str(text) {
        Ok(value) => value,
        Err(error) => return Err(error.to_string()),
    };
    match value.get(name).and_then(|member| member.as_str()) {
        Some(member) => Ok(member.to_string()),
        None => Err(format!("missing field `{}`", name)),
    }
}

fn read_token(text: &str) -> Body<SignupResponse> {
    match read_member(text, "access_token") {
        Ok(access_token) => Body::Parsed(SignupResponse { access_token }),
        Err(description) => Body::Malformed(description),
    }
}

fn read_rejection(text: &str) -> Body<SignupResponseError> {
    match read_member(text, "error") {
        Ok(error) => Body::Parsed(SignupResponseError { error }),
        Err(description) => Body::Malformed(description),
    }
}

#[test]
fn status_200_asks_for_a_token() {
    assert_eq!(AuthManager::on_status(Reply::Status(200)), Ok(BodyShape::Token));
}

#[test]
fn status_400_404_500_ask_for_a_rejection() {
    assert_eq!(AuthManager::on_status(Reply::Status(400)), Ok(BodyShape::Rejection));
    assert_eq!(AuthManager::on_status(Reply::Status(404)), Ok(BodyShape::Rejection));
    assert_eq!(AuthManager::on_status(Reply::Status(500)), Ok(BodyShape::Rejection));
}

#[test]
fn other_statuses_end_the_signup() {
    for status in [301u16, 403, 503, 0, 100, 199, 201, 204, 399, 401, 405, 499, 501, 999, 65535] {
        assert_eq!(
            AuthManager::on_status(Reply::Status(status)),
            Err(SignupError::UnexpectedStatus)
        );
    }
}

#[test]
fn only_four_statuses_are_known() {
    let mut known: Vec<u16> = Vec::new();
    for status in 0u16..=65535 {
        if AuthManager::on_status(Reply::Status(status)).is_ok() {
            known.push(status);
        }
    }
    assert_eq!(known, vec![200u16, 400, 404, 500]);
}

#[test]
fn unexpected_status_has_a_fixed_message() {
    let first = AuthManager::on_status(Reply::Status(301)).unwrap_err();
    let second = AuthManager::on_status(Reply::Status(503)).unwrap_err();
    assert_eq!(first.message(), "Unexpected response from Xornet");
    assert_eq!(first.message(), second.message());
}

#[test]
fn failed_send_is_a_transport_failure() {
    let failure = AuthManager::on_status(Reply::Failed("connection reset".to_string()));
    assert_eq!(failure, Err(SignupError::Transport("connection reset".to_string())));
    assert_eq!(failure.unwrap_err().message(), "connection reset");
}

#[test]
fn token_comes_back() {
    assert_eq!(
        AuthManager::on_token(token("tok-xyz")),
        Ok(SignupResponse { access_token: "tok-xyz".to_string() })
    );
    assert_eq!(
        AuthManager::on_token(token("")),
        Ok(SignupResponse { access_token: String::new() })
    );
}

#[test]
fn signup_succeeds_with_the_token_of_the_body() {
    let request = AuthManager::signup("ABC123", "box1", "api.example.com", "uuid-1");
    assert_eq!(request.url, "https://api.example.com/machines/@signup");
    assert_eq!(AuthManager::on_status(Reply::Status(200)), Ok(BodyShape::Token));
    let result = AuthManager::on_token(read_token("{\"access_token\":\"tok-xyz\"}"));
    assert_eq!(result.unwrap().access_token, "tok-xyz");
}

#[test]
fn signup_fails_with_the_message_of_the_backend() {
    let request = AuthManager::signup("ABC123", "box1", "api.example.com", "uuid-1");
    assert_eq!(request.url, "https://api.example.com/machines/@signup");
    assert_eq!(AuthManager::on_status(Reply::Status(400)), Ok(BodyShape::Rejection));
    let failure = AuthManager::on_rejection(read_rejection("{\"error\":\"invalid key\"}"));
    assert_eq!(failure, SignupError::ServerRejected("invalid key".to_string()));
    assert_eq!(failure.message(), "invalid key");
}

#[test]
fn rejection_message_comes_back() {
    for text in ["X", "machine not found", "internal error: \"db\"\n", "é🦀"] {
        assert_eq!(AuthManager::on_rejection(rejection(text)).message(), text);
    }
}

#[test]
fn malformed_token_body_is_a_deserialization_failure() {
    let description = "missing field `access_token` at line 1 column 2";
    let result = AuthManager::on_token(Body::Malformed(description.to_string()));
    assert_eq!(result, Err(SignupError::Deserialization(description.to_string())));
    assert_eq!(result.unwrap_err().message(), description);
}

#[test]
fn body_without_a_token_is_no_success() {
    assert_eq!(AuthManager::on_status(Reply::Status(200)), Ok(BodyShape::Token));
    for text in ["{}", "{\"error\":\"invalid key\"}", "{\"access_token\":7}", "not json", ""] {
        let result = AuthManager::on_token(read_token(text));
        assert!(matches!(result, Err(SignupError::Deserialization(_))));
    }
}

#[test]
fn malformed_rejection_body_is_a_deserialization_failure() {
    let description = "expected value at line 1 column 1";
    let failure = AuthManager::on_rejection(Body::Malformed(description.to_string()));
    assert_eq!(failure, SignupError::Deserialization(description.to_string()));
    assert_eq!(failure.message(), description);
}

#[test]
fn unread_body_is_a_transport_failure() {
    let result = AuthManager::on_token(Body::Failed("timed out".to_string()));
    assert_eq!(result, Err(SignupError::Transport("timed out".to_string())));
    let failure = AuthManager::on_rejection(Body::Failed("timed out".to_string()));
    assert_eq!(failure, SignupError::Transport("timed out".to_string()));
    assert_eq!(failure.message(), "timed out");
}

#[test]
fn each_failure_has_its_message() {
    assert_eq!(SignupError::Transport("a".to_string()).message(), "a");
    assert_eq!(SignupError::ServerRejected("b".to_string()).message(), "b");
    assert_eq!(SignupError::UnexpectedStatus.message(), "Unexpected response from Xornet");
    assert_eq!(SignupError::Deserialization("c".to_string()).message(), "c");
}
