use aws_signin::credentials::Credentials;
use aws_signin::error::Error;
use aws_signin::exchange::describe_session;
use aws_signin::exchange::request_with_session;
use aws_signin::exchange::signin_request;
use aws_signin::exchange::signin_token_among;
use aws_signin::exchange::signin_token_from_response;
use aws_signin::exchange::signin_token_in;
use aws_signin::exchange::status_is_success;
use aws_signin::exchange::SigninRequest;
use aws_signin::json::Document;
use aws_signin::json::Member;

fn pair(name: &str, value: &str) -> (String, String) {
    (String::from(name), String::from(value))
}

fn credentials(access_key_id: &str, secret_access_key: &str, session_token: &str) -> Credentials {
    Credentials {
        access_key_id: String::from(access_key_id),
        secret_access_key: String::from(secret_access_key),
        session_token: String::from(session_token),
    }
}

fn text_member(name: &str, text: &str) -> Member {
    Member { name: String::from(name), text: Some(String::from(text)) }
}

fn other_member(name: &str) -> Member {
    Member { name: String::from(name), text: None }
}

fn malformed(cause: &str) -> Error {
    Error::MalformedResponse { cause: String::from(cause) }
}

fn refused() -> Error {
    Error::ExchangeFailed { cause: String::from("the endpoint refused the request") }
}

#[test]
fn session_descriptor_uses_the_protocol_names() {
    assert_eq!(
        describe_session(&credentials("k", "s", "t")),
        vec![pair("sessionId", "k"), pair("sessionKey", "s"), pair("sessionToken", "t")]
    );
}

#[test]
fn request_goes_to_the_federation_endpoint_of_the_region() {
    let request = signin_request(&credentials("AKIA", "secret", "token"), "us-east-1").unwrap();
    assert_eq!(request.url, "https://us-east-1.signin.aws.amazon.com/federation");
    assert_eq!(request.query.len(), 2);
    assert_eq!(request.query[0], pair("Action", "getSigninToken"));
    assert_eq!(request.query[1].0, "Session");
    assert_eq!(
        request.query[1].1,
        "{\n  \"sessionId\": \"AKIA\",\n  \"sessionKey\": \"secret\",\n  \"sessionToken\": \"token\"\n}"
    );
}

#[test]
fn session_descriptor_reads_back_as_json() {
    let request = signin_request(&credentials("a\"b", "c\\d", "e\nf\u{e9}"), "eu-west-1").unwrap();
    let session: serde_json::Value = serde_json::from_str(&request.query[1].1).unwrap();
    let object = session.as_object().unwrap();
    assert_eq!(object.len(), 3);
    assert_eq!(object["sessionId"], serde_json::Value::String(String::from("a\"b")));
    assert_eq!(object["sessionKey"], serde_json::Value::String(String::from("c\\d")));
    assert_eq!(object["sessionToken"], serde_json::Value::String(String::from("e\nf\u{e9}")));
}

#[test]
fn request_is_deterministic() {
    let credentials = credentials("k", "s", "t");
    assert_eq!(signin_request(&credentials, "us-east-1"), signin_request(&credentials, "us-east-1"));
}

#[test]
fn request_with_a_given_session() {
    assert_eq!(
        request_with_session(Ok(String::from("{}")), "eu-west-1"),
        Ok(SigninRequest {
            url: String::from("https://eu-west-1.signin.aws.amazon.com/federation"),
            query: vec![pair("Action", "getSigninToken"), pair("Session", "{}")],
        })
    );
    assert_eq!(
        request_with_session(Err(String::from("no session")), "eu-west-1"),
        Err(Error::ExchangeFailed { cause: String::from("no session") })
    );
}

#[test]
fn success_is_any_2xx_status() {
    assert!(!status_is_success(0));
    assert!(!status_is_success(199));
    assert!(status_is_success(200));
    assert!(status_is_success(204));
    assert!(status_is_success(299));
    assert!(!status_is_success(300));
    assert!(!status_is_success(403));
    assert!(!status_is_success(500));
    assert!(!status_is_success(u16::MAX));
}

#[test]
fn forbidden_answer_fails_the_exchange() {
    assert_eq!(signin_token_from_response(403, b"{\"SigninToken\":\"abc\"}"), Err(refused()));
    assert_eq!(signin_token_from_response(403, b""), Err(refused()));
}

#[test]
fn any_status_that_is_no_success_fails_the_exchange() {
    for status in [100, 199, 300, 301, 400, 404, 500, 503] {
        assert_eq!(signin_token_from_response(status, b"{\"SigninToken\":\"abc\"}"), Err(refused()));
    }
}

#[test]
fn successful_answer_yields_its_token() {
    assert_eq!(
        signin_token_from_response(200, b"{\"SigninToken\":\"abc\"}"),
        Ok(String::from("abc"))
    );
}

#[test]
fn token_is_read_under_either_name() {
    assert_eq!(
        signin_token_from_response(200, b"{\"signin_token\":\"abc\"}"),
        Ok(String::from("abc"))
    );
    assert_eq!(
        signin_token_from_response(201, b" { \"other\" : 1, \"SigninToken\" : \"a\\\"b\" } "),
        Ok(String::from("a\"b"))
    );
}

#[test]
fn empty_token_is_a_token() {
    assert_eq!(signin_token_from_response(200, b"{\"SigninToken\":\"\"}"), Ok(String::new()));
}

#[test]
fn body_that_is_no_json_is_malformed() {
    for body in [&b""[..], &b"not json"[..], &b"{\"SigninToken\":"[..], &b"{} trailing"[..], &b"\xff"[..]] {
        match signin_token_from_response(200, body) {
            Err(Error::MalformedResponse { cause }) => assert!(!cause.is_empty()),
            other => panic!("{:?}", other),
        }
    }
}

#[test]
fn body_that_is_no_object_is_malformed() {
    for body in [&b"\"abc\""[..], &b"[\"abc\"]"[..], &b"12"[..], &b"null"[..], &b"true"[..]] {
        assert_eq!(
            signin_token_from_response(200, body),
            Err(malformed("the answer is not a JSON object"))
        );
    }
}

#[test]
fn object_without_the_token_is_malformed() {
    assert_eq!(
        signin_token_from_response(200, b"{}"),
        Err(malformed("the answer holds no sign-in token"))
    );
    assert_eq!(
        signin_token_from_response(200, b"{\"signinToken\":\"abc\",\"token\":\"abc\"}"),
        Err(malformed("the answer holds no sign-in token"))
    );
}

#[test]
fn object_with_the_token_under_both_names_is_malformed() {
    assert_eq!(
        signin_token_from_response(200, b"{\"SigninToken\":\"a\",\"signin_token\":\"b\"}"),
        Err(malformed("the answer holds more than one sign-in token"))
    );
}

#[test]
fn token_that_is_no_string_is_malformed() {
    for body in [
        &b"{\"SigninToken\":1}"[..],
        &b"{\"SigninToken\":null}"[..],
        &b"{\"SigninToken\":[\"abc\"]}"[..],
        &b"{\"signin_token\":{\"SigninToken\":\"abc\"}}"[..],
    ] {
        assert_eq!(
            signin_token_from_response(200, body),
            Err(malformed("the sign-in token is not a string"))
        );
    }
}

#[test]
fn token_among_given_members() {
    assert_eq!(signin_token_among(&vec![]), Err(malformed("the answer holds no sign-in token")));
    assert_eq!(
        signin_token_among(&vec![other_member("a"), text_member("SigninToken", "abc")]),
        Ok(String::from("abc"))
    );
    assert_eq!(
        signin_token_among(&vec![text_member("signin_token", "abc"), text_member("b", "x")]),
        Ok(String::from("abc"))
    );
    assert_eq!(
        signin_token_among(&vec![text_member("b", "x"), text_member("c", "y")]),
        Err(malformed("the answer holds no sign-in token"))
    );
    assert_eq!(
        signin_token_among(&vec![other_member("SigninToken")]),
        Err(malformed("the sign-in token is not a string"))
    );
    assert_eq!(
        signin_token_among(&vec![
            text_member("SigninToken", "a"),
            other_member("x"),
            text_member("SigninToken", "b"),
        ]),
        Err(malformed("the answer holds more than one sign-in token"))
    );
    assert_eq!(
        signin_token_among(&vec![other_member("signin_token"), text_member("SigninToken", "b")]),
        Err(malformed("the answer holds more than one sign-in token"))
    );
}

#[test]
fn token_in_a_given_document() {
    assert_eq!(
        signin_token_in(Ok(Document::Object(vec![text_member("SigninToken", "abc")]))),
        Ok(String::from("abc"))
    );
    assert_eq!(
        signin_token_in(Ok(Document::Other)),
        Err(malformed("the answer is not a JSON object"))
    );
    assert_eq!(signin_token_in(Err(String::from("EOF"))), Err(malformed("EOF")));
}
