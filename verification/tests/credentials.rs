use std::collections::HashMap;

use aws_signin::credentials::confirm_profile;
use aws_signin::credentials::get_aws_credentials;
use aws_signin::credentials::require_variable;
use aws_signin::credentials::Credentials;
use aws_signin::error::Error;

fn fake_environment(variables: &[(&str, &str)]) -> impl Fn(&str) -> Result<String, String> {
    let variables: HashMap<String, String> = variables
        .iter()
        .map(|(name, value)| (name.to_string(), value.to_string()))
        .collect();
    move |name: &str| match variables.get(name) {
        Some(value) => Ok(value.clone()),
        None => Err(String::from("environment variable not found")),
    }
}

fn missing(name: &str) -> Error {
    Error::MissingVariable {
        name: String::from(name),
        cause: String::from("environment variable not found"),
    }
}

#[test]
fn missing_aws_profile() {
    let env_getter = Box::new(|key: &str| {
        if key == "AWS_PROFILE" {
            return Err(String::from("test_error"));
        }

        return Ok(String::from("foo"));
    });

    let result = get_aws_credentials("test_profile", env_getter);
    assert_eq!(true, result.is_err());

    let error_message = format!("{}", result.err().unwrap().source().unwrap());
    assert_eq!("test_error", error_message)
}

#[test]
fn unset_profile_is_reported_for_any_requested_profile() {
    for requested in ["", "foo", "test_profile", "a profile with spaces"] {
        let env = fake_environment(&[
            ("AWS_ACCESS_KEY_ID", "k"),
            ("AWS_SECRET_ACCESS_KEY", "s"),
            ("AWS_SESSION_TOKEN", "t"),
        ]);
        assert_eq!(get_aws_credentials(requested, env), Err(missing("AWS_PROFILE")));
    }
}

#[test]
fn other_exported_profile_is_a_mismatch() {
    let env = fake_environment(&[
        ("AWS_PROFILE", "bar"),
        ("AWS_ACCESS_KEY_ID", "k"),
        ("AWS_SECRET_ACCESS_KEY", "s"),
        ("AWS_SESSION_TOKEN", "t"),
    ]);
    assert_eq!(get_aws_credentials("foo", env), Err(Error::ProfileMismatch));
}

#[test]
fn profile_names_are_compared_exactly() {
    let env = fake_environment(&[("AWS_PROFILE", "Foo")]);
    assert_eq!(get_aws_credentials("foo", env), Err(Error::ProfileMismatch));
    let env = fake_environment(&[("AWS_PROFILE", "foo ")]);
    assert_eq!(get_aws_credentials("foo", env), Err(Error::ProfileMismatch));
}

#[test]
fn mismatch_is_found_before_missing_values() {
    let env = fake_environment(&[("AWS_PROFILE", "bar")]);
    assert_eq!(get_aws_credentials("foo", env), Err(Error::ProfileMismatch));
}

#[test]
fn exported_profile_yields_its_credentials() {
    let env = fake_environment(&[
        ("AWS_PROFILE", "foo"),
        ("AWS_ACCESS_KEY_ID", "k"),
        ("AWS_SECRET_ACCESS_KEY", "s"),
        ("AWS_SESSION_TOKEN", "t"),
    ]);
    assert_eq!(
        get_aws_credentials("foo", env),
        Ok(Credentials {
            access_key_id: String::from("k"),
            secret_access_key: String::from("s"),
            session_token: String::from("t"),
        })
    );
}

#[test]
fn values_are_taken_as_they_stand() {
    let env = fake_environment(&[
        ("AWS_PROFILE", "foo"),
        ("AWS_ACCESS_KEY_ID", " AKIA/+= "),
        ("AWS_SECRET_ACCESS_KEY", ""),
        ("AWS_SESSION_TOKEN", "t\u{e9}"),
    ]);
    assert_eq!(
        get_aws_credentials("foo", env),
        Ok(Credentials {
            access_key_id: String::from(" AKIA/+= "),
            secret_access_key: String::from(""),
            session_token: String::from("t\u{e9}"),
        })
    );
}

#[test]
fn first_missing_variable_wins() {
    let env = fake_environment(&[("AWS_PROFILE", "foo")]);
    assert_eq!(get_aws_credentials("foo", env), Err(missing("AWS_ACCESS_KEY_ID")));

    let env = fake_environment(&[("AWS_PROFILE", "foo"), ("AWS_SESSION_TOKEN", "t")]);
    assert_eq!(get_aws_credentials("foo", env), Err(missing("AWS_ACCESS_KEY_ID")));

    let env = fake_environment(&[("AWS_PROFILE", "foo"), ("AWS_ACCESS_KEY_ID", "k")]);
    assert_eq!(get_aws_credentials("foo", env), Err(missing("AWS_SECRET_ACCESS_KEY")));

    let env = fake_environment(&[
        ("AWS_PROFILE", "foo"),
        ("AWS_ACCESS_KEY_ID", "k"),
        ("AWS_SECRET_ACCESS_KEY", "s"),
    ]);
    assert_eq!(get_aws_credentials("foo", env), Err(missing("AWS_SESSION_TOKEN")));
}

#[test]
fn variables_are_asked_for_in_order_and_not_after_a_failure() {
    let asked = std::cell::RefCell::new(Vec::new());
    let env = |name: &str| {
        asked.borrow_mut().push(name.to_string());
        if name == "AWS_SECRET_ACCESS_KEY" {
            Err(String::from("gone"))
        } else {
            Ok(String::from("foo"))
        }
    };
    let result = get_aws_credentials("foo", &env);
    assert_eq!(
        result,
        Err(Error::MissingVariable {
            name: String::from("AWS_SECRET_ACCESS_KEY"),
            cause: String::from("gone"),
        })
    );
    assert_eq!(
        *asked.borrow(),
        vec!["AWS_PROFILE", "AWS_ACCESS_KEY_ID", "AWS_SECRET_ACCESS_KEY"]
    );
}

#[test]
fn extraction_is_repeatable() {
    let variables = [
        ("AWS_PROFILE", "foo"),
        ("AWS_ACCESS_KEY_ID", "k"),
        ("AWS_SECRET_ACCESS_KEY", "s"),
        ("AWS_SESSION_TOKEN", "t"),
    ];
    let env = fake_environment(&variables);
    assert_eq!(get_aws_credentials("foo", &env), get_aws_credentials("foo", &env));
}

#[test]
fn required_variable_keeps_value_or_names_the_variable() {
    assert_eq!(require_variable("X", Ok(String::from("v"))), Ok(String::from("v")));
    assert_eq!(
        require_variable("X", Err(String::from("why"))),
        Err(Error::MissingVariable { name: String::from("X"), cause: String::from("why") })
    );
}

#[test]
fn confirmed_profile_is_the_requested_one() {
    assert_eq!(confirm_profile("foo", "foo"), Ok(()));
    assert_eq!(confirm_profile("", ""), Ok(()));
    assert_eq!(confirm_profile("foo", "bar"), Err(Error::ProfileMismatch));
    assert_eq!(confirm_profile("foo", ""), Err(Error::ProfileMismatch));
}
