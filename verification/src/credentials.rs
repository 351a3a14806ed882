//! The credentials of a profile, as the environment exports them.

use vstd::prelude::*;

use crate::error::outcome;
use crate::error::Error;
use crate::error::ErrorView;
use crate::text::text_view;

verus! {

/// The variable that names the exported profile.
pub const PROFILE_VARIABLE: &'static str = "AWS_PROFILE";

/// The variable that holds the access key id.
pub const ACCESS_KEY_ID_VARIABLE: &'static str = "AWS_ACCESS_KEY_ID";

/// The variable that holds the secret access key.
pub const SECRET_ACCESS_KEY_VARIABLE: &'static str = "AWS_SECRET_ACCESS_KEY";

/// The variable that holds the session token.
pub const SESSION_TOKEN_VARIABLE: &'static str = "AWS_SESSION_TOKEN";

/// Temporary credentials of one profile. They are taken from the environment
/// as they stand and handed to the token exchange once.
#[derive(Debug, PartialEq, Eq)]
pub struct Credentials {
    pub access_key_id: String,
    pub secret_access_key: String,
    pub session_token: String,
}

/// [`Credentials`] with their texts as sequences of characters.
pub struct CredentialsView {
    pub access_key_id: Seq<char>,
    pub secret_access_key: Seq<char>,
    pub session_token: Seq<char>,
}

impl View for Credentials {
    type V = CredentialsView;

    open spec fn view(&self) -> CredentialsView {
        CredentialsView {
            access_key_id: self.access_key_id@,
            secret_access_key: self.secret_access_key@,
            session_token: self.session_token@,
        }
    }
}

impl CredentialsView {
    /// Credentials are complete when none of the three values is empty.
    pub open spec fn is_complete(self) -> bool {
        &&& self.access_key_id.len() > 0
        &&& self.secret_access_key.len() > 0
        &&& self.session_token.len() > 0
    }
}

/// What an environment answered when asked for the four variables: each
/// answer is the variable's value, or what the environment reported in place
/// of one.
pub struct Answers {
    pub profile: Result<Seq<char>, Seq<char>>,
    pub access_key_id: Result<Seq<char>, Seq<char>>,
    pub secret_access_key: Result<Seq<char>, Seq<char>>,
    pub session_token: Result<Seq<char>, Seq<char>>,
}

/// The value of a variable that must be set: an environment that has none
/// makes the variable a missing one.
pub open spec fn required(name: Seq<char>, answer: Result<Seq<char>, Seq<char>>) -> Result<
    Seq<char>,
    ErrorView,
> {
    match answer {
        Ok(value) => Ok(value),
        Err(cause) => Err(ErrorView::MissingVariable { name, cause }),
    }
}

/// The exported profile is accepted when it is the requested one.
pub open spec fn confirmed(requested: Seq<char>, exported: Seq<char>) -> Result<(), ErrorView> {
    if exported == requested {
        Ok(())
    } else {
        Err(ErrorView::ProfileMismatch)
    }
}

/// The credentials of the requested profile, given the environment's answers.
/// The exported profile is read first and must be the requested one; the
/// three values follow in order, and the first variable that is missing
/// decides the error.
pub open spec fn extraction(requested: Seq<char>, answers: Answers) -> Result<
    CredentialsView,
    ErrorView,
> {
    match required(PROFILE_VARIABLE@, answers.profile) {
        Err(error) => Err(error),
        Ok(exported) => match confirmed(requested, exported) {
            Err(error) => Err(error),
            Ok(()) => match required(ACCESS_KEY_ID_VARIABLE@, answers.access_key_id) {
                Err(error) => Err(error),
                Ok(access_key_id) => match required(
                    SECRET_ACCESS_KEY_VARIABLE@,
                    answers.secret_access_key,
                ) {
                    Err(error) => Err(error),
                    Ok(secret_access_key) => match required(
                        SESSION_TOKEN_VARIABLE@,
                        answers.session_token,
                    ) {
                        Err(error) => Err(error),
                        Ok(session_token) => Ok(
                            CredentialsView { access_key_id, secret_access_key, session_token },
                        ),
                    },
                },
            },
        },
    }
}

/// Whether the environment `env`, asked for `name`, may give `answer`.
pub open spec fn may_answer<F: Fn(&str) -> Result<String, String>>(
    env: F,
    name: &str,
    answer: Result<Seq<char>, Seq<char>>,
) -> bool {
    exists|given: Result<String, String>| #[trigger]
        call_ensures(env, (name,), given) && text_view(given) == answer
}

/// Whether the answers are ones that `env` may give. An answer that
/// extraction does not get to read, because an earlier one already decided
/// the outcome, is left open.
pub open spec fn given_by<F: Fn(&str) -> Result<String, String>>(
    env: F,
    requested: Seq<char>,
    answers: Answers,
) -> bool {
    &&& may_answer(env, PROFILE_VARIABLE, answers.profile)
    &&& answers.profile == Ok::<Seq<char>, Seq<char>>(requested) ==> {
        &&& may_answer(env, ACCESS_KEY_ID_VARIABLE, answers.access_key_id)
        &&& answers.access_key_id is Ok ==> {
            &&& may_answer(env, SECRET_ACCESS_KEY_VARIABLE, answers.secret_access_key)
            &&& answers.secret_access_key is Ok ==> may_answer(
                env,
                SESSION_TOKEN_VARIABLE,
                answers.session_token,
            )
        }
    }
}

/// Whether `result` is what extraction comes to in the environment `env`:
/// the extraction from answers that `env` may give.
pub open spec fn extracted<F: Fn(&str) -> Result<String, String>>(
    env: F,
    requested: Seq<char>,
    result: Result<CredentialsView, ErrorView>,
) -> bool {
    exists|answers: Answers| #[trigger]
        given_by(env, requested, answers) && result == extraction(requested, answers)
}

/// Whether `env`, asked for `name`, gives `answer` and nothing else.
pub open spec fn answers_only<F: Fn(&str) -> Result<String, String>>(
    env: F,
    name: &str,
    answer: Result<Seq<char>, Seq<char>>,
) -> bool {
    forall|given: Result<String, String>| #[trigger]
        call_ensures(env, (name,), given) ==> text_view(given) == answer
}

/// Whether `env` has no value for `name`.
pub open spec fn is_unset<F: Fn(&str) -> Result<String, String>>(env: F, name: &str) -> bool {
    forall|given: Result<String, String>| #[trigger]
        call_ensures(env, (name,), given) ==> given is Err
}

/// Whether `env` can be asked for each of the four variables.
pub open spec fn answers_all<F: Fn(&str) -> Result<String, String>>(env: F) -> bool {
    &&& call_requires(env, (PROFILE_VARIABLE,))
    &&& call_requires(env, (ACCESS_KEY_ID_VARIABLE,))
    &&& call_requires(env, (SECRET_ACCESS_KEY_VARIABLE,))
    &&& call_requires(env, (SESSION_TOKEN_VARIABLE,))
}

/// Takes the value of a variable that must be set from the environment's
/// answer.
pub fn require_variable(name: &str, answer: Result<String, String>) -> (result: Result<
    String,
    Error,
>)
    ensures
        outcome(result) == required(name@, text_view(answer)),
{
    match answer {
        Ok(value) => Ok(value),
        Err(cause) => Err(Error::MissingVariable { name: name.to_owned(), cause }),
    }
}

/// Checks that the exported profile is the requested one.
pub fn confirm_profile(requested: &str, exported: &str) -> (result: Result<(), Error>)
    ensures
        outcome(result) == confirmed(requested@, exported@),
{
    if requested.to_owned() == exported.to_owned() {
        Ok(())
    } else {
        Err(Error::ProfileMismatch)
    }
}

/// Extracts the credentials of the requested profile from the environment.
///
/// The environment is asked for `AWS_PROFILE` first. Its value must be the
/// requested profile name, which guards against signing in to a profile other
/// than the one that is exported. `AWS_ACCESS_KEY_ID`,
/// `AWS_SECRET_ACCESS_KEY` and `AWS_SESSION_TOKEN` follow in that order. The
/// first variable for which the environment has no value ends the
/// extraction; the others are then not asked for.
pub fn get_aws_credentials<F: Fn(&str) -> Result<String, String>>(
    profile_name: &str,
    env_getter: F,
) -> (result: Result<Credentials, Error>)
    requires
        answers_all(env_getter),
    ensures
        extracted(env_getter, profile_name@, outcome(result)),
{
    let unread: Ghost<Result<Seq<char>, Seq<char>>> = Ghost(Err(Seq::empty()));
    let profile = env_getter(PROFILE_VARIABLE);
    let ghost mut answers = Answers {
        profile: text_view(profile),
        access_key_id: unread@,
        secret_access_key: unread@,
        session_token: unread@,
    };
    let exported = match require_variable(PROFILE_VARIABLE, profile) {
        Ok(exported) => exported,
        Err(error) => {
            assert(given_by(env_getter, profile_name@, answers));
            return Err(error);
        },
    };
    match confirm_profile(profile_name, exported.as_str()) {
        Ok(()) => {},
        Err(error) => {
            assert(given_by(env_getter, profile_name@, answers));
            return Err(error);
        },
    }
    let access_key_id = env_getter(ACCESS_KEY_ID_VARIABLE);
    proof {
        answers.access_key_id = text_view(access_key_id);
    }
    let access_key_id = match require_variable(ACCESS_KEY_ID_VARIABLE, access_key_id) {
        Ok(access_key_id) => access_key_id,
        Err(error) => {
            assert(given_by(env_getter, profile_name@, answers));
            return Err(error);
        },
    };
    let secret_access_key = env_getter(SECRET_ACCESS_KEY_VARIABLE);
    proof {
        answers.secret_access_key = text_view(secret_access_key);
    }
    let secret_access_key = match require_variable(
        SECRET_ACCESS_KEY_VARIABLE,
        secret_access_key,
    ) {
        Ok(secret_access_key) => secret_access_key,
        Err(error) => {
            assert(given_by(env_getter, profile_name@, answers));
            return Err(error);
        },
    };
    let session_token = env_getter(SESSION_TOKEN_VARIABLE);
    proof {
        answers.session_token = text_view(session_token);
    }
    let session_token = match require_variable(SESSION_TOKEN_VARIABLE, session_token) {
        Ok(session_token) => session_token,
        Err(error) => {
            assert(given_by(env_getter, profile_name@, answers));
            return Err(error);
        },
    };
    assert(given_by(env_getter, profile_name@, answers));
    Ok(Credentials { access_key_id, secret_access_key, session_token })
}

/// In an environment that exports no profile, extraction reports
/// `AWS_PROFILE` as missing, whichever profile is requested.
pub proof fn unset_profile_is_missing<F: Fn(&str) -> Result<String, String>>(
    env: F,
    requested: Seq<char>,
    result: Result<CredentialsView, ErrorView>,
)
    requires
        extracted(env, requested, result),
        is_unset(env, PROFILE_VARIABLE),
    ensures
        result matches Err(ErrorView::MissingVariable { name, .. }) && name == PROFILE_VARIABLE@,
{
}

/// In an environment that exports another profile than the requested one,
/// extraction reports a profile mismatch.
pub proof fn other_profile_is_mismatch<F: Fn(&str) -> Result<String, String>>(
    env: F,
    requested: Seq<char>,
    exported: Seq<char>,
    result: Result<CredentialsView, ErrorView>,
)
    requires
        extracted(env, requested, result),
        answers_only(env, PROFILE_VARIABLE, Ok(exported)),
        requested != exported,
    ensures
        result == Err::<CredentialsView, ErrorView>(ErrorView::ProfileMismatch),
{
}

/// In an environment that exports the requested profile and holds all three
/// values, extraction succeeds and yields exactly these values; where none of
/// them is empty, the credentials are complete.
pub proof fn exported_profile_yields_credentials<F: Fn(&str) -> Result<String, String>>(
    env: F,
    requested: Seq<char>,
    values: CredentialsView,
    result: Result<CredentialsView, ErrorView>,
)
    requires
        extracted(env, requested, result),
        answers_only(env, PROFILE_VARIABLE, Ok(requested)),
        answers_only(env, ACCESS_KEY_ID_VARIABLE, Ok(values.access_key_id)),
        answers_only(env, SECRET_ACCESS_KEY_VARIABLE, Ok(values.secret_access_key)),
        answers_only(env, SESSION_TOKEN_VARIABLE, Ok(values.session_token)),
    ensures
        result == Ok::<CredentialsView, ErrorView>(values),
        values.access_key_id.len() > 0 && values.secret_access_key.len() > 0
            && values.session_token.len() > 0 ==> result->Ok_0.is_complete(),
{
}

} // verus!
