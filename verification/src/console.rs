//! The console login URL: the address that signs a browser in with a
//! sign-in token and sends it on to the console of a region.

use vstd::prelude::*;
use vstd::string::StringExecFns;

use crate::error::outcome;
use crate::error::Error;
use crate::error::ErrorView;
use crate::text::pairs_view;
use crate::text::text_view;

verus! {

/// The address of the sign-in service that takes the login.
pub const SIGNIN_ENDPOINT: &'static str = "https://signin.aws.amazon.com/federation";

/// The name by which this application presents itself to the sign-in service.
pub const ISSUER: &'static str = "wojteks-app";

/// The longest address that is handed to the URL parser.
pub const MAX_ADDRESS_LEN: usize = 2048;

/// The console home of a region, where the sign-in service sends the browser
/// once it is signed in.
pub open spec fn destination_url(region: Seq<char>) -> Seq<char> {
    "https://"@ + region + ".console.aws.amazon.com/console/home?region="@ + region
}

/// The query parameters of the login, in the order in which they are written.
pub open spec fn login_parameters(token: Seq<char>, region: Seq<char>) -> Seq<
    (Seq<char>, Seq<char>),
> {
    seq![
        ("Action"@, "login"@),
        ("Issuer"@, ISSUER@),
        ("Destination"@, destination_url(region)),
        ("SigninToken"@, token),
    ]
}

/// The address that results from parsing `input` as an absolute URL and
/// appending the parameters to its query, each name and value
/// percent-encoded as a form field; or the parser's message where `input` is
/// no absolute URL.
pub uninterp spec fn url_with_params(
    input: Seq<char>,
    params: Seq<(Seq<char>, Seq<char>)>,
) -> Result<Seq<char>, Seq<char>>;

/// The console URL, given what building the address came to: a failure to
/// build it is a URL build error.
pub open spec fn console_url_from(built: Result<Seq<char>, Seq<char>>) -> Result<
    Seq<char>,
    ErrorView,
> {
    match built {
        Ok(url) => Ok(url),
        Err(cause) => Err(ErrorView::UrlBuildError { cause }),
    }
}

/// The console login URL for a sign-in token and a region.
pub open spec fn console_url(token: Seq<char>, region: Seq<char>) -> Result<Seq<char>, ErrorView> {
    console_url_from(url_with_params(SIGNIN_ENDPOINT@, login_parameters(token, region)))
}

/// `reqwest::Url::parse_with_params`, with the URL it returns turned into its
/// text and the error into its message. The contract only names the outcome,
/// [`url_with_params`]: the same input and parameters give the same address
/// or the same message; nothing is claimed of how the address is parsed or
/// the parameters are encoded.
///
/// The function panics where the address outgrows 4 GB, in two places: for
/// an address that is this long before the parameters are added, and for one
/// with a fragment that becomes this long with them. An input of bounded
/// length and without a `#` meets neither.
#[verifier::external_body]
pub(crate) fn parse_with_params(input: &str, params: &Vec<(String, String)>) -> (built: Result<
    String,
    String,
>)
    requires
        input@.len() <= MAX_ADDRESS_LEN,
        forall|i: int| 0 <= i < input@.len() ==> input@[i] != '#',
    ensures
        text_view(built) == url_with_params(input@, pairs_view(params@)),
{
    match reqwest::Url::parse_with_params(input, params) {
        Ok(url) => Ok(url.into()),
        Err(error) => Err(error.to_string()),
    }
}

/// Writes the address of a region's console home.
pub fn destination(region: &str) -> (url: String)
    ensures
        url@ == destination_url(region@),
{
    let mut url = String::from_str("https://");
    url.append(region);
    url.append(".console.aws.amazon.com/console/home?region=");
    url.append(region);
    url
}

/// Lists the query parameters of the login for a token and a region.
pub fn login_query(signin_token: &str, region: &str) -> (params: Vec<(String, String)>)
    ensures
        pairs_view(params@) == login_parameters(signin_token@, region@),
{
    let mut params: Vec<(String, String)> = Vec::new();
    params.push((String::from_str("Action"), String::from_str("login")));
    params.push((String::from_str("Issuer"), String::from_str(ISSUER)));
    params.push((String::from_str("Destination"), destination(region)));
    params.push((String::from_str("SigninToken"), String::from_str(signin_token)));
    assert(pairs_view(params@) =~= login_parameters(signin_token@, region@));
    params
}

/// Turns what building the address came to into the console URL or a URL
/// build error.
pub fn console_url_from_built(built: Result<String, String>) -> (result: Result<String, Error>)
    ensures
        outcome(result) == console_url_from(text_view(built)),
{
    match built {
        Ok(url) => Ok(url),
        Err(cause) => Err(Error::UrlBuildError { cause }),
    }
}

/// Builds the console login URL: the sign-in service's address with the
/// action, the issuer, the region's console home as destination and the
/// sign-in token as its query.
pub fn get_console_url(signin_token: &str, region: &str) -> (result: Result<String, Error>)
    ensures
        outcome(result) == console_url(signin_token@, region@),
{
    let params = login_query(signin_token, region);
    proof {
        reveal_strlit("https://signin.aws.amazon.com/federation");
    }
    console_url_from_built(parse_with_params(SIGNIN_ENDPOINT, &params))
}

/// The console URL depends on the token and the region alone: whatever two
/// builds for the same token and region return, they return the same URL or
/// the same error.
pub proof fn console_url_is_deterministic(
    token: Seq<char>,
    region: Seq<char>,
    first: Result<Seq<char>, ErrorView>,
    second: Result<Seq<char>, ErrorView>,
)
    requires
        first == console_url(token, region),
        second == console_url(token, region),
    ensures
        first == second,
{
}

} // verus!
