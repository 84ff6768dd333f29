//! Handing the token back to the application.
//!
//! Where a window holds one surface only, the token cannot travel back on the
//! call that asked for it alone: the application's own surface is sent to the
//! address it was last at, with the token added to the query.

use crate::address::{
    appendable, is_appendable, parsed_url, text_of, url_with_parameter, with_parameter,
};
use crate::error::{AuthorizationError, ErrorView};
use crate::poll::TOKEN_PARAMETER;
use vstd::prelude::*;
use vstd::string::StringExecFns;

verus! {

/// An answer of the address parser as the caller is to see it: an address
/// stays, a message becomes [`ErrorView::InvalidUrl`].
pub open spec fn checked(answer: Result<Seq<char>, Seq<char>>) -> Result<Seq<char>, ErrorView> {
    match answer {
        Ok(address) => Ok(address),
        Err(why) => Err(ErrorView::InvalidUrl(why)),
    }
}

/// A result of the library, each side by its view.
pub open spec fn result_view(result: Result<String, AuthorizationError>) -> Result<
    Seq<char>,
    ErrorView,
> {
    match result {
        Ok(text) => Ok(text@),
        Err(error) => Err(error@),
    }
}

/// Turns an answer of the address parser into a result of the library.
pub fn check(answer: Result<String, String>) -> (result: Result<String, AuthorizationError>)
    ensures
        result_view(result) == checked(text_of(answer)),
{
    match answer {
        Ok(address) => Ok(address),
        Err(why) => Err(AuthorizationError::InvalidUrl(why)),
    }
}

/// The address that hands `token` back: `return_point` with the token
/// parameter appended to its query, or the reason why `return_point` is no
/// address.
pub open spec fn hand_back_address(return_point: Seq<char>, token: Seq<char>) -> Result<
    Seq<char>,
    ErrorView,
> {
    checked(url_with_parameter(return_point, TOKEN_PARAMETER@, token))
}

/// The script that sends a surface to `address`.
pub open spec fn script_text(address: Seq<char>) -> Seq<char> {
    "window.location.href = '"@ + address + "'"@
}

/// Builds the address that hands `token` back to the application.
///
/// Parameters that `return_point` already has are kept; the token comes
/// after them.
pub fn hand_back_url(return_point: &str, token: &str) -> (result: Result<
    String,
    AuthorizationError,
>)
    requires
        appendable(return_point@, TOKEN_PARAMETER@, token@),
    ensures
        result_view(result) == hand_back_address(return_point@, token@),
        result is Ok <==> parsed_url(return_point@) is Ok,
        result is Err ==> result_view(result) == checked(parsed_url(return_point@)),
{
    check(with_parameter(return_point, TOKEN_PARAMETER, token))
}

/// Builds the address that hands `token` back to the application, where
/// the token can be appended to `return_point`; `None` where the address
/// would be too long to write.
pub fn try_hand_back_url(return_point: &str, token: &str) -> (result: Option<
    Result<String, AuthorizationError>,
>)
    ensures
        result is Some <==> appendable(return_point@, TOKEN_PARAMETER@, token@),
        result matches Some(built) ==> result_view(built) == hand_back_address(
            return_point@,
            token@,
        ),
        result matches Some(built) ==> (built is Ok <==> parsed_url(return_point@) is Ok),
{
    if is_appendable(return_point, TOKEN_PARAMETER, token) {
        Some(hand_back_url(return_point, token))
    } else {
        None
    }
}

/// Builds the script that sends a surface to `address`.
pub fn hand_back_script(address: &str) -> (script: String)
    ensures
        script@ == script_text(address@),
{
    String::from_str("window.location.href = '").concat(address).concat("'")
}

} // verus!
