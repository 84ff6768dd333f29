//! Addresses, as the `url` crate reads and writes them.
//!
//! The library holds every address as text. Whatever needs the structure of
//! an address goes through `parse_address`, `query_pairs` or
//! `with_parameter`, each of which hands the text to the `url` crate and
//! takes text back. Their contracts are taken on trust: they say that the
//! crate's answer depends on the text alone and give that answer a name.
//!
//! The crate records positions in a serialization in 32 bits. Parsing,
//! reading a query and appending to one stop the program where a position
//! does not fit, so each is only done behind a test of the length.

use url::Url;
use vstd::prelude::*;

verus! {

/// The longest serialization, in bytes, whose every position the `url` crate
/// can record: it counts positions in 32 bits.
pub const MAX_URL_BYTES: usize = 0xFFFF_FFFF;

/// The longest text, in bytes, that is handed to the parser. While it reads
/// a text, the `url` crate moves one position two bytes on without asking
/// whether it still fits; the position is no further in than the text is
/// long, so a text two bytes short of [`MAX_URL_BYTES`] keeps it in range.
pub const MAX_INPUT_BYTES: usize = 0xFFFF_FFFD;

/// What `url::Url::parse` makes of `input`: the serialization of the address
/// it read, or the message of the error it gave.
pub uninterp spec fn parsed_url(input: Seq<char>) -> Result<Seq<char>, Seq<char>>;

/// The pairs of name and value that `url::Url::query_pairs` yields for the
/// address that `address` parses to, decoded and in the order of the query.
pub uninterp spec fn query_pairs_of(address: Seq<char>) -> Seq<(Seq<char>, Seq<char>)>;

/// What `url::Url::parse_with_params` makes of `base` and the one pair
/// `(name, value)`: the serialization of the address with the pair appended
/// to its query, or the message of the error it gave.
pub uninterp spec fn url_with_parameter(
    base: Seq<char>,
    name: Seq<char>,
    value: Seq<char>,
) -> Result<Seq<char>, Seq<char>>;

/// The length of `text` in bytes, in UTF-8.
pub open spec fn byte_len(text: Seq<char>) -> nat {
    vstd::utf8::encode_utf8(text).len()
}

/// A serialization of `serialization_bytes` bytes has room for one more
/// pair whose name and value have `name_bytes` and `value_bytes` bytes:
/// with the pair appended it is still no longer than [`MAX_URL_BYTES`],
/// however the pair is encoded. A byte of a name or a value takes three
/// bytes at most in a query, and the pair takes two more, for the mark
/// before it and the one between its halves.
pub open spec fn has_room(serialization_bytes: nat, name_bytes: nat, value_bytes: nat) -> bool {
    serialization_bytes + 3 * name_bytes + 3 * value_bytes + 2 <= MAX_URL_BYTES
}

/// `input` can be handed to the parser: it is no longer than
/// [`MAX_INPUT_BYTES`].
pub open spec fn parseable(input: Seq<char>) -> bool {
    byte_len(input) <= MAX_INPUT_BYTES
}

/// What is made of `input`: what the `url` crate makes of it, or `None`
/// where it is too long to hand to the parser.
pub open spec fn address_read(input: Seq<char>) -> Option<Result<Seq<char>, Seq<char>>> {
    if parseable(input) {
        Some(parsed_url(input))
    } else {
        None
    }
}

/// The query of `address` can be read: the address can be handed to the
/// parser and, where the `url` crate accepts it, its serialization is no
/// longer than [`MAX_URL_BYTES`].
pub open spec fn readable(address: Seq<char>) -> bool {
    &&& parseable(address)
    &&& parsed_url(address) matches Ok(text) ==> byte_len(text) <= MAX_URL_BYTES
}

/// The pair `(name, value)` can be appended to `base`: `base` can be
/// handed to the parser and, where the `url` crate accepts it, its
/// serialization has room for the pair.
pub open spec fn appendable(base: Seq<char>, name: Seq<char>, value: Seq<char>) -> bool {
    &&& parseable(base)
    &&& parsed_url(base) matches Ok(text) ==> has_room(
        byte_len(text),
        byte_len(name),
        byte_len(value),
    )
}

/// The pairs read from the query of `address`: those that the `url` crate
/// yields, or `None` where it does not accept the address, or where the
/// address or its serialization is too long to read the query of.
pub open spec fn pairs_read(address: Seq<char>) -> Option<Seq<(Seq<char>, Seq<char>)>> {
    if parsed_url(address) is Ok && readable(address) {
        Some(query_pairs_of(address))
    } else {
        None
    }
}

/// Borrowed pairs by their characters.
pub open spec fn pairs_text(pairs: Option<&Vec<(String, String)>>) -> Option<
    Seq<(Seq<char>, Seq<char>)>,
> {
    match pairs {
        Some(list) => Some(list.deep_view()),
        None => None,
    }
}

/// Owned pairs by their characters.
pub open spec fn pairs_view(pairs: Option<Vec<(String, String)>>) -> Option<
    Seq<(Seq<char>, Seq<char>)>,
> {
    match pairs {
        Some(list) => Some(list.deep_view()),
        None => None,
    }
}

/// An answer of the parser that may be missing, each side by its characters.
pub open spec fn answer_view(answer: Option<Result<String, String>>) -> Option<
    Result<Seq<char>, Seq<char>>,
> {
    match answer {
        Some(parsed) => Some(text_of(parsed)),
        None => None,
    }
}

/// Whether a text of `bytes` bytes can be handed to the parser.
pub fn can_parse(bytes: usize) -> (can: bool)
    ensures
        can == (bytes <= MAX_INPUT_BYTES),
{
    bytes <= MAX_INPUT_BYTES
}

/// Whether `input` can be handed to the parser.
pub fn is_parseable(input: &str) -> (can: bool)
    ensures
        can == parseable(input@),
{
    can_parse(input.as_bytes().len())
}

/// Parses `input` with the `url` crate, where it can be handed to the
/// parser; `None` where it is too long.
pub fn read_address(input: &str) -> (answer: Option<Result<String, String>>)
    ensures
        answer_view(answer) == address_read(input@),
{
    if is_parseable(input) {
        Some(parse_address(input))
    } else {
        None
    }
}

/// Whether a serialization of `serialization_bytes` bytes has room for one
/// more pair whose name and value have `name_bytes` and `value_bytes` bytes.
pub fn room_for(serialization_bytes: usize, name_bytes: usize, value_bytes: usize) -> (room: bool)
    ensures
        room == has_room(serialization_bytes as nat, name_bytes as nat, value_bytes as nat),
{
    let pair_bytes: u128 = 3 * (name_bytes as u128) + 3 * (value_bytes as u128) + 2;
    serialization_bytes as u128 + pair_bytes <= MAX_URL_BYTES as u128
}

/// Whether the pair `(name, value)` can be appended to `base`.
pub fn is_appendable(base: &str, name: &str, value: &str) -> (can: bool)
    ensures
        can == appendable(base@, name@, value@),
{
    match read_address(base) {
        Some(Ok(text)) => room_for(
            text.as_str().as_bytes().len(),
            name.as_bytes().len(),
            value.as_bytes().len(),
        ),
        Some(Err(_)) => true,
        None => false,
    }
}

/// Reads the pairs of the query of `address`.
///
/// An address that is too long to parse, or whose serialization is too
/// long to read the query of, is treated like one that does not parse.
pub fn read_pairs(address: &str) -> (pairs: Option<Vec<(String, String)>>)
    ensures
        pairs_view(pairs) == pairs_read(address@),
{
    match read_address(address) {
        Some(Ok(text)) => {
            if text.as_str().as_bytes().len() <= MAX_URL_BYTES {
                query_pairs(address)
            } else {
                None
            }
        },
        _ => None,
    }
}

/// An answer of the `url` crate, each side by its characters.
pub open spec fn text_of(answer: Result<String, String>) -> Result<Seq<char>, Seq<char>> {
    match answer {
        Ok(text) => Ok(text@),
        Err(why) => Err(why@),
    }
}

/// Calls `url::Url::parse` on `input`.
///
/// Trusted: the result is `parsed_url` of the input, an address as its
/// serialization and an error as the text that its `Display` writes. For a
/// scheme without authority whose path begins with two slashes, the crate
/// adds two to the position of the path, which it counts in 32 bits,
/// without a test; the input is bounded so that the sum fits.
#[verifier::external_body]
pub(crate) fn parse_address(input: &str) -> (parsed: Result<String, String>)
    requires
        parseable(input@),
    ensures
        text_of(parsed) == parsed_url(input@),
{
    match Url::parse(input) {
        Ok(url) => Ok(String::from(url)),
        Err(error) => Err(error.to_string()),
    }
}

/// Calls `url::Url::query_pairs` on the address that `address` parses to.
///
/// Trusted: there is a result exactly when `url::Url::parse` accepts the
/// text, and it is then `query_pairs_of` of the text, each pair as two owned
/// strings. The crate finds the query one position behind its question
/// mark; that position is counted in 32 bits, so the serialization is
/// bounded, and so is the text, which is parsed first.
#[verifier::external_body]
pub(crate) fn query_pairs(address: &str) -> (pairs: Option<Vec<(String, String)>>)
    requires
        readable(address@),
    ensures
        pairs is Some <==> parsed_url(address@) is Ok,
        pairs matches Some(list) ==> list.deep_view() == query_pairs_of(address@),
{
    match Url::parse(address) {
        Ok(url) => Some(url.query_pairs().into_owned().collect()),
        Err(_) => None,
    }
}

/// Calls `url::Url::parse_with_params` on `base` and the one pair
/// `(name, value)`.
///
/// Trusted: the result is `url_with_parameter` of the three texts, and it is
/// an error exactly when `url::Url::parse` gives one for `base`, the same
/// one: the pair is appended to whatever address was read. The crate counts
/// positions in 32 bits and stops the program when the serialization with
/// the pair in it outgrows them, so the serialization must have room for
/// the pair, and `base` must be short enough to parse.
#[verifier::external_body]
pub(crate) fn with_parameter(base: &str, name: &str, value: &str) -> (built: Result<
    String,
    String,
>)
    requires
        appendable(base@, name@, value@),
    ensures
        text_of(built) == url_with_parameter(base@, name@, value@),
        built is Ok <==> parsed_url(base@) is Ok,
        built is Err ==> text_of(built) == parsed_url(base@),
{
    match Url::parse_with_params(base, &[(name, value)]) {
        Ok(url) => Ok(String::from(url)),
        Err(error) => Err(error.to_string()),
    }
}

} // verus!
