//! What travels on the wire: JSON string literals, the `content-length`
//! header, the response body as read into a fixed buffer, and the text form
//! of a hardware address.
use vstd::prelude::*;
use vstd::utf8::{decode_utf8, valid_utf8};

verus! {

/// Size of the buffer that a response body is read into.
pub const RESPONSE_BUFFER_LEN: usize = 4086;

/// Media type sent with every request.
pub const CONTENT_TYPE_JSON: &'static str = "application/json";

/// Why a request or a step of the agent did not succeed.
#[derive(Clone, Copy, Debug, PartialEq, Eq, Structural)]
pub enum ErrorKind {
    /// The link or the HTTP connection could not be opened.
    ConnectFailed,
    /// Writing the request or reading the response failed.
    TransportFailed,
    /// The response body is not UTF-8 text.
    DecodeFailed,
    /// The response text is not the expected JSON document.
    ParseFailed,
    /// The response body filled the whole read buffer and may be cut short.
    ResponseTooLarge,
    /// A peripheral could not be acquired or driven.
    HardwareFault,
}

/// What serde_json writes for a string value: the quoted, escaped literal.
pub uninterp spec fn json_quoted(s: Seq<char>) -> Seq<char>;

/// A string that serde_json writes without any escape.
pub open spec fn is_plain_json_text(s: Seq<char>) -> bool {
    forall|i: int| 0 <= i < s.len() ==> #[trigger] s[i] != '"' && s[i] != '\\' && s[i] >= ' '
}

/// Relies on serde_json::to_string for `str`: the string as a JSON literal.
/// Writing into a `Vec` cannot fail, and a string with no quote, backslash or
/// control character is written between two quotes unchanged.
#[verifier::external_body]
pub(crate) fn json_string(s: &str) -> (r: String)
    ensures
        r@ == json_quoted(s@),
        is_plain_json_text(s@) ==> r@ == seq!['"'] + s@ + seq!['"'],
{
    serde_json::to_string(s).unwrap()
}

/// The decimal digit for `d`.
pub open spec fn digit_char(d: nat) -> char {
    seq!['0', '1', '2', '3', '4', '5', '6', '7', '8', '9'][d as int]
}

/// The decimal text of `n`, without leading zeros.
pub open spec fn decimal_of(n: nat) -> Seq<char>
    decreases n,
{
    if n < 10 {
        seq![digit_char(n)]
    } else {
        decimal_of(n / 10).push(digit_char(n % 10))
    }
}

/// Relies on `usize`'s `Display` (through `to_string`): its decimal text.
#[verifier::external_body]
fn decimal_text(n: usize) -> (r: String)
    ensures
        r@ == decimal_of(n as nat),
{
    n.to_string()
}

/// The value of the `content-length` header for a body of `payload_len` bytes.
pub fn content_length(payload_len: usize) -> (r: String)
    ensures
        r@ == decimal_of(payload_len as nat),
{
    decimal_text(payload_len)
}

/// Relies on std::str::from_utf8: it accepts exactly the valid UTF-8
/// sequences, and decodes them.
#[verifier::external_body]
fn utf8_text(b: &[u8]) -> (r: Option<String>)
    ensures
        r is Some <==> valid_utf8(b@),
        r matches Some(t) ==> t@ == decode_utf8(b@),
{
    std::str::from_utf8(b).ok().map(|t| t.to_owned())
}

/// The text of a response body, given the bytes that were read into a buffer
/// of `RESPONSE_BUFFER_LEN` bytes. A body that fills the buffer may have been
/// cut short and is refused rather than handed on as a partial document.
pub fn response_text(received: &[u8]) -> (r: Result<String, ErrorKind>)
    ensures
        received@.len() >= RESPONSE_BUFFER_LEN ==> r == Err::<String, ErrorKind>(
            ErrorKind::ResponseTooLarge,
        ),
        received@.len() < RESPONSE_BUFFER_LEN && !valid_utf8(received@) ==> r == Err::<
            String,
            ErrorKind,
        >(ErrorKind::DecodeFailed),
        received@.len() < RESPONSE_BUFFER_LEN && valid_utf8(received@) ==> (r matches Ok(t)
            && t@ == decode_utf8(received@)),
{
    if received.len() >= RESPONSE_BUFFER_LEN {
        return Err(ErrorKind::ResponseTooLarge);
    }
    match utf8_text(received) {
        Some(t) => Ok(t),
        None => Err(ErrorKind::DecodeFailed),
    }
}

/// The upper-case hexadecimal digit for `d`.
pub open spec fn hex_digit(d: u8) -> char {
    seq!['0', '1', '2', '3', '4', '5', '6', '7', '8', '9', 'A', 'B', 'C', 'D', 'E', 'F'][d as int]
}

/// Two upper-case hexadecimal digits for one byte.
pub open spec fn octet_text(b: u8) -> Seq<char> {
    seq![hex_digit(b / 16), hex_digit(b % 16)]
}

/// A six-byte hardware address as colon-separated pairs of upper-case
/// hexadecimal digits, such as `AB:0D:EF:12:34:56`.
pub open spec fn mac_text(o: Seq<u8>) -> Seq<char> {
    octet_text(o[0]) + seq![':'] + octet_text(o[1]) + seq![':'] + octet_text(o[2]) + seq![':']
        + octet_text(o[3]) + seq![':'] + octet_text(o[4]) + seq![':'] + octet_text(o[5])
}

/// Relies on macaddr's `Display` for `MacAddr6`, whose plain form writes each
/// byte as `{:02X}`, separated by colons.
#[verifier::external_body]
fn mac_display(o: [u8; 6]) -> (r: String)
    ensures
        r@ == mac_text(o@),
{
    macaddr::MacAddr6::new(o[0], o[1], o[2], o[3], o[4], o[5]).to_string()
}

/// The device identity: the station interface's hardware address in its
/// colon-separated text form.
pub fn get_mac_address(octets: [u8; 6]) -> (r: String)
    ensures
        r@ == mac_text(octets@),
        r@.len() == 17,
{
    mac_display(octets)
}

} // verus!
