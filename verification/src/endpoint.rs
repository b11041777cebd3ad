//! The endpoint that a connection is made to: its text, and the transport's
//! builder configured from it.

use crate::error::TempoError;
use tonic::transport::Endpoint;
use vstd::prelude::*;
use vstd::string::StringExecFns;

verus! {

/// Size in bytes of the per-stream and per-connection receive windows, large
/// enough for a single message of about one gigabyte.
pub const MAX_MESSAGE_SIZE: u32 = 1_000_000_000;

/// The character that writes the decimal digit `d`.
pub open spec fn digit_char(d: nat) -> char
    recommends
        d < 10,
{
    seq!['0', '1', '2', '3', '4', '5', '6', '7', '8', '9'][d as int]
}

/// `n` written in decimal, most significant digit first, without leading zeros.
pub open spec fn decimal(n: nat) -> Seq<char>
    decreases n,
{
    if n < 10 {
        seq![digit_char(n)]
    } else {
        decimal(n / 10).push(digit_char(n % 10))
    }
}

/// The scheme and separator that every endpoint text starts with: plaintext HTTP.
pub open spec fn scheme_prefix() -> Seq<char> {
    seq!['h', 't', 't', 'p', ':', '/', '/']
}

/// The endpoint text for a target: `http://<address>:<port>`.
pub open spec fn endpoint_text(address: Seq<char>, port: u16) -> Seq<char> {
    scheme_prefix() + address + seq![':'] + decimal(port as nat)
}

/// Whether `Endpoint::from_shared` accepts `uri` as a well-formed URI.
pub uninterp spec fn uri_accepted(uri: Seq<char>) -> bool;

/// The URI that the transport's parser makes of `text`, written out. The
/// parser does not keep the text: it reads the scheme without regard to case,
/// cuts a fragment off and writes an empty path as a slash, so that different
/// texts can give one URI.
pub uninterp spec fn uri_of_text(text: Seq<char>) -> Seq<char>;

/// The URI that an endpoint holds, written out.
pub uninterp spec fn endpoint_target(endpoint: Endpoint) -> Seq<char>;

/// The per-stream receive window that an endpoint asks for, if it sets one.
pub uninterp spec fn endpoint_stream_window(endpoint: Endpoint) -> Option<u32>;

/// The per-connection receive window that an endpoint asks for, if it sets one.
pub uninterp spec fn endpoint_connection_window(endpoint: Endpoint) -> Option<u32>;

/// `tonic::transport::Endpoint`: the builder of a channel. Opaque here; the
/// three settings that this crate makes are spoken of through
/// `endpoint_target`, `endpoint_stream_window` and `endpoint_connection_window`.
#[verifier::external_type_specification]
#[verifier::external_body]
pub struct ExEndpoint(Endpoint);

/// Calls `Endpoint::from_shared`. Trusted: the call succeeds exactly on the
/// texts that the transport's URI parser accepts, and the endpoint that comes
/// back holds the URI that the parser makes of `uri` and sets neither receive
/// window.
#[verifier::external_body]
fn endpoint_from_shared(uri: String) -> (parsed: Result<Endpoint, tonic::transport::Error>)
    ensures
        parsed is Ok <==> uri_accepted(uri@),
        parsed matches Ok(endpoint) ==> {
            &&& endpoint_target(endpoint) == uri_of_text(uri@)
            &&& endpoint_stream_window(endpoint) is None
            &&& endpoint_connection_window(endpoint) is None
        },
{
    Endpoint::from_shared(uri)
}

/// Calls `Endpoint::initial_stream_window_size`. Trusted: only the per-stream
/// window changes, to `size`.
#[verifier::external_body]
fn with_stream_window(endpoint: Endpoint, size: u32) -> (sized: Endpoint)
    ensures
        endpoint_target(sized) == endpoint_target(endpoint),
        endpoint_stream_window(sized) == Some(size),
        endpoint_connection_window(sized) == endpoint_connection_window(endpoint),
{
    endpoint.initial_stream_window_size(size)
}

/// Calls `Endpoint::initial_connection_window_size`. Trusted: only the
/// per-connection window changes, to `size`.
#[verifier::external_body]
fn with_connection_window(endpoint: Endpoint, size: u32) -> (sized: Endpoint)
    ensures
        endpoint_target(sized) == endpoint_target(endpoint),
        endpoint_stream_window(sized) == endpoint_stream_window(endpoint),
        endpoint_connection_window(sized) == Some(size),
{
    endpoint.initial_connection_window_size(size)
}

/// The one-character text of the decimal digit `d`.
fn digit_str(d: u16) -> (text: &'static str)
    requires
        d < 10,
    ensures
        text@ == seq![digit_char(d as nat)],
{
    proof {
        reveal_strlit("0");
        reveal_strlit("1");
        reveal_strlit("2");
        reveal_strlit("3");
        reveal_strlit("4");
        reveal_strlit("5");
        reveal_strlit("6");
        reveal_strlit("7");
        reveal_strlit("8");
        reveal_strlit("9");
    }
    let text = match d {
        0 => "0",
        1 => "1",
        2 => "2",
        3 => "3",
        4 => "4",
        5 => "5",
        6 => "6",
        7 => "7",
        8 => "8",
        _ => "9",
    };
    assert(text@ =~= seq![digit_char(d as nat)]);
    text
}

/// Appends `n` in decimal to `out`.
fn push_decimal(out: &mut String, n: u16)
    ensures
        final(out)@ == old(out)@ + decimal(n as nat),
    decreases n,
{
    if n >= 10 {
        push_decimal(out, n / 10);
    }
    out.append(digit_str(n % 10));
    assert(out@ =~= old(out)@ + decimal(n as nat));
}

/// Writes the endpoint text of a target.
pub fn endpoint_uri(address: &str, port: u16) -> (uri: String)
    ensures
        uri@ == endpoint_text(address@, port),
{
    proof {
        reveal_strlit("http://");
        reveal_strlit(":");
    }
    let mut uri = String::from_str("http://");
    uri.append(address);
    uri.append(":");
    push_decimal(&mut uri, port);
    assert(uri@ =~= endpoint_text(address@, port));
    uri
}

/// Finishes an endpoint from the outcome of parsing its text: an endpoint
/// that parsed gets both receive windows set to `MAX_MESSAGE_SIZE`, and a
/// text that did not parse is a connection error with the parser's cause.
pub fn sized_for_large_messages(parsed: Result<Endpoint, tonic::transport::Error>) -> (res: Result<
    Endpoint,
    TempoError,
>)
    ensures
        match parsed {
            Ok(endpoint) => res matches Ok(sized) && {
                &&& endpoint_target(sized) == endpoint_target(endpoint)
                &&& endpoint_stream_window(sized) == Some(MAX_MESSAGE_SIZE)
                &&& endpoint_connection_window(sized) == Some(MAX_MESSAGE_SIZE)
            },
            Err(cause) => res == Err::<Endpoint, TempoError>(TempoError::Connection(cause)),
        },
{
    match parsed {
        Ok(endpoint) => {
            let sized = with_stream_window(endpoint, MAX_MESSAGE_SIZE);
            Ok(with_connection_window(sized, MAX_MESSAGE_SIZE))
        },
        Err(cause) => Err(TempoError::from(cause)),
    }
}

/// Builds the endpoint for a target: parses `http://<address>:<port>` and
/// sizes both receive windows for large messages. The endpoint holds the URI
/// that the transport's parser makes of that text. Fails with a connection
/// error exactly when the transport does not accept the text as a URI.
pub fn endpoint_for(address: &str, port: u16) -> (res: Result<Endpoint, TempoError>)
    ensures
        res is Ok <==> uri_accepted(endpoint_text(address@, port)),
        res matches Ok(endpoint) ==> {
            &&& endpoint_target(endpoint) == uri_of_text(endpoint_text(address@, port))
            &&& endpoint_stream_window(endpoint) == Some(MAX_MESSAGE_SIZE)
            &&& endpoint_connection_window(endpoint) == Some(MAX_MESSAGE_SIZE)
        },
        res matches Err(err) ==> err is Connection,
{
    sized_for_large_messages(endpoint_from_shared(endpoint_uri(address, port)))
}

} // verus!
