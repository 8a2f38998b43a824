//! Which bot is calling: the identity that a credential carries.
//!
//! The credential is the value of the authorization header: `Bot ` (which may
//! be left out), then segments parted by `.`. The first segment is the base64
//! of the bot's identity, written as a decimal number.

use crate::decimal::{decimal_number, parse_u64};
use crate::error::RequestError;
use crate::text::{
    find_byte, lemma_ascii_is_utf8, segment_before, strip_prefix, utf8_text, without_prefix,
};
use vstd::pervasive::unreached;
use vstd::prelude::*;
use vstd::slice::slice_subrange;
use vstd::string::StringSliceAdditionalSpecFns;
use vstd::utf8::*;

verus! {

#[verifier::external_type_specification]
#[verifier::external_body]
pub struct ExDecodeError(base64::DecodeError);

/// What `base64::decode` makes of `input` in the standard alphabet: the
/// decoded bytes, or `None` where it refuses the input.
pub uninterp spec fn base64_decoding(input: Seq<u8>) -> Option<Seq<u8>>;

/// Whether a text of `length` bytes is short enough for the decoder to size
/// its buffers: no longer than a slice can be.
pub open spec fn fits_decoder(length: nat) -> bool {
    length <= isize::MAX
}

/// Calls `base64::decode`. Its result is a function of the input alone, and
/// goes by the name `base64_decoding`. The decoder sizes its buffer from the
/// length of the input, rounded up to whole chunks, and panics where that sum
/// or the buffer overflows; an input that is no longer than a slice can be
/// is safe from both.
#[verifier::external_body]
fn decode_base64(input: &[u8]) -> (decoded: Result<Vec<u8>, base64::DecodeError>)
    requires
        fits_decoder(input@.len()),
    ensures
        match decoded {
            Ok(bytes) => base64_decoding(input@) == Some(bytes@),
            Err(_) => base64_decoding(input@) is None,
        },
{
    base64::decode(input)
}

/// The credential without the word `Bot ` in front of it.
pub open spec fn token_of(credential: Seq<u8>) -> Seq<u8> {
    without_prefix(credential, "Bot ".spec_bytes())
}

/// The segment of a credential that holds the identity: what stands before the
/// first `.` of the token, or the whole token where it has no `.`.
pub open spec fn identity_segment(credential: Seq<u8>) -> Seq<u8> {
    segment_before(token_of(credential), 0x2e)
}

/// The identity that the decoded segment spells out.
pub open spec fn identity_in(decoded: Seq<u8>) -> Result<u64, RequestError> {
    if !valid_utf8(decoded) {
        Err(RequestError::EncodingError)
    } else {
        match decimal_number(decoded) {
            Some(value) => if value <= u64::MAX {
                Ok(value as u64)
            } else {
                Err(RequestError::ParseError)
            },
            None => Err(RequestError::ParseError),
        }
    }
}

/// The identity that a credential carries.
///
/// A segment too long for the decoder to take is refused like one that is not
/// base64.
pub open spec fn identity_of(credential: Seq<u8>) -> Result<u64, RequestError> {
    let segment = identity_segment(credential);
    if !fits_decoder(segment.len()) {
        Err(RequestError::Base64Error)
    } else {
        match base64_decoding(segment) {
            Some(decoded) => identity_in(decoded),
            None => Err(RequestError::Base64Error),
        }
    }
}

/// Whether the value of a header reads as text: whether it holds nothing but
/// visible ASCII characters, blanks and tabs.
pub open spec fn is_readable(value: Seq<u8>) -> bool {
    forall|i: int| 0 <= i < value.len() ==> is_visible(#[trigger] value[i])
}

/// Whether `byte` is a visible ASCII character, a blank or a tab.
pub open spec fn is_visible(byte: u8) -> bool {
    byte == 0x09 || 0x20 <= byte < 0x7f
}

/// The identity of the caller of a request with this authorization header.
/// A request without the header, or with one that does not read as text,
/// carries no credential.
pub open spec fn caller_of(authorization: Option<Seq<u8>>) -> Result<u64, RequestError> {
    match authorization {
        Some(credential) => if is_readable(credential) {
            identity_of(credential)
        } else {
            Err(RequestError::MissingAuthorization)
        },
        None => Err(RequestError::MissingAuthorization),
    }
}

/// The value of a header as text, where it reads as text.
pub fn header_text(value: &[u8]) -> (text: Option<&str>)
    ensures
        match text {
            Some(read) => is_readable(value@) && read.spec_bytes() == value@,
            None => !is_readable(value@),
        },
{
    let mut i: usize = 0;
    while i < value.len()
        invariant
            i <= value.len(),
            forall|k: int| 0 <= k < i ==> is_visible(#[trigger] value@[k]),
        decreases value.len() - i,
    {
        let byte = value[i];
        if !(byte == 0x09 || (0x20 <= byte && byte < 0x7f)) {
            return None;
        }
        i += 1;
    }
    proof {
        lemma_ascii_is_utf8(value@);
    }
    match utf8_text(value) {
        Ok(read) => Some(read),
        Err(_) => unreached(),
    }
}

/// Reads the identity out of the decoded first segment of a credential.
pub fn read_identity(decoded: &[u8]) -> (identity: Result<u64, RequestError>)
    ensures
        identity == identity_in(decoded@),
{
    match utf8_text(decoded) {
        Ok(_) => match parse_u64(decoded) {
            Some(value) => Ok(value),
            None => Err(RequestError::ParseError),
        },
        Err(_) => Err(RequestError::EncodingError),
    }
}

/// Finds out which bot sent a request, from the value of its authorization
/// header.
///
/// Returns the identity together with the token: the credential as the
/// upstream client takes it, without `Bot ` in front.
pub fn extract_identity<'a>(authorization: Option<&'a [u8]>) -> (caller: Result<
    (u64, &'a str),
    RequestError,
>)
    ensures
        match caller {
            Ok((identity, token)) => authorization matches Some(credential) && caller_of(
                Some(credential@),
            ) == Ok::<u64, RequestError>(identity) && token.spec_bytes() == token_of(
                credential@,
            ),
            Err(error) => caller_of(
                match authorization {
                    Some(credential) => Some(credential@),
                    None => None,
                },
            ) == Err::<u64, RequestError>(error),
        },
{
    let credential = match authorization {
        Some(value) => match header_text(value) {
            Some(credential) => credential,
            None => return Err(RequestError::MissingAuthorization),
        },
        None => return Err(RequestError::MissingAuthorization),
    };
    let token = strip_prefix(credential, "Bot ");
    let bytes = token.as_bytes();
    let end = find_byte(bytes, 0x2e);
    let segment = slice_subrange(bytes, 0, end);
    assert(segment@ =~= identity_segment(credential.spec_bytes()));
    if segment.len() > isize::MAX as usize {
        return Err(RequestError::Base64Error);
    }
    match decode_base64(segment) {
        Ok(decoded) => match read_identity(decoded.as_slice()) {
            Ok(identity) => Ok((identity, token)),
            Err(error) => Err(error),
        },
        Err(_) => Err(RequestError::Base64Error),
    }
}

/// The word `Bot ` in front of a credential changes nothing of the identity
/// it carries.
pub proof fn lemma_bot_prefix_is_optional(token: Seq<u8>)
    requires
        !"Bot ".spec_bytes().is_prefix_of(token),
    ensures
        token_of("Bot ".spec_bytes() + token) == token,
        token_of(token) == token,
        identity_of("Bot ".spec_bytes() + token) == identity_of(token),
{
    let word = "Bot ".spec_bytes();
    assert((word + token).subrange(0, word.len() as int) =~= word);
    assert((word + token).skip(word.len() as int) =~= token);
}

/// A token without any `.` is taken whole as the identity segment.
pub proof fn lemma_token_without_delimiter(credential: Seq<u8>)
    requires
        forall|i: int| 0 <= i < token_of(credential).len() ==> token_of(credential)[i] != 0x2e,
    ensures
        identity_segment(credential) == token_of(credential),
{
    let token = token_of(credential);
    crate::text::lemma_span_before(token, 0x2e, token.len() as int);
    assert(token.take(token.len() as int) =~= token);
}

} // verus!
