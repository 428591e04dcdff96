use vstd::prelude::*;

use base64::prelude::BASE64_URL_SAFE_NO_PAD;
use base64::Engine;
use base64::DecodeError;

use crate::error::Error;
use crate::text::split_on_char;
use vstd::string::*;

verus! {

/// The claims of an auth token.
#[derive(Clone, Debug, PartialEq, Eq)]
pub struct AuthClaims {
    pub sub: String,
    pub oid: String,
    pub roles: String,
    pub scope: String,
    pub exp: usize,
}

/// The claims of a file upload token.
#[derive(Clone, Debug, PartialEq, Eq)]
pub struct FileUploadClaims {
    pub sub: String,
    pub orig_filename: String,
    pub new_filename: String,
    pub content_type: String,
    pub exp: usize,
}

/// How long an upload token stays valid, in seconds.
pub const UPLOAD_TOKEN_TTL_SECS: i64 = 3600;

#[verifier::external_type_specification]
#[verifier::external_body]
pub struct ExDecodeError(DecodeError);

/// What `BASE64_URL_SAFE_NO_PAD.decode` of the base64 crate makes of a text:
/// the decoded bytes, or nothing when the text is not unpadded URL-safe base64.
pub uninterp spec fn url_safe_no_pad_decoded(input: Seq<char>) -> Option<Seq<u8>>;

/// `Engine::decode` of the base64 crate with the URL-safe alphabet and no
/// padding: succeeds exactly when the named decoding exists, with its bytes.
#[verifier::external_body]
fn base64_url_decode(input: &str) -> (r: Result<Vec<u8>, DecodeError>)
    ensures
        r is Ok <==> url_safe_no_pad_decoded(input@) is Some,
        r matches Ok(bytes) ==> url_safe_no_pad_decoded(input@) == Some(bytes@),
{
    BASE64_URL_SAFE_NO_PAD.decode(input)
}

/// The rendered text of a base64 decoding error, as its `Display` writes it.
#[verifier::external_body]
fn decode_error_text(e: &DecodeError) -> (r: String) {
    e.to_string()
}

/// The second dot-separated piece of a token: the piece that holds the claims.
pub open spec fn claims_piece(token: Seq<char>) -> Option<Seq<char>> {
    let parts = crate::text::split_on(token, '.');
    if parts.len() > 1 {
        Some(parts[1])
    } else {
        None
    }
}

/// The claims piece of a token, if it has one.
pub fn auth_token_claims_piece(token: &str) -> (r: Option<String>)
    ensures
        match claims_piece(token@) {
            Some(p) => r matches Some(s) && s@ == p,
            None => r is None,
        },
{
    let mut parts = split_on_char(token, '.');
    proof {
        assert(parts@.map_values(|p: String| p@).len() == parts@.len());
    }
    if parts.len() > 1 {
        let piece = parts.remove(1);
        proof {
            assert(parts@.map_values(|p: String| p@).len() == parts@.len());
        }
        Some(piece)
    } else {
        None
    }
}

/// The claims bytes of a decoded piece, or the decoding failure as an error.
pub fn claims_bytes_from_decoded(decoded: Result<Vec<u8>, DecodeError>) -> (r: Result<Vec<u8>, Error>)
    ensures
        match decoded {
            Ok(bytes) => r matches Ok(b) && b@ == bytes@,
            Err(_) => r matches Err(e) && e is Base64Decode,
        },
{
    match decoded {
        Ok(bytes) => Ok(bytes),
        Err(e) => Err(Error::Base64Decode { source: decode_error_text(&e) }),
    }
}

/// The claims bytes that an auth token carries: the base64 decoding of its
/// second dot-separated piece. A token with no second piece is invalid; a
/// piece that does not decode gives the decoding error.
pub fn decode_auth_token_payload(token: &str) -> (r: Result<Vec<u8>, Error>)
    ensures
        match claims_piece(token@) {
            Some(p) => match url_safe_no_pad_decoded(p) {
                Some(bytes) => r matches Ok(b) && b@ == bytes,
                None => r matches Err(e) && e is Base64Decode,
            },
            None => r matches Err(e) && e matches Error::Whatever { msg } && msg@
                == "Invalid auth token."@,
        },
{
    match auth_token_claims_piece(token) {
        Some(piece) => {
            let decoded = base64_url_decode(piece.as_str());
            claims_bytes_from_decoded(decoded)
        },
        None => Err(Error::Whatever { msg: "Invalid auth token.".to_owned() }),
    }
}

/// Whether the claims of a checked upload token are accepted: they name a subject.
pub open spec fn accepts_upload_claims(c: FileUploadClaims) -> bool {
    c.sub@.len() > 0
}

/// The claims of an upload token for a file, valid for an hour from `now`.
/// The service accepts such claims back.
pub fn upload_claims(
    orig_filename: String,
    new_filename: String,
    content_type: String,
    now: i64,
) -> (r: FileUploadClaims)
    requires
        now <= i64::MAX - UPLOAD_TOKEN_TTL_SECS,
    ensures
        r.sub@ == "upload"@,
        r.orig_filename == orig_filename,
        r.new_filename == new_filename,
        r.content_type == content_type,
        r.exp == (now + UPLOAD_TOKEN_TTL_SECS) as usize,
        accepts_upload_claims(r),
{
    let exp = now + UPLOAD_TOKEN_TTL_SECS;
    proof {
        reveal_strlit("upload");
    }
    FileUploadClaims {
        sub: "upload".to_owned(),
        orig_filename,
        new_filename,
        content_type,
        exp: exp as usize,
    }
}

/// The claims of an upload token once its signature was checked: a token that
/// did not decode, or names no subject, is refused.
pub fn verify_upload_claims(decoded: Option<FileUploadClaims>) -> (r: Result<FileUploadClaims, Error>)
    ensures
        match decoded {
            Some(c) => if accepts_upload_claims(c) {
                r == Ok::<FileUploadClaims, Error>(c)
            } else {
                r matches Err(e) && e is UploadToken
            },
            None => r matches Err(e) && e is UploadToken,
        },
{
    match decoded {
        Some(c) => if c.sub.as_str().is_empty() {
            Err(Error::UploadToken)
        } else {
            Ok(c)
        },
        None => Err(Error::UploadToken),
    }
}

} // verus!
