//! Shared-access signatures: a resource identifier and an expiry, signed with
//! HMAC-SHA256 under a base64-encoded shared key.

use base64::Engine;
use hmac::Mac;
use vstd::prelude::*;
use vstd::string::*;
use vstd::utf8::encode_utf8;

use crate::error::SmartPotError;
use crate::text::{decimal, push_decimal};

verus! {

/// base64's `DecodeError`, the error of a failed decode; it is carried through
/// and reported as a key error.
#[verifier::external_type_specification]
#[verifier::external_body]
pub struct ExDecodeError(base64::DecodeError);

/// The bytes that the standard base64 decoding (with padding) gives for a
/// text, or `None` where the text is not valid base64.
pub uninterp spec fn base64_decoded_of(s: Seq<char>) -> Option<Seq<u8>>;

/// HMAC-SHA256 of a message under a key.
pub uninterp spec fn hmac_sha256_of(key: Seq<u8>, msg: Seq<u8>) -> Seq<u8>;

/// The standard base64 alphabet.
pub open spec fn base64_symbol(v: int) -> char {
    seq![
        'A', 'B', 'C', 'D', 'E', 'F', 'G', 'H', 'I', 'J', 'K', 'L', 'M',
        'N', 'O', 'P', 'Q', 'R', 'S', 'T', 'U', 'V', 'W', 'X', 'Y', 'Z',
        'a', 'b', 'c', 'd', 'e', 'f', 'g', 'h', 'i', 'j', 'k', 'l', 'm',
        'n', 'o', 'p', 'q', 'r', 's', 't', 'u', 'v', 'w', 'x', 'y', 'z',
        '0', '1', '2', '3', '4', '5', '6', '7', '8', '9', '+', '/',
    ][v]
}

/// Standard base64 with `=` padding: each group of three bytes becomes four
/// symbols of six bits each, most significant bits first.
pub open spec fn base64_standard(b: Seq<u8>) -> Seq<char>
    decreases b.len(),
{
    if b.len() == 0 {
        seq![]
    } else if b.len() == 1 {
        let b0 = b[0] as int;
        seq![base64_symbol(b0 / 4), base64_symbol((b0 % 4) * 16), '=', '=']
    } else if b.len() == 2 {
        let (b0, b1) = (b[0] as int, b[1] as int);
        seq![
            base64_symbol(b0 / 4),
            base64_symbol((b0 % 4) * 16 + b1 / 16),
            base64_symbol((b1 % 16) * 4),
            '=',
        ]
    } else {
        let (b0, b1, b2) = (b[0] as int, b[1] as int, b[2] as int);
        seq![
            base64_symbol(b0 / 4),
            base64_symbol((b0 % 4) * 16 + b1 / 16),
            base64_symbol((b1 % 16) * 4 + b2 / 64),
            base64_symbol(b2 % 64),
        ] + base64_standard(b.skip(3))
    }
}

/// Bytes that URL encoding leaves as they are: ASCII letters, digits and `-._~`.
pub open spec fn is_unreserved(b: u8) -> bool {
    (48 <= b <= 57) || (65 <= b <= 90) || (97 <= b <= 122) || b == 45 || b == 46 || b == 95
        || b == 126
}

/// Upper-case hexadecimal digit.
pub open spec fn hex_upper(v: int) -> char {
    seq!['0', '1', '2', '3', '4', '5', '6', '7', '8', '9', 'A', 'B', 'C', 'D', 'E', 'F'][v]
}

/// Percent-encoding of bytes: unreserved bytes stand for themselves, every
/// other byte becomes `%` followed by two upper-case hex digits.
pub open spec fn percent_encoded(b: Seq<u8>) -> Seq<char>
    decreases b.len(),
{
    if b.len() == 0 {
        seq![]
    } else {
        let head = b[0];
        let first = if is_unreserved(head) {
            seq![head as char]
        } else {
            seq!['%', hex_upper(head as int / 16), hex_upper(head as int % 16)]
        };
        first + percent_encoded(b.drop_first())
    }
}

/// URL encoding of a text: percent-encoding of its UTF-8 bytes.
pub open spec fn url_encoded(s: Seq<char>) -> Seq<char> {
    percent_encoded(encode_utf8(s))
}

/// The message that a signature covers: the resource, a line feed, and the
/// expiry in decimal.
pub open spec fn string_to_sign(resource_uri: Seq<char>, expiry: u64) -> Seq<char> {
    resource_uri + seq!['\n'] + decimal(expiry as nat)
}

/// The view of an optional text.
pub open spec fn opt_view(o: Option<&str>) -> Option<Seq<char>> {
    match o {
        Some(s) => Some(s@),
        None => None,
    }
}

/// The text of a token from its already url-encoded resource and signature.
pub open spec fn token_text(
    encoded_uri: Seq<char>,
    encoded_sig: Seq<char>,
    expiry: u64,
    key_name: Option<Seq<char>>,
) -> Seq<char> {
    let base = "SharedAccessSignature sr="@ + encoded_uri + "&sig="@ + encoded_sig + "&se="@
        + decimal(expiry as nat);
    match key_name {
        Some(k) => base + "&skn="@ + k,
        None => base,
    }
}

/// The base64 text of the signature of `resource_uri` and `expiry` under the
/// decoded key `key`.
pub open spec fn signature_of(key: Seq<u8>, resource_uri: Seq<char>, expiry: u64) -> Seq<char> {
    base64_standard(hmac_sha256_of(key, encode_utf8(string_to_sign(resource_uri, expiry))))
}

/// The token whose signature is the base64 text `signature`.
pub open spec fn token_with_signature(
    resource_uri: Seq<char>,
    signature: Seq<char>,
    expiry: u64,
    key_name: Option<Seq<char>>,
) -> Seq<char> {
    token_text(url_encoded(resource_uri), url_encoded(signature), expiry, key_name)
}

/// The token for a resource under the decoded key `key`.
pub open spec fn sas_token(
    key: Seq<u8>,
    resource_uri: Seq<char>,
    expiry: u64,
    key_name: Option<Seq<char>>,
) -> Seq<char> {
    token_with_signature(resource_uri, signature_of(key, resource_uri, expiry), expiry, key_name)
}

/// What signing returns: the token where the key is valid base64, else a key error.
pub open spec fn sign_outcome(
    resource_uri: Seq<char>,
    key: Seq<char>,
    expiry: u64,
    key_name: Option<Seq<char>>,
    r: Result<String, SmartPotError>,
) -> bool {
    match base64_decoded_of(key) {
        Some(k) => r is Ok && r->Ok_0@ == sas_token(k, resource_uri, expiry, key_name),
        None => r == Err::<String, SmartPotError>(SmartPotError::KeyDecodeError),
    }
}

/// Relies on base64's `STANDARD.decode`: the bytes that the text decodes to, or
/// its error where the text is not valid padded standard base64.
#[verifier::external_body]
fn decode_base64(s: &str) -> (r: Result<Vec<u8>, base64::DecodeError>)
    ensures
        match r {
            Ok(v) => base64_decoded_of(s@) == Some(v@),
            Err(_) => base64_decoded_of(s@) is None,
        },
{
    base64::engine::general_purpose::STANDARD.decode(s)
}

/// Relies on base64's `STANDARD.encode`: standard alphabet, padded with `=`.
#[verifier::external_body]
fn encode_base64(b: &[u8]) -> (r: String)
    ensures
        r@ == base64_standard(b@),
{
    base64::engine::general_purpose::STANDARD.encode(b)
}

/// Relies on hmac's `Hmac<Sha256>` (with sha2's `Sha256`): the 32-byte MAC of
/// `msg` under `key`. `new_from_slice` accepts a key of any length.
#[verifier::external_body]
fn hmac_sha256(key: &[u8], msg: &[u8]) -> (r: Vec<u8>)
    ensures
        r@ == hmac_sha256_of(key@, msg@),
        r@.len() == 32,
{
    let mut mac = hmac::Hmac::<sha2::Sha256>::new_from_slice(key).expect("any key length");
    mac.update(msg);
    mac.finalize().into_bytes().to_vec()
}

/// Relies on urlencoding's `encode`: every UTF-8 byte other than ASCII letters,
/// digits and `-._~` becomes `%` and two upper-case hex digits.
#[verifier::external_body]
fn url_encode(s: &str) -> (r: String)
    ensures
        r@ == url_encoded(s@),
{
    urlencoding::encode(s).into_owned()
}

/// Builds the token text from its url-encoded resource and signature fields.
pub fn assemble_token(
    encoded_uri: &str,
    encoded_sig: &str,
    expiry: u64,
    key_name: Option<&str>,
) -> (r: String)
    ensures
        r@ == token_text(encoded_uri@, encoded_sig@, expiry, opt_view(key_name)),
{
    let mut t = String::from_str("SharedAccessSignature sr=");
    t.append(encoded_uri);
    t.append("&sig=");
    t.append(encoded_sig);
    t.append("&se=");
    push_decimal(&mut t, expiry);
    match key_name {
        Some(k) => {
            t.append("&skn=");
            t.append(k);
        },
        None => {},
    }
    t
}

/// Builds the token for a resource from the base64 text of its signature.
pub fn token_from_signature(
    resource_uri: &str,
    signature: &str,
    expiry: u64,
    key_name: Option<&str>,
) -> (r: String)
    ensures
        r@ == token_with_signature(resource_uri@, signature@, expiry, opt_view(key_name)),
{
    let encoded_uri = url_encode(resource_uri);
    let encoded_sig = url_encode(signature);
    assemble_token(encoded_uri.as_str(), encoded_sig.as_str(), expiry, key_name)
}

/// The text that is signed for `resource_uri` and `expiry`.
pub fn message_to_sign(resource_uri: &str, expiry: u64) -> (r: String)
    ensures
        r@ == string_to_sign(resource_uri@, expiry),
{
    let mut m = String::from_str(resource_uri);
    m.append("\n");
    push_decimal(&mut m, expiry);
    proof {
        reveal_strlit("\n");
        assert(m@ =~= string_to_sign(resource_uri@, expiry));
    }
    m
}

/// Builds the token for a resource from the raw 32-byte HMAC digest of its
/// message.
pub fn token_from_digest(
    resource_uri: &str,
    digest: &[u8],
    expiry: u64,
    key_name: Option<&str>,
) -> (r: String)
    ensures
        r@ == token_with_signature(
            resource_uri@,
            base64_standard(digest@),
            expiry,
            opt_view(key_name),
        ),
{
    let signature = encode_base64(digest);
    token_from_signature(resource_uri, signature.as_str(), expiry, key_name)
}

/// Signs `resource_uri` until `expiry` with the already decoded key bytes.
pub fn sign_with_key(resource_uri: &str, key: &[u8], expiry: u64, key_name: Option<&str>) -> (r:
    String)
    ensures
        r@ == sas_token(key@, resource_uri@, expiry, opt_view(key_name)),
{
    let msg = message_to_sign(resource_uri, expiry);
    let digest = hmac_sha256(key, msg.as_str().as_bytes());
    token_from_digest(resource_uri, digest.as_slice(), expiry, key_name)
}

/// Signs `resource_uri` until `expiry` (seconds since the Unix epoch) with the
/// base64-encoded shared `key`, naming the key in the token where `key_name`
/// is given.
pub fn sign(resource_uri: &str, key: &str, expiry: u64, key_name: Option<&str>) -> (r: Result<
    String,
    SmartPotError,
>)
    ensures
        sign_outcome(resource_uri@, key@, expiry, opt_view(key_name), r),
{
    match decode_base64(key) {
        Ok(key_bytes) => Ok(sign_with_key(resource_uri, key_bytes.as_slice(), expiry, key_name)),
        Err(_) => Err(SmartPotError::KeyDecodeError),
    }
}

/// The resource that a device's hub token covers.
pub open spec fn hub_resource_of(hub_host: Seq<char>, device_id: Seq<char>) -> Seq<char> {
    hub_host + "/devices/"@ + device_id
}

/// The resource that a provisioning token covers.
pub open spec fn dps_resource_of(id_scope: Seq<char>, registration_id: Seq<char>) -> Seq<char> {
    id_scope + "/registrations/"@ + registration_id
}

/// `{hub_host}/devices/{device_id}`
pub fn hub_resource_uri(hub_host: &str, device_id: &str) -> (r: String)
    ensures
        r@ == hub_resource_of(hub_host@, device_id@),
{
    let mut u = String::from_str(hub_host);
    u.append("/devices/");
    u.append(device_id);
    u
}

/// `{id_scope}/registrations/{registration_id}`
pub fn dps_resource_uri(id_scope: &str, registration_id: &str) -> (r: String)
    ensures
        r@ == dps_resource_of(id_scope@, registration_id@),
{
    let mut u = String::from_str(id_scope);
    u.append("/registrations/");
    u.append(registration_id);
    u
}

/// Generates the token with which a device authenticates to its hub.
pub fn generate_sas_token(hub_host: &str, device_id: &str, key: &str, expiry_unix_ts: u64) -> (r:
    Result<String, SmartPotError>)
    ensures
        sign_outcome(hub_resource_of(hub_host@, device_id@), key@, expiry_unix_ts, None, r),
{
    let resource = hub_resource_uri(hub_host, device_id);
    sign(resource.as_str(), key, expiry_unix_ts, None)
}

/// Generates the token with which a device authenticates to the provisioning
/// service; it names the `registration` key.
pub fn generate_sas_token_dps(
    id_scope: &str,
    registration_id: &str,
    key: &str,
    expiry_unix_ts: u64,
) -> (r: Result<String, SmartPotError>)
    ensures
        sign_outcome(
            dps_resource_of(id_scope@, registration_id@),
            key@,
            expiry_unix_ts,
            Some("registration"@),
            r,
        ),
{
    let resource = dps_resource_uri(id_scope, registration_id);
    sign(resource.as_str(), key, expiry_unix_ts, Some("registration"))
}

/// Signing is deterministic, and what it signs is checkable: any two results
/// that signing may give for the same resource, key, expiry and key name
/// agree (both fail with a key error, or both are the same token text), and
/// a token carries as its signature the HMAC-SHA256, under the decoded key,
/// of the resource, a line feed and the expiry, so a holder of the same key
/// who recomputes that HMAC finds the same signature.
pub proof fn lemma_sign_deterministic(
    resource_uri: Seq<char>,
    key: Seq<char>,
    expiry: u64,
    key_name: Option<Seq<char>>,
    r1: Result<String, SmartPotError>,
    r2: Result<String, SmartPotError>,
)
    requires
        sign_outcome(resource_uri, key, expiry, key_name, r1),
        sign_outcome(resource_uri, key, expiry, key_name, r2),
    ensures
        r1 is Ok <==> r2 is Ok,
        r1 is Ok ==> r1->Ok_0@ == r2->Ok_0@,
        r1 is Err ==> r1 == r2,
        r1 is Ok ==> base64_decoded_of(key) is Some && r1->Ok_0@ == token_with_signature(
            resource_uri,
            base64_standard(
                hmac_sha256_of(
                    base64_decoded_of(key)->Some_0,
                    encode_utf8(resource_uri + seq!['\n'] + decimal(expiry as nat)),
                ),
            ),
            expiry,
            key_name,
        ),
{
}

} // verus!
