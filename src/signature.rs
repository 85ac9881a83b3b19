//! Request signatures: the password digest, the login checksum and the
//! bound-device logout sign, over digests computed by hmac, md-5 and sha1.

use hmac::Mac;
use sha1::Digest;
use vstd::prelude::*;
use vstd::string::StringExecFns;
use vstd::string::StringSliceAdditionalSpecFns;
use vstd::utf8::encode_utf8;

verus! {

#[verifier::external_type_specification]
#[verifier::external_body]
pub struct ExInvalidLength(hmac::digest::InvalidLength);

/// Relies on `String::push`: appends one character.
pub assume_specification[ String::push ](s: &mut String, ch: char)
    ensures
        final(s)@ == old(s)@.push(ch),
;

/// The HMAC-MD5 tag of `msg` under `key`.
pub uninterp spec fn hmac_md5_of(key: Seq<u8>, msg: Seq<u8>) -> Seq<u8>;

/// The SHA-1 digest of `data`.
pub uninterp spec fn sha1_of(data: Seq<u8>) -> Seq<u8>;

/// Relies on hmac's `Hmac<Md5>`: `new_from_slice` accepts a key of any
/// length (longer keys are hashed, shorter ones padded), and `finalize`
/// gives the tag of what `update` fed in.
#[verifier::external_body]
fn hmac_md5(key: &[u8], msg: &[u8]) -> (r: Result<Vec<u8>, hmac::digest::InvalidLength>)
    ensures
        r is Ok,
        r matches Ok(t) ==> t@ == hmac_md5_of(key@, msg@),
{
    let mut mac = hmac::Hmac::<md5::Md5>::new_from_slice(key)?;
    mac.update(msg);
    Ok(mac.finalize().into_bytes().to_vec())
}

/// Relies on sha1's `Sha1`: `finalize` gives the digest of what `update`
/// fed in.
#[verifier::external_body]
fn sha1_digest(data: &[u8]) -> (r: Vec<u8>)
    ensures
        r@ == sha1_of(data@),
{
    let mut hasher = sha1::Sha1::new();
    hasher.update(data);
    hasher.finalize().to_vec()
}

/// The lower-case hex digit of `d` (below 16).
pub open spec fn hex_digit(d: u8) -> char {
    if d < 10 {
        (48 + d) as char
    } else {
        (87 + d) as char
    }
}

/// Lower-case hex of `b`, two digits per byte, high nibble first.
pub open spec fn hex_lower(b: Seq<u8>) -> Seq<char>
    decreases b.len(),
{
    if b.len() == 0 {
        seq![]
    } else {
        hex_lower(b.drop_last()) + seq![hex_digit(b.last() >> 4), hex_digit(b.last() & 0xf)]
    }
}

fn hex_char(d: u8) -> (c: char)
    requires
        d < 16,
    ensures
        c == hex_digit(d),
{
    if d < 10 {
        (48 + d) as char
    } else {
        (87 + d) as char
    }
}

/// Lower-case hex of `bytes`, as `{:x}` writes a digest.
pub fn to_hex(bytes: &[u8]) -> (r: String)
    ensures
        r@ == hex_lower(bytes@),
{
    let mut r = String::new();
    let mut i: usize = 0;
    while i < bytes.len()
        invariant
            i <= bytes@.len(),
            r@ == hex_lower(bytes@.take(i as int)),
        decreases bytes@.len() - i,
    {
        let b = bytes[i];
        assert(b >> 4 < 16 && b & 0xf < 16) by (bit_vector);
        r.push(hex_char(b >> 4));
        r.push(hex_char(b & 0xf));
        assert(bytes@.take(i + 1).drop_last() =~= bytes@.take(i as int));
        i = i + 1;
    }
    assert(bytes@.take(i as int) =~= bytes@);
    r
}

/// The password digest sent at login: lower-hex HMAC-MD5 of the challenge
/// token, keyed by the token itself.
pub fn password_digest(challenge: &str) -> (r: String)
    ensures
        r@ == hex_lower(hmac_md5_of(challenge.spec_bytes(), challenge.spec_bytes())),
{
    let token = challenge.as_bytes();
    match hmac_md5(token, token) {
        Ok(tag) => to_hex(tag.as_slice()),
        Err(_) => String::new(),
    }
}

/// Lower-hex SHA-1 of the UTF-8 bytes of `text`.
pub fn sha1_hex(text: &str) -> (r: String)
    ensures
        r@ == hex_lower(sha1_of(text.spec_bytes())),
{
    let digest = sha1_digest(text.as_bytes());
    to_hex(digest.as_slice())
}

/// The protocol constant `type` sent with every login.
pub const SRUN_TYPE: &'static str = "1";

/// The protocol constant `n` sent with every login.
pub const SRUN_N: &'static str = "200";

/// The text that the login checksum is taken over: the challenge token
/// before each field, in the protocol's fixed order.
pub open spec fn checksum_text_of(
    token: Seq<char>,
    username: Seq<char>,
    hmd5: Seq<char>,
    ac_id: Seq<char>,
    ip: Seq<char>,
    n: Seq<char>,
    ty: Seq<char>,
    info: Seq<char>,
) -> Seq<char> {
    token + username + token + hmd5 + token + ac_id + token + ip + token + n + token + ty + token
        + info
}

/// Builds the checksum text from the challenge, the login fields and the
/// protocol constants `n` and `type`.
pub fn checksum_text(
    challenge: &str,
    username: &str,
    hmd5: &str,
    ac_id: &str,
    ip: &str,
    info: &str,
) -> (r: String)
    ensures
        r@ == checksum_text_of(
            challenge@,
            username@,
            hmd5@,
            ac_id@,
            ip@,
            SRUN_N@,
            SRUN_TYPE@,
            info@,
        ),
{
    let mut r = String::from_str(challenge);
    r.append(username);
    r.append(challenge);
    r.append(hmd5);
    r.append(challenge);
    r.append(ac_id);
    r.append(challenge);
    r.append(ip);
    r.append(challenge);
    r.append(SRUN_N);
    r.append(challenge);
    r.append(SRUN_TYPE);
    r.append(challenge);
    r.append(info);
    r
}

/// The login checksum: lower-hex SHA-1 of the checksum text.
pub fn login_checksum(
    challenge: &str,
    username: &str,
    hmd5: &str,
    ac_id: &str,
    ip: &str,
    info: &str,
) -> (r: String)
    ensures
        r@ == hex_lower(
            sha1_of(
                encode_utf8(
                    checksum_text_of(
                        challenge@,
                        username@,
                        hmd5@,
                        ac_id@,
                        ip@,
                        SRUN_N@,
                        SRUN_TYPE@,
                        info@,
                    ),
                ),
            ),
        ),
{
    let text = checksum_text(challenge, username, hmd5, ac_id, ip, info);
    sha1_hex(text.as_str())
}

/// The text that the bound-device logout sign is taken over: the timestamp,
/// the fields, then the timestamp again.
pub open spec fn logout_sign_text_of(
    timestamp: Seq<char>,
    username: Seq<char>,
    ip: Seq<char>,
    unbind: Seq<char>,
) -> Seq<char> {
    timestamp + username + ip + unbind + timestamp
}

/// The bound-device logout sign: lower-hex SHA-1 of the timestamp, the
/// user name, the address and `unbind`, closed by the timestamp again.
pub fn logout_sign(timestamp: &str, username: &str, ip: &str, unbind: &str) -> (r: String)
    ensures
        r@ == hex_lower(sha1_of(encode_utf8(logout_sign_text_of(timestamp@, username@, ip@, unbind@)))),
{
    let mut text = String::from_str(timestamp);
    text.append(username);
    text.append(ip);
    text.append(unbind);
    text.append(timestamp);
    sha1_hex(text.as_str())
}

} // verus!
