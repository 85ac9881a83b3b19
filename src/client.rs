//! The session: what it holds once the access-controller id and the
//! device's state are known, and its login and logout decisions. Each
//! step returns the request to send; the caller performs it and hands the
//! answer to the next step.

use crate::portal::same_text;
use crate::portal::join;
use crate::portal::param;
use crate::portal::PortalRequest;
use crate::portal::SrunError;
use crate::portal::SrunLoginState;
use crate::portal::SRUN_PORTAL;
use crate::signature::hex_lower;
use crate::signature::login_checksum;
use crate::signature::logout_sign;
use crate::signature::logout_sign_text_of;
use crate::signature::password_digest;
use crate::signature::checksum_text_of;
use crate::signature::hmac_md5_of;
use crate::signature::sha1_of;
use crate::signature::SRUN_N;
use crate::signature::SRUN_TYPE;
use crate::xencode::b64_encode;
use crate::xencode::b64_len;
use crate::xencode::fkbase64;
use crate::xencode::xencode;
use crate::xencode::xencode_bytes;
use crate::xencode::BASE64_ALPHABET;
use vstd::prelude::*;
use vstd::string::StringExecFns;
use vstd::utf8::encode_utf8;

verus! {

#[verifier::external_type_specification]
#[verifier::external_body]
pub struct ExJsonError(serde_json::Error);

/// The JSON string literal of a text, quoted and escaped, or `None` where
/// it cannot be written.
pub uninterp spec fn json_string_of(s: Seq<char>) -> Option<Seq<char>>;

/// Relies on serde_json's `to_string` on a `str`: the JSON string literal
/// of the text; what it fails on depends on the text alone.
#[verifier::external_body]
fn json_string(s: &str) -> (r: Result<String, serde_json::Error>)
    ensures
        r is Ok <==> json_string_of(s@) is Some,
        r matches Ok(j) ==> json_string_of(s@) == Some(j@),
{
    serde_json::to_string(s)
}

/// Relies on chrono's `Utc::now`: the current Unix time in seconds.
#[verifier::external_body]
fn unix_time_now() -> i64 {
    chrono::Utc::now().timestamp()
}

/// The decimal digit `d` (below 10).
pub open spec fn digit_char(d: nat) -> char {
    (48 + d) as char
}

/// The decimal digits of `m`, most significant first, without leading zeros.
pub open spec fn digits_of(m: nat) -> Seq<char>
    decreases m,
{
    if m < 10 {
        seq![digit_char(m)]
    } else {
        digits_of(m / 10).push(digit_char(m % 10))
    }
}

/// `n` in decimal, with a leading `-` when negative.
pub open spec fn decimal_of(n: int) -> Seq<char> {
    if n < 0 {
        seq!['-'] + digits_of((-n) as nat)
    } else {
        digits_of(n as nat)
    }
}

fn push_digits(s: &mut String, m: u64)
    ensures
        final(s)@ == old(s)@ + digits_of(m as nat),
    decreases m,
{
    if m >= 10 {
        push_digits(s, m / 10);
    }
    let d: u8 = (m % 10) as u8;
    s.push((48 + d) as char);
    assert(final(s)@ =~= old(s)@ + digits_of(m as nat));
}

/// `n` in decimal, as `to_string` writes it.
pub fn decimal(n: i64) -> (r: String)
    ensures
        r@ == decimal_of(n as int),
{
    let mut r = String::new();
    if n < 0 {
        r.push('-');
        let m: u64 = (-(n as i128)) as u64;
        push_digits(&mut r, m);
    } else {
        push_digits(&mut r, n as u64);
    }
    assert(r@ =~= decimal_of(n as int));
    r
}

/// The JSON object that the login info carries, as serde_json writes it
/// (keys in sorted order), or `None` where a field cannot be written.
pub open spec fn login_payload_of(
    username: Seq<char>,
    password: Seq<char>,
    ip: Seq<char>,
    ac_id: Seq<char>,
) -> Option<Seq<char>> {
    match (
        json_string_of(ac_id),
        json_string_of(ip),
        json_string_of(password),
        json_string_of(username),
    ) {
        (Some(qa), Some(qi), Some(qp), Some(qu)) => Some(payload_object_of(qa, qi, qp, qu)),
        _ => None,
    }
}

/// The login payload's JSON object from its fields already written as
/// JSON strings, keys in sorted order.
pub open spec fn payload_object_of(qa: Seq<char>, qi: Seq<char>, qp: Seq<char>, qu: Seq<char>) -> Seq<
    char,
> {
    "{\"acid\":"@ + qa + ",\"enc_ver\":\"srun_bx1\",\"ip\":"@ + qi + ",\"password\":"@ + qp
        + ",\"username\":"@ + qu + "}"@
}

/// Assembles the payload object from the JSON strings of `ac_id`, `ip`,
/// `password` and `username`.
pub fn payload_object(qa: &str, qi: &str, qp: &str, qu: &str) -> (r: String)
    ensures
        r@ == payload_object_of(qa@, qi@, qp@, qu@),
{
    let mut r = String::from_str("{\"acid\":");
    r.append(qa);
    r.append(",\"enc_ver\":\"srun_bx1\",\"ip\":");
    r.append(qi);
    r.append(",\"password\":");
    r.append(qp);
    r.append(",\"username\":");
    r.append(qu);
    r.append("}");
    r
}

/// Writes the login payload `{acid, enc_ver, ip, password, username}`.
pub fn login_payload(username: &str, password: &str, ip: &str, ac_id: &str) -> (r: Result<
    String,
    SrunError,
>)
    ensures
        r is Ok <==> login_payload_of(username@, password@, ip@, ac_id@) is Some,
        r matches Ok(p) ==> login_payload_of(username@, password@, ip@, ac_id@) == Some(p@),
        r matches Err(e) ==> e == SrunError::Encoding,
{
    let qa = match json_string(ac_id) {
        Ok(q) => q,
        Err(_) => return Err(SrunError::Encoding),
    };
    let qi = match json_string(ip) {
        Ok(q) => q,
        Err(_) => return Err(SrunError::Encoding),
    };
    let qp = match json_string(password) {
        Ok(q) => q,
        Err(_) => return Err(SrunError::Encoding),
    };
    let qu = match json_string(username) {
        Ok(q) => q,
        Err(_) => return Err(SrunError::Encoding),
    };
    Ok(payload_object(qa.as_str(), qi.as_str(), qp.as_str(), qu.as_str()))
}

/// The cipher output for the payload under the challenge token.
pub open spec fn login_cipher_of(payload: Seq<char>, token: Seq<char>) -> Seq<u8> {
    xencode_bytes(encode_utf8(payload), encode_utf8(token))
}

/// The login `info` parameter: the marker `{SRBX1}`, then the base64 of
/// the cipher output over the portal's alphabet.
pub open spec fn login_info_of(payload: Seq<char>, token: Seq<char>) -> Seq<char> {
    "{SRBX1}"@ + b64_encode(BASE64_ALPHABET@, login_cipher_of(payload, token))
}

/// Encodes the payload under the challenge token into the `info`
/// parameter; fails only where the encoding would not fit in memory.
pub fn encode_info(payload: &str, challenge: &str) -> (r: Result<String, SrunError>)
    ensures
        r is Err <==> b64_len(login_cipher_of(payload@, challenge@).len()) > usize::MAX,
        r matches Ok(info) ==> info@ == login_info_of(payload@, challenge@),
        r matches Err(e) ==> e == SrunError::PayloadTooLarge,
{
    let encoded = xencode(payload, challenge);
    let n = encoded.len();
    let groups: usize = n / 3 + if n % 3 == 0 {
        0
    } else {
        1
    };
    assert(groups == (n + 2) / 3);
    if groups > usize::MAX / 4 {
        return Err(SrunError::PayloadTooLarge);
    }
    let mut info = String::from_str("{SRBX1}");
    let body = fkbase64(encoded);
    info.append(body.as_str());
    Ok(info)
}

/// The digest sent as the password: lower-hex HMAC-MD5 of the token keyed
/// by itself.
pub open spec fn hmd5_of(token: Seq<char>) -> Seq<char> {
    hex_lower(hmac_md5_of(encode_utf8(token), encode_utf8(token)))
}

/// The login checksum over the given fields.
pub open spec fn chksum_of(
    token: Seq<char>,
    username: Seq<char>,
    hmd5: Seq<char>,
    ac_id: Seq<char>,
    ip: Seq<char>,
    info: Seq<char>,
) -> Seq<char> {
    hex_lower(
        sha1_of(
            encode_utf8(checksum_text_of(token, username, hmd5, ac_id, ip, SRUN_N@, SRUN_TYPE@, info)),
        ),
    )
}

/// The query of a login submission, in the order it is sent.
pub open spec fn login_query_of(
    username: Seq<char>,
    hmd5: Seq<char>,
    chksum: Seq<char>,
    info: Seq<char>,
    ac_id: Seq<char>,
    ip: Seq<char>,
) -> Seq<(Seq<char>, Seq<char>)> {
    seq![
        ("callback"@, "jsonp"@),
        ("action"@, "login"@),
        ("username"@, username),
        ("password"@, "{MD5}"@ + hmd5),
        ("chksum"@, chksum),
        ("info"@, info),
        ("ac_id"@, ac_id),
        ("ip"@, ip),
        ("type"@, SRUN_TYPE@),
        ("n"@, SRUN_N@),
    ]
}

/// The query of a login submission from its computed parts.
pub fn login_params(
    username: &str,
    hmd5: &str,
    chksum: &str,
    info: &str,
    ac_id: &str,
    ip: &str,
) -> (r: Vec<(String, String)>)
    ensures
        r.deep_view() == login_query_of(username@, hmd5@, chksum@, info@, ac_id@, ip@),
{
    let mut password = String::from_str("{MD5}");
    password.append(hmd5);
    let mut params: Vec<(String, String)> = Vec::new();
    params.push(param("callback", "jsonp"));
    params.push(param("action", "login"));
    params.push(param("username", username));
    params.push(param("password", password.as_str()));
    params.push(param("chksum", chksum));
    params.push(param("info", info));
    params.push(param("ac_id", ac_id));
    params.push(param("ip", ip));
    params.push(param("type", SRUN_TYPE));
    params.push(param("n", SRUN_N));
    assert(params.deep_view() =~= login_query_of(username@, hmd5@, chksum@, info@, ac_id@, ip@));
    params
}

/// The query of a standard logout.
pub open spec fn logout_query_of(ip: Seq<char>, username: Seq<char>, ac_id: Seq<char>) -> Seq<
    (Seq<char>, Seq<char>),
> {
    seq![
        ("callback"@, "jsonp"@),
        ("ip"@, ip),
        ("username"@, username),
        ("action"@, "logout"@),
        ("ac_id"@, ac_id),
    ]
}

/// The query of a bound-device logout at Unix time `t`.
pub open spec fn dm_logout_query_of(ip: Seq<char>, username: Seq<char>, t: int) -> Seq<
    (Seq<char>, Seq<char>),
> {
    let time = decimal_of(t);
    seq![
        ("callback"@, "jsonp"@),
        ("ip"@, ip),
        ("username"@, username),
        ("time"@, time),
        ("unbind"@, "1"@),
        ("sign"@, hex_lower(sha1_of(encode_utf8(logout_sign_text_of(time, username, ip, "1"@))))),
    ]
}

/// What a logout will do: the request to send, and whether the device's
/// bound user name or address differ from the session's own (worth a
/// warning, no reason to stop).
pub struct LogoutPlan {
    pub user_mismatch: bool,
    pub ip_mismatch: bool,
    pub request: PortalRequest,
}

/// A session with the portal: the credentials, the effective address, the
/// access-controller id, whether the device logs out through the
/// bound-device endpoint, and the state captured when it was made.
pub struct SrunClient {
    pub portal: String,
    pub username: String,
    pub password: String,
    pub ip: String,
    pub ac_id: String,
    pub dm: bool,
    pub login_state: SrunLoginState,
}

impl SrunClient {
    /// Makes a session for the default portal from the discovered `ac_id`
    /// and state. The address is `ip` where given, else the state's
    /// online address; `dm` defaults to false.
    pub fn new(
        username: String,
        password: String,
        ac_id: String,
        login_state: SrunLoginState,
        ip: Option<String>,
        dm: Option<bool>,
    ) -> (r: SrunClient)
        ensures
            r.portal@ == SRUN_PORTAL@,
            r.username == username,
            r.password == password,
            r.ac_id == ac_id,
            r.ip@ == (match ip {
                Some(i) => i@,
                None => login_state.online_ip@,
            }),
            r.dm == (match dm {
                Some(d) => d,
                None => false,
            }),
            r.login_state == login_state,
    {
        let ip = match ip {
            Some(i) => i,
            None => login_state.online_ip.clone(),
        };
        let dm = match dm {
            Some(d) => d,
            None => false,
        };
        SrunClient {
            portal: String::from_str(SRUN_PORTAL),
            username,
            password,
            ip,
            ac_id,
            dm,
            login_state,
        }
    }

    /// Starts a login. Unless forced, a session whose snapshot is online
    /// stops here with `AlreadyLoggedIn` and no request; otherwise the
    /// result is the challenge request for the user name and address.
    pub fn login(&self, force: bool) -> (r: Result<PortalRequest, SrunError>)
        ensures
            self.login_state.error@ == "ok"@ && !force ==> (r matches Err(
                SrunError::AlreadyLoggedIn(a),
            ) && a@ == self.login_state.online_ip@),
            !(self.login_state.error@ == "ok"@ && !force) ==> (r matches Ok(req) && req.url@
                == self.portal@ + "/cgi-bin/get_challenge"@ && req.query() == seq![
                ("callback"@, "jsonp"@),
                ("username"@, self.username@),
                ("ip"@, self.ip@),
            ]),
    {
        if self.login_state.is_online() && !force {
            return Err(SrunError::AlreadyLoggedIn(self.login_state.online_ip.clone()));
        }
        let mut params: Vec<(String, String)> = Vec::new();
        params.push(param("callback", "jsonp"));
        params.push(param("username", self.username.as_str()));
        params.push(param("ip", self.ip.as_str()));
        let req = PortalRequest {
            url: join(self.portal.as_str(), "/cgi-bin/get_challenge"),
            params,
        };
        assert(req.query() =~= seq![
            ("callback"@, "jsonp"@),
            ("username"@, self.username@),
            ("ip"@, self.ip@),
        ]);
        Ok(req)
    }

    /// What `login_submission` returns for the challenge token `token`.
    pub open spec fn login_submission_spec(
        &self,
        token: Seq<char>,
        r: Result<PortalRequest, SrunError>,
    ) -> bool {
        if token.len() == 0 {
            r == Err::<PortalRequest, SrunError>(SrunError::EmptyChallenge)
        } else {
            match login_payload_of(self.username@, self.password@, self.ip@, self.ac_id@) {
                None => r == Err::<PortalRequest, SrunError>(SrunError::Encoding),
                Some(payload) => {
                    if b64_len(login_cipher_of(payload, token).len()) > usize::MAX {
                        r == Err::<PortalRequest, SrunError>(SrunError::PayloadTooLarge)
                    } else {
                        let info = login_info_of(payload, token);
                        let hmd5 = hmd5_of(token);
                        let chksum = chksum_of(
                            token,
                            self.username@,
                            hmd5,
                            self.ac_id@,
                            self.ip@,
                            info,
                        );
                        r matches Ok(req) && req.url@ == self.portal@ + "/cgi-bin/srun_portal"@
                            && req.query() == login_query_of(
                            self.username@,
                            hmd5,
                            chksum,
                            info,
                            self.ac_id@,
                            self.ip@,
                        )
                    }
                },
            }
        }
    }

    /// Builds the login submission from the challenge token: the payload
    /// is enciphered under the token and encoded as `info`, the password is
    /// sent as `{MD5}` and the token's digest, and the checksum signs it all.
    pub fn login_submission(&self, challenge: &str) -> (r: Result<PortalRequest, SrunError>)
        ensures
            self.login_submission_spec(challenge@, r),
    {
        if challenge.is_empty() {
            return Err(SrunError::EmptyChallenge);
        }
        let payload = match login_payload(
            self.username.as_str(),
            self.password.as_str(),
            self.ip.as_str(),
            self.ac_id.as_str(),
        ) {
            Ok(p) => p,
            Err(e) => return Err(e),
        };
        let info = match encode_info(payload.as_str(), challenge) {
            Ok(i) => i,
            Err(e) => return Err(e),
        };
        let hmd5 = password_digest(challenge);
        let chksum = login_checksum(
            challenge,
            self.username.as_str(),
            hmd5.as_str(),
            self.ac_id.as_str(),
            self.ip.as_str(),
            info.as_str(),
        );
        let params = login_params(
            self.username.as_str(),
            hmd5.as_str(),
            chksum.as_str(),
            info.as_str(),
            self.ac_id.as_str(),
            self.ip.as_str(),
        );
        let req = PortalRequest { url: join(self.portal.as_str(), "/cgi-bin/srun_portal"), params };
        Ok(req)
    }

    /// What `logout_at` returns at Unix time `t`.
    pub open spec fn logout_spec(&self, force: bool, t: int, r: Result<LogoutPlan, SrunError>) -> bool {
        if self.login_state.error@ == "not_online_error"@ && !force {
            r matches Err(SrunError::AlreadyLoggedOut(a)) && a@ == self.ip@
        } else {
            let user = self.login_state.bound_username();
            r matches Ok(plan) && plan.user_mismatch == (user != self.username@)
                && plan.ip_mismatch == (self.login_state.online_ip@ != self.ip@) && (if self.dm {
                plan.request.url@ == self.portal@ + "/cgi-bin/rad_user_dm"@
                    && plan.request.query() == dm_logout_query_of(self.ip@, user, t)
            } else {
                plan.request.url@ == self.portal@ + "/cgi-bin/srun_portal"@
                    && plan.request.query() == logout_query_of(self.ip@, user, self.ac_id@)
            })
        }
    }

    /// Plans a logout at Unix time `timestamp`. Unless forced, a session
    /// whose snapshot is offline stops with `AlreadyLoggedOut`. Otherwise
    /// the logout goes ahead for the user name bound to the device, with
    /// the mismatches flagged, through the bound-device endpoint (signed
    /// with the timestamp) where `dm` is set and the standard one otherwise.
    pub fn logout_at(&self, force: bool, timestamp: i64) -> (r: Result<LogoutPlan, SrunError>)
        ensures
            self.logout_spec(force, timestamp as int, r),
            !(self.login_state.error@ == "not_online_error"@ && !force)
                && self.login_state.bound_username() != self.username@ ==> (r matches Ok(plan)
                && plan.user_mismatch),
    {
        if self.login_state.is_offline() && !force {
            return Err(SrunError::AlreadyLoggedOut(self.ip.clone()));
        }
        let user = self.login_state.logged_in_username();
        let user_mismatch = !same_text(user.as_str(), self.username.as_str());
        let ip_mismatch = !same_text(self.login_state.online_ip.as_str(), self.ip.as_str());
        let mut params: Vec<(String, String)> = Vec::new();
        params.push(param("callback", "jsonp"));
        params.push(param("ip", self.ip.as_str()));
        params.push(param("username", user.as_str()));
        let url;
        if self.dm {
            let time = decimal(timestamp);
            let sign = logout_sign(time.as_str(), user.as_str(), self.ip.as_str(), "1");
            params.push(param("time", time.as_str()));
            params.push(param("unbind", "1"));
            params.push(param("sign", sign.as_str()));
            url = join(self.portal.as_str(), "/cgi-bin/rad_user_dm");
            assert(params.deep_view() =~= dm_logout_query_of(self.ip@, user@, timestamp as int));
        } else {
            params.push(param("action", "logout"));
            params.push(param("ac_id", self.ac_id.as_str()));
            url = join(self.portal.as_str(), "/cgi-bin/srun_portal");
            assert(params.deep_view() =~= logout_query_of(self.ip@, user@, self.ac_id@));
        }
        Ok(LogoutPlan { user_mismatch, ip_mismatch, request: PortalRequest { url, params } })
    }

    /// Plans a logout now: as `logout_at` at the current Unix time, read
    /// from the clock only for the bound-device endpoint.
    pub fn logout(&self, force: bool) -> (r: Result<LogoutPlan, SrunError>)
        ensures
            exists|t: i64| self.logout_spec(force, t as int, r),
    {
        let t: i64 = if self.dm {
            unix_time_now()
        } else {
            0
        };
        let r = self.logout_at(force, t);
        assert(self.logout_spec(force, t as int, r));
        r
    }
}

} // verus!
