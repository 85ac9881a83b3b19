//! What goes over the wire: the error taxonomy, the GET requests that the
//! session issues, the unwrapping of JSONP bodies, the discovery of the
//! access-controller id and the typed responses.

use vstd::prelude::*;
use vstd::string::StringExecFns;
use vstd::string::StrSliceExecFns;

verus! {

#[verifier::external_type_specification]
#[verifier::external_body]
pub struct ExUrlParseError(url::ParseError);

/// The portal's base URL.
pub const SRUN_PORTAL: &'static str = "http://10.0.0.55";

/// Why an exchange with the portal did not complete.
#[derive(Debug, Clone, PartialEq, Eq)]
pub enum SrunError {
    /// The request did not get through; the text says why.
    Transport(String),
    /// A body too short to unwrap, or one that is no well-formed response;
    /// holds the offending text.
    Parse(String),
    /// The session's snapshot says the device is online; holds its address.
    AlreadyLoggedIn(String),
    /// The session's snapshot says the device is offline; holds its address.
    AlreadyLoggedOut(String),
    /// The redirect target is not a URL; holds it.
    BadRedirect(String),
    /// The redirect target has no `ac_id` query parameter; holds it.
    MissingAcId(String),
    /// The challenge token is empty, so no key can be built from it.
    EmptyChallenge,
    /// A login field could not be written as JSON.
    Encoding,
    /// The cipher output is too large to encode in memory.
    PayloadTooLarge,
}

/// Whether two texts hold the same characters.
pub fn same_text(a: &str, b: &str) -> (r: bool)
    ensures
        r == (a@ == b@),
{
    String::from_str(a) == String::from_str(b)
}

/// A GET request: the URL and its query parameters, in order.
pub struct PortalRequest {
    pub url: String,
    pub params: Vec<(String, String)>,
}

impl PortalRequest {
    /// The query parameters as pairs of texts.
    pub open spec fn query(&self) -> Seq<(Seq<char>, Seq<char>)> {
        self.params.deep_view()
    }
}

/// One query parameter.
pub fn param(name: &str, value: &str) -> (r: (String, String))
    ensures
        r.0@ == name@,
        r.1@ == value@,
{
    (String::from_str(name), String::from_str(value))
}

/// `base` followed by `path`.
pub fn join(base: &str, path: &str) -> (r: String)
    ensures
        r@ == base@ + path@,
{
    let mut r = String::from_str(base);
    r.append(path);
    r
}

/// The request whose redirect reveals the access-controller id: the
/// portal's root, with no query.
pub fn acid_request(portal: &str) -> (r: PortalRequest)
    ensures
        r.url@ == portal@,
        r.query() == Seq::<(Seq<char>, Seq<char>)>::empty(),
{
    let r = PortalRequest { url: String::from_str(portal), params: Vec::new() };
    assert(r.query() =~= Seq::<(Seq<char>, Seq<char>)>::empty());
    r
}

/// The request for the device's login state.
pub fn status_request(portal: &str) -> (r: PortalRequest)
    ensures
        r.url@ == portal@ + "/cgi-bin/rad_user_info"@,
        r.query() == seq![("callback"@, "jsonp"@)],
{
    let mut params: Vec<(String, String)> = Vec::new();
    params.push(param("callback", "jsonp"));
    let r = PortalRequest { url: join(portal, "/cgi-bin/rad_user_info"), params };
    assert(r.query() =~= seq![("callback"@, "jsonp"@)]);
    r
}

/// The JSON inside a JSONP body: all but the first six characters
/// (`jsonp(`) and the last one (`)`).
pub open spec fn jsonp_payload(raw: Seq<char>) -> Seq<char> {
    raw.subrange(6, raw.len() - 1)
}

/// Unwraps a JSONP body. A body of fewer than eight characters is a parse
/// error that carries the body.
pub fn unwrap_jsonp(raw: &str) -> (r: Result<String, SrunError>)
    ensures
        r is Err <==> raw@.len() < 8,
        r matches Ok(json) ==> json@ == jsonp_payload(raw@),
        r matches Err(e) ==> e matches SrunError::Parse(body) && body@ == raw@,
{
    let n = raw.unicode_len();
    if n < 8 {
        Err(SrunError::Parse(String::from_str(raw)))
    } else {
        Ok(String::from_str(raw.substring_char(6, n - 1)))
    }
}

/// The query of a URL as decoded (name, value) pairs in order, or `None`
/// where the text is not a URL.
pub uninterp spec fn url_query_of(url: Seq<char>) -> Option<Seq<(Seq<char>, Seq<char>)>>;

/// Relies on url's `Url::parse`, which fails exactly on texts that are not
/// URLs, and `Url::query_pairs`, which gives the decoded query pairs in
/// order.
#[verifier::external_body]
fn query_pairs(url: &str) -> (r: Result<Vec<(String, String)>, url::ParseError>)
    ensures
        r is Ok <==> url_query_of(url@) is Some,
        r matches Ok(pairs) ==> url_query_of(url@) == Some(pairs.deep_view()),
{
    let parsed = url::Url::parse(url)?;
    Ok(parsed.query_pairs().into_owned().collect())
}

/// The value of the first pair at or after `i` whose name is `name`.
pub open spec fn value_from(pairs: Seq<(Seq<char>, Seq<char>)>, name: Seq<char>, i: int) -> Option<
    Seq<char>,
>
    decreases pairs.len() - i,
{
    if i < 0 || i >= pairs.len() {
        None
    } else if pairs[i].0 == name {
        Some(pairs[i].1)
    } else {
        value_from(pairs, name, i + 1)
    }
}

/// The value of the first pair named `name`.
pub open spec fn first_value(pairs: Seq<(Seq<char>, Seq<char>)>, name: Seq<char>) -> Option<
    Seq<char>,
> {
    value_from(pairs, name, 0)
}

/// The value of the first `ac_id` pair of a decoded query.
pub fn ac_id_from_pairs(pairs: &Vec<(String, String)>) -> (r: Option<String>)
    ensures
        r is None <==> first_value(pairs.deep_view(), "ac_id"@) is None,
        r matches Some(v) ==> first_value(pairs.deep_view(), "ac_id"@) == Some(v@),
{
    let ghost q = pairs.deep_view();
    let mut i: usize = 0;
    while i < pairs.len()
        invariant
            q == pairs.deep_view(),
            i <= pairs@.len(),
            first_value(q, "ac_id"@) == value_from(q, "ac_id"@, i as int),
        decreases pairs@.len() - i,
    {
        if same_text(pairs[i].0.as_str(), "ac_id") {
            return Some(pairs[i].1.clone());
        }
        i = i + 1;
    }
    None
}

/// The access-controller id carried by the redirect target `url`: the
/// value of its first `ac_id` query parameter.
pub fn ac_id_from_url(url: &str) -> (r: Result<String, SrunError>)
    ensures
        url_query_of(url@) is None ==> (r matches Err(SrunError::BadRedirect(t)) && t@ == url@),
        url_query_of(url@) matches Some(q) ==> {
            &&& first_value(q, "ac_id"@) is None ==> (r matches Err(SrunError::MissingAcId(t))
                && t@ == url@)
            &&& first_value(q, "ac_id"@) matches Some(v) ==> (r matches Ok(a) && a@ == v)
        },
{
    match query_pairs(url) {
        Err(_) => Err(SrunError::BadRedirect(String::from_str(url))),
        Ok(pairs) => match ac_id_from_pairs(&pairs) {
            Some(v) => Ok(v),
            None => Err(SrunError::MissingAcId(String::from_str(url))),
        },
    }
}

/// The device's status as the portal reports it. `error` is `"ok"` when
/// the device is online and `"not_online_error"` when it is offline; the
/// account fields come only when online, the last group only when offline.
#[derive(Debug, Clone)]
pub struct SrunLoginState {
    pub error: String,
    pub online_ip: String,
    pub server_flag: Option<i64>,
    pub add_time: Option<i64>,
    pub all_bytes: Option<u64>,
    pub bytes_in: Option<u64>,
    pub bytes_out: Option<u64>,
    pub checkout_date: Option<u64>,
    pub domain: Option<String>,
    pub group_id: Option<String>,
    pub keepalive_time: Option<u64>,
    pub products_name: Option<String>,
    pub real_name: Option<String>,
    pub remain_bytes: Option<i64>,
    pub remain_seconds: Option<i64>,
    pub sum_bytes: Option<u64>,
    pub sum_seconds: Option<i64>,
    pub sysver: Option<String>,
    pub user_balance: Option<i64>,
    pub user_charge: Option<i64>,
    pub user_mac: Option<String>,
    pub user_name: Option<String>,
    pub wallet_balance: Option<i64>,
    pub client_ip: Option<String>,
    pub error_msg: Option<String>,
    pub res: Option<String>,
    pub srun_ver: Option<String>,
    pub st: Option<i64>,
}

impl SrunLoginState {
    /// Whether none of the optional fields is present.
    pub open spec fn has_no_details(&self) -> bool {
        &&& self.server_flag is None
        &&& self.add_time is None
        &&& self.all_bytes is None
        &&& self.bytes_in is None
        &&& self.bytes_out is None
        &&& self.checkout_date is None
        &&& self.domain is None
        &&& self.group_id is None
        &&& self.keepalive_time is None
        &&& self.products_name is None
        &&& self.real_name is None
        &&& self.remain_bytes is None
        &&& self.remain_seconds is None
        &&& self.sum_bytes is None
        &&& self.sum_seconds is None
        &&& self.sysver is None
        &&& self.user_balance is None
        &&& self.user_charge is None
        &&& self.user_mac is None
        &&& self.user_name is None
        &&& self.wallet_balance is None
        &&& self.client_ip is None
        &&& self.error_msg is None
        &&& self.res is None
        &&& self.srun_ver is None
        &&& self.st is None
    }

    /// A state with the two fields that are always present and no others.
    pub fn new(error: String, online_ip: String) -> (r: SrunLoginState)
        ensures
            r.error == error,
            r.online_ip == online_ip,
            r.has_no_details(),
    {
        SrunLoginState {
            error,
            online_ip,
            server_flag: None,
            add_time: None,
            all_bytes: None,
            bytes_in: None,
            bytes_out: None,
            checkout_date: None,
            domain: None,
            group_id: None,
            keepalive_time: None,
            products_name: None,
            real_name: None,
            remain_bytes: None,
            remain_seconds: None,
            sum_bytes: None,
            sum_seconds: None,
            sysver: None,
            user_balance: None,
            user_charge: None,
            user_mac: None,
            user_name: None,
            wallet_balance: None,
            client_ip: None,
            error_msg: None,
            res: None,
            srun_ver: None,
            st: None,
        }
    }

    /// Whether the portal reports the device online.
    pub fn is_online(&self) -> (r: bool)
        ensures
            r == (self.error@ == "ok"@),
    {
        same_text(self.error.as_str(), "ok")
    }

    /// Whether the portal reports the device offline.
    pub fn is_offline(&self) -> (r: bool)
        ensures
            r == (self.error@ == "not_online_error"@),
    {
        same_text(self.error.as_str(), "not_online_error")
    }

    /// The user name bound to the device, empty where none is reported.
    pub open spec fn bound_username(&self) -> Seq<char> {
        match self.user_name {
            Some(u) => u@,
            None => Seq::empty(),
        }
    }

    /// The user name bound to the device, empty where none is reported.
    pub fn logged_in_username(&self) -> (r: String)
        ensures
            r@ == self.bound_username(),
    {
        match &self.user_name {
            Some(u) => u.clone(),
            None => String::new(),
        }
    }
}

/// The portal's answer to a login or logout.
#[derive(Debug, Clone)]
pub struct SrunPortalResponse {
    pub access_token: Option<String>,
    pub username: Option<String>,
    pub suc_msg: Option<String>,
    pub client_ip: String,
    pub online_ip: String,
    pub error: String,
    pub error_msg: String,
    pub res: String,
}

impl SrunPortalResponse {
    /// A login succeeded when `error` is `"ok"`; anything else is the
    /// portal's refusal.
    pub fn login_succeeded(&self) -> (r: bool)
        ensures
            r == (self.error@ == "ok"@),
    {
        same_text(self.error.as_str(), "ok")
    }

    /// A logout succeeded when `error` is `"ok"` or `"logout_ok"`.
    pub fn logout_succeeded(&self) -> (r: bool)
        ensures
            r == (self.error@ == "ok"@ || self.error@ == "logout_ok"@),
    {
        same_text(self.error.as_str(), "ok") || same_text(self.error.as_str(), "logout_ok")
    }
}

/// The portal's answer to a challenge request: a one-time token.
#[derive(Debug, Clone)]
pub struct SrunChallenge {
    pub challenge: String,
}

} // verus!
