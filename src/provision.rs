//! Provisioning against the stack's HTTP API: what the replies mean, which
//! tenants are provisioned, and the device-registration request.
use vstd::prelude::*;
use vstd::string::*;
use vstd::utf8::encode_utf8;
use crate::envfile::chars_equal;
use crate::request::given;
use crate::text::{chars_of, is_blank, is_blank_str, string_of, trim, trim_str};

verus! {

/// A tenant as the API lists it.
pub struct Company {
    pub id: String,
    pub name: Option<String>,
}

/// A branch of a tenant as the API lists it.
pub struct Branch {
    pub id: Option<String>,
    pub name: Option<String>,
}

/// Reply to a login.
pub struct LoginReply {
    pub mfa_required: bool,
    pub token: Option<String>,
}

/// Reply to a device registration.
pub struct Registration {
    pub id: Option<String>,
    pub token: Option<String>,
}

/// A device registered on this run.
pub struct DeviceRecord {
    pub company_id: String,
    pub company_name: String,
    pub branch_id: Option<String>,
    pub branch_name: Option<String>,
    pub device_code: String,
    pub device_id: String,
    pub device_token: String,
}

/// Why provisioning stopped.
#[derive(Debug)]
pub enum ProvisionError {
    /// The admin account needs a second factor, which automation cannot give.
    MfaRequired,
    /// Login answered without a token.
    NoToken,
    /// The admin sees no tenant.
    NoCompanies,
    /// A registration answered without a device id or token; holds the code.
    RegistrationIncomplete(String),
}

/// The token of a login reply, or why there is none.
pub open spec fn login_token_spec(r: LoginReply) -> Result<Seq<char>, ProvisionError> {
    if r.mfa_required {
        Err(ProvisionError::MfaRequired)
    } else {
        match r.token {
            Some(t) => if is_blank(t@) {
                Err(ProvisionError::NoToken)
            } else {
                Ok(t@)
            },
            None => Err(ProvisionError::NoToken),
        }
    }
}

/// Reads the bearer token out of a login reply.
pub fn login_token(r: &LoginReply) -> (t: Result<String, ProvisionError>)
    ensures
        match login_token_spec(*r) {
            Ok(s) => t is Ok && t->Ok_0@ == s,
            Err(e) => t is Err && t->Err_0 == e,
        },
{
    if r.mfa_required {
        return Err(ProvisionError::MfaRequired);
    }
    match &r.token {
        Some(t) => {
            if is_blank_str(t.as_str()) {
                Err(ProvisionError::NoToken)
            } else {
                Ok(t.clone())
            }
        },
        None => Err(ProvisionError::NoToken),
    }
}

/// The trimmed, non-empty entries of a tenant filter.
pub open spec fn filter_ids(f: Seq<String>) -> Set<Seq<char>> {
    Set::new(|t: Seq<char>| exists|i: int| 0 <= i < f.len() && trim(#[trigger] f[i]@) == t && t.len() > 0)
}

/// A tenant is provisioned when its trimmed id is not empty and the filter is
/// empty or names it.
pub open spec fn company_selected_spec(id: Seq<char>, f: Seq<String>) -> bool {
    trim(id).len() > 0 && (filter_ids(f).is_empty() || filter_ids(f).contains(trim(id)))
}

/// Whether a tenant is provisioned on this run.
pub fn company_selected(id: &str, filter: &Vec<String>) -> (r: bool)
    ensures
        r == company_selected_spec(id@, filter@),
{
    let tid = trim_str(id);
    let tc = chars_of(tid.as_str());
    if tc.len() == 0 {
        return false;
    }
    let mut any = false;
    let mut found = false;
    let mut i: usize = 0;
    while i < filter.len()
        invariant
            i <= filter.len(),
            tc@ == trim(id@),
            any == exists|j: int| 0 <= j < i && trim(#[trigger] filter@[j]@).len() > 0,
            found == exists|j: int| 0 <= j < i && trim(#[trigger] filter@[j]@) == tc@,
        decreases filter.len() - i,
    {
        let fc = chars_of(trim_str(filter[i].as_str()).as_str());
        if fc.len() > 0 {
            any = true;
        }
        if chars_equal(&fc, &tc) {
            found = true;
        }
        i = i + 1;
    }
    proof {
        let s = filter_ids(filter@);
        if any {
            let j = choose|j: int| 0 <= j < filter@.len() && trim(#[trigger] filter@[j]@).len() > 0;
            assert(s.contains(trim(filter@[j]@)));
        } else {
            assert(s =~= Set::empty());
        }
        if found {
            let j = choose|j: int| 0 <= j < filter@.len() && trim(#[trigger] filter@[j]@) == tc@;
            assert(s.contains(tc@));
        }
    }
    !any || found
}

pub open spec fn is_unreserved(b: u8) -> bool {
    (0x30 <= b && b <= 0x39) || (0x41 <= b && b <= 0x5a) || (0x61 <= b && b <= 0x7a) || b == 0x2d
        || b == 0x2e || b == 0x5f || b == 0x7e
}

pub open spec fn hex_upper(d: u8) -> char {
    if d < 10 {
        (0x30 + d) as char
    } else {
        (0x41 + d - 10) as char
    }
}

/// Percent-encoding of bytes: unreserved bytes stay, each other byte becomes
/// `%` and two upper-case hex digits.
pub open spec fn percent_encode(b: Seq<u8>) -> Seq<char>
    decreases b.len(),
{
    if b.len() == 0 {
        Seq::empty()
    } else {
        let last = b.last();
        let tail = if is_unreserved(last) {
            seq![last as char]
        } else {
            seq!['%', hex_upper(last / 16), hex_upper(last % 16)]
        };
        percent_encode(b.drop_last()) + tail
    }
}

/// Relies on `urlencoding::encode`: every byte of the UTF-8 text but ASCII
/// letters, digits and `-._~` is written as `%XX`.
#[verifier::external_body]
fn url_encode(s: &str) -> (r: String)
    ensures
        r@ == percent_encode(encode_utf8(s@)),
{
    urlencoding::encode(s).into_owned()
}

/// The registration request for one device. `reset_token=true` makes a
/// repeated registration of the same code re-issue the device's token
/// instead of failing.
pub open spec fn register_url_spec(
    api_base: Seq<char>,
    company_id: Seq<char>,
    device_code: Seq<char>,
    branch_id: Option<String>,
) -> Seq<char> {
    let q = "company_id="@ + percent_encode(encode_utf8(company_id)) + "&device_code="@
        + percent_encode(encode_utf8(device_code)) + "&reset_token=true"@;
    let q2 = match given(branch_id) {
        Some(b) => q + "&branch_id="@ + percent_encode(encode_utf8(b)),
        None => q,
    };
    api_base + "/pos/devices/register?"@ + q2
}

/// Builds the registration request for one device.
pub fn register_url(
    api_base: &str,
    company_id: &str,
    device_code: &str,
    branch_id: &Option<String>,
) -> (r: String)
    ensures
        r@ == register_url_spec(api_base@, company_id@, device_code@, *branch_id),
{
    let mut u = String::from_str(api_base);
    u.append("/pos/devices/register?");
    u.append("company_id=");
    u.append(url_encode(company_id).as_str());
    u.append("&device_code=");
    u.append(url_encode(device_code).as_str());
    u.append("&reset_token=true");
    match branch_id {
        Some(b) => {
            if !is_blank_str(b.as_str()) {
                u.append("&branch_id=");
                u.append(url_encode(b.as_str()).as_str());
            }
        },
        None => {},
    }
    u
}

/// The device record of a registration reply, or the error naming the code
/// when the reply lacks an id or a token.
pub open spec fn registration_ok(r: Registration) -> bool {
    r.id is Some && !is_blank(r.id->Some_0@) && r.token is Some && !is_blank(r.token->Some_0@)
}

/// Checks a registration reply and reads its id and token.
pub fn registration_parts(r: &Registration, device_code: &str) -> (out: Result<(String, String), ProvisionError>)
    ensures
        registration_ok(*r) ==> out is Ok && out->Ok_0.0@ == r.id->Some_0@ && out->Ok_0.1@ == r.token->Some_0@,
        !registration_ok(*r) ==> out is Err && out->Err_0 is RegistrationIncomplete
            && out->Err_0->RegistrationIncomplete_0@ == device_code@,
{
    match (&r.id, &r.token) {
        (Some(id), Some(tok)) => {
            if !is_blank_str(id.as_str()) && !is_blank_str(tok.as_str()) {
                return Ok((id.clone(), tok.clone()));
            }
        },
        _ => {},
    }
    Err(ProvisionError::RegistrationIncomplete(String::from_str(device_code)))
}

/// Registration re-issues tokens: every registration request asks for the
/// device's token to be reset, so registering an existing code again refreshes
/// its token rather than creating a second device; and the request is made of
/// the base URL, tenant, code and branch alone, so a re-run with the same
/// tenants and codes sends the same requests.
pub proof fn lemma_registration_resets_token(
    api_base: Seq<char>,
    company_id: Seq<char>,
    device_code: Seq<char>,
    branch_id: Option<String>,
)
    ensures
        crate::text::contains(
            register_url_spec(api_base, company_id, device_code, branch_id),
            "&reset_token=true"@,
        ),
{
    let head = api_base + "/pos/devices/register?"@ + ("company_id="@ + percent_encode(
        encode_utf8(company_id),
    ) + "&device_code="@ + percent_encode(encode_utf8(device_code)));
    let q = "company_id="@ + percent_encode(encode_utf8(company_id)) + "&device_code="@
        + percent_encode(encode_utf8(device_code)) + "&reset_token=true"@;
    let u = register_url_spec(api_base, company_id, device_code, branch_id);
    let n = head.len() as int;
    let lit = "&reset_token=true"@;
    match given(branch_id) {
        Some(b) => {
            assert(u == head + lit + ("&branch_id="@ + percent_encode(encode_utf8(b))));
            assert(u.subrange(n, n + lit.len()) =~= lit);
        },
        None => {
            assert(u == head + lit);
            assert(u.subrange(n, n + lit.len()) =~= lit);
        },
    }
    assert(crate::text::occurs_at(u, lit, n));
}

} // verus!
