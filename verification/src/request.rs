//! The wire-level vocabulary of the remote service: resource addresses, the
//! encoding of a package name inside a search filter, and the classes of
//! response status that the workflow tells apart.

use crate::text::{decimal, push_decimal, push_signed_decimal, signed_decimal, to_chars};
use vstd::prelude::*;
use vstd::string::StringExecFns;

verus! {

/// The time that the transport allows one request, in seconds: long enough
/// for the largest payloads.
pub const TRANSPORT_TIMEOUT_SECONDS: u64 = 1800;

/// The characters that may not stand in a filter value as they are.
pub open spec fn reserved(c: char) -> bool {
    c == '%' || c == ' ' || c == '"' || c == '#' || c == '&' || c == '+'
}

/// The escape of one character: `%` and two hexadecimal digits for a
/// reserved character, the character itself otherwise.
pub open spec fn escape(c: char) -> Seq<char> {
    if c == '%' {
        seq!['%', '2', '5']
    } else if c == ' ' {
        seq!['%', '2', '0']
    } else if c == '"' {
        seq!['%', '2', '2']
    } else if c == '#' {
        seq!['%', '2', '3']
    } else if c == '&' {
        seq!['%', '2', '6']
    } else if c == '+' {
        seq!['%', '2', 'B']
    } else {
        seq![c]
    }
}

/// The filter value for `s`: each character replaced by its escape.
pub open spec fn encoded(s: Seq<char>) -> Seq<char>
    decreases s.len(),
{
    if s.len() == 0 {
        Seq::empty()
    } else {
        encoded(s.drop_last()) + escape(s.last())
    }
}

fn push_escape(out: &mut String, c: char)
    ensures
        final(out)@ == old(out)@ + escape(c),
{
    if c == '%' {
        out.append("%25");
        proof {
            reveal_strlit("%25");
        }
        assert("%25"@ =~= escape(c));
    } else if c == ' ' {
        out.append("%20");
        proof {
            reveal_strlit("%20");
        }
        assert("%20"@ =~= escape(c));
    } else if c == '"' {
        out.append("%22");
        proof {
            reveal_strlit("%22");
        }
        assert("%22"@ =~= escape(c));
    } else if c == '#' {
        out.append("%23");
        proof {
            reveal_strlit("%23");
        }
        assert("%23"@ =~= escape(c));
    } else if c == '&' {
        out.append("%26");
        proof {
            reveal_strlit("%26");
        }
        assert("%26"@ =~= escape(c));
    } else if c == '+' {
        out.append("%2B");
        proof {
            reveal_strlit("%2B");
        }
        assert("%2B"@ =~= escape(c));
    } else {
        out.push(c);
        assert(out@ =~= old(out)@ + escape(c));
    }
}

fn push_encoded(out: &mut String, s: &str)
    ensures
        final(out)@ == old(out)@ + encoded(s@),
{
    let chars = to_chars(s);
    let mut i: usize = 0;
    assert(chars@.take(0) =~= Seq::<char>::empty());
    assert(out@ =~= old(out)@ + encoded(chars@.take(0)));
    while i < chars.len()
        invariant
            i <= chars.len(),
            out@ == old(out)@ + encoded(chars@.take(i as int)),
        decreases chars.len() - i,
    {
        push_escape(out, chars[i]);
        proof {
            let next = chars@.take(i as int + 1);
            assert(next.drop_last() =~= chars@.take(i as int));
            assert(next.last() == chars@[i as int]);
            assert(out@ =~= old(out)@ + encoded(next));
        }
        i += 1;
    }
    assert(chars@.take(chars.len() as int) =~= chars@);
}

/// Percent-encodes a package name for use inside the search filter.
pub fn urlencoding(s: &str) -> (r: String)
    ensures
        r@ == encoded(s@),
{
    let mut r = String::new();
    push_encoded(&mut r, s);
    assert(r@ =~= encoded(s@));
    r
}

/// No reserved character other than the escape sign itself survives the
/// encoding.
pub proof fn lemma_encoded_has_no_reserved(s: Seq<char>, i: int)
    requires
        0 <= i < encoded(s).len(),
    ensures
        encoded(s)[i] == '%' || !reserved(encoded(s)[i]),
    decreases s.len(),
{
    if s.len() > 0 {
        let head = encoded(s.drop_last());
        if i < head.len() {
            lemma_encoded_has_no_reserved(s.drop_last(), i);
        }
    }
}

/// A name without reserved characters is its own encoding.
pub proof fn lemma_encoded_plain(s: Seq<char>)
    requires
        forall|i: int| 0 <= i < s.len() ==> !reserved(s[i]),
    ensures
        encoded(s) == s,
    decreases s.len(),
{
    if s.len() > 0 {
        lemma_encoded_plain(s.drop_last());
        assert(encoded(s) =~= s);
    }
}

/// The address of the token exchange.
pub open spec fn token_url_spec(base: Seq<char>) -> Seq<char> {
    base + "/api/oauth/token"@
}

/// The address of the first page, of 100 records, of the packages whose name
/// is exactly `name`.
pub open spec fn search_url_spec(base: Seq<char>, name: Seq<char>) -> Seq<char> {
    base + "/api/v1/packages?page=0&page-size=100&filter=packageName%3D%3D%22"@ + encoded(name)
        + "%22"@
}

/// The address of the packages resource, for creating a package.
pub open spec fn packages_url_spec(base: Seq<char>) -> Seq<char> {
    base + "/api/v1/packages"@
}

/// The address of the package `id`.
pub open spec fn package_url_spec(base: Seq<char>, id: Seq<char>) -> Seq<char> {
    base + "/api/v1/packages/"@ + id
}

/// The address that takes the payload of the package `id`.
pub open spec fn upload_url_spec(base: Seq<char>, id: Seq<char>) -> Seq<char> {
    base + "/api/v1/packages/"@ + id + "/upload"@
}

/// The address that triggers the recomputation of stored checksums.
pub open spec fn refresh_inventory_url_spec(base: Seq<char>) -> Seq<char> {
    base + "/api/v1/jcds/refresh-inventory"@
}

/// The address of the list of policies.
pub open spec fn policies_url_spec(base: Seq<char>) -> Seq<char> {
    base + "/JSSResource/policies"@
}

/// The address of the detail document of the policy `id`.
pub open spec fn policy_url_spec(base: Seq<char>, id: int) -> Seq<char> {
    base + "/JSSResource/policies/id/"@ + signed_decimal(id)
}

/// The address of the token exchange.
pub fn token_url(base: &str) -> (r: String)
    ensures
        r@ == token_url_spec(base@),
{
    String::from_str(base).concat("/api/oauth/token")
}

/// The address of the search for the package named `name`.
pub fn search_url(base: &str, name: &str) -> (r: String)
    ensures
        r@ == search_url_spec(base@, name@),
{
    let mut r = String::from_str(base);
    r.append("/api/v1/packages?page=0&page-size=100&filter=packageName%3D%3D%22");
    push_encoded(&mut r, name);
    r.append("%22");
    r
}

/// The address of the packages resource.
pub fn packages_url(base: &str) -> (r: String)
    ensures
        r@ == packages_url_spec(base@),
{
    String::from_str(base).concat("/api/v1/packages")
}

/// The address of the package `id`.
pub fn package_url(base: &str, id: &str) -> (r: String)
    ensures
        r@ == package_url_spec(base@, id@),
{
    String::from_str(base).concat("/api/v1/packages/").concat(id)
}

/// The address that takes the payload of the package `id`.
pub fn upload_url(base: &str, id: &str) -> (r: String)
    ensures
        r@ == upload_url_spec(base@, id@),
{
    String::from_str(base).concat("/api/v1/packages/").concat(id).concat("/upload")
}

/// The address that triggers the recomputation of stored checksums.
pub fn refresh_inventory_url(base: &str) -> (r: String)
    ensures
        r@ == refresh_inventory_url_spec(base@),
{
    String::from_str(base).concat("/api/v1/jcds/refresh-inventory")
}

/// The address of the list of policies.
pub fn policies_url(base: &str) -> (r: String)
    ensures
        r@ == policies_url_spec(base@),
{
    String::from_str(base).concat("/JSSResource/policies")
}

/// The address of the detail document of the policy `id`.
pub fn policy_url(base: &str, id: i64) -> (r: String)
    ensures
        r@ == policy_url_spec(base@, id as int),
{
    let mut r = String::from_str(base);
    r.append("/JSSResource/policies/id/");
    push_signed_decimal(&mut r, id);
    r
}

/// A status in the range 200 to 299.
pub open spec fn success(status: u16) -> bool {
    200 <= status <= 299
}

/// A status in the range 500 to 599.
pub open spec fn server_error(status: u16) -> bool {
    500 <= status <= 599
}

/// Whether the service accepted the request.
pub fn is_success(status: u16) -> (r: bool)
    ensures
        r == success(status),
{
    200 <= status && status <= 299
}

/// Whether the service failed on its own side.
pub fn is_server_error(status: u16) -> (r: bool)
    ensures
        r == server_error(status),
{
    500 <= status && status <= 599
}

/// The answer of the service to one request: its status and its body.
#[derive(Debug, Clone)]
pub struct Response {
    pub status: u16,
    pub body: String,
}

/// The operations of the remote service.
#[derive(Debug, Clone, Copy, PartialEq, Eq, Structural)]
pub enum Operation {
    Authenticate,
    FindPackage,
    CreatePackage,
    UpdatePackage,
    UploadFile,
    TriggerReindex,
    ReadDigest,
    ListPolicies,
    ReadPolicy,
}

/// The service refused an operation: which one, with what status, and the
/// body of its answer as it came.
#[derive(Debug)]
pub struct RemoteError {
    pub operation: Operation,
    pub status: u16,
    pub body: String,
}

/// How the failure of an operation is announced.
pub open spec fn failure_prefix(operation: Operation) -> Seq<char> {
    match operation {
        Operation::Authenticate => "Authentication failed"@,
        Operation::FindPackage => "Failed to search packages"@,
        Operation::CreatePackage => "Failed to create package"@,
        Operation::UpdatePackage => "Failed to update package metadata"@,
        Operation::UploadFile => "Failed to upload package"@,
        Operation::TriggerReindex => "Failed to refresh JCDS inventory"@,
        Operation::ReadDigest => "Failed to read package details"@,
        Operation::ListPolicies => "Failed to list policies"@,
        Operation::ReadPolicy => "Failed to fetch policy"@,
    }
}

/// The media type that a request for `operation` asks for, if it asks for
/// one: XML for the detail document of a policy, JSON for every other answer
/// that is read.
pub open spec fn media_type(operation: Operation) -> Option<Seq<char>> {
    match operation {
        Operation::Authenticate => None,
        Operation::CreatePackage => None,
        Operation::UpdatePackage => None,
        Operation::ReadPolicy => Some("application/xml"@),
        _ => Some("application/json"@),
    }
}

/// The value of the `Accept` header of a request for `operation`.
pub fn accept_header(operation: Operation) -> (r: Option<&'static str>)
    ensures
        match r {
            Some(value) => media_type(operation) == Some(value@),
            None => media_type(operation) is None,
        },
{
    match operation {
        Operation::Authenticate => None,
        Operation::CreatePackage => None,
        Operation::UpdatePackage => None,
        Operation::ReadPolicy => Some("application/xml"),
        _ => Some("application/json"),
    }
}

/// The fields of the token exchange: a client-credentials grant.
pub open spec fn token_form_spec(client_id: Seq<char>, client_secret: Seq<char>) -> Seq<
    (Seq<char>, Seq<char>),
> {
    seq![
        ("client_id"@, client_id),
        ("client_secret"@, client_secret),
        ("grant_type"@, "client_credentials"@),
    ]
}

/// The contents of a list of form fields.
pub open spec fn form_view(fields: Seq<(String, String)>) -> Seq<(Seq<char>, Seq<char>)> {
    Seq::new(fields.len(), |i: int| (fields[i].0@, fields[i].1@))
}

/// The form that is posted to exchange the credentials for a token.
pub fn token_form(client_id: &str, client_secret: &str) -> (r: Vec<(String, String)>)
    ensures
        form_view(r@) == token_form_spec(client_id@, client_secret@),
{
    let mut r: Vec<(String, String)> = Vec::new();
    r.push((String::from_str("client_id"), String::from_str(client_id)));
    r.push((String::from_str("client_secret"), String::from_str(client_secret)));
    r.push((String::from_str("grant_type"), String::from_str("client_credentials")));
    assert(form_view(r@) =~= token_form_spec(client_id@, client_secret@));
    r
}

/// How the failure of `operation` is announced.
pub fn announce(operation: Operation) -> (m: String)
    ensures
        m@ == failure_prefix(operation),
{
    String::from_str(
        match operation {
            Operation::Authenticate => "Authentication failed",
            Operation::FindPackage => "Failed to search packages",
            Operation::CreatePackage => "Failed to create package",
            Operation::UpdatePackage => "Failed to update package metadata",
            Operation::UploadFile => "Failed to upload package",
            Operation::TriggerReindex => "Failed to refresh JCDS inventory",
            Operation::ReadDigest => "Failed to read package details",
            Operation::ListPolicies => "Failed to list policies",
            Operation::ReadPolicy => "Failed to fetch policy",
        },
    )
}

/// Tells an accepted request from a refused one: the body of an answer with
/// a status from 200 to 299, or an error that carries the operation, the
/// status and the body.
pub fn accept(operation: Operation, response: Response) -> (r: Result<String, RemoteError>)
    ensures
        success(response.status) ==> r == Ok::<String, RemoteError>(response.body),
        !success(response.status) ==> r == Err::<String, RemoteError>(
            RemoteError { operation, status: response.status, body: response.body },
        ),
{
    if is_success(response.status) {
        Ok(response.body)
    } else {
        Err(RemoteError { operation, status: response.status, body: response.body })
    }
}

impl RemoteError {
    /// The message of this error.
    pub open spec fn message_spec(self) -> Seq<char> {
        failure_prefix(self.operation) + " (HTTP "@ + decimal(self.status as nat) + "): "@
            + self.body@
    }

    /// One line that names the operation, the status and the body.
    pub fn message(&self) -> (m: String)
        ensures
            m@ == self.message_spec(),
    {
        let mut m = announce(self.operation);
        m.append(" (HTTP ");
        push_decimal(&mut m, self.status as u64);
        m.append("): ");
        m.append(self.body.as_str());
        m
    }
}

} // verus!
