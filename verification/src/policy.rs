//! Policy impact scanning: which deployment policies refer to the package
//! that is about to be replaced.
//!
//! A policy's detail document is searched by structure, not parsed: the
//! package-assignment section runs from the first opening marker to the end
//! of the first closing marker, and a policy refers to the package when that
//! section holds the package's display name or file name between the
//! section's name delimiters.

use crate::text::{
    contains_seq, decimal, find, occurs_at, position, push_decimal, push_signed_decimal,
    signed_decimal, to_chars,
};
use vstd::string::StringExecFns;
use vstd::prelude::*;

verus! {

/// The answer of the service to a request for all policies.
#[derive(Debug)]
pub struct PolicyListResponse {
    pub policies: Option<Vec<PolicySummary>>,
}

/// Identifier and name of a policy.
#[derive(Debug)]
pub struct PolicySummary {
    pub id: i64,
    pub name: String,
}

/// A policy that refers to the package under replacement.
#[derive(Debug)]
pub struct AffectedPolicy {
    pub id: i64,
    pub name: String,
}

/// A detail document could not be fetched: the policy it belongs to, the
/// status the service answered with, and the body of that answer.
#[derive(Debug)]
pub struct PolicyScanError {
    pub policy_id: i64,
    pub status: u16,
    pub body: String,
}

/// What fetching one detail document gave: the document, or the status and
/// body of the refusal.
#[derive(Debug)]
pub enum Fetched {
    Document(String),
    Refused { status: u16, body: String },
}

/// Identifier and name, as mathematical values.
pub ghost struct PolicyView {
    pub id: int,
    pub name: Seq<char>,
}

impl View for PolicySummary {
    type V = PolicyView;

    open spec fn view(&self) -> PolicyView {
        PolicyView { id: self.id as int, name: self.name@ }
    }
}

impl View for AffectedPolicy {
    type V = PolicyView;

    open spec fn view(&self) -> PolicyView {
        PolicyView { id: self.id as int, name: self.name@ }
    }
}

/// The marker that opens the section `tag`.
pub open spec fn open_marker(tag: Seq<char>) -> Seq<char> {
    seq!['<'] + tag + seq!['>']
}

/// The marker that closes the section `tag`.
pub open spec fn close_marker(tag: Seq<char>) -> Seq<char> {
    seq!['<', '/'] + tag + seq!['>']
}

/// The section `tag` of `xml`: from the first opening marker up to and
/// including the first closing marker. There is none when either marker is
/// missing, or when the first closing marker ends before the first opening
/// marker begins.
pub open spec fn section_of(xml: Seq<char>, tag: Seq<char>) -> Option<Seq<char>> {
    match (position(xml, open_marker(tag)), position(xml, close_marker(tag))) {
        (Some(start), Some(end)) => if start <= end + close_marker(tag).len() {
            Some(xml.subrange(start, end + close_marker(tag).len()))
        } else {
            None
        },
        _ => None,
    }
}

/// The name of the package-assignment section.
pub open spec fn assignment_tag() -> Seq<char> {
    "package_configuration"@
}

/// `name` between the section's name delimiters.
pub open spec fn name_field(name: Seq<char>) -> Seq<char> {
    "<name>"@ + name + "</name>"@
}

/// Whether the package-assignment section of `xml` names the package, by its
/// display name or by its file name.
pub open spec fn references(xml: Seq<char>, package_name: Seq<char>, file_name: Seq<char>) -> bool {
    match section_of(xml, assignment_tag()) {
        Some(section) => contains_seq(section, name_field(package_name)) || contains_seq(
            section,
            name_field(file_name),
        ),
        None => false,
    }
}

fn marker(tag: &Vec<char>, closing: bool) -> (m: Vec<char>)
    ensures
        m@ == if closing {
            close_marker(tag@)
        } else {
            open_marker(tag@)
        },
{
    let mut m: Vec<char> = Vec::new();
    m.push('<');
    if closing {
        m.push('/');
    }
    let ghost head = m@;
    let mut i: usize = 0;
    while i < tag.len()
        invariant
            i <= tag.len(),
            m@ == head + tag@.take(i as int),
        decreases tag.len() - i,
    {
        m.push(tag[i]);
        assert(tag@.take(i as int + 1) =~= tag@.take(i as int).push(tag@[i as int]));
        assert(m@ =~= head + tag@.take(i as int + 1));
        i += 1;
    }
    assert(tag@.take(tag.len() as int) =~= tag@);
    m.push('>');
    assert(m@ =~= head + tag@ + seq!['>']);
    assert(closing ==> head =~= seq!['<', '/']);
    assert(!closing ==> head =~= seq!['<']);
    m
}

fn section_chars(xml: &Vec<char>, tag: &Vec<char>) -> (r: Option<(usize, usize)>)
    ensures
        match r {
            Some((from, to)) => from <= to <= xml.len() && section_of(xml@, tag@) == Some(
                xml@.subrange(from as int, to as int),
            ),
            None => section_of(xml@, tag@) is None,
        },
{
    let open = marker(tag, false);
    let close = marker(tag, true);
    let start = match find(xml, &open) {
        Some(i) => i,
        None => {
            return None;
        },
    };
    let end = match find(xml, &close) {
        Some(i) => i,
        None => {
            return None;
        },
    };
    let length = xml.len();
    assert(occurs_at(xml@, close@, end as int));
    assert(end + close@.len() <= length);
    let to = end + close.len();
    if start <= to {
        Some((start, to))
    } else {
        None
    }
}

/// The section `tag` of `xml`, markers included.
pub fn extract_section<'a>(xml: &'a str, tag: &str) -> (r: Option<&'a str>)
    ensures
        match r {
            Some(s) => section_of(xml@, tag@) == Some(s@),
            None => section_of(xml@, tag@) is None,
        },
{
    let chars = to_chars(xml);
    let tag_chars = to_chars(tag);
    match section_chars(&chars, &tag_chars) {
        Some((from, to)) => Some(xml.substring_char(from, to)),
        None => None,
    }
}

fn name_field_chars(name: &str) -> (m: Vec<char>)
    ensures
        m@ == name_field(name@),
{
    let mut m = to_chars("<name>");
    let mut body = to_chars(name);
    let mut tail = to_chars("</name>");
    m.append(&mut body);
    m.append(&mut tail);
    m
}

/// Whether the package-assignment section of the policy document `xml` names
/// the package, by its display name or by its file name.
pub fn references_package(xml: &str, package_name: &str, file_name: &str) -> (r: bool)
    ensures
        r == references(xml@, package_name@, file_name@),
{
    let chars = to_chars(xml);
    let tag = to_chars("package_configuration");
    match section_chars(&chars, &tag) {
        Some((from, to)) => {
            let mut section: Vec<char> = Vec::new();
            let mut i: usize = from;
            while i < to
                invariant
                    from <= i <= to <= chars.len(),
                    section@ == chars@.subrange(from as int, i as int),
                decreases to - i,
            {
                section.push(chars[i]);
                assert(chars@.subrange(from as int, i as int + 1) =~= chars@.subrange(
                    from as int,
                    i as int,
                ).push(chars@[i as int]));
                i += 1;
            }
            let by_name = name_field_chars(package_name);
            if find(&section, &by_name).is_some() {
                return true;
            }
            let by_file = name_field_chars(file_name);
            find(&section, &by_file).is_some()
        },
        None => false,
    }
}

/// A policy together with what fetching its detail document gave.
#[derive(Debug)]
pub struct ScannedPolicy {
    pub policy: PolicySummary,
    pub fetched: Fetched,
}

impl Fetched {
    /// The document, empty for a refusal.
    pub open spec fn document(self) -> Seq<char> {
        match self {
            Fetched::Document(d) => d@,
            Fetched::Refused { .. } => Seq::empty(),
        }
    }
}

/// The policies among the first `n` whose document refers to the package,
/// in list order.
pub open spec fn affected_among(
    scanned: Seq<ScannedPolicy>,
    package_name: Seq<char>,
    file_name: Seq<char>,
    n: int,
) -> Seq<PolicyView>
    decreases n,
{
    if n <= 0 {
        Seq::empty()
    } else {
        let rest = affected_among(scanned, package_name, file_name, n - 1);
        if references(scanned[n - 1].fetched.document(), package_name, file_name) {
            rest.push(scanned[n - 1].policy@)
        } else {
            rest
        }
    }
}

/// The contents of a list of affected policies.
pub open spec fn affected_views(policies: Seq<AffectedPolicy>) -> Seq<PolicyView> {
    Seq::new(policies.len(), |i: int| policies[i]@)
}

/// The first refusal among the first `n` fetch results, if there is one.
pub open spec fn first_refusal(scanned: Seq<ScannedPolicy>, n: int) -> Option<int>
    decreases n,
{
    if n <= 0 {
        None
    } else {
        match first_refusal(scanned, n - 1) {
            Some(i) => Some(i),
            None => if scanned[n - 1].fetched is Refused {
                Some(n - 1)
            } else {
                None
            },
        }
    }
}

impl PolicyListResponse {
    /// The policies of the answer; none when the answer has no list.
    pub fn into_summaries(self) -> (r: Vec<PolicySummary>)
        ensures
            r@ == match self.policies {
                Some(list) => list@,
                None => Seq::empty(),
            },
    {
        match self.policies {
            Some(list) => list,
            None => Vec::new(),
        }
    }
}

/// Scans the policies, each with what fetching its detail document gave.
///
/// The scan fails fast: the first refusal is the result, and no partial list
/// is reported. Otherwise the result lists, in order, each policy whose
/// package-assignment section names the package.
pub fn find_policies_with_package(
    scanned: &Vec<ScannedPolicy>,
    package_name: &str,
    file_name: &str,
) -> (r: Result<Vec<AffectedPolicy>, PolicyScanError>)
    ensures
        match r {
            Ok(list) => first_refusal(scanned@, scanned.len() as int) is None && affected_views(
                list@,
            ) == affected_among(scanned@, package_name@, file_name@, scanned.len() as int),
            Err(e) => match first_refusal(scanned@, scanned.len() as int) {
                Some(i) => e.policy_id == scanned[i].policy.id && scanned[i].fetched
                    == (Fetched::Refused { status: e.status, body: e.body }),
                None => false,
            },
        },
{
    let mut affected: Vec<AffectedPolicy> = Vec::new();
    let mut i: usize = 0;
    while i < scanned.len()
        invariant
            i <= scanned.len(),
            first_refusal(scanned@, i as int) is None,
            affected_views(affected@) == affected_among(
                scanned@,
                package_name@,
                file_name@,
                i as int,
            ),
        decreases scanned.len() - i,
    {
        let policy = &scanned[i].policy;
        match &scanned[i].fetched {
            Fetched::Document(xml) => {
                let ghost before = affected_views(affected@);
                if references_package(xml.as_str(), package_name, file_name) {
                    affected.push(AffectedPolicy { id: policy.id, name: policy.name.clone() });
                    assert(affected_views(affected@) =~= before.push(scanned@[i as int].policy@));
                }
                assert(first_refusal(scanned@, i as int + 1) is None);
            },
            Fetched::Refused { status, body } => {
                proof {
                    lemma_first_refusal_stays(scanned@, i as int + 1, scanned.len() as int);
                }
                return Err(
                    PolicyScanError { policy_id: policy.id, status: *status, body: body.clone() },
                );
            },
        }
        i += 1;
    }
    Ok(affected)
}

proof fn lemma_first_refusal_stays(scanned: Seq<ScannedPolicy>, n: int, m: int)
    requires
        0 <= n <= m,
        first_refusal(scanned, n) is Some,
    ensures
        first_refusal(scanned, m) == first_refusal(scanned, n),
    decreases m - n,
{
    if n < m {
        lemma_first_refusal_stays(scanned, n, m - 1);
    }
}

/// The line that says how many policies refer to the package.
pub open spec fn count_line(count: nat) -> Seq<char> {
    "Found "@ + decimal(count) + (if count == 1 {
        " policy"@
    } else {
        " policies"@
    }) + " referencing this package."@
}

/// The line that says how many policies will pick up the new payload.
pub fn affected_count_line(affected: &Vec<AffectedPolicy>) -> (line: String)
    ensures
        line@ == count_line(affected.len() as nat),
{
    let count = affected.len();
    let mut line = String::from_str("Found ");
    push_decimal(&mut line, count as u64);
    if count == 1 {
        line.append(" policy");
    } else {
        line.append(" policies");
    }
    line.append(" referencing this package.");
    line
}

impl PolicyScanError {
    /// The message of this error.
    pub open spec fn message_spec(self) -> Seq<char> {
        "Failed to fetch policy "@ + signed_decimal(self.policy_id as int) + " (HTTP "@ + decimal(
            self.status as nat,
        ) + "): "@ + self.body@
    }

    /// One line that names the policy, the status and the body of the
    /// refusal.
    pub fn message(&self) -> (m: String)
        ensures
            m@ == self.message_spec(),
    {
        let mut m = String::from_str("Failed to fetch policy ");
        push_signed_decimal(&mut m, self.policy_id);
        m.append(" (HTTP ");
        push_decimal(&mut m, self.status as u64);
        m.append("): ");
        m.append(self.body.as_str());
        m
    }
}

/// A document without a package-assignment section refers to no package.
pub proof fn lemma_no_section_no_reference(
    xml: Seq<char>,
    package_name: Seq<char>,
    file_name: Seq<char>,
)
    requires
        !contains_seq(xml, open_marker(assignment_tag())) || !contains_seq(
            xml,
            close_marker(assignment_tag()),
        ),
    ensures
        !references(xml, package_name, file_name),
{
}

} // verus!
