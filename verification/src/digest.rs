//! Digest snapshots: the checksum and size evidence that the remote service
//! reports for a package's payload, and the two ways of judging them.

use crate::text::{decimal, push_decimal};
use vstd::prelude::*;
use vstd::string::StringExecFns;

verus! {

/// What the remote service reports about a payload. Every field may be
/// absent; absence is a state of its own, not an error.
#[derive(Debug, Clone)]
pub struct PackageDigestSnapshot {
    pub md5_hash: Option<String>,
    pub hash_type: Option<String>,
    pub hash_value: Option<String>,
    pub file_size: Option<u64>,
}

/// The mathematical content of a snapshot.
pub ghost struct DigestView {
    pub md5_hash: Option<Seq<char>>,
    pub hash_type: Option<Seq<char>>,
    pub hash_value: Option<Seq<char>>,
    pub file_size: Option<u64>,
}

/// The content of an optional string.
pub open spec fn text_view(s: Option<String>) -> Option<Seq<char>> {
    match s {
        Some(t) => Some(t@),
        None => None,
    }
}

impl View for PackageDigestSnapshot {
    type V = DigestView;

    open spec fn view(&self) -> DigestView {
        DigestView {
            md5_hash: text_view(self.md5_hash),
            hash_type: text_view(self.hash_type),
            hash_value: text_view(self.hash_value),
            file_size: self.file_size,
        }
    }
}

/// A field changed when it is present on both sides with different values.
pub open spec fn changed<T>(old: Option<T>, new: Option<T>) -> bool {
    old is Some && new is Some && old->0 != new->0
}

/// Placeholder shown for an absent field.
pub open spec fn unknown() -> Seq<char> {
    "unknown"@
}

/// The text of a field, or the placeholder.
pub open spec fn text_or_unknown(s: Option<Seq<char>>) -> Seq<char> {
    match s {
        Some(t) => t,
        None => unknown(),
    }
}

impl DigestView {
    /// No field is present.
    pub open spec fn is_empty(self) -> bool {
        self.md5_hash is None && self.hash_type is None && self.hash_value is None
            && self.file_size is None
    }

    /// Some field is present in both snapshots with different values.
    pub open spec fn differs_from(self, old: DigestView) -> bool {
        changed(old.md5_hash, self.md5_hash) || changed(old.hash_type, self.hash_type) || changed(
            old.hash_value,
            self.hash_value,
        ) || changed(old.file_size, self.file_size)
    }

    /// A checksum is present: the MD5 hash or the typed hash value.
    pub open spec fn has_verifiable_content(self) -> bool {
        self.md5_hash is Some || self.hash_value is Some
    }

    /// The one-line rendering of a snapshot.
    pub open spec fn display_line(self) -> Seq<char> {
        "md5="@ + text_or_unknown(self.md5_hash) + ", hash="@ + text_or_unknown(self.hash_type)
            + " "@ + text_or_unknown(self.hash_value) + ", file_size="@ + (match self.file_size {
            Some(n) => decimal(n as nat),
            None => unknown(),
        })
    }
}

/// Whether a text field is present on both sides with different values.
pub fn field_changed(old: &Option<String>, new: &Option<String>) -> (r: bool)
    ensures
        r == changed(text_view(*old), text_view(*new)),
{
    match (old, new) {
        (Some(a), Some(b)) => !(*a == *b),
        _ => false,
    }
}

/// Whether a size field is present on both sides with different values.
pub fn size_changed(old: Option<u64>, new: Option<u64>) -> (r: bool)
    ensures
        r == changed(old, new),
{
    match (old, new) {
        (Some(a), Some(b)) => a != b,
        _ => false,
    }
}

fn append_text_or_unknown(out: &mut String, field: &Option<String>)
    ensures
        final(out)@ == old(out)@ + text_or_unknown(text_view(*field)),
{
    match field {
        Some(t) => out.append(t.as_str()),
        None => out.append("unknown"),
    }
}

impl Default for PackageDigestSnapshot {
    /// The snapshot with no field present.
    fn default() -> (s: Self)
        ensures
            s@.is_empty(),
    {
        PackageDigestSnapshot { md5_hash: None, hash_type: None, hash_value: None, file_size: None }
    }
}

impl PackageDigestSnapshot {
    /// Whether no field is present.
    pub fn is_empty(&self) -> (r: bool)
        ensures
            r == self@.is_empty(),
    {
        self.md5_hash.is_none() && self.hash_type.is_none() && self.hash_value.is_none()
            && self.file_size.is_none()
    }

    /// Strict change detection: whether some field is present both here and
    /// in `old` with different values. A field absent on either side never
    /// counts.
    pub fn differs_from(&self, old: &Self) -> (r: bool)
        ensures
            r == self@.differs_from(old@),
    {
        field_changed(&old.md5_hash, &self.md5_hash) || field_changed(
            &old.hash_type,
            &self.hash_type,
        ) || field_changed(&old.hash_value, &self.hash_value) || size_changed(
            old.file_size,
            self.file_size,
        )
    }

    /// Whether this snapshot shows that the payload was replaced since
    /// `previous` was taken.
    pub fn content_updated_from(&self, previous: &Self) -> (r: bool)
        ensures
            r == self@.differs_from(previous@),
    {
        self.differs_from(previous)
    }

    /// Whether the snapshot carries a checksum that a payload can be checked
    /// against: the MD5 hash or the typed hash value.
    pub fn has_verifiable_content(&self) -> (r: bool)
        ensures
            r == self@.has_verifiable_content(),
    {
        self.md5_hash.is_some() || self.hash_value.is_some()
    }

    /// The snapshot on one line, with `unknown` for each absent field.
    pub fn display_line(&self) -> (line: String)
        ensures
            line@ == self@.display_line(),
    {
        let mut line = String::from_str("md5=");
        append_text_or_unknown(&mut line, &self.md5_hash);
        line.append(", hash=");
        append_text_or_unknown(&mut line, &self.hash_type);
        line.append(" ");
        append_text_or_unknown(&mut line, &self.hash_value);
        line.append(", file_size=");
        match self.file_size {
            Some(n) => push_decimal(&mut line, n),
            None => line.append("unknown"),
        }
        line
    }
}

/// A snapshot never differs from itself.
pub proof fn lemma_differs_irreflexive(a: DigestView)
    ensures
        !a.differs_from(a),
{
}

/// Change detection does not depend on which snapshot is taken as the
/// reference.
pub proof fn lemma_differs_symmetric(a: DigestView, b: DigestView)
    ensures
        a.differs_from(b) == b.differs_from(a),
{
}

/// Where every field is absent from at least one of two snapshots, they do
/// not differ: only a field present in both can make a difference.
pub proof fn lemma_absence_is_no_difference(a: DigestView, b: DigestView)
    requires
        a.md5_hash is None || b.md5_hash is None,
        a.hash_type is None || b.hash_type is None,
        a.hash_value is None || b.hash_value is None,
        a.file_size is None || b.file_size is None,
    ensures
        !a.differs_from(b),
{
}

/// A difference is always witnessed by a field present on both sides.
pub proof fn lemma_difference_needs_both_present(a: DigestView, b: DigestView)
    requires
        a.differs_from(b),
    ensures
        (a.md5_hash is Some && b.md5_hash is Some && a.md5_hash != b.md5_hash) || (a.hash_type
            is Some && b.hash_type is Some && a.hash_type != b.hash_type) || (a.hash_value is Some
            && b.hash_value is Some && a.hash_value != b.hash_value) || (a.file_size is Some
            && b.file_size is Some && a.file_size != b.file_size),
{
}

/// An empty snapshot is never verifiable, and never differs from anything.
pub proof fn lemma_empty_snapshot(a: DigestView, b: DigestView)
    requires
        a.is_empty(),
    ensures
        !a.has_verifiable_content(),
        !a.differs_from(b),
        !b.differs_from(a),
{
}

} // verus!
