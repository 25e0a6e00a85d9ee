//! The credentials of a run and the rule by which they are chosen.

use crate::text::{from_chars, to_chars};
use vstd::prelude::*;

verus! {

/// What a run needs to reach the service. The base address carries no
/// trailing slash.
#[derive(Debug)]
pub struct Credentials {
    pub client_id: String,
    pub client_secret: String,
    pub url: String,
}

/// `s` without the slashes at its end.
pub open spec fn without_trailing_slashes(s: Seq<char>) -> Seq<char>
    decreases s.len(),
{
    if s.len() > 0 && s.last() == '/' {
        without_trailing_slashes(s.drop_last())
    } else {
        s
    }
}

/// The base address `url` without the slashes at its end.
pub fn trim_base_url(url: &str) -> (r: String)
    ensures
        r@ == without_trailing_slashes(url@),
{
    let mut chars = to_chars(url);
    while chars.len() > 0 && chars[chars.len() - 1] == '/'
        invariant
            without_trailing_slashes(chars@) == without_trailing_slashes(url@),
        decreases chars.len(),
    {
        let ghost before = chars@;
        chars.pop();
        assert(chars@ =~= before.drop_last());
    }
    from_chars(&chars)
}

/// Trimming twice is trimming once.
pub proof fn lemma_trim_idempotent(s: Seq<char>)
    ensures
        without_trailing_slashes(without_trailing_slashes(s)) == without_trailing_slashes(s),
    decreases s.len(),
{
    if s.len() > 0 && s.last() == '/' {
        lemma_trim_idempotent(s.drop_last());
    }
}

impl Credentials {
    /// The base address carries no trailing slash.
    pub open spec fn wf(self) -> bool {
        self.url@ == without_trailing_slashes(self.url@)
    }

    /// Credentials for the service at `url`, whose trailing slashes are
    /// dropped.
    pub fn new(client_id: String, client_secret: String, url: &str) -> (r: Credentials)
        ensures
            r.client_id == client_id,
            r.client_secret == client_secret,
            r.url@ == without_trailing_slashes(url@),
            r.wf(),
    {
        proof {
            lemma_trim_idempotent(url@);
        }
        Credentials { client_id, client_secret, url: trim_base_url(url) }
    }

    /// The credentials that the process environment holds: present only
    /// when all three values are, with the base address trimmed.
    pub fn from_environment(
        client_id: Option<String>,
        client_secret: Option<String>,
        url: Option<String>,
    ) -> (r: Option<Credentials>)
        ensures
            r is Some <==> (client_id is Some && client_secret is Some && url is Some),
            r is Some ==> r->0.client_id == client_id->0 && r->0.client_secret == client_secret->0
                && r->0.url@ == without_trailing_slashes(url->0@) && r->0.wf(),
    {
        match (client_id, client_secret, url) {
            (Some(id), Some(secret), Some(address)) => Some(
                Credentials::new(id, secret, address.as_str()),
            ),
            _ => None,
        }
    }

    /// The credentials of a run: those of the environment where it holds
    /// any, those of the secret store otherwise.
    pub fn select(environment: Option<Credentials>, stored: Option<Credentials>) -> (r: Option<
        Credentials,
    >)
        ensures
            r == if environment is Some {
                environment
            } else {
                stored
            },
    {
        match environment {
            Some(c) => Some(c),
            None => stored,
        }
    }
}

/// Trimming leaves no slash at the end.
pub proof fn lemma_trimmed_has_no_trailing_slash(s: Seq<char>)
    ensures
        without_trailing_slashes(s).len() == 0 || without_trailing_slashes(s).last() != '/',
    decreases s.len(),
{
    if s.len() > 0 && s.last() == '/' {
        lemma_trimmed_has_no_trailing_slash(s.drop_last());
    }
}

} // verus!
