//! The two record payloads the service exchanges with its callers.
//!
//! Validation policy, decided here rather than left open: a cat fact
//! must carry text, so the empty string is rejected at creation — the
//! store schema only rules out NULL, and an empty fact would render a
//! meaningless notification.  A subscriber address is accepted as
//! given: syntactic mail-address checking is the transport's business,
//! and an address it rejects surfaces later as one counted, recovered
//! per-recipient send failure.

use vstd::prelude::*;

verus! {

/// One cat fact, as read from or written to the fact table.
pub struct CatFact {
    fact: String,
}

impl CatFact {
    /// The fact's text.
    pub closed spec fn spec_fact(&self) -> Seq<char> {
        self.fact@
    }

    /// A fact is never empty.
    pub open spec fn wf(&self) -> bool {
        self.spec_fact().len() > 0
    }

    /// Accepts any non-empty text and rejects the empty string.
    pub fn new(fact: String) -> (r: Option<CatFact>)
        ensures
            fact@.len() > 0 ==> (r matches Some(c) && c.spec_fact() == fact@ && c.wf()),
            fact@.len() == 0 ==> r is None,
    {
        if fact.as_str().is_empty() {
            None
        } else {
            Some(CatFact { fact })
        }
    }

    /// The text, unchanged since creation.
    pub fn fact(&self) -> (r: &str)
        ensures
            r@ == self.spec_fact(),
    {
        self.fact.as_str()
    }

    /// Gives the text back, unchanged since creation.
    pub fn into_fact(self) -> (r: String)
        ensures
            r@ == self.spec_fact(),
    {
        self.fact
    }
}

/// A subscription request: the address to mail the daily fact to.
pub struct EmailRequest {
    email: String,
}

impl EmailRequest {
    /// The requested address.
    pub closed spec fn spec_email(&self) -> Seq<char> {
        self.email@
    }

    /// Accepts the address as given; see the module note on policy.
    pub fn new(email: String) -> (r: EmailRequest)
        ensures
            r.spec_email() == email@,
    {
        EmailRequest { email }
    }

    /// The address, unchanged since creation.
    pub fn email(&self) -> (r: &str)
        ensures
            r@ == self.spec_email(),
    {
        self.email.as_str()
    }

    /// Gives the address back, unchanged since creation.
    pub fn into_email(self) -> (r: String)
        ensures
            r@ == self.spec_email(),
    {
        self.email
    }
}

} // verus!
