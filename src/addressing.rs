//! The application namespace and the classification of ledger addresses by entity family.
use vstd::prelude::*;
use crate::text::{has_tag_at, spec_has_tag_at};

verus! {

/// The longest namespace prefix accepted, in characters.
pub const MAX_NAMESPACE_LEN: usize = 256;

/// The entity family that a ledger address belongs to.
#[derive(Debug, Clone, Copy, PartialEq, Eq, Structural)]
pub enum AddressSpace {
    Organization,
    Agent,
    Certificate,
    Request,
    Standard,
    AnotherFamily,
}

pub open spec fn is_ascii_alphanumeric(c: char) -> bool {
    ('0' <= c && c <= '9') || ('a' <= c && c <= 'z') || ('A' <= c && c <= 'Z')
}

/// A namespace prefix that stands for itself in a regular expression.
pub open spec fn valid_namespace(ns: Seq<char>) -> bool {
    &&& ns.len() <= MAX_NAMESPACE_LEN
    &&& forall|i: int| 0 <= i < ns.len() ==> is_ascii_alphanumeric(#[trigger] ns[i])
}

/// Relies on regex::Regex::new and Regex::is_match: `^` followed by ASCII letters
/// and digits is a valid pattern that matches exactly the texts starting with them.
#[verifier::external_body]
fn regex_prefix_match(prefix: &str, text: &str) -> (r: bool)
    requires
        valid_namespace(prefix@),
    ensures
        r == prefix@.is_prefix_of(text@),
{
    match regex::Regex::new(&format!("^{}", prefix)) {
        Ok(re) => re.is_match(text),
        Err(_) => false,
    }
}

/// How addresses are laid out: the application's namespace prefix, then a tag
/// naming the entity family.
#[derive(Debug, Clone, PartialEq, Eq)]
pub struct AddressRules {
    pub namespace: String,
    pub organization_tag: String,
    pub agent_tag: String,
    pub certificate_tag: String,
    pub request_tag: String,
    pub standard_tag: String,
}

impl AddressRules {
    pub open spec fn wf(&self) -> bool {
        valid_namespace(self.namespace@)
    }

    /// Whether `address` carries `tag` right after the namespace prefix.
    pub open spec fn tagged(&self, tag: String, address: Seq<char>) -> bool {
        spec_has_tag_at(address, tag@, self.namespace@.len() as int)
    }

    /// The family of an address, by the first tag that follows the namespace prefix.
    pub open spec fn spec_address_type(&self, address: Seq<char>) -> AddressSpace {
        if !self.namespace@.is_prefix_of(address) {
            AddressSpace::AnotherFamily
        } else if self.tagged(self.organization_tag, address) {
            AddressSpace::Organization
        } else if self.tagged(self.agent_tag, address) {
            AddressSpace::Agent
        } else if self.tagged(self.certificate_tag, address) {
            AddressSpace::Certificate
        } else if self.tagged(self.request_tag, address) {
            AddressSpace::Request
        } else if self.tagged(self.standard_tag, address) {
            AddressSpace::Standard
        } else {
            AddressSpace::AnotherFamily
        }
    }

    /// Rules for `namespace`, if it is made of at most `MAX_NAMESPACE_LEN` ASCII
    /// letters and digits.
    pub fn new(
        namespace: String,
        organization_tag: String,
        agent_tag: String,
        certificate_tag: String,
        request_tag: String,
        standard_tag: String,
    ) -> (r: Option<AddressRules>)
        ensures
            r is Some <==> valid_namespace(namespace@),
            r matches Some(rules) ==> rules == (AddressRules {
                namespace,
                organization_tag,
                agent_tag,
                certificate_tag,
                request_tag,
                standard_tag,
            }),
    {
        let n = namespace.as_str().unicode_len();
        if n > MAX_NAMESPACE_LEN {
            return None;
        }
        let mut i: usize = 0;
        while i < n
            invariant
                n == namespace@.len(),
                i <= n,
                forall|j: int| 0 <= j < i ==> is_ascii_alphanumeric(#[trigger] namespace@[j]),
            decreases n - i,
        {
            let c = namespace.as_str().get_char(i);
            if !(('0' <= c && c <= '9') || ('a' <= c && c <= 'z') || ('A' <= c && c <= 'Z')) {
                return None;
            }
            i = i + 1;
        }
        Some(
            AddressRules {
                namespace,
                organization_tag,
                agent_tag,
                certificate_tag,
                request_tag,
                standard_tag,
            },
        )
    }

    /// Whether `address` lies in the application namespace, by the pattern
    /// `^` followed by the namespace prefix.
    pub fn in_namespace(&self, address: &str) -> (r: bool)
        requires
            self.wf(),
        ensures
            r == self.namespace@.is_prefix_of(address@),
    {
        regex_prefix_match(self.namespace.as_str(), address)
    }

    /// The entity family of `address`.
    pub fn get_address_type(&self, address: &str) -> (r: AddressSpace)
        requires
            self.wf(),
        ensures
            r == self.spec_address_type(address@),
    {
        if !self.in_namespace(address) {
            return AddressSpace::AnotherFamily;
        }
        let offset = self.namespace.as_str().unicode_len();
        if has_tag_at(address, self.organization_tag.as_str(), offset) {
            AddressSpace::Organization
        } else if has_tag_at(address, self.agent_tag.as_str(), offset) {
            AddressSpace::Agent
        } else if has_tag_at(address, self.certificate_tag.as_str(), offset) {
            AddressSpace::Certificate
        } else if has_tag_at(address, self.request_tag.as_str(), offset) {
            AddressSpace::Request
        } else if has_tag_at(address, self.standard_tag.as_str(), offset) {
            AddressSpace::Standard
        } else {
            AddressSpace::AnotherFamily
        }
    }
}

} // verus!
