use vstd::prelude::*;

verus! {

/// An opaque principal of the ledger, held as the text of its address.
///
/// Two identities are the same principal exactly when their texts are equal.
#[derive(Debug)]
pub struct Identity {
    key: String,
}

impl View for Identity {
    type V = Seq<char>;

    closed spec fn view(&self) -> Seq<char> {
        self.key@
    }
}

impl Identity {
    pub fn new(key: String) -> (r: Identity)
        ensures
            r@ == key@,
    {
        Identity { key }
    }

    pub fn from_str(key: &str) -> (r: Identity)
        ensures
            r@ == key@,
    {
        Identity { key: key.to_string() }
    }

    pub fn as_str(&self) -> (r: &str)
        ensures
            r@ == self@,
    {
        self.key.as_str()
    }
}

impl Clone for Identity {
    fn clone(&self) -> (r: Identity)
        ensures
            r == *self,
    {
        Identity { key: self.key.clone() }
    }
}

impl PartialEq for Identity {
    fn eq(&self, other: &Identity) -> (r: bool)
        ensures
            r == (self@ == other@),
    {
        self.key == other.key
    }
}

impl Eq for Identity {
}

impl vstd::std_specs::cmp::PartialEqSpecImpl for Identity {
    open spec fn obeys_eq_spec() -> bool {
        true
    }

    open spec fn eq_spec(&self, other: &Identity) -> bool {
        self@ == other@
    }
}

} // verus!
