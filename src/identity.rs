use vstd::prelude::*;

verus! {

/// An account or contract on the ledger, held by its textual address.
#[derive(Clone, Debug)]
pub struct Identity {
    pub address: String,
}

impl View for Identity {
    type V = Seq<char>;

    open spec fn view(&self) -> Seq<char> {
        self.address@
    }
}

impl Identity {
    pub fn new(address: String) -> (r: Identity)
        ensures
            r@ == address@,
    {
        Identity { address }
    }

    /// A second value of the same identity.
    pub fn duplicate(&self) -> (r: Identity)
        ensures
            r == *self,
    {
        Identity { address: self.address.clone() }
    }
}

impl PartialEq for Identity {
    fn eq(&self, other: &Identity) -> (r: bool) {
        self.address == other.address
    }
}

impl vstd::std_specs::cmp::PartialEqSpecImpl for Identity {
    open spec fn obeys_eq_spec() -> bool {
        true
    }

    open spec fn eq_spec(&self, other: &Identity) -> bool {
        self@ == other@
    }
}

impl Eq for Identity {}

/// Whether `who` is among the identities that authorised the invocation.
pub open spec fn signed_by(signers: Seq<Identity>, who: Seq<char>) -> bool {
    exists|i: int| 0 <= i < signers.len() && (#[trigger] signers[i])@ == who
}

/// Whether `who` authorised the invocation whose authorising identities are
/// `signers`.
pub fn has_signed(signers: &Vec<Identity>, who: &Identity) -> (r: bool)
    ensures
        r == signed_by(signers@, who@),
{
    let mut i: usize = 0;
    while i < signers.len()
        invariant
            0 <= i <= signers@.len(),
            forall|j: int| 0 <= j < i ==> (#[trigger] signers@[j])@ != who@,
        decreases signers@.len() - i,
    {
        if signers[i] == *who {
            return true;
        }
        i = i + 1;
    }
    false
}

} // verus!
