use vstd::prelude::*;

verus! {

/// An account or contract address, held as its textual (strkey) form.
///
/// Two addresses are the same exactly when their texts are equal.
#[derive(Debug)]
pub struct Address {
    id: String,
}

impl View for Address {
    type V = Seq<char>;

    closed spec fn view(&self) -> Seq<char> {
        self.id@
    }
}

impl Address {
    /// Makes an address from its text.
    pub fn new(text: &str) -> (a: Address)
        ensures
            a@ == text@,
    {
        Address { id: text.to_owned() }
    }

    /// The text of the address.
    pub fn as_str(&self) -> (s: &str)
        ensures
            s@ == self@,
    {
        self.id.as_str()
    }

    /// Whether `self` and `other` name the same address.
    pub fn same_as(&self, other: &Address) -> (r: bool)
        ensures
            r == (self@ == other@),
    {
        self.id == other.id
    }
}

impl Clone for Address {
    fn clone(&self) -> (r: Self)
        ensures
            r == *self,
    {
        Address { id: self.id.clone() }
    }
}

} // verus!
