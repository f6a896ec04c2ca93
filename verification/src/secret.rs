use vstd::prelude::*;

verus! {

/// A password or token that is only readable through an explicit accessor,
/// so that the value is never exposed by ordinary formatting or logging.
pub struct SecretString {
    inner: String,
}

impl View for SecretString {
    type V = Seq<char>;

    closed spec fn view(&self) -> Seq<char> {
        self.inner@
    }
}

impl SecretString {
    pub fn new(inner: String) -> (r: Self)
        ensures
            r@ == inner@,
    {
        SecretString { inner }
    }

    /// Reveal the wrapped value; called only at a verification boundary.
    pub fn expose_secret(&self) -> (r: &String)
        ensures
            r@ == self@,
    {
        &self.inner
    }
}

} // verus!
