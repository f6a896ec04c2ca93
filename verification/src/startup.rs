use vstd::prelude::*;

verus! {

/// The base URL the application hands out in links; a distinct type so the
/// value cannot be confused with any other string in the server's state.
pub struct ApplicationBaseUrl(pub String);

} // verus!
