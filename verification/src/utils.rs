use vstd::prelude::*;

verus! {

/// A tagged error payload: a top-level message and the messages of the
/// underlying causes, outermost first.
#[derive(Debug)]
pub struct ErrorChain {
    pub message: String,
    pub causes: Vec<String>,
}

impl ErrorChain {
    pub fn new(message: String) -> (r: Self)
        ensures
            r.message@ == message@,
            r.causes@.len() == 0,
    {
        ErrorChain { message, causes: Vec::new() }
    }

    /// A message wrapping one underlying cause.
    pub fn with_cause(message: String, cause: String) -> (r: Self)
        ensures
            r.message@ == message@,
            r.causes@.len() == 1,
            r.causes@[0]@ == cause@,
    {
        let mut causes: Vec<String> = Vec::new();
        causes.push(cause);
        ErrorChain { message, causes }
    }
}

/// The rendered text of the causes, each on a `Caused by:` line, oldest
/// wrapper first.
pub open spec fn causes_text(causes: Seq<Seq<char>>) -> Seq<char>
    decreases causes.len(),
{
    if causes.len() == 0 {
        Seq::empty()
    } else {
        causes_text(causes.drop_last()) + "Caused by:\n\t"@ + causes.last() + "\n"@
    }
}

/// The rendered text of a whole chain: the top message, a blank line, then
/// the causes top to bottom.
pub open spec fn chain_text(message: Seq<char>, causes: Seq<Seq<char>>) -> Seq<char> {
    message + "\n\n"@ + causes_text(causes)
}

/// Renders an error chain for diagnostics by walking the causes top to
/// bottom.
pub fn error_chain_fmt(e: &ErrorChain) -> (r: String)
    ensures
        r@ == chain_text(e.message@, e.causes.deep_view()),
{
    let mut out = e.message.clone();
    out.append("\n\n");
    let mut i: usize = 0;
    while i < e.causes.len()
        invariant
            0 <= i <= e.causes@.len(),
            out@ == chain_text(e.message@, e.causes.deep_view().take(i as int)),
        decreases e.causes@.len() - i,
    {
        out.append("Caused by:\n\t");
        out.append(e.causes[i].as_str());
        out.append("\n");
        proof {
            let cs = e.causes.deep_view();
            assert(cs.take(i + 1).drop_last() =~= cs.take(i as int));
            assert(cs.take(i + 1).last() == cs[i as int]);
        }
        i = i + 1;
    }
    proof {
        assert(e.causes.deep_view().take(e.causes@.len() as int) =~= e.causes.deep_view());
    }
    out
}

} // verus!
