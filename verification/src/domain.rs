use vstd::prelude::*;

verus! {

/// Number of occurrences of `c` in `s`.
pub open spec fn count_char(s: Seq<char>, c: char) -> nat
    decreases s.len(),
{
    if s.len() == 0 {
        0
    } else {
        count_char(s.drop_last(), c) + if s.last() == c {
            1nat
        } else {
            0nat
        }
    }
}

/// Blank characters that cannot appear in an email address and that do not
/// count towards a name's visible content.
pub open spec fn is_blank(c: char) -> bool {
    c == ' ' || c == '\t' || c == '\n' || c == '\r'
}

/// A syntactically acceptable email address: non-empty, free of blanks, with
/// exactly one `@` that has characters on both sides.
pub open spec fn valid_email(s: Seq<char>) -> bool {
    &&& s.len() > 0
    &&& (forall|i: int| 0 <= i < s.len() ==> !is_blank(#[trigger] s[i]))
    &&& count_char(s, '@') == 1
    &&& s[0] != '@'
    &&& s[s.len() - 1] != '@'
}

/// Characters that are rejected in a subscriber name because they can carry
/// markup or quoting into downstream systems.
pub open spec fn is_forbidden_name_char(c: char) -> bool {
    c == '/' || c == '(' || c == ')' || c == '"' || c == '<' || c == '>' || c == '\\' || c == '{'
        || c == '}'
}

/// Longest accepted subscriber name, in characters.
pub const MAX_NAME_LEN: usize = 256;

/// A syntactically acceptable subscriber name: at most `MAX_NAME_LEN`
/// characters, at least one of them not blank, and none forbidden.
pub open spec fn valid_name(s: Seq<char>) -> bool {
    &&& s.len() <= MAX_NAME_LEN
    &&& (exists|i: int| 0 <= i < s.len() && !is_blank(#[trigger] s[i]))
    &&& (forall|i: int| 0 <= i < s.len() ==> !is_forbidden_name_char(#[trigger] s[i]))
}

/// An email address that has passed [`valid_email`] validation.
pub struct SubscriberEmail {
    email: String,
}

impl View for SubscriberEmail {
    type V = Seq<char>;

    closed spec fn view(&self) -> Seq<char> {
        self.email@
    }
}

impl Clone for SubscriberEmail {
    fn clone(&self) -> (r: Self)
        ensures
            r == self,
    {
        SubscriberEmail { email: self.email.clone() }
    }
}

impl SubscriberEmail {
    /// Every value of this type satisfies the validity predicate.
    pub closed spec fn wf(&self) -> bool {
        valid_email(self.email@)
    }

    /// Accepts `email` exactly when it is a syntactically acceptable address,
    /// and otherwise reports the offending value back.
    pub fn parse(email: String) -> (r: Result<SubscriberEmail, String>)
        ensures
            valid_email(email@) <==> r is Ok,
            r is Ok ==> r->Ok_0@ == email@ && r->Ok_0.wf(),
            r is Err ==> r->Err_0@ == email@,
    {
        if is_valid_email(email.as_str()) {
            Ok(SubscriberEmail { email })
        } else {
            Err(email)
        }
    }

    pub fn as_str(&self) -> (r: &str)
        ensures
            r@ == self@,
    {
        self.email.as_str()
    }
}

/// Decides [`valid_email`] by one pass over the characters.
pub fn is_valid_email(s: &str) -> (r: bool)
    ensures
        r == valid_email(s@),
{
    let n = s.unicode_len();
    if n == 0 {
        return false;
    }
    let mut i: usize = 0;
    let mut ats: usize = 0;
    while i < n
        invariant
            0 < n == s@.len(),
            0 <= i <= n,
            ats == count_char(s@.take(i as int), '@'),
            ats <= i,
            forall|j: int| 0 <= j < i ==> !is_blank(#[trigger] s@[j]),
        decreases n - i,
    {
        let c = s.get_char(i);
        if c == ' ' || c == '\t' || c == '\n' || c == '\r' {
            assert(is_blank(s@[i as int]));
            return false;
        }
        if c == '@' {
            ats = ats + 1;
        }
        proof {
            assert(s@.take(i + 1).drop_last() =~= s@.take(i as int));
            assert(s@.take(i + 1).last() == s@[i as int]);
        }
        i = i + 1;
    }
    proof {
        assert(s@.take(n as int) =~= s@);
    }
    ats == 1 && s.get_char(0) != '@' && s.get_char(n - 1) != '@'
}

/// A subscriber name that has passed [`valid_name`] validation.
pub struct SubscriberName {
    name: String,
}

impl View for SubscriberName {
    type V = Seq<char>;

    closed spec fn view(&self) -> Seq<char> {
        self.name@
    }
}

impl Clone for SubscriberName {
    fn clone(&self) -> (r: Self)
        ensures
            r == self,
    {
        SubscriberName { name: self.name.clone() }
    }
}

impl SubscriberName {
    /// Every value of this type satisfies the validity predicate.
    pub closed spec fn wf(&self) -> bool {
        valid_name(self.name@)
    }

    /// Accepts `name` exactly when it is a syntactically acceptable name, and
    /// otherwise reports the offending value back.
    pub fn parse(name: String) -> (r: Result<SubscriberName, String>)
        ensures
            valid_name(name@) <==> r is Ok,
            r is Ok ==> r->Ok_0@ == name@ && r->Ok_0.wf(),
            r is Err ==> r->Err_0@ == name@,
    {
        if is_valid_name(name.as_str()) {
            Ok(SubscriberName { name })
        } else {
            Err(name)
        }
    }

    pub fn as_str(&self) -> (r: &str)
        ensures
            r@ == self@,
    {
        self.name.as_str()
    }
}

/// Decides [`valid_name`] by one pass over the characters.
pub fn is_valid_name(s: &str) -> (r: bool)
    ensures
        r == valid_name(s@),
{
    let n = s.unicode_len();
    if n > MAX_NAME_LEN {
        return false;
    }
    let mut i: usize = 0;
    let mut has_content = false;
    while i < n
        invariant
            0 <= i <= n == s@.len(),
            has_content == (exists|j: int| 0 <= j < i && !is_blank(#[trigger] s@[j])),
            forall|j: int| 0 <= j < i ==> !is_forbidden_name_char(#[trigger] s@[j]),
        decreases n - i,
    {
        let c = s.get_char(i);
        if c == '/' || c == '(' || c == ')' || c == '"' || c == '<' || c == '>' || c == '\\'
            || c == '{' || c == '}' {
            assert(is_forbidden_name_char(s@[i as int]));
            return false;
        }
        if !(c == ' ' || c == '\t' || c == '\n' || c == '\r') {
            assert(!is_blank(s@[i as int]));
            has_content = true;
        }
        i = i + 1;
    }
    has_content
}

/// A validated subscription request: a name and an email address.
pub struct NewSubscriber {
    pub email: SubscriberEmail,
    pub name: SubscriberName,
}

} // verus!
