use vstd::prelude::*;

verus! {

/// A string that is either owned or borrowed.
#[derive(Debug, Clone, PartialEq, Eq, Hash)]
pub enum Str<'a> {
    Owned(String),
    Borrowed(&'a str),
}

impl<'a> View for Str<'a> {
    type V = Seq<char>;

    open spec fn view(&self) -> Seq<char> {
        match self {
            Str::Owned(x) => x@,
            Str::Borrowed(x) => x@,
        }
    }
}

impl<'a> Str<'a> {
    /// The characters of the string.
    pub fn as_str(&self) -> (r: &str)
        ensures
            r@ == self@,
    {
        match self {
            Str::Owned(x) => x.as_str(),
            Str::Borrowed(x) => x,
        }
    }

    pub fn from_string(value: String) -> (r: Self)
        ensures
            r == Str::<'a>::Owned(value),
    {
        Str::Owned(value)
    }

    pub fn from_str_ref(value: &'a str) -> (r: Self)
        ensures
            r == Str::Borrowed(value),
    {
        Str::Borrowed(value)
    }
}


/// The characters of `s`, in order.
pub fn chars_of(s: &str) -> (r: Vec<char>)
    ensures
        r@ == s@,
{
    broadcast use vstd::string::axiom_spec_iter;
    let mut out: Vec<char> = Vec::new();
    for c in iter: s.chars()
        invariant
            out@ == iter.seq().take(iter.index() as int),
            iter.seq() == s@,
    {
        out.push(c);
        assert(out@ =~= iter.seq().take(iter.index() as int + 1));
    }
    assert(out@ =~= s@);
    out
}

} // verus!
