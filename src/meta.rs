use vstd::prelude::*;

verus! {

/// The path that names an attribute argument, as written: whether it starts
/// with `::`, and the text of each of its segments.
pub struct AttrPath {
    pub leading_colon: bool,
    pub segments: Vec<String>,
}

/// What follows an argument's path.
pub enum MetaBody {
    /// Nothing: `mutex`.
    Word,
    /// A parenthesised list: `read(method = "r")`. It holds the arguments
    /// inside the parentheses, or the error met in reading them.
    List(Result<Vec<MetaArg>, syn::Error>),
    /// `= value`, with the printed form of the value: `vis = "pub"`.
    NameValue(String),
}

/// One argument of the attribute, as syn reads it, together with the syntax
/// it came from (which is what is emitted when the argument is handed on).
pub struct MetaArg {
    pub path: AttrPath,
    pub body: MetaBody,
    pub raw: syn::Meta,
}

impl AttrPath {
    /// Whether the path is one plain identifier.
    pub open spec fn is_single(&self) -> bool {
        !self.leading_colon && self.segments@.len() == 1
    }

    /// The identifier of a single-segment path.
    pub open spec fn ident(&self) -> Seq<char> {
        self.segments@[0]@
    }
}

impl AttrPath {
    /// Whether the path is one plain identifier: no leading `::` and exactly
    /// one segment.
    pub fn single(&self) -> (r: bool)
        ensures
            r == self.is_single(),
    {
        !self.leading_colon && self.segments.len() == 1
    }
}

/// The identifier that a single-segment path consists of.
pub fn path_to_ident(path: &AttrPath) -> (r: String)
    requires
        path.is_single(),
    ensures
        r@ == path.ident(),
{
    path.segments[0].clone()
}

/// Whether `s` holds the same characters as `lit`.
pub fn text_is(s: &String, lit: &str) -> (r: bool)
    ensures
        r == (s@ == lit@),
{
    *s == String::from_str(lit)
}

} // verus!
