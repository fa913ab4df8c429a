use vstd::prelude::*;

verus! {

#[verifier::external_type_specification]
#[verifier::external_body]
pub struct ExLexError(proc_macro2::LexError);

#[verifier::external_type_specification]
#[verifier::external_body]
pub struct ExSynError(syn::Error);

#[verifier::external_type_specification]
#[verifier::external_body]
pub struct ExMeta(syn::Meta);

/// Relies on proc_macro2's `FromStr` for `TokenStream` (lexing; a failure is a
/// `LexError`) and on its `Display` (the printed form of the tokens). Which
/// lexer and printer run depends on whether the call is made inside a
/// procedural macro, so nothing is stated of the outcome.
#[verifier::external_body]
pub(crate) fn lex(s: &str) -> (r: Result<String, proc_macro2::LexError>) {
    match s.parse::<proc_macro2::TokenStream>() {
        Ok(t) => Ok(t.to_string()),
        Err(e) => Err(e),
    }
}

/// Relies on syn::parse_str::<syn::Visibility>: whether the whole text
/// parses as a visibility, and the parse error where it does not. The text is
/// lexed first, by a lexer that depends on whether the call is made inside a
/// procedural macro, so nothing is stated of the outcome.
#[verifier::external_body]
pub(crate) fn parse_visibility(s: &str) -> (r: Result<(), syn::Error>) {
    match syn::parse_str::<syn::Visibility>(s) {
        Ok(_) => Ok(()),
        Err(e) => Err(e),
    }
}

/// Relies on syn::parse_str::<syn::Ident>: whether the whole text parses as
/// an identifier, and the parse error where it does not. As for
/// `parse_visibility`, nothing is stated of the outcome.
#[verifier::external_body]
pub(crate) fn parse_ident(s: &str) -> (r: Result<(), syn::Error>) {
    match syn::parse_str::<syn::Ident>(s) {
        Ok(_) => Ok(()),
        Err(e) => Err(e),
    }
}

/// `s` without its leading double quotes.
pub open spec fn trim_leading_quotes(s: Seq<char>) -> Seq<char>
    decreases s.len(),
{
    if s.len() > 0 && s[0] == '"' {
        trim_leading_quotes(s.drop_first())
    } else {
        s
    }
}

/// `s` without its trailing double quotes.
pub open spec fn trim_trailing_quotes(s: Seq<char>) -> Seq<char>
    decreases s.len(),
{
    if s.len() > 0 && s.last() == '"' {
        trim_trailing_quotes(s.drop_last())
    } else {
        s
    }
}

/// The text of a string-literal option value: every leading double quote is
/// removed, then every trailing one.
pub open spec fn unquoted(s: Seq<char>) -> Seq<char> {
    trim_trailing_quotes(trim_leading_quotes(s))
}

/// Removes every leading, then every trailing, double quote from `s`.
pub fn unquote(s: &str) -> (r: String)
    ensures
        r@ == unquoted(s@),
{
    let n = s.unicode_len();
    let mut start: usize = 0;
    assert(s@.subrange(0, n as int) =~= s@);
    while start < n && s.get_char(start) == '"'
        invariant
            n == s@.len(),
            start <= n,
            trim_leading_quotes(s@) == trim_leading_quotes(s@.subrange(start as int, n as int)),
        decreases n - start,
    {
        assert(s@.subrange(start as int, n as int).drop_first() =~= s@.subrange(
            start + 1,
            n as int,
        ));
        start = start + 1;
    }
    assert(trim_leading_quotes(s@) == s@.subrange(start as int, n as int));
    let mut end: usize = n;
    while end > start && s.get_char(end - 1) == '"'
        invariant
            n == s@.len(),
            start <= end <= n,
            trim_trailing_quotes(s@.subrange(start as int, n as int)) == trim_trailing_quotes(
                s@.subrange(start as int, end as int),
            ),
        decreases end - start,
    {
        assert(s@.subrange(start as int, end as int).drop_last() =~= s@.subrange(
            start as int,
            end - 1,
        ));
        end = end - 1;
    }
    assert(trim_trailing_quotes(s@.subrange(start as int, end as int)) == s@.subrange(
        start as int,
        end as int,
    ));
    let r = s.substring_char(start, end);
    String::from_str(r)
}

} // verus!
