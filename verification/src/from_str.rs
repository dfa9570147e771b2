//! Parsing submitted prompt text into typed values. The boolean parser
//! accepts, case-insensitively, `yes`, `y` and `true` for `true`, and `no`,
//! `n` and `false` for `false`.
use vstd::prelude::*;

verus! {

/// Parsing a string into a value of a prompt-supported type.
pub trait MyFromStr: Sized {
    type Err_;

    fn from_str(s: &str) -> Result<Self, Self::Err_>;
}

/// The text was not a recognized boolean token.
#[derive(Debug)]
pub struct BoolParseErr;

impl BoolParseErr {
    /// The message this error describes itself with.
    pub fn get_err_message() -> (r: &'static str)
        ensures
            r@ == "Provided value is invalid"@,
    {
        "Provided value is invalid"
    }
}

/// The lowercase folding of `s`, named: what `str::to_lowercase` returns for
/// it.
pub uninterp spec fn lower_of(s: Seq<char>) -> Seq<char>;

/// Relies on `str::to_lowercase`: the result depends on the characters alone.
#[verifier::external_body]
fn lowercase(s: &str) -> (r: String)
    ensures
        r@ == lower_of(s@),
{
    s.to_lowercase()
}

/// The boolean a lowercase-folded token stands for, if any.
pub open spec fn spec_bool_token(low: Seq<char>) -> Option<bool> {
    if low == "yes"@ || low == "y"@ || low == "true"@ {
        Option::Some(true)
    } else if low == "no"@ || low == "n"@ || low == "false"@ {
        Option::Some(false)
    } else {
        Option::None
    }
}

/// Whether `s`'s characters are exactly `lit`'s.
fn str_eq(s: &String, lit: &str) -> (r: bool)
    ensures
        r == (s@ == lit@),
{
    let owned: String = lit.to_owned();
    *s == owned
}

/// The boolean an already lowercase-folded token stands for:
/// `Ok(true)` exactly on `yes`, `y` and `true`, `Ok(false)` exactly on `no`,
/// `n` and `false`, and `Err` on everything else.
pub fn bool_from_token(low: &String) -> (r: Result<bool, BoolParseErr>)
    ensures
        r matches Ok(b) ==> spec_bool_token(low@) == Option::Some(b),
        r is Err <==> spec_bool_token(low@) is None,
{
    if str_eq(low, "yes") || str_eq(low, "y") || str_eq(low, "true") {
        Ok(true)
    } else if str_eq(low, "no") || str_eq(low, "n") || str_eq(low, "false") {
        Ok(false)
    } else {
        Err(BoolParseErr)
    }
}

/// Parses a boolean answer, folding case first.
pub fn parse_bool(s: &str) -> (r: Result<bool, BoolParseErr>)
    ensures
        r matches Ok(b) ==> spec_bool_token(lower_of(s@)) == Option::Some(b),
        r is Err <==> spec_bool_token(lower_of(s@)) is None,
{
    let low = lowercase(s);
    bool_from_token(&low)
}

impl MyFromStr for bool {
    type Err_ = BoolParseErr;

    fn from_str(s: &str) -> Result<Self, BoolParseErr> {
        parse_bool(s)
    }
}

} // verus!
