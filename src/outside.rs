//! The calls into the template engine and the regular expression engine.

use vstd::prelude::*;

verus! {

#[verifier::external_type_specification]
#[verifier::external_body]
pub struct ExTeraError(tera::Error);

#[verifier::external_type_specification]
#[verifier::external_body]
pub struct ExRegexError(regex::Error);

/// The text after every match of `pattern` in `text` is replaced by
/// `replacement`, or `None` where `pattern` is not a valid regular
/// expression.
pub uninterp spec fn regex_replaced(pattern: Seq<char>, text: Seq<char>, replacement: Seq<char>) -> Option<Seq<char>>;

/// Relies on `tera::Tera::one_off` with autoescaping off: the template text
/// is parsed and rendered against the context's variables. Nothing is stated
/// of the result: a template may call `get_env`, which reads the process
/// environment.
#[verifier::external_body]
pub(crate) fn render_template(template: &str, vars: &tera::Context) -> Result<String, tera::Error> {
    tera::Tera::one_off(template, vars, false)
}

/// Relies on `regex::Regex::new` and `regex::Regex::replace_all`: the
/// pattern is compiled, then every match in `text` is replaced, with `$`
/// references in `replacement` expanded.
#[verifier::external_body]
pub(crate) fn replace_matches(pattern: &str, text: &str, replacement: &str) -> (r: Result<String, regex::Error>)
    ensures
        r is Ok <==> regex_replaced(pattern@, text@, replacement@) is Some,
        r is Ok ==> regex_replaced(pattern@, text@, replacement@) == Some(r->Ok_0@),
{
    let re = regex::Regex::new(pattern)?;
    Ok(re.replace_all(text, replacement).into_owned())
}

} // verus!
