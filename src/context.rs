//! The per-host variable store, kept in a `tera::Context` so that templates
//! render against it directly.

use vstd::prelude::*;

verus! {

#[verifier::external_type_specification]
#[verifier::external_body]
pub struct ExContext(tera::Context);

/// Variable names with their values, as text.
pub type Vars = Map<Seq<char>, Seq<char>>;

/// The variables that a context holds: each name with the text it was set to.
pub uninterp spec fn context_vars(c: tera::Context) -> Vars;

/// Relies on `tera::Context::new`: it starts from an empty map.
#[verifier::external_body]
pub fn empty_context() -> (r: tera::Context)
    ensures
        context_vars(r) == Vars::empty(),
{
    tera::Context::new()
}

/// Relies on the derived `Clone` of `tera::Context`: it clones the map inside.
#[verifier::external_body]
pub fn copy_context(c: &tera::Context) -> (r: tera::Context)
    ensures
        context_vars(r) == context_vars(*c),
{
    c.clone()
}

/// Relies on `tera::Context::insert`: the name maps to the given text
/// afterwards, and every other name keeps its value.
#[verifier::external_body]
pub fn set_var(c: &mut tera::Context, name: &str, value: &str)
    ensures
        context_vars(*final(c)) == context_vars(*old(c)).insert(name@, value@),
{
    c.insert(name, value)
}

/// The variables after each pair of `pairs` is set in turn over `vars`.
pub open spec fn overlay(vars: Vars, pairs: Seq<(String, String)>) -> Vars
    decreases pairs.len(),
{
    if pairs.len() == 0 {
        vars
    } else {
        overlay(vars, pairs.drop_last()).insert(pairs.last().0@, pairs.last().1@)
    }
}

/// A copy of `base` with every pair of `pairs` set on top, in order; `base`
/// itself is left as it was.
pub fn overlaid(base: &tera::Context, pairs: &Vec<(String, String)>) -> (r: tera::Context)
    ensures
        context_vars(r) == overlay(context_vars(*base), pairs@),
{
    let mut r = copy_context(base);
    let mut i: usize = 0;
    while i < pairs.len()
        invariant
            i <= pairs@.len(),
            context_vars(r) == overlay(context_vars(*base), pairs@.subrange(0, i as int)),
        decreases pairs@.len() - i,
    {
        set_var(&mut r, pairs[i].0.as_str(), pairs[i].1.as_str());
        proof {
            let next = pairs@.subrange(0, i as int + 1);
            assert(next.drop_last() =~= pairs@.subrange(0, i as int));
        }
        i = i + 1;
    }
    assert(pairs@.subrange(0, pairs@.len() as int) =~= pairs@);
    r
}

} // verus!
