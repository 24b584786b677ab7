//! Rendering of the generated action-name constants: one `pub const`
//! line per action, with the constant named after the uppercased action
//! name, dashes turned into underscores.

use vstd::prelude::*;
use vstd::string::StringExecFns;

use crate::text::{replace, spec_replace};

verus! {

/// The uppercase form of a string. Relies on `str::to_uppercase`: the
/// Unicode uppercase mapping of the characters alone.
pub uninterp spec fn upper_of(s: Seq<char>) -> Seq<char>;

/// Relies on `str::to_uppercase`: the Unicode uppercase equivalent of
/// the string, a function of its characters alone.
#[verifier::external_body]
fn to_uppercase(s: &str) -> (r: String)
    ensures
        r@ == upper_of(s@),
{
    s.to_uppercase()
}

/// One constant line of the generated actions file: the constant named
/// by the uppercased action name with dashes as underscores, its value
/// the action name itself.
pub open spec fn spec_action_const_line(name: Seq<char>) -> Seq<char> {
    "pub const "@ + spec_replace(upper_of(name), "-"@, "_"@) + ": &str = \""@ + name + "\";\n"@
}

/// One constant line of the generated actions file.
pub fn action_const_line(name: &str) -> (r: String)
    ensures
        r@ == spec_action_const_line(name@),
{
    let upper = to_uppercase(name);
    let ident = replace(upper.as_str(), "-", "_");
    let mut out = String::new();
    out.append("pub const ");
    out.append(ident.as_str());
    out.append(": &str = \"");
    out.append(name);
    out.append("\";\n");
    assert(out@ =~= spec_action_const_line(name@));
    out
}

/// The whole actions file: the constant lines of all action names, in
/// the order given.
pub open spec fn spec_actions_file(names: Seq<Seq<char>>) -> Seq<char>
    decreases names.len(),
{
    if names.len() == 0 {
        Seq::empty()
    } else {
        spec_action_const_line(names[0]) + spec_actions_file(names.skip(1))
    }
}

/// Renders the actions file from the action names, in the order given.
pub fn render_actions_file(names: &Vec<String>) -> (r: String)
    ensures
        r@ == spec_actions_file(names.deep_view()),
{
    let ghost dv = names.deep_view();
    let mut out = String::new();
    let mut k: usize = 0;
    assert(dv.skip(0) =~= dv);
    while k < names.len()
        invariant
            k <= names@.len(),
            dv == names.deep_view(),
            dv.len() == names@.len(),
            forall|i: int| 0 <= i < names@.len() ==> dv[i] == names@[i]@,
            out@ + spec_actions_file(dv.skip(k as int)) == spec_actions_file(dv),
        decreases names.len() - k,
    {
        let line = action_const_line(names[k].as_str());
        out.append(line.as_str());
        proof {
            assert(dv.skip(k as int).skip(1) =~= dv.skip(k + 1));
            assert(spec_actions_file(dv.skip(k as int)) == spec_action_const_line(dv[k as int])
                + spec_actions_file(dv.skip(k + 1)));
        }
        k += 1;
    }
    assert(dv.skip(names@.len() as int) =~= Seq::<Seq<char>>::empty());
    out
}

} // verus!
