//! The point generators the command-line interface can start, by name.
use vstd::prelude::*;

verus! {

#[derive(Clone, Copy, Debug, PartialEq, Eq, Structural)]
pub enum GeneratorId {
    Xs,
}

/// What `str::to_uppercase` returns for a string: the upper case of each of
/// its characters, by Unicode's case mapping.
pub uninterp spec fn uppercase(s: Seq<char>) -> Seq<char>;

/// Calls `str::to_uppercase`. Its result depends on the characters of `s`
/// alone; the contract names it and says nothing more of it, as Unicode's
/// case mapping (under which one character may become several) takes pages
/// to state.
#[verifier::external_body]
fn to_uppercase(s: &str) -> (r: String)
    ensures
        r@ == uppercase(s@),
{
    s.to_uppercase()
}

/// The generator an upper-cased name names.
pub open spec fn generator_named(upper: Seq<char>) -> Option<GeneratorId> {
    if upper == seq!['X', 'S'] {
        Some(GeneratorId::Xs)
    } else {
        None
    }
}

impl GeneratorId {
    /// Returns the generator a name names, in any case: "xs" names `Xs`.
    pub fn from_str(generator_string: &str) -> (r: Option<GeneratorId>)
        ensures
            r == generator_named(uppercase(generator_string@)),
    {
        let upper = to_uppercase(generator_string);
        Self::from_uppercase(upper.as_str())
    }

    /// Returns the generator an upper-cased name names.
    pub fn from_uppercase(upper: &str) -> (r: Option<GeneratorId>)
        ensures
            r == generator_named(upper@),
    {
        if upper.unicode_len() == 2 {
            let c0 = upper.get_char(0);
            let c1 = upper.get_char(1);
            if c0 == 'X' && c1 == 'S' {
                assert(upper@ =~= seq!['X', 'S']);
                return Some(GeneratorId::Xs);
            }
        }
        None
    }
}

} // verus!
