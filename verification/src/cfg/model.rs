//! Hardware model values.

use vstd::prelude::*;

use crate::cfg::path::{merge_option, over};
use crate::text::push_str;

verus! {

/// Specifies when an option should be active.
///
/// Used to override automatic hardware detection for features that may
/// or may not be present on a given cartridge.
#[derive(Clone, Copy, Debug, PartialEq, Eq, Structural)]
pub enum When {
    /// Never enable.
    Never,
    /// Enable automatically based on hardware support.
    Auto,
    /// Always enable.
    Always,
}

impl Default for When {
    fn default() -> (r: Self)
        ensures
            r == When::Auto,
    {
        When::Auto
    }
}

/// A type specifying categories of [`Model`] parse error.
#[derive(Clone, Copy, Debug, PartialEq, Eq, Structural)]
pub enum ParseError {
    /// Unknown platform.
    Platform,
    /// Unknown revision.
    Revision,
}

/// DMG-CPU revision.
#[derive(Clone, Copy, Debug, PartialEq, Eq, Structural)]
pub enum Rev {
    /// DMG-CPU 0.
    ///
    /// A rare early production variant. Differs from later revisions in its
    /// boot ROM and post-boot register state.
    Zero,
    /// DMG-CPU A.
    ///
    /// The first mass-produced revision. Shares the same boot ROM as B and C
    /// with no known software-observable differences between them.
    A,
    /// DMG-CPU B.
    ///
    /// A silicon revision of A. Shares the same boot ROM as A and C with no
    /// known software-observable differences between them.
    B,
    /// DMG-CPU C.
    ///
    /// A silicon revision of B. Shares the same boot ROM as A and B with no
    /// known software-observable differences between them.
    C,
}

/// The name of a revision: `0`, `A`, `B` or `C`.
pub open spec fn rev_text(rev: Rev) -> Seq<char> {
    match rev {
        Rev::Zero => seq!['0'],
        Rev::A => seq!['A'],
        Rev::B => seq!['B'],
        Rev::C => seq!['C'],
    }
}

/// The revision named `s`, if any.
pub open spec fn rev_named(s: Seq<char>) -> Option<Rev> {
    if s.len() != 1 {
        None
    } else if s[0] == '0' {
        Some(Rev::Zero)
    } else if s[0] == 'A' {
        Some(Rev::A)
    } else if s[0] == 'B' {
        Some(Rev::B)
    } else if s[0] == 'C' {
        Some(Rev::C)
    } else {
        None
    }
}

impl Default for Rev {
    fn default() -> (r: Self)
        ensures
            r == Rev::C,
    {
        Rev::C
    }
}

impl Rev {
    /// The name of the revision.
    pub fn to_string(&self) -> (r: String)
        ensures
            r@ == rev_text(*self),
    {
        let mut r = String::new();
        match self {
            Rev::Zero => push_str(&mut r, "0"),
            Rev::A => push_str(&mut r, "A"),
            Rev::B => push_str(&mut r, "B"),
            Rev::C => push_str(&mut r, "C"),
        }
        proof {
            reveal_strlit("0");
            reveal_strlit("A");
            reveal_strlit("B");
            reveal_strlit("C");
        }
        assert(r@ =~= rev_text(*self));
        r
    }

    /// Parses a revision from its name.
    pub fn from_str(s: &str) -> (r: Result<Rev, ParseError>)
        ensures
            r == match rev_named(s@) {
                Some(rev) => Ok(rev),
                None => Err(ParseError::Revision),
            },
    {
        if s.unicode_len() != 1 {
            return Err(ParseError::Revision);
        }
        let c = s.get_char(0);
        if c == '0' {
            Ok(Rev::Zero)
        } else if c == 'A' {
            Ok(Rev::A)
        } else if c == 'B' {
            Ok(Rev::B)
        } else if c == 'C' {
            Ok(Rev::C)
        } else {
            Err(ParseError::Revision)
        }
    }
}

/// DMG options.
#[derive(Clone, Copy, Debug, PartialEq, Eq, Structural)]
pub struct Dmg {
    /// DMG-CPU revision.
    pub rev: Option<Rev>,
}

/// How DMG options are written: nothing without a revision, else `:` and
/// the revision.
pub open spec fn dmg_text(dmg: Dmg) -> Seq<char> {
    match dmg.rev {
        None => Seq::empty(),
        Some(rev) => seq![':'] + rev_text(rev),
    }
}

/// The DMG options written `s`, if any.
pub open spec fn dmg_named(s: Seq<char>) -> Option<Dmg> {
    if s.len() == 0 {
        Some(Dmg { rev: None })
    } else if s[0] == ':' {
        match rev_named(s.drop_first()) {
            Some(rev) => Some(Dmg { rev: Some(rev) }),
            None => None,
        }
    } else {
        None
    }
}

impl Default for Dmg {
    fn default() -> (r: Self)
        ensures
            r.rev is None,
    {
        Dmg { rev: None }
    }
}

impl Dmg {
    /// The options as written.
    pub fn to_string(&self) -> (r: String)
        ensures
            r@ == dmg_text(*self),
    {
        let mut r = String::new();
        if let Some(rev) = self.rev {
            push_str(&mut r, ":");
            push_str(&mut r, rev.to_string().as_str());
            proof {
                reveal_strlit(":");
            }
        }
        assert(r@ =~= dmg_text(*self));
        r
    }

    /// Parses the options: empty, or `:` and a revision.
    pub fn from_str(s: &str) -> (r: Result<Dmg, ParseError>)
        ensures
            r == match dmg_named(s@) {
                Some(dmg) => Ok(dmg),
                None => Err(ParseError::Revision),
            },
    {
        let n = s.unicode_len();
        if n == 0 {
            Ok(Dmg { rev: None })
        } else if s.get_char(0) == ':' {
            let rest = s.substring_char(1, n);
            assert(rest@ =~= s@.drop_first());
            match Rev::from_str(rest) {
                Ok(rev) => Ok(Dmg { rev: Some(rev) }),
                Err(_) => Err(ParseError::Revision),
            }
        } else {
            Err(ParseError::Revision)
        }
    }

    /// Merges `other` onto these options.
    pub fn merge(&mut self, other: Dmg)
        ensures
            final(self).rev == over(old(self).rev, other.rev),
    {
        merge_option(&mut self.rev, other.rev);
    }
}

/// Hardware model selection.
///
/// Selects the emulated hardware platform.
#[derive(Clone, Copy, Debug, PartialEq, Eq, Structural)]
pub enum Model {
    /// DMG options.
    Dmg(Dmg),
}

/// How a model is written: `dmg` and its options.
pub open spec fn model_text(model: Model) -> Seq<char> {
    match model {
        Model::Dmg(dmg) => seq!['d', 'm', 'g'] + dmg_text(dmg),
    }
}

/// What parsing `s` as a model gives: an unknown platform unless it starts
/// with `dmg`, else the options that follow, if they are valid.
pub open spec fn model_parsed(s: Seq<char>) -> Result<Model, ParseError> {
    if s.len() >= 3 && s[0] == 'd' && s[1] == 'm' && s[2] == 'g' {
        match dmg_named(s.subrange(3, s.len() as int)) {
            Some(dmg) => Ok(Model::Dmg(dmg)),
            None => Err(ParseError::Revision),
        }
    } else {
        Err(ParseError::Platform)
    }
}

impl Default for Model {
    fn default() -> (r: Self)
        ensures
            r == Model::Dmg(Dmg { rev: None }),
    {
        Model::Dmg(Dmg::default())
    }
}

impl Model {
    /// The model as written.
    pub fn to_string(&self) -> (r: String)
        ensures
            r@ == model_text(*self),
    {
        let mut r = String::new();
        match self {
            Model::Dmg(dmg) => {
                push_str(&mut r, "dmg");
                push_str(&mut r, dmg.to_string().as_str());
                proof {
                    reveal_strlit("dmg");
                }
            },
        }
        assert(r@ =~= model_text(*self));
        r
    }

    /// Parses a model: `dmg` and its options.
    pub fn from_str(s: &str) -> (r: Result<Model, ParseError>)
        ensures
            r == model_parsed(s@),
    {
        let n = s.unicode_len();
        if n >= 3 && s.get_char(0) == 'd' && s.get_char(1) == 'm' && s.get_char(2) == 'g' {
            let rest = s.substring_char(3, n);
            assert(rest@ =~= s@.subrange(3, s@.len() as int));
            match Dmg::from_str(rest) {
                Ok(dmg) => Ok(Model::Dmg(dmg)),
                Err(e) => Err(e),
            }
        } else {
            Err(ParseError::Platform)
        }
    }
}

/// Every revision, set of DMG options and model is read back from how it is
/// written.
pub proof fn law_written_models_parse_back(rev: Rev, dmg: Dmg, model: Model)
    ensures
        rev_named(rev_text(rev)) == Some(rev),
        dmg_named(dmg_text(dmg)) == Some(dmg),
        model_parsed(model_text(model)) == Ok::<Model, ParseError>(model),
{
    if let Some(r) = dmg.rev {
        assert((seq![':'] + rev_text(r)).drop_first() =~= rev_text(r));
    }
    match model {
        Model::Dmg(d) => {
            let t = model_text(model);
            assert(t.subrange(3, t.len() as int) =~= dmg_text(d));
            if let Some(r) = d.rev {
                assert((seq![':'] + rev_text(r)).drop_first() =~= rev_text(r));
            }
        },
    }
}

} // verus!
