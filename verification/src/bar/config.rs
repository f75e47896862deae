//! The bar's own configuration file and the rule by which a changed file is
//! taken over while the bar runs.
use vstd::prelude::*;

use crate::text::{chars_of, trim, trim_range};

verus! {

/// The bar's settings.
#[derive(Debug, Clone)]
pub struct Configuration {
    pub name: String,
}

impl Default for Configuration {
    fn default() -> (r: Self)
        ensures
            r.name@ == Seq::<char>::empty(),
    {
        Configuration { name: String::new() }
    }
}

impl PartialEq for Configuration {
    fn eq(&self, other: &Self) -> (r: bool) {
        self.name == other.name
    }
}

impl vstd::std_specs::cmp::PartialEqSpecImpl for Configuration {
    open spec fn obeys_eq_spec() -> bool {
        true
    }

    open spec fn eq_spec(&self, other: &Configuration) -> bool {
        self.name@ == other.name@
    }
}

/// Whether a configuration file holds nothing once trimmed of whitespace.
pub open spec fn blank(src: Seq<char>) -> bool {
    trim(src).len() == 0
}

/// Whether the text of a configuration file is blank: such a file counts as
/// no configuration at all, and is not parsed.
pub fn source_is_blank(src: &str) -> (r: bool)
    ensures
        r == blank(src@),
{
    let v = chars_of(src);
    proof {
        assert(v@.subrange(0, v@.len() as int) =~= v@);
    }
    let (lo, hi) = trim_range(&v, 0, v.len());
    lo == hi
}

impl Configuration {
    /// Whether `new` differs from the running configuration.
    pub fn is_changed(&self, new: &Configuration) -> (r: bool)
        ensures
            r == (self.name@ != new.name@),
    {
        !(self == new)
    }

    /// The configuration the bar starts with: the one read from the file, or
    /// the default when there is none.
    pub fn load(parsed: Option<Configuration>) -> (r: Configuration)
        ensures
            match parsed {
                Some(c) => r == c,
                None => r.name@ == Seq::<char>::empty(),
            },
    {
        match parsed {
            Some(c) => c,
            None => Configuration::default(),
        }
    }

    /// A modification of the file was read back: a configuration that reads
    /// and differs replaces the running one. Returns whether it did, in which
    /// case the screens repaint.
    pub fn reload(&mut self, candidate: Option<Configuration>) -> (r: bool)
        ensures
            match candidate {
                Some(c) => if c.name@ != old(self).name@ {
                    r && *final(self) == c
                } else {
                    !r && *final(self) == *old(self)
                },
                None => !r && *final(self) == *old(self),
            },
    {
        match candidate {
            None => false,
            Some(c) => {
                if self.is_changed(&c) {
                    *self = c;
                    true
                } else {
                    false
                }
            },
        }
    }
}

} // verus!
