//! Descriptors of command line options.

use vstd::prelude::*;
use vstd::utf8::encode_utf8;

verus! {

/// The names that an option may carry: a short name of at most one byte, and
/// a long name that is empty or longer than one byte. Lengths are counted in
/// UTF-8 bytes, as the option parser counts them.
pub open spec fn valid_names(short_name: Seq<char>, long_name: Seq<char>) -> bool {
    &&& encode_utf8(short_name).len() <= 1
    &&& encode_utf8(long_name).len() != 1
}

/// What a descriptor says, as mathematical values.
pub struct OptGroupView {
    pub short_name: Seq<char>,
    pub long_name: Seq<char>,
    pub desc: Seq<char>,
    pub hint: Seq<char>,
    pub required: bool,
}

impl OptGroupView {
    /// The descriptor's names are ones that the option parser accepts.
    pub open spec fn well_named(self) -> bool {
        valid_names(self.short_name, self.long_name)
    }

    /// The descriptor has both a short and a long name.
    pub open spec fn fully_named(self) -> bool {
        self.short_name.len() > 0 && self.long_name.len() > 0
    }
}

/// One command line option that takes an argument: its short name (`-p`),
/// its long name (`--port`), a description and an argument hint for the
/// usage text, and whether the option must be given.
#[derive(Debug, PartialEq, Eq)]
pub struct OptGroup {
    short_name: String,
    long_name: String,
    desc: String,
    hint: String,
    required: bool,
}

impl View for OptGroup {
    type V = OptGroupView;

    closed spec fn view(&self) -> OptGroupView {
        OptGroupView {
            short_name: self.short_name@,
            long_name: self.long_name@,
            desc: self.desc@,
            hint: self.hint@,
            required: self.required,
        }
    }
}

impl OptGroup {
    #[verifier::type_invariant]
    spec fn inv(self) -> bool {
        valid_names(self.short_name@, self.long_name@)
    }

    /// The short name, without its dash; empty where the option has none.
    pub fn short_name(&self) -> (name: &str)
        ensures
            name@ == self@.short_name,
            self@.well_named(),
    {
        proof {
            use_type_invariant(self);
        }
        self.short_name.as_str()
    }

    /// The long name, without its dashes; empty where the option has none.
    pub fn long_name(&self) -> (name: &str)
        ensures
            name@ == self@.long_name,
            self@.well_named(),
    {
        proof {
            use_type_invariant(self);
        }
        self.long_name.as_str()
    }

    /// The description that the usage text shows.
    pub fn desc(&self) -> (desc: &str)
        ensures
            desc@ == self@.desc,
    {
        self.desc.as_str()
    }

    /// The hint that the usage text shows in place of the argument.
    pub fn hint(&self) -> (hint: &str)
        ensures
            hint@ == self@.hint,
    {
        self.hint.as_str()
    }

    /// Whether the option must be given.
    pub fn is_required(&self) -> (required: bool)
        ensures
            required == self@.required,
    {
        self.required
    }

    /// Whether the option has both a short and a long name.
    pub fn is_fully_named(&self) -> (full: bool)
        ensures
            full == self@.fully_named(),
    {
        !self.short_name.as_str().is_empty() && !self.long_name.as_str().is_empty()
    }
}

/// Tells whether `short_name` and `long_name` may name an option.
pub fn names_accepted(short_name: &str, long_name: &str) -> (ok: bool)
    ensures
        ok == valid_names(short_name@, long_name@),
{
    short_name.as_bytes().len() <= 1 && long_name.as_bytes().len() != 1
}

/// Describes an option that takes an argument and may be left out.
pub fn optopt(short_name: &str, long_name: &str, desc: &str, hint: &str) -> (group: OptGroup)
    requires
        valid_names(short_name@, long_name@),
    ensures
        group@ == (OptGroupView {
            short_name: short_name@,
            long_name: long_name@,
            desc: desc@,
            hint: hint@,
            required: false,
        }),
{
    OptGroup {
        short_name: short_name.to_owned(),
        long_name: long_name.to_owned(),
        desc: desc.to_owned(),
        hint: hint.to_owned(),
        required: false,
    }
}

/// Describes an option that takes an argument and must be given.
pub fn reqopt(short_name: &str, long_name: &str, desc: &str, hint: &str) -> (group: OptGroup)
    requires
        valid_names(short_name@, long_name@),
    ensures
        group@ == (OptGroupView {
            short_name: short_name@,
            long_name: long_name@,
            desc: desc@,
            hint: hint@,
            required: true,
        }),
{
    OptGroup {
        short_name: short_name.to_owned(),
        long_name: long_name.to_owned(),
        desc: desc.to_owned(),
        hint: hint.to_owned(),
        required: true,
    }
}

} // verus!
