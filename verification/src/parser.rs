//! The command line parser that the settings store is a client of.
//!
//! Parsing is done by the `getopts` crate. This module states what the store
//! relies on: which option groups a `getopts::Options` holds, what a parse
//! returns, and what can be read from its matches. None of it is proved: the
//! functions that call `getopts` are believed to do what their contracts say.
//! The functions without a body name what `getopts` computes, and the store's
//! contracts are stated over those names.

use vstd::prelude::*;
use crate::descriptor::{valid_names, OptGroupView};
use crate::text::viewed;

verus! {

/// `getopts::Options`, the set of option groups that a command line is parsed
/// against. Nothing inside it is visible here.
#[verifier::external_type_specification]
#[verifier::external_body]
pub struct ExOptions(getopts::Options);

/// `getopts::Matches`, what a successful parse returns. Nothing inside it is
/// visible here.
#[verifier::external_type_specification]
#[verifier::external_body]
pub struct ExMatches(getopts::Matches);

/// `getopts::Fail`, what a failed parse returns: one of five kinds, each with
/// the name of the option that it is about. Its variants are public, and they
/// are read as they are.
#[verifier::external_type_specification]
pub struct ExFail(getopts::Fail);

/// A parse failure, as mathematical values.
pub enum FailView {
    /// The option takes an argument and none was given.
    ArgumentMissing(Seq<char>),
    /// The option is not among the registered ones.
    UnrecognizedOption(Seq<char>),
    /// The option is required and was not given.
    OptionMissing(Seq<char>),
    /// The option was given more than once.
    OptionDuplicated(Seq<char>),
    /// The option takes no argument and one was given.
    UnexpectedArgument(Seq<char>),
}

/// The kind of a failure and the option name it carries.
pub open spec fn fail_view(fail: getopts::Fail) -> FailView {
    match fail {
        getopts::Fail::ArgumentMissing(name) => FailView::ArgumentMissing(name@),
        getopts::Fail::UnrecognizedOption(name) => FailView::UnrecognizedOption(name@),
        getopts::Fail::OptionMissing(name) => FailView::OptionMissing(name@),
        getopts::Fail::OptionDuplicated(name) => FailView::OptionDuplicated(name@),
        getopts::Fail::UnexpectedArgument(name) => FailView::UnexpectedArgument(name@),
    }
}

/// The values that a parse found, by option name. A name that can be looked
/// up has an entry, which is the first argument that was given for the
/// option, if any was.
pub type Found = Map<Seq<char>, Option<Seq<char>>>;

/// What a parse ends in: the values that it found, or the failure.
pub type Outcome = Result<Found, FailView>;

/// The strings of a list, as sequences of characters.
pub open spec fn texts(strings: Seq<String>) -> Seq<Seq<char>> {
    strings.map_values(|s: String| s@)
}

/// The value found for an option with two names: the one found under the
/// short name, else the one found under the long name.
pub open spec fn first_value(found: Found, short_name: Seq<char>, long_name: Seq<char>) -> Option<
    Seq<char>,
> {
    match found[short_name] {
        Some(value) => Some(value),
        None => found[long_name],
    }
}

/// Whether every name that `group` has can be looked up in `found`.
pub open spec fn knows(found: Found, group: OptGroupView) -> bool {
    &&& group.short_name.len() > 0 ==> found.contains_key(group.short_name)
    &&& group.long_name.len() > 0 ==> found.contains_key(group.long_name)
}

/// The option groups that a `getopts::Options` holds, in the order in which
/// they were added. Of a group it tells the names, the description, the hint
/// and whether the option is required.
pub uninterp spec fn option_groups(options: getopts::Options) -> Seq<OptGroupView>;

/// Whether a `getopts::Options` is as plain as this library makes it: it
/// keeps the parsing style and the long-only setting of `Options::new`, and
/// each of its groups takes an argument and may occur at most once.
pub uninterp spec fn plain(options: getopts::Options) -> bool;

/// What a `getopts::Matches` holds: for each option name that can be looked
/// up in it, the first argument that was given for the option, if any.
pub uninterp spec fn match_values(matches: getopts::Matches) -> Found;

/// What `getopts::Options::parse` makes of the arguments `args`, the program
/// name not among them, for plain options with the groups `groups`: the values
/// that the matches hold, or the failure.
pub uninterp spec fn parse_outcome(groups: Seq<OptGroupView>, args: Seq<Seq<char>>) -> Outcome;

/// The text that `getopts::Options::usage` renders for plain options with the
/// groups `groups` under the brief `brief`.
pub uninterp spec fn usage_text(groups: Seq<OptGroupView>, brief: Seq<char>) -> Seq<char>;

/// Calls `getopts::Options::new`. The new set holds no group and is plain.
#[verifier::external_body]
pub(crate) fn new_options() -> (options: getopts::Options)
    ensures
        option_groups(options) == Seq::<OptGroupView>::empty(),
        plain(options),
{
    getopts::Options::new()
}

/// Calls `getopts::Options::optopt`, which panics on names that are not
/// valid and else adds, behind the groups that are there, one that takes an
/// argument and is optional. It leaves the parsing settings alone.
#[verifier::external_body]
pub(crate) fn add_optional(
    options: &mut getopts::Options,
    short_name: &str,
    long_name: &str,
    desc: &str,
    hint: &str,
)
    requires
        valid_names(short_name@, long_name@),
    ensures
        option_groups(*final(options)) == option_groups(*old(options)).push(
            OptGroupView {
                short_name: short_name@,
                long_name: long_name@,
                desc: desc@,
                hint: hint@,
                required: false,
            },
        ),
        plain(*final(options)) == plain(*old(options)),
{
    options.optopt(short_name, long_name, desc, hint);
}

/// Calls `getopts::Options::reqopt`, which panics on names that are not
/// valid and else adds, behind the groups that are there, one that takes an
/// argument and is required. It leaves the parsing settings alone.
#[verifier::external_body]
pub(crate) fn add_required(
    options: &mut getopts::Options,
    short_name: &str,
    long_name: &str,
    desc: &str,
    hint: &str,
)
    requires
        valid_names(short_name@, long_name@),
    ensures
        option_groups(*final(options)) == option_groups(*old(options)).push(
            OptGroupView {
                short_name: short_name@,
                long_name: long_name@,
                desc: desc@,
                hint: hint@,
                required: true,
            },
        ),
        plain(*final(options)) == plain(*old(options)),
{
    options.reqopt(short_name, long_name, desc, hint);
}

/// Calls `getopts::Options::parse`, which panics on a group without any name.
/// Its result depends on the groups and the arguments alone. Matches that it
/// returns can be asked for every name of every group.
#[verifier::external_body]
pub(crate) fn parse(options: &getopts::Options, args: &[String]) -> (outcome: Result<
    getopts::Matches,
    getopts::Fail,
>)
    requires
        plain(*options),
        forall|i: int|
            0 <= i < option_groups(*options).len() ==> {
                ||| (#[trigger] option_groups(*options)[i]).short_name.len() > 0
                ||| option_groups(*options)[i].long_name.len() > 0
            },
    ensures
        match outcome {
            Ok(matches) => {
                &&& parse_outcome(option_groups(*options), texts(args@)) == Outcome::Ok(
                    match_values(matches),
                )
                &&& forall|i: int|
                    0 <= i < option_groups(*options).len() ==> knows(
                        match_values(matches),
                        #[trigger] option_groups(*options)[i],
                    )
            },
            Err(fail) => parse_outcome(option_groups(*options), texts(args@)) == Outcome::Err(
                fail_view(fail),
            ),
        },
{
    options.parse(args)
}

/// Calls `getopts::Matches::opts_str` with the two names of one option. It
/// panics on a name that cannot be looked up, and else returns the first
/// argument given under the short name, or else under the long name.
#[verifier::external_body]
pub(crate) fn lookup(matches: &getopts::Matches, short_name: &str, long_name: &str) -> (value:
    Option<String>)
    requires
        match_values(*matches).contains_key(short_name@),
        match_values(*matches).contains_key(long_name@),
    ensures
        viewed(value) == first_value(match_values(*matches), short_name@, long_name@),
{
    matches.opts_str(&[short_name.to_string(), long_name.to_string()])
}

/// Calls `getopts::Options::usage`. The text depends on the groups and the
/// brief alone.
#[verifier::external_body]
pub(crate) fn usage(options: &getopts::Options, brief: &str) -> (text: String)
    requires
        plain(*options),
    ensures
        text@ == usage_text(option_groups(*options), brief@),
{
    options.usage(brief)
}

} // verus!
