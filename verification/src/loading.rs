//! The steps of loading command line arguments.
//!
//! The registered descriptors are handed to the parser one by one, and what
//! it found is asked of it one option at a time.

use vstd::prelude::*;
use vstd::slice::slice_subrange;
use crate::descriptor::{OptGroup, OptGroupView};
use crate::parser::{
    add_optional, add_required, first_value, knows, lookup, match_values, new_options,
    option_groups, plain, texts, Found,
};
use crate::text::viewed;

verus! {

/// The views of a list of descriptors.
pub open spec fn group_views(groups: Seq<OptGroup>) -> Seq<OptGroupView> {
    groups.map_values(|g: OptGroup| g@)
}

/// The values of a list, each by its view.
pub open spec fn resolved_views(values: Seq<Option<String>>) -> Seq<Option<Seq<char>>> {
    values.map_values(|v: Option<String>| viewed(v))
}

/// The value that `found` holds for each of `groups`, in their order.
pub open spec fn resolved(groups: Seq<OptGroupView>, found: Found) -> Seq<Option<Seq<char>>> {
    Seq::new(groups.len(), |i: int| first_value(found, groups[i].short_name, groups[i].long_name))
}

/// The arguments behind the program name.
pub(crate) fn tail(args: &Vec<String>) -> (rest: &[String])
    requires
        args.len() > 0,
    ensures
        texts(rest@) == texts(args@).skip(1),
{
    let rest = slice_subrange(args.as_slice(), 1, args.len());
    assert(texts(rest@) =~= texts(args@).skip(1));
    rest
}

/// Adds one descriptor to a set of options.
pub(crate) fn register(options: &mut getopts::Options, group: &OptGroup)
    ensures
        option_groups(*final(options)) == option_groups(*old(options)).push(group@),
        plain(*final(options)) == plain(*old(options)),
{
    let short_name = group.short_name();
    let long_name = group.long_name();
    if group.is_required() {
        add_required(options, short_name, long_name, group.desc(), group.hint());
    } else {
        add_optional(options, short_name, long_name, group.desc(), group.hint());
    }
}

/// Builds the set of options that holds the descriptors `groups`, in their
/// order.
pub(crate) fn options_of(groups: &Vec<OptGroup>) -> (options: getopts::Options)
    ensures
        option_groups(options) == group_views(groups@),
        plain(options),
{
    let mut options = new_options();
    let mut i: usize = 0;
    while i < groups.len()
        invariant
            i <= groups.len(),
            option_groups(options) == group_views(groups@.take(i as int)),
            plain(options),
        decreases groups.len() - i,
    {
        register(&mut options, &groups[i]);
        assert(groups@.take(i + 1) == groups@.take(i as int).push(groups@[i as int]));
        assert(group_views(groups@.take(i + 1)) == group_views(groups@.take(i as int)).push(
            groups@[i as int]@,
        ));
        i += 1;
    }
    assert(groups@.take(i as int) == groups@);
    options
}

/// Looks up, for each descriptor in turn, the value that the command line
/// gave for it.
pub(crate) fn resolve(matches: &getopts::Matches, groups: &Vec<OptGroup>) -> (values: Vec<
    Option<String>,
>)
    requires
        forall|i: int|
            0 <= i < groups.len() ==> (#[trigger] group_views(groups@)[i]).fully_named() && knows(
                match_values(*matches),
                group_views(groups@)[i],
            ),
    ensures
        values.len() == groups.len(),
        resolved_views(values@) == resolved(group_views(groups@), match_values(*matches)),
{
    let mut values: Vec<Option<String>> = Vec::new();
    let mut i: usize = 0;
    while i < groups.len()
        invariant
            i <= groups.len(),
            values.len() == i,
            forall|j: int|
                0 <= j < groups.len() ==> (#[trigger] group_views(groups@)[j]).fully_named()
                    && knows(match_values(*matches), group_views(groups@)[j]),
            forall|j: int|
                0 <= j < i ==> viewed(#[trigger] values[j]) == first_value(
                    match_values(*matches),
                    groups[j]@.short_name,
                    groups[j]@.long_name,
                ),
        decreases groups.len() - i,
    {
        let group = &groups[i];
        assert(group_views(groups@)[i as int] == group@);
        let value = lookup(matches, group.short_name(), group.long_name());
        values.push(value);
        i += 1;
    }
    assert(resolved_views(values@) =~= resolved(group_views(groups@), match_values(*matches)));
    values
}

} // verus!
