//! What holds of the settings store whatever it contains.
//!
//! Each statement is about the models of the store's operations, the ones
//! that the operations' own contracts are written with.

use vstd::prelude::*;
use vstd::utf8::{is_ascii_chars, is_ascii_chars_encode_utf8};
use crate::descriptor::{valid_names, OptGroupView};
use crate::loading::resolved;
use crate::parser::{first_value, FailView, Found, Outcome};
use crate::settings::{SettingsView, PROGNAME};
use crate::text::{round_trips, FromText, ToText};

verus! {

/// A value that was set is fetched again: where the string form of `value`
/// reads back as `value`, the string under `key` stands for a `T` after
/// `key` was set to `value`, and fetching `key` gives `value`.
pub proof fn lemma_fetch_after_set<A: ToText, T: ToText + FromText>(
    settings: SettingsView,
    key: A,
    value: T,
)
    requires
        round_trips(value),
    ensures
        settings.set(key.text(), value.text()).parses::<T>(key.text()),
        settings.set(key.text(), value.text()).fetch::<T>(key.text()) == Some(value@),
{
}

/// A key that was never set is absent, for every type: the new store gives
/// `None` for every key, and so does any store for a key that it does not
/// hold. Nothing has to be read there, so nothing can fail to be read.
pub proof fn lemma_fetch_unset<A: ToText, T: FromText>(settings: SettingsView, key: A)
    ensures
        SettingsView::empty().parses::<T>(key.text()),
        SettingsView::empty().fetch::<T>(key.text()) is None,
        !settings.store.contains_key(key.text()) ==> settings.parses::<T>(key.text())
            && settings.fetch::<T>(key.text()) is None,
{
}

/// Setting an absent value leaves the store as it is, whatever was under the
/// key; setting a present value is setting that value.
pub proof fn lemma_set_opt<A: ToText, T: ToText>(settings: SettingsView, key: A, value: T)
    ensures
        settings.set_opt(key.text(), None) == settings,
        settings.set_opt(key.text(), Some(value.text())) == settings.set(key.text(), value.text()),
{
}

/// The last write wins, and a write to one key leaves every other key alone.
pub proof fn lemma_set_overwrites(
    settings: SettingsView,
    key: Seq<char>,
    first: Seq<char>,
    second: Seq<char>,
    other: Seq<char>,
)
    ensures
        settings.set(key, first).get(key) == Some(first),
        settings.set(key, first).set(key, second) == settings.set(key, second),
        other != key ==> settings.set(key, first).get(other) == settings.get(other),
{
    assert(settings.store.insert(key, first).insert(key, second) =~= settings.store.insert(
        key,
        second,
    ));
}

/// Names of ASCII characters take one byte for each character: such names are
/// valid where the short name has at most one character and the long name has
/// none or more than one.
pub proof fn lemma_ascii_names(short_name: Seq<char>, long_name: Seq<char>)
    requires
        is_ascii_chars(short_name),
        is_ascii_chars(long_name),
    ensures
        valid_names(short_name, long_name) <==> short_name.len() <= 1 && long_name.len() != 1,
{
    is_ascii_chars_encode_utf8(short_name);
    is_ascii_chars_encode_utf8(long_name);
}

/// Registering an option keeps the stored strings, keeps the options that
/// were registered before, in their order, and puts the new one last.
pub proof fn lemma_opt_keeps_order(settings: SettingsView, group: OptGroupView, i: int)
    requires
        0 <= i < settings.options.len(),
    ensures
        settings.opt(group).store == settings.store,
        settings.opt(group).options.len() == settings.options.len() + 1,
        settings.opt(group).options[i] == settings.options[i],
        settings.opt(group).options.last() == group,
{
}

/// Giving the first `n` options their values changes no registered option.
proof fn lemma_load_first_keeps_options(
    settings: SettingsView,
    values: Seq<Option<Seq<char>>>,
    n: nat,
)
    ensures
        settings.load_first(values, n).options == settings.options,
    decreases n,
{
    if n > 0 {
        lemma_load_first_keeps_options(settings, values, (n - 1) as nat);
    }
}

/// Giving the first `n` options their values leaves the string under `key`
/// alone where none of those options with the long name `key` has a value.
proof fn lemma_load_first_skips(
    settings: SettingsView,
    values: Seq<Option<Seq<char>>>,
    key: Seq<char>,
    n: nat,
)
    requires
        n <= settings.options.len(),
        forall|i: int|
            0 <= i < n && (#[trigger] settings.options[i]).long_name == key ==> values[i] is None,
    ensures
        settings.load_first(values, n).get(key) == settings.get(key),
    decreases n,
{
    if n > 0 {
        lemma_load_first_skips(settings, values, key, (n - 1) as nat);
        assert(settings.options[n - 1].long_name == key ==> values[n - 1] is None);
    }
}

/// Giving the first `n` options their values leaves, under the long name of
/// option `i`, the value of that option, where it has one and no later
/// option of that name has one.
proof fn lemma_load_first_sets(
    settings: SettingsView,
    values: Seq<Option<Seq<char>>>,
    i: int,
    n: nat,
)
    requires
        0 <= i < n <= settings.options.len(),
        values[i] is Some,
        forall|j: int|
            i < j < n && (#[trigger] settings.options[j]).long_name
                == settings.options[i].long_name ==> values[j] is None,
    ensures
        settings.load_first(values, n).get(settings.options[i].long_name) == values[i],
    decreases n,
{
    if n - 1 > i {
        lemma_load_first_sets(settings, values, i, (n - 1) as nat);
        assert(settings.options[n - 1].long_name == settings.options[i].long_name ==> values[n
            - 1] is None);
    }
}

/// An option without a value stays unset: where no option with the long name
/// `key` has a value, the string under `key` is what it was before the
/// options got their values, and absent if it was absent.
pub proof fn lemma_unsupplied_stays(
    settings: SettingsView,
    values: Seq<Option<Seq<char>>>,
    key: Seq<char>,
)
    requires
        forall|i: int|
            0 <= i < settings.options.len() && (#[trigger] settings.options[i]).long_name == key
                ==> values[i] is None,
    ensures
        settings.load_values(values).get(key) == settings.get(key),
{
    lemma_load_first_skips(settings, values, key, settings.options.len());
}

/// An option with a value is set under its long name: the value of option
/// `i` is the string under its long name afterwards, unless a later option
/// of the same long name has a value too.
pub proof fn lemma_supplied_is_set(settings: SettingsView, values: Seq<Option<Seq<char>>>, i: int)
    requires
        0 <= i < settings.options.len(),
        values[i] is Some,
        forall|j: int|
            i < j < settings.options.len() && (#[trigger] settings.options[j]).long_name
                == settings.options[i].long_name ==> values[j] is None,
    ensures
        settings.load_values(values).get(settings.options[i].long_name) == values[i],
{
    lemma_load_first_sets(settings, values, i, settings.options.len());
}

/// After a parse failure only the program name is recorded: no option is
/// applied, so a key other than `PROGNAME` holds what it held before, and a
/// key that was unset stays unset.
pub proof fn lemma_failure_applies_nothing(
    settings: SettingsView,
    args: Seq<Seq<char>>,
    failure: FailView,
    key: Seq<char>,
)
    ensures
        settings.load(args, Outcome::Err(failure)) == settings.set(PROGNAME@, args[0]),
        key != PROGNAME@ ==> settings.load(args, Outcome::Err(failure)).get(key) == settings.get(
            key,
        ),
{
}

/// After a successful parse an option that the command line gave is set
/// under its long name to the value that was found for it, unless a later
/// option of the same long name was given too.
pub proof fn lemma_given_option_is_loaded(
    settings: SettingsView,
    args: Seq<Seq<char>>,
    found: Found,
    i: int,
)
    requires
        0 <= i < settings.options.len(),
        first_value(found, settings.options[i].short_name, settings.options[i].long_name) is Some,
        forall|j: int|
            i < j < settings.options.len() && (#[trigger] settings.options[j]).long_name
                == settings.options[i].long_name ==> first_value(
                found,
                settings.options[j].short_name,
                settings.options[j].long_name,
            ) is None,
    ensures
        settings.load(args, Outcome::Ok(found)).get(settings.options[i].long_name) == first_value(
            found,
            settings.options[i].short_name,
            settings.options[i].long_name,
        ),
{
    let named = settings.set(PROGNAME@, args[0]);
    lemma_load_first_sets(named, resolved(settings.options, found), i, named.options.len());
}

/// After a successful parse an option that the command line did not give is
/// left as it was: where nothing was found for any option with the long name
/// `key`, the string under `key` is the one from before, and absent if it
/// was absent. The hint of a descriptor never becomes a value.
pub proof fn lemma_missing_option_is_left(
    settings: SettingsView,
    args: Seq<Seq<char>>,
    found: Found,
    key: Seq<char>,
)
    requires
        key != PROGNAME@,
        forall|i: int|
            0 <= i < settings.options.len() && (#[trigger] settings.options[i]).long_name == key
                ==> first_value(
                found,
                settings.options[i].short_name,
                settings.options[i].long_name,
            ) is None,
    ensures
        settings.load(args, Outcome::Ok(found)).get(key) == settings.get(key),
{
    let named = settings.set(PROGNAME@, args[0]);
    lemma_load_first_skips(named, resolved(settings.options, found), key, named.options.len());
}

/// Loading arguments registers no option and drops none, whatever the parser
/// made of the arguments.
pub proof fn lemma_load_keeps_options(
    settings: SettingsView,
    args: Seq<Seq<char>>,
    outcome: Outcome,
)
    ensures
        settings.load(args, outcome).options == settings.options,
{
    let named = settings.set(PROGNAME@, args[0]);
    match outcome {
        Ok(found) => {
            lemma_load_first_keeps_options(
                named,
                resolved(settings.options, found),
                named.options.len(),
            );
        },
        Err(_) => {},
    }
}

/// Loading arguments records the program name, unless an option with the
/// long name `PROGNAME` took its place.
pub proof fn lemma_program_name_is_recorded(
    settings: SettingsView,
    args: Seq<Seq<char>>,
    outcome: Outcome,
)
    requires
        forall|i: int|
            0 <= i < settings.options.len() ==> (#[trigger] settings.options[i]).long_name
                != PROGNAME@,
    ensures
        settings.load(args, outcome).get(PROGNAME@) == Some(args[0]),
{
    let named = settings.set(PROGNAME@, args[0]);
    match outcome {
        Ok(found) => {
            lemma_load_first_skips(
                named,
                resolved(settings.options, found),
                PROGNAME@,
                named.options.len(),
            );
        },
        Err(_) => {},
    }
}

} // verus!
