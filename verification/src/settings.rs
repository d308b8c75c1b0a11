//! The settings store.

use vstd::prelude::*;
use vstd::hash_map::StringHashMap;
use crate::descriptor::{OptGroup, OptGroupView};
use crate::loading::{group_views, options_of, resolve, resolved, resolved_views, tail};
use crate::parser::{fail_view, parse, parse_outcome, texts, usage, usage_text, Outcome};
use crate::text::{viewed, FromText, ToText};

verus! {

/// The key under which `load_args` records the name of the program.
pub const PROGNAME: &'static str = "knob.progname";

/// What a settings store holds, as mathematical values: the stored strings by
/// key, and the registered options in the order of their registration.
pub struct SettingsView {
    pub store: Map<Seq<char>, Seq<char>>,
    pub options: Seq<OptGroupView>,
}

impl SettingsView {
    /// The store with nothing set and nothing registered.
    pub open spec fn empty() -> SettingsView {
        SettingsView { store: Map::empty(), options: Seq::empty() }
    }

    /// The store after `value` was written under `key`: the last write wins.
    pub open spec fn set(self, key: Seq<char>, value: Seq<char>) -> SettingsView {
        SettingsView { store: self.store.insert(key, value), options: self.options }
    }

    /// The store after a value that may be absent was written under `key`:
    /// an absent value changes nothing.
    pub open spec fn set_opt(self, key: Seq<char>, value: Option<Seq<char>>) -> SettingsView {
        match value {
            Some(v) => self.set(key, v),
            None => self,
        }
    }

    /// The string stored under `key`, if one was set.
    pub open spec fn get(self, key: Seq<char>) -> Option<Seq<char>> {
        if self.store.contains_key(key) {
            Some(self.store[key])
        } else {
            None
        }
    }

    /// Whether the string under `key`, if there is one, stands for a `T`.
    pub open spec fn parses<T: FromText>(self, key: Seq<char>) -> bool {
        self.store.contains_key(key) ==> T::parsed(self.store[key]) is Some
    }

    /// The value of type `T` under `key`: absent where nothing was set.
    pub open spec fn fetch<T: FromText>(self, key: Seq<char>) -> Option<T::V> {
        match self.get(key) {
            Some(string) => T::parsed(string),
            None => None,
        }
    }

    /// The store after `group` was registered behind the options it had.
    pub open spec fn opt(self, group: OptGroupView) -> SettingsView {
        SettingsView { store: self.store, options: self.options.push(group) }
    }

    /// Whether arguments can be loaded: every registered option has both a
    /// short and a long name, so that the parser can be asked for either.
    pub open spec fn loadable(self) -> bool {
        forall|i: int| 0 <= i < self.options.len() ==> (#[trigger] self.options[i]).fully_named()
    }

    /// The store after the first `n` registered options got their values:
    /// each value that is present is written under the option's long name, in
    /// the order of registration.
    pub open spec fn load_first(self, values: Seq<Option<Seq<char>>>, n: nat) -> SettingsView
        decreases n,
    {
        if n == 0 {
            self
        } else {
            self.load_first(values, (n - 1) as nat).set_opt(
                self.options[n - 1].long_name,
                values[n - 1],
            )
        }
    }

    /// The store after every registered option got its value.
    pub open spec fn load_values(self, values: Seq<Option<Seq<char>>>) -> SettingsView {
        self.load_first(values, self.options.len())
    }

    /// The store after arguments were loaded, given what the parser made of
    /// them. The program name is recorded in any case. After a failure
    /// nothing else changes; else every option gets the value that was found
    /// for it.
    pub open spec fn load(self, args: Seq<Seq<char>>, outcome: Outcome) -> SettingsView {
        let named = self.set(PROGNAME@, args[0]);
        match outcome {
            Ok(found) => named.load_values(resolved(self.options, found)),
            Err(_) => named,
        }
    }
}

/// A setting that is present but does not read as the type asked for.
#[derive(Debug, PartialEq, Eq)]
pub struct FetchError {
    /// The key that was asked for.
    pub setting: String,
    /// The string that is stored under it.
    pub value: String,
}

/// The settings structure: the stored strings, and the command line options
/// that were registered.
pub struct Settings {
    store: StringHashMap<String>,
    options: Vec<OptGroup>,
}

impl View for Settings {
    type V = SettingsView;

    closed spec fn view(&self) -> SettingsView {
        SettingsView {
            store: self.store@.map_values(|s: String| s@),
            options: group_views(self.options@),
        }
    }
}

impl Settings {
    /// Creates a store with nothing set and nothing registered.
    pub fn new() -> (settings: Settings)
        ensures
            settings@ == SettingsView::empty(),
    {
        let settings = Settings { store: StringHashMap::new(), options: Vec::new() };
        assert(settings@.store =~= Map::empty());
        assert(settings@.options =~= Seq::empty());
        settings
    }

    /// Sets a key to a value. Both are stored as strings, and an earlier
    /// value of the key is overwritten.
    pub fn set<A: ToText, T: ToText>(&mut self, setting: A, value: T)
        ensures
            final(self)@ == old(self)@.set(setting.text(), value.text()),
    {
        self.store.insert(setting.to_text(), value.to_text());
        assert(final(self)@.store =~= old(self)@.store.insert(setting.text(), value.text()));
    }

    /// Sets a key to a value that may be absent. Nothing changes where it is
    /// absent, so that the outcome of an earlier step can be handed on as it
    /// is.
    pub fn set_opt<A: ToText, T: ToText>(&mut self, setting: A, value: Option<T>)
        ensures
            final(self)@ == old(self)@.set_opt(
                setting.text(),
                match value {
                    Some(v) => Some(v.text()),
                    None => None,
                },
            ),
    {
        if let Some(v) = value {
            self.set(setting, v);
        }
    }

    /// Fetches the value of a key, read as a `T`. A key that was never set
    /// gives `None`. A string that does not stand for a `T` is a caller's
    /// error: `try_fetch` reports it instead.
    pub fn fetch<A: ToText, T: FromText>(&self, setting: A) -> (value: Option<T>)
        requires
            self@.parses::<T>(setting.text()),
        ensures
            viewed(value) == self@.fetch::<T>(setting.text()),
    {
        let key = setting.to_text();
        match self.store.get(key.as_str()) {
            Some(string) => T::from_text(string.as_str()),
            None => None,
        }
    }

    /// Fetches the value of a key, read as a `T`, or tells that the string
    /// under the key does not stand for a `T`.
    pub fn try_fetch<A: ToText, T: FromText>(&self, setting: A) -> (outcome: Result<
        Option<T>,
        FetchError,
    >)
        ensures
            self@.parses::<T>(setting.text()) <==> outcome is Ok,
            match outcome {
                Ok(value) => viewed(value) == self@.fetch::<T>(setting.text()),
                Err(error) => {
                    &&& error.setting@ == setting.text()
                    &&& self@.get(setting.text()) == Some(error.value@)
                },
            },
    {
        let key = setting.to_text();
        match self.store.get(key.as_str()) {
            Some(string) => {
                match T::from_text(string.as_str()) {
                    Some(value) => Ok(Some(value)),
                    None => Err(FetchError { setting: key, value: string.clone() }),
                }
            },
            None => Ok(None),
        }
    }

    /// Fetches the value of a key and hands it, present or absent, to `f`.
    /// The result of `f` is returned.
    pub fn fetch_with<A: ToText, T: FromText, F: FnOnce(Option<T>) -> T>(
        &self,
        setting: A,
        f: F,
    ) -> (result: T)
        requires
            self@.parses::<T>(setting.text()),
            forall|fetched: Option<T>|
                viewed(fetched) == self@.fetch::<T>(setting.text()) ==> f.requires((fetched,)),
        ensures
            exists|fetched: Option<T>|
                viewed(fetched) == self@.fetch::<T>(setting.text()) && f.ensures(
                    (fetched,),
                    result,
                ),
    {
        let value = self.fetch(setting);
        f(value)
    }

    /// Registers a command line option for later use with `load_args`.
    pub fn opt(&mut self, opt: OptGroup)
        ensures
            final(self)@ == old(self)@.opt(opt@),
    {
        self.options.push(opt);
        assert(final(self)@.options =~= old(self)@.options.push(opt@));
    }

    /// Tells whether arguments can be loaded with the options registered so
    /// far.
    pub fn can_load(&self) -> (ok: bool)
        ensures
            ok == self@.loadable(),
    {
        let mut i: usize = 0;
        while i < self.options.len()
            invariant
                i <= self.options.len(),
                forall|j: int| 0 <= j < i ==> (#[trigger] self@.options[j]).fully_named(),
            decreases self.options.len() - i,
        {
            if !self.options[i].is_fully_named() {
                assert(!self@.options[i as int].fully_named());
                return false;
            }
            i += 1;
        }
        true
    }

    /// Gives every registered option its value: `values` holds one entry for
    /// each option, in the order of registration, and each entry that is
    /// present is set under the option's long name.
    pub fn load_values(&mut self, values: Vec<Option<String>>)
        requires
            values.len() == old(self)@.options.len(),
        ensures
            final(self)@ == old(self)@.load_values(resolved_views(values@)),
            final(self)@.options == old(self)@.options,
    {
        let mut i: usize = 0;
        while i < values.len()
            invariant
                i <= values.len(),
                values.len() == old(self)@.options.len(),
                self@ == old(self)@.load_first(resolved_views(values@), i as nat),
                self@.options == old(self)@.options,
            decreases values.len() - i,
        {
            let key = self.options[i].long_name().to_owned();
            let value = match &values[i] {
                Some(string) => Some(string.as_str()),
                None => None,
            };
            self.set_opt(key, value);
            i += 1;
        }
    }

    /// Loads a list of command line arguments, of which the first is the
    /// name of the program.
    ///
    /// The program name is set under `PROGNAME`. The other arguments are
    /// parsed against the registered options. Where that fails, the failure is
    /// returned and no option is applied. Else each option that was given on
    /// the command line is set under its long name, and the others are left
    /// as they are.
    pub fn load_args(&mut self, args: Vec<String>) -> (failure: Option<getopts::Fail>)
        requires
            args.len() > 0,
            old(self)@.loadable(),
        ensures
            final(self)@ == old(self)@.load(
                texts(args@),
                parse_outcome(old(self)@.options, texts(args@).skip(1)),
            ),
            final(self)@.options == old(self)@.options,
            match failure {
                Some(fail) => parse_outcome(old(self)@.options, texts(args@).skip(1))
                    == Outcome::Err(fail_view(fail)),
                None => parse_outcome(old(self)@.options, texts(args@).skip(1)) is Ok,
            },
    {
        self.set(PROGNAME, args[0].clone());
        let options = options_of(&self.options);
        let matches = match parse(&options, tail(&args)) {
            Ok(matches) => matches,
            Err(fail) => {
                return Some(fail);
            },
        };
        let values = resolve(&matches, &self.options);
        self.load_values(values);
        None
    }

    /// Returns the usage text for the registered options: the brief, and
    /// below it one entry for each option, in the order of registration.
    pub fn usage(&self, brief: &str) -> (text: String)
        ensures
            text@ == usage_text(self@.options, brief@),
    {
        let options = options_of(&self.options);
        usage(&options, brief)
    }
}

} // verus!
