//! A flag that is raised in one place and watched in another.

use vstd::prelude::*;

use crate::godot_client::asyncvalue::{AsyncValue, Watched};

verus! {

/// The watcher's side of a flag: a truth value, or a value that may be
/// absent.
pub struct AsyncFlag<T> {
    watcher: AsyncValue<T>,
}

impl<T: Watched> AsyncFlag<T> {
    /// What the watcher saw at its last look.
    pub closed spec fn last(&self) -> T::V {
        self.watcher.last()
    }

    /// The name of the signal.
    pub closed spec fn signal_name(&self) -> Seq<char> {
        self.watcher.signal_name()
    }

    /// What a look at `current` hands out: nothing if the flag cannot be read
    /// just now or holds what was seen at the last look, else what it holds.
    pub open spec fn news(&self, current: Option<&T>) -> Option<T::V> {
        match current {
            Some(value) if value.deep_view() != self.last() => Some(value.deep_view()),
            _ => None,
        }
    }

    /// Looks at the flag. If it can be read and differs from what was seen at
    /// the last look, the watcher remembers it and hands it out with the
    /// signal's name; otherwise nothing changes.
    pub fn poll(&mut self, current: Option<&T>) -> (r: Option<(String, T)>)
        ensures
            final(self).signal_name() == old(self).signal_name(),
            match old(self).news(current) {
                Some(seen) => match r {
                    Some((signal, value)) => signal@ == old(self).signal_name()
                        && value.deep_view() == seen && final(self).last() == seen,
                    None => false,
                },
                None => r is None && final(self).last() == old(self).last(),
            },
    {
        match self.watcher.poll(current) {
            Some(value) => Some((self.watcher.signal().clone(), value)),
            None => None,
        }
    }
}

impl<T: Watched> AsyncFlag<Option<T>> {
    /// A flag that may be absent, and is absent to begin with.
    pub fn new_opt(signal: &str) -> (r: Self)
        ensures
            r.last() is None,
            r.signal_name() == signal@,
    {
        Self { watcher: AsyncValue::new(signal, None) }
    }
}

impl AsyncFlag<bool> {
    /// A truth value that is `initial` to begin with.
    pub fn new_bool(signal: &str, initial: bool) -> (r: Self)
        ensures
            r.last() == initial,
            r.signal_name() == signal@,
    {
        Self { watcher: AsyncValue::new(signal, initial) }
    }
}

} // verus!
