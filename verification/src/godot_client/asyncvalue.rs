//! A value that is set in one place and watched in another: the watcher is
//! told of a change once, at its next look.

use vstd::prelude::*;

use crate::addr::PublicEndpoint;
use crate::server::listing::{ListingState, RustListing, RustListingNoId};

verus! {

/// A value that can be watched: it can be compared with another and copied,
/// both by what it holds.
pub trait Watched: DeepView + Sized {
    /// Whether the two hold the same.
    fn is_same(&self, other: &Self) -> (r: bool)
        ensures
            r == (self.deep_view() == other.deep_view()),
    ;

    /// A value that holds the same.
    fn copy(&self) -> (r: Self)
        ensures
            r.deep_view() == self.deep_view(),
    ;
}

impl Watched for bool {
    fn is_same(&self, other: &Self) -> (r: bool) {
        *self == *other
    }

    fn copy(&self) -> (r: Self) {
        *self
    }
}

impl Watched for String {
    fn is_same(&self, other: &Self) -> (r: bool) {
        *self == *other
    }

    fn copy(&self) -> (r: Self) {
        self.clone()
    }
}

impl DeepView for PublicEndpoint {
    type V = PublicEndpoint;

    open spec fn deep_view(&self) -> PublicEndpoint {
        *self
    }
}

impl Watched for PublicEndpoint {
    fn is_same(&self, other: &Self) -> (r: bool) {
        *self == *other
    }

    fn copy(&self) -> (r: Self) {
        *self
    }
}

impl DeepView for RustListing {
    type V = ListingState;

    open spec fn deep_view(&self) -> ListingState {
        self@
    }
}

impl Watched for RustListing {
    fn is_same(&self, other: &Self) -> (r: bool) {
        *self.id() == *other.id() && self.inner().name == other.inner().name
    }

    fn copy(&self) -> (r: Self) {
        RustListing::with_id(RustListingNoId { name: self.inner().name.clone() }, *self.id())
    }
}

impl<T: Watched> Watched for Option<T> {
    fn is_same(&self, other: &Self) -> (r: bool) {
        match (self, other) {
            (Some(a), Some(b)) => a.is_same(b),
            (None, None) => true,
            _ => false,
        }
    }

    fn copy(&self) -> (r: Self) {
        match self {
            Some(a) => Some(a.copy()),
            None => None,
        }
    }
}

impl<T: Watched> Watched for Vec<T> {
    fn is_same(&self, other: &Self) -> (r: bool) {
        if self.len() != other.len() {
            assert(self.deep_view().len() != other.deep_view().len());
            return false;
        }
        let mut i: usize = 0;
        while i < self.len()
            invariant
                i <= self.len(),
                self.len() == other.len(),
                forall|j: int| 0 <= j < i ==> self@[j].deep_view() == other@[j].deep_view(),
            decreases self.len() - i,
        {
            if !self[i].is_same(&other[i]) {
                assert(self.deep_view()[i as int] != other.deep_view()[i as int]);
                return false;
            }
            i += 1;
        }
        assert(self.deep_view() =~= other.deep_view());
        true
    }

    fn copy(&self) -> (r: Self) {
        let mut out: Vec<T> = Vec::new();
        let mut i: usize = 0;
        while i < self.len()
            invariant
                i <= self.len(),
                out.len() == i,
                forall|j: int| 0 <= j < i ==> out@[j].deep_view() == self@[j].deep_view(),
            decreases self.len() - i,
        {
            out.push(self[i].copy());
            i += 1;
        }
        assert(out.deep_view() =~= self.deep_view());
        out
    }
}

/// The watcher's side of a value: what it saw at its last look, and the name
/// of the signal under which it tells of a change.
pub struct AsyncValue<T> {
    last_poll: T,
    signal: String,
}

impl<T: Watched> AsyncValue<T> {
    /// What the watcher saw at its last look.
    pub closed spec fn last(&self) -> T::V {
        self.last_poll.deep_view()
    }

    /// The name of the signal.
    pub closed spec fn signal_name(&self) -> Seq<char> {
        self.signal@
    }

    /// What a look at `current` hands out: nothing if the value cannot be
    /// read just now or holds what was seen at the last look, else what it
    /// holds.
    pub open spec fn news(&self, current: Option<&T>) -> Option<T::V> {
        match current {
            Some(value) if value.deep_view() != self.last() => Some(value.deep_view()),
            _ => None,
        }
    }

    /// A watcher that has seen `initial`.
    pub fn new(signal: &str, initial: T) -> (r: Self)
        ensures
            r.last() == initial.deep_view(),
            r.signal_name() == signal@,
    {
        Self { last_poll: initial, signal: signal.to_owned() }
    }

    /// The name of the signal.
    pub fn signal(&self) -> (r: &String)
        ensures
            r@ == self.signal_name(),
    {
        &self.signal
    }

    /// Looks at the value. `current` is the value as it stands, or nothing if
    /// it cannot be read just now. If it can be read and differs from what
    /// was seen at the last look, the watcher remembers it and hands it out;
    /// otherwise nothing changes.
    pub fn poll(&mut self, current: Option<&T>) -> (r: Option<T>)
        ensures
            final(self).signal_name() == old(self).signal_name(),
            match old(self).news(current) {
                Some(seen) => r is Some && r->0.deep_view() == seen && final(self).last() == seen,
                None => r is None && final(self).last() == old(self).last(),
            },
    {
        let value = match current {
            Some(value) => value,
            None => { return None; },
        };
        if !self.last_poll.is_same(value) {
            self.last_poll = value.copy();
            Some(value.copy())
        } else {
            None
        }
    }
}

/// A watched value with a value to start from.
pub trait WatchedDefault: Watched {
    /// What the value to start from holds.
    spec fn initial_view() -> Self::V;

    /// The value to start from.
    fn initial() -> (r: Self)
        ensures
            r.deep_view() == Self::initial_view(),
    ;
}

impl WatchedDefault for bool {
    open spec fn initial_view() -> bool {
        false
    }

    fn initial() -> (r: Self) {
        false
    }
}

impl WatchedDefault for String {
    open spec fn initial_view() -> Seq<char> {
        Seq::empty()
    }

    fn initial() -> (r: Self) {
        String::new()
    }
}

impl<T: Watched> WatchedDefault for Option<T> {
    open spec fn initial_view() -> Option<T::V> {
        None
    }

    fn initial() -> (r: Self) {
        None
    }
}

impl<T: Watched> WatchedDefault for Vec<T> {
    open spec fn initial_view() -> Seq<T::V> {
        Seq::empty()
    }

    fn initial() -> (r: Self) {
        let r: Vec<T> = Vec::new();
        assert(r.deep_view() =~= Seq::<T::V>::empty());
        r
    }
}

impl<T: WatchedDefault> AsyncValue<T> {
    /// A watcher that has seen the value to start from.
    pub fn from_default(signal: &str) -> (r: Self)
        ensures
            r.last() == T::initial_view(),
            r.signal_name() == signal@,
    {
        Self { last_poll: T::initial(), signal: signal.to_owned() }
    }
}

} // verus!
