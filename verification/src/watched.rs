//! A watched value: one sampled quantity together with its immediately prior
//! sample, supporting edge-detection queries.
//!
//! A `Watched<T>` starts empty and is fed one sample result per tick. A
//! successful sample shifts the current value into `previous` and installs
//! the new value. A failed sample never installs a sentinel: it either holds
//! the last good value (duplicating it into `previous`, so that a pending
//! edge is not reported twice) or, before any value was ever read, installs a
//! caller-supplied default.

use vstd::prelude::*;

verus! {

broadcast use vstd::laws_eq::group_laws_eq;

/// A sampled quantity retaining its immediately prior sample.
///
/// `current` is `None` only while the quantity has never been successfully
/// sampled; `previous` is `None` until a second sample arrives.
pub struct Watched<T> {
    pub previous: Option<T>,
    pub current: Option<T>,
}

impl<T: Copy + PartialEq> Watched<T> {
    /// Well-formed histories never have a prior sample without a current one.
    pub open spec fn wf(self) -> bool {
        self.previous is Some ==> self.current is Some
    }

    /// Both samples present and different.
    pub open spec fn spec_changed(self) -> bool {
        match (self.previous, self.current) {
            (Some(p), Some(c)) => p != c,
            _ => false,
        }
    }

    /// The value just became `v`: both samples present, the prior one was not
    /// `v`, the current one is. An absent sample is "no signal", never a
    /// match, so a freshly attached session cannot report an edge.
    pub open spec fn spec_changed_to(self, v: T) -> bool {
        match (self.previous, self.current) {
            (Some(p), Some(c)) => p != v && c == v,
            _ => false,
        }
    }

    /// The value just stopped being `v`.
    pub open spec fn spec_changed_from(self, v: T) -> bool {
        match (self.previous, self.current) {
            (Some(p), Some(c)) => p == v && c != v,
            _ => false,
        }
    }

    /// The history after feeding one sample result: a successful sample
    /// shifts and installs; a failed one holds the current value (shifting it
    /// into `previous` as well) or, on an empty history, leaves it empty.
    pub open spec fn stepped(self, sample: Option<T>) -> Watched<T> {
        match sample {
            Some(v) => Watched { previous: self.current, current: Some(v) },
            None => match self.current {
                Some(c) => Watched { previous: Some(c), current: Some(c) },
                None => self,
            },
        }
    }

    /// Like [`Watched::stepped`], but a failure on an empty history installs
    /// `default` instead of staying empty. The default is only ever used
    /// before the first successful sample; it never overwrites a held value.
    pub open spec fn stepped_or(self, sample: Option<T>, default: T) -> Watched<T> {
        match sample {
            Some(v) => Watched { previous: self.current, current: Some(v) },
            None => match self.current {
                Some(c) => Watched { previous: Some(c), current: Some(c) },
                None => Watched { previous: None, current: Some(default) },
            },
        }
    }

    /// An empty history: nothing sampled yet.
    pub fn new() -> (w: Watched<T>)
        ensures
            w.previous is None,
            w.current is None,
    {
        Watched { previous: None, current: None }
    }

    /// Feed one sample result; `None` is a failed read.
    pub fn update(&mut self, sample: Option<T>)
        ensures
            *final(self) == old(self).stepped(sample),
            old(self).wf() ==> final(self).wf(),
    {
        match sample {
            Some(v) => {
                self.previous = self.current;
                self.current = Some(v);
            }
            None => {
                if let Some(c) = self.current {
                    self.previous = Some(c);
                }
            }
        }
    }

    /// Feed one sample result; a failed read before any successful one
    /// installs `default`.
    pub fn update_or(&mut self, sample: Option<T>, default: T)
        ensures
            *final(self) == old(self).stepped_or(sample, default),
            final(self).wf(),
    {
        match sample {
            Some(v) => {
                self.previous = self.current;
                self.current = Some(v);
            }
            None => {
                match self.current {
                    Some(c) => {
                        self.previous = Some(c);
                    }
                    None => {
                        self.previous = None;
                        self.current = Some(default);
                    }
                }
            }
        }
    }

    /// Did the value change between the two most recent samples?
    pub fn changed(&self) -> (r: bool)
        requires
            vstd::laws_eq::obeys_concrete_eq::<T>(),
        ensures
            r == self.spec_changed(),
    {
        proof {
            reveal(vstd::laws_eq::obeys_concrete_eq);
        }
        match (self.previous, self.current) {
            (Some(p), Some(c)) => p != c,
            _ => false,
        }
    }

    /// Did the value just become `v`?
    pub fn changed_to(&self, v: T) -> (r: bool)
        requires
            vstd::laws_eq::obeys_concrete_eq::<T>(),
        ensures
            r == self.spec_changed_to(v),
    {
        proof {
            reveal(vstd::laws_eq::obeys_concrete_eq);
        }
        match (self.previous, self.current) {
            (Some(p), Some(c)) => p != v && c == v,
            _ => false,
        }
    }

    /// Did the value just stop being `v`?
    pub fn changed_from(&self, v: T) -> (r: bool)
        requires
            vstd::laws_eq::obeys_concrete_eq::<T>(),
        ensures
            r == self.spec_changed_from(v),
    {
        proof {
            reveal(vstd::laws_eq::obeys_concrete_eq);
        }
        match (self.previous, self.current) {
            (Some(p), Some(c)) => p == v && c != v,
            _ => false,
        }
    }

    /// The most recent value, if any was ever sampled.
    pub fn current_value(&self) -> (r: Option<T>)
        ensures
            r == self.current,
    {
        self.current
    }

    /// The history after `n` consecutive failed samples.
    pub open spec fn after_failures(self, n: nat) -> Watched<T>
        decreases n,
    {
        if n == 0 {
            self
        } else {
            self.after_failures((n - 1) as nat).stepped(None)
        }
    }

    /// Hold on failure: once a value has been sampled, any run of failed
    /// samples leaves the current value in place, and no step of the run
    /// reports a change.
    pub proof fn lemma_hold_on_failure(self, n: nat)
        requires
            self.current is Some,
        ensures
            forall|k: nat| k <= n ==> (#[trigger] self.after_failures(k)).current == self.current,
            forall|k: nat| 0 < k <= n ==> !(#[trigger] self.after_failures(k)).spec_changed(),
        decreases n,
    {
        if n > 0 {
            self.lemma_hold_on_failure((n - 1) as nat);
            assert(self.after_failures(n) == self.after_failures((n - 1) as nat).stepped(None));
        }
    }

    /// Repeating the current value produces no edge of any kind: decisions
    /// driven by edge queries are idempotent under unchanged snapshots.
    pub proof fn lemma_repeat_sample_no_edge(self, v: T)
        requires
            self.current == Some(v),
        ensures
            !self.stepped(Some(v)).spec_changed(),
            forall|x: T| !(#[trigger] self.stepped(Some(v)).spec_changed_to(x)),
            forall|x: T| !(#[trigger] self.stepped(Some(v)).spec_changed_from(x)),
    {
    }
}

impl<T: Copy + PartialEq> Default for Watched<T> {
    /// Same as [`Watched::new`]: an empty history.
    fn default() -> (w: Watched<T>)
        ensures
            w.previous is None,
            w.current is None,
    {
        Watched::new()
    }
}

} // verus!
