//! A plain observer-list signal: a current value and a list of subscriber
//! callbacks. Setting the value stores it and then notifies every
//! subscriber with it, in subscription order; subscribing notifies the new
//! subscriber once with the current value.

use vstd::prelude::*;

verus! {

/// A value with subscribers that are called back on every change.
pub struct Signal<T, F> {
    value: T,
    subscribers: Vec<F>,
}

impl<T: Copy, F: Fn(T)> Signal<T, F> {
    /// The current value.
    pub closed spec fn spec_value(&self) -> T {
        self.value
    }

    /// The subscribers, in subscription order.
    pub closed spec fn spec_subscribers(&self) -> Seq<F> {
        self.subscribers@
    }

    /// A signal holding `value`, with no subscribers yet.
    pub fn new(value: T) -> (r: Self)
        ensures
            r.spec_value() == value,
            r.spec_subscribers() == Seq::<F>::empty(),
    {
        Signal { value, subscribers: Vec::new() }
    }

    /// The current value.
    pub fn get(&self) -> (r: T)
        ensures
            r == self.spec_value(),
    {
        self.value
    }

    /// Store `new_value`, then call every subscriber with it, in
    /// subscription order. The subscriber list itself does not change.
    pub fn set(&mut self, new_value: T)
        requires
            forall|i: int|
                0 <= i < old(self).spec_subscribers().len() ==> call_requires(
                    #[trigger] old(self).spec_subscribers()[i],
                    (new_value,),
                ),
        ensures
            final(self).spec_value() == new_value,
            final(self).spec_subscribers() == old(self).spec_subscribers(),
    {
        self.value = new_value;
        let mut j: usize = 0;
        while j < self.subscribers.len()
            invariant
                j <= self.subscribers@.len(),
                self.value == new_value,
                self.subscribers@ == old(self).spec_subscribers(),
                forall|i: int|
                    0 <= i < self.subscribers@.len() ==> call_requires(
                        #[trigger] self.subscribers@[i],
                        (new_value,),
                    ),
            decreases self.subscribers@.len() - j,
        {
            let subscriber = &self.subscribers[j];
            subscriber(new_value);
            j += 1;
        }
    }

    /// Store `cb` as a subscriber, then call it once with the current
    /// value.
    pub fn on(&mut self, cb: F)
        requires
            call_requires(cb, (old(self).spec_value(),)),
        ensures
            final(self).spec_value() == old(self).spec_value(),
            final(self).spec_subscribers() == old(self).spec_subscribers().push(cb),
    {
        self.subscribers.push(cb);
        let last = self.subscribers.len() - 1;
        let subscriber = &self.subscribers[last];
        subscriber(self.value);
    }
}

} // verus!
