//! Time-limited tokens handed out by a lease manager.

pub mod json_proto;

use vstd::prelude::*;
use vstd::string::*;

verus! {

/// Time to live of a lease, in the unit of its issue time.
pub type TTL = usize;

/// A leased token: the secret value, how long it lives and when it was issued.
#[derive(Debug, PartialEq, Eq)]
pub struct Lease {
    value: String,
    ttl: TTL,
    issued: usize,
}

/// What a lease holds, as plain mathematical values.
pub struct LeaseView {
    pub value: Seq<char>,
    pub ttl: nat,
    pub issued: nat,
}

impl LeaseView {
    /// A lease without a value, without a lifetime or without an issue time
    /// can never be used.
    pub open spec fn invalid(self) -> bool {
        self.value.len() == 0 || self.ttl == 0 || self.issued == 0
    }

    /// A usable lease is valid strictly before `issued + ttl`.
    pub open spec fn is_valid(self, now: nat) -> bool {
        !self.invalid() && self.issued + self.ttl > now
    }
}

impl View for Lease {
    type V = LeaseView;

    closed spec fn view(&self) -> LeaseView {
        LeaseView { value: self.value@, ttl: self.ttl as nat, issued: self.issued as nat }
    }
}

impl Clone for Lease {
    fn clone(&self) -> (res: Self)
        ensures
            res@ == self@,
    {
        Lease { value: self.value.clone(), ttl: self.ttl, issued: self.issued }
    }
}

impl Default for Lease {
    fn default() -> (res: Self)
        ensures
            res@ == (LeaseView { value: Seq::<char>::empty(), ttl: 0, issued: 0 }),
    {
        Lease { value: String::new(), ttl: 0, issued: 0 }
    }
}

impl Lease {
    /// Makes a lease of `value` that lives `ttl` from `issued` on.
    pub fn new(value: &str, ttl: usize, issued: usize) -> (res: Self)
        ensures
            res@ == (LeaseView { value: value@, ttl: ttl as nat, issued: issued as nat }),
    {
        Lease { value: String::from_str(value), ttl, issued }
    }

    /// The leased secret.
    pub fn value(&self) -> (res: &str)
        ensures
            res@ == self@.value,
    {
        self.value.as_str()
    }

    /// How long the lease lives.
    pub fn ttl(&self) -> (res: TTL)
        ensures
            res as nat == self@.ttl,
    {
        self.ttl
    }

    /// When the lease was issued.
    pub fn issued(&self) -> (res: usize)
        ensures
            res as nat == self@.issued,
    {
        self.issued
    }

    /// Whether the lease can never be used, whatever the time.
    pub fn invalid(&self) -> (res: bool)
        ensures
            res == self@.invalid(),
    {
        self.value.as_str().is_empty() || self.ttl == 0 || self.issued == 0
    }

    /// Whether the lease can be used at `now`. The sum `issued + ttl` is
    /// taken over the integers, so a lease that would outlive the largest
    /// representable time is valid at every `now`.
    pub fn is_valid(&self, now: usize) -> (res: bool)
        ensures
            res == self@.is_valid(now as nat),
    {
        if self.invalid() {
            false
        } else if self.ttl > now {
            true
        } else {
            self.issued > now - self.ttl
        }
    }
}

} // verus!
