//! The syscall dispatch table: binds a syscall number to a handler that takes
//! two argument words and the calling thread, and returns one result word.

use vstd::prelude::*;

verus! {

/// The thread that made a syscall, named by its place in the kernel's thread
/// and process arenas. The thread's process is a plain index, not an owning
/// reference.
#[derive(Clone, Copy, Debug, PartialEq, Eq, Structural)]
pub struct Caller {
    pub process: u64,
    pub thread: u64,
}

/// Why a syscall could not be dispatched.
#[derive(Clone, Copy, Debug, PartialEq, Eq, Structural)]
pub enum SyscallError {
    /// No handler is registered under this number.
    InvalidNumber(u64),
}

/// A handler may be called with any arguments and any caller.
pub open spec fn accepts_any_call<H: Fn(u64, u64, Caller) -> u64>(h: H) -> bool {
    forall|a: u64, b: u64, caller: Caller| call_requires(h, (a, b, caller))
}

/// The mapping from syscall numbers to handlers. Registering a number that is
/// already bound replaces its handler.
pub struct SyscallTable<H> {
    entries: Vec<(u64, H)>,
}

impl<H: Fn(u64, u64, Caller) -> u64> SyscallTable<H> {
    /// The index at which `number` is bound, if it is.
    closed spec fn has_at(&self, i: int, number: u64) -> bool {
        0 <= i < self.entries@.len() && self.entries@[i].0 == number
    }

    /// The mapping from numbers to handlers.
    pub closed spec fn view(&self) -> Map<u64, H> {
        Map::new(
            |n: u64| exists|i: int| self.has_at(i, n),
            |n: u64| self.entries@[choose|i: int| self.has_at(i, n)].1,
        )
    }

    /// No number is bound twice, and every handler accepts any call.
    pub closed spec fn wf(&self) -> bool {
        &&& forall|i: int, j: int|
            0 <= i < j < self.entries@.len() ==> #[trigger] self.entries@[i].0
                != #[trigger] self.entries@[j].0
        &&& forall|i: int|
            0 <= i < self.entries@.len() ==> accepts_any_call(#[trigger] self.entries@[i].1)
    }

    proof fn lemma_lookup(&self, i: int)
        requires
            self.wf(),
            0 <= i < self.entries@.len(),
        ensures
            self.view().contains_key(self.entries@[i].0),
            self.view()[self.entries@[i].0] == self.entries@[i].1,
    {
        let n = self.entries@[i].0;
        assert(self.has_at(i, n));
        let k = choose|k: int| self.has_at(k, n);
        if k != i {
            if k < i {
                assert(self.entries@[k].0 != self.entries@[i].0);
            } else {
                assert(self.entries@[i].0 != self.entries@[k].0);
            }
        }
    }

    /// An empty table.
    pub fn new() -> (r: Self)
        ensures
            r.wf(),
            r.view() == Map::<u64, H>::empty(),
    {
        let r = SyscallTable { entries: Vec::new() };
        assert(r.view() =~= Map::<u64, H>::empty());
        r
    }

    /// The index of `number` in the table, if it is bound.
    fn find(&self, number: u64) -> (r: Option<usize>)
        requires
            self.wf(),
        ensures
            match r {
                Some(i) => self.has_at(i as int, number),
                None => !self.view().contains_key(number),
            },
    {
        let mut i: usize = 0;
        while i < self.entries.len()
            invariant
                0 <= i <= self.entries@.len(),
                forall|k: int| 0 <= k < i ==> self.entries@[k].0 != number,
            decreases self.entries@.len() - i,
        {
            if self.entries[i].0 == number {
                return Some(i);
            }
            i = i + 1;
        }
        None
    }

    /// Binds `number` to `handler`, replacing the handler it had, if any.
    pub fn register(&mut self, number: u64, handler: H)
        requires
            old(self).wf(),
            accepts_any_call(handler),
        ensures
            final(self).wf(),
            final(self).view() == old(self).view().insert(number, handler),
    {
        let ghost before = self.entries@;
        match self.find(number) {
            Some(i) => {
                self.entries.set(i, (number, handler));
                proof {
                    assert(self.entries@ == before.update(i as int, (number, handler)));
                    assert forall|n: u64|
                        #![auto]
                        self.view().contains_key(n) == old(self).view().insert(
                            number,
                            handler,
                        ).contains_key(n) by {
                        if old(self).view().contains_key(n) {
                            let k = choose|k: int| old(self).has_at(k, n);
                            assert(self.has_at(k, n) || n == number);
                        }
                        if n == number {
                            assert(self.has_at(i as int, n));
                        }
                        if self.view().contains_key(n) && n != number {
                            let k = choose|k: int| self.has_at(k, n);
                            assert(old(self).has_at(k, n));
                        }
                    }
                    assert(self.wf());
                    self.lemma_lookup(i as int);
                    assert forall|n: u64|
                        #![auto]
                        self.view().contains_key(n) && n != number implies self.view()[n]
                        == old(self).view()[n] by {
                        let k = choose|k: int| self.has_at(k, n);
                        self.lemma_lookup(k);
                        old(self).lemma_lookup(k);
                    }
                    assert(self.view() =~= old(self).view().insert(number, handler));
                }
            },
            None => {
                self.entries.push((number, handler));
                proof {
                    assert forall|k: int| 0 <= k < before.len() implies before[k].0 != number by {
                        if before[k].0 == number {
                            assert(old(self).has_at(k, number));
                        }
                    }
                    assert(self.entries@ == before.push((number, handler)));
                    assert(self.wf());
                    let last = before.len() as int;
                    self.lemma_lookup(last);
                    assert forall|n: u64|
                        #![auto]
                        self.view().contains_key(n) == old(self).view().insert(
                            number,
                            handler,
                        ).contains_key(n) by {
                        if old(self).view().contains_key(n) {
                            let k = choose|k: int| old(self).has_at(k, n);
                            assert(self.has_at(k, n));
                        }
                        if self.view().contains_key(n) && n != number {
                            let k = choose|k: int| self.has_at(k, n);
                            assert(old(self).has_at(k, n));
                        }
                    }
                    assert forall|n: u64|
                        #![auto]
                        self.view().contains_key(n) && n != number implies self.view()[n]
                        == old(self).view()[n] by {
                        let k = choose|k: int| self.has_at(k, n);
                        self.lemma_lookup(k);
                        old(self).lemma_lookup(k);
                    }
                    assert(self.view() =~= old(self).view().insert(number, handler));
                }
            },
        }
    }

    /// Calls the handler bound to `number` with the two argument words and the
    /// caller, and returns its result unchanged. A number with no handler is
    /// an error, never a value from another handler.
    pub fn dispatch(&self, number: u64, arg1: u64, arg2: u64, caller: Caller) -> (r: Result<
        u64,
        SyscallError,
    >)
        requires
            self.wf(),
        ensures
            r is Ok <==> self.view().contains_key(number),
            match r {
                Ok(v) => call_ensures(self.view()[number], (arg1, arg2, caller), v),
                Err(e) => e == SyscallError::InvalidNumber(number),
            },
    {
        match self.find(number) {
            Some(i) => {
                proof {
                    self.lemma_lookup(i as int);
                }
                let handler = &self.entries[i].1;
                Ok(handler(arg1, arg2, caller))
            },
            None => Err(SyscallError::InvalidNumber(number)),
        }
    }

    /// Whether `number` has a handler.
    pub fn is_registered(&self, number: u64) -> (r: bool)
        requires
            self.wf(),
        ensures
            r == self.view().contains_key(number),
    {
        proof {
            if self.view().contains_key(number) {
                let k = choose|k: int| self.has_at(k, number);
                self.lemma_lookup(k);
            }
        }
        self.find(number).is_some()
    }
}

/// Registering `handler` under `number` makes `dispatch(number, ..)` call that
/// handler, whatever was bound before, and leaves every other number as it
/// was.
pub proof fn lemma_dispatch_reaches_registered<H: Fn(u64, u64, Caller) -> u64>(
    before: SyscallTable<H>,
    after: SyscallTable<H>,
    number: u64,
    handler: H,
)
    requires
        after.view() == before.view().insert(number, handler),
    ensures
        after.view().contains_key(number),
        after.view()[number] == handler,
        forall|m: u64|
            m != number ==> (#[trigger] after.view().contains_key(m)
                == before.view().contains_key(m)),
        forall|m: u64|
            m != number && before.view().contains_key(m) ==> #[trigger] after.view()[m]
                == before.view()[m],
{
}

} // verus!
