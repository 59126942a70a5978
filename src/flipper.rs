use crate::account::AccountId;
use crate::counter_store::CounterStore;
use vstd::prelude::*;

verus! {

/// Why a flip could not be recorded.
#[derive(Clone, Copy, Debug, PartialEq, Eq)]
pub enum MutationError {
    /// The backing storage could not persist the write.
    StorageFailure,
}

/// The notification emitted by each flip: who flipped, the flag's new value,
/// and how many operations that caller had made before.
#[derive(Clone, Copy, Debug, PartialEq, Eq)]
pub struct Flipped {
    pub caller: AccountId,
    pub value: bool,
    pub no_of_times: u32,
}

/// `post` is the state that one flip by `caller` makes of `pre`: the flag is
/// inverted, `caller` becomes the last caller, and only the caller's count
/// grows, by one.
pub open spec fn flip_step<T: IFlipper>(pre: T, post: T, caller: Seq<u8>) -> bool {
    &&& post.wf()
    &&& post.flag() == !pre.flag()
    &&& post.last_caller() == caller
    &&& post.count_of(caller) == pre.count_of(caller) + 1
    &&& forall|id: Seq<u8>| id != caller ==> #[trigger] post.count_of(id) == pre.count_of(id)
}

/// The capabilities that callers of the service invoke.
pub trait IFlipper: Sized {
    /// The state is well formed.
    spec fn wf(&self) -> bool;

    /// The current flag.
    spec fn flag(&self) -> bool;

    /// The identity of the last caller that changed the state.
    spec fn last_caller(&self) -> Seq<u8>;

    /// How many operations `id` has made; 0 for an identity never seen.
    spec fn count_of(&self, id: Seq<u8>) -> nat;

    /// Inverts the flag on behalf of `caller`, counts the operation, and
    /// appends one notification to `sink`.
    fn flip(&mut self, caller: AccountId, sink: &mut Vec<Flipped>) -> (r: Result<(), MutationError>)
        requires
            old(self).wf(),
            old(self).count_of(caller@) < u32::MAX,
        ensures
            r is Ok,
            final(self).wf(),
            final(self).flag() == !old(self).flag(),
            final(self).last_caller() == caller@,
            final(self).count_of(caller@) == old(self).count_of(caller@) + 1,
            forall|id: Seq<u8>|
                id != caller@ ==> #[trigger] final(self).count_of(id) == old(self).count_of(id),
            final(sink)@ == old(sink)@.push(
                Flipped {
                    caller,
                    value: final(self).flag(),
                    no_of_times: old(self).count_of(caller@) as u32,
                },
            ),
    ;

    /// The current flag.
    fn get(&self) -> (r: bool)
        requires
            self.wf(),
        ensures
            r == self.flag(),
    ;

    /// The last caller that changed the state.
    fn get_caller(&self) -> (r: AccountId)
        requires
            self.wf(),
        ensures
            r@ == self.last_caller(),
    ;

    /// How many operations `caller_id` has made.
    fn get_caller_value(&self, caller_id: AccountId) -> (r: u32)
        requires
            self.wf(),
        ensures
            r as nat == self.count_of(caller_id@),
    ;
}

/// The service state: the flag, the last caller, and the per-caller counts.
pub struct Flipper {
    value: bool,
    caller: AccountId,
    caller_to_number: CounterStore,
}

impl Flipper {
    /// A service whose flag starts at `init_value`; creating it counts as the
    /// first operation of `caller`, and is announced on `sink`.
    pub fn new(init_value: bool, caller: AccountId, sink: &mut Vec<Flipped>) -> (r: Flipper)
        ensures
            r.wf(),
            r.flag() == init_value,
            r.last_caller() == caller@,
            r.count_of(caller@) == 1,
            forall|id: Seq<u8>| id != caller@ ==> #[trigger] r.count_of(id) == 0,
            final(sink)@ == old(sink)@.push(
                Flipped { caller, value: init_value, no_of_times: 0 },
            ),
    {
        let num: u32 = 0;
        let mut caller_to_number = CounterStore::new();
        caller_to_number.set(&caller, num + 1);
        sink.push(Flipped { caller, value: init_value, no_of_times: num });
        Flipper { value: init_value, caller, caller_to_number }
    }

    /// A service whose flag starts false, with the all-zero last caller and
    /// no counts; nothing is announced.
    pub fn default() -> (r: Flipper)
        ensures
            r.wf(),
            r.flag() == false,
            r.last_caller() == Seq::new(32, |_i: int| 0u8),
            forall|id: Seq<u8>| #[trigger] r.count_of(id) == 0,
    {
        Flipper { value: false, caller: AccountId::zero(), caller_to_number: CounterStore::new() }
    }
}

impl IFlipper for Flipper {
    closed spec fn wf(&self) -> bool {
        self.caller_to_number.wf()
    }

    closed spec fn flag(&self) -> bool {
        self.value
    }

    closed spec fn last_caller(&self) -> Seq<u8> {
        self.caller@
    }

    closed spec fn count_of(&self, id: Seq<u8>) -> nat {
        self.caller_to_number.count(id)
    }

    fn flip(&mut self, caller: AccountId, sink: &mut Vec<Flipped>) -> (r: Result<(), MutationError>) {
        let num: u32 = self.caller_to_number.get(&caller);
        self.caller = caller;
        self.value = !self.value;
        self.caller_to_number.set(&caller, num + 1);
        sink.push(Flipped { caller, value: self.value, no_of_times: num });
        Ok(())
    }

    fn get(&self) -> (r: bool) {
        self.value
    }

    fn get_caller(&self) -> (r: AccountId) {
        self.caller
    }

    fn get_caller_value(&self, caller_id: AccountId) -> (r: u32) {
        self.caller_to_number.get(&caller_id)
    }
}

} // verus!
