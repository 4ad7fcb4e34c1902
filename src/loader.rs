use crate::types::LoadingError;
use vstd::prelude::*;
use vstd::string::StringExecFns;

verus! {

/// The state of one command slot of a table.
#[derive(Copy, Clone, Eq, PartialEq, Debug, Structural)]
pub enum SlotState {
    /// The table has not been loaded: calling the command is fatal.
    Uninitialized,
    /// The driver gave this (non-null) address for the command.
    Resolved(u64),
    /// The driver gave no address: calling the command is fatal.
    Unavailable,
}

/// Why a command of a table cannot be called.
#[derive(Copy, Clone, Eq, PartialEq, Debug, Structural)]
pub enum CallError {
    Uninitialized,
    Unavailable,
}

/// What a driver's proc-address query means: a null address says that the
/// command does not exist there.
pub open spec fn proc_addr_spec(address: u64) -> Result<u64, LoadingError> {
    if address == 0 {
        Err(LoadingError())
    } else {
        Ok(address)
    }
}

/// The slot that a query's answer puts in place.
pub open spec fn slot_of(address: u64) -> SlotState {
    if address == 0 {
        SlotState::Unavailable
    } else {
        SlotState::Resolved(address)
    }
}

/// Slots and count of resolution passes after a load with the driver's
/// answers `addresses`: only a table that was never loaded is resolved.
pub open spec fn after_load(slots: Seq<SlotState>, passes: nat, addresses: Seq<u64>) -> (
    Seq<SlotState>,
    nat,
) {
    if passes == 0 {
        (addresses.map_values(|a: u64| slot_of(a)), 1)
    } else {
        (slots, passes)
    }
}

/// What calling a command in the given slot gives: its address, or the reason
/// why it cannot be called.
pub open spec fn dispatch_spec(slot: SlotState) -> Result<u64, CallError> {
    match slot {
        SlotState::Uninitialized => Err(CallError::Uninitialized),
        SlotState::Resolved(a) => Ok(a),
        SlotState::Unavailable => Err(CallError::Unavailable),
    }
}

pub open spec fn uninitialized_message(name: Seq<char>) -> Seq<char> {
    "Vulkan function "@ + name + " called before initialization!"@
}

pub open spec fn unavailable_message(name: Seq<char>) -> Seq<char> {
    "Vulkan function "@ + name + " not available"@
}

/// Turns the answer of a proc-address query into a result: an error for the
/// null address, the address otherwise.
pub fn resolve_proc_addr(address: u64) -> (r: Result<u64, LoadingError>)
    ensures
        r == proc_addr_spec(address),
{
    if address == 0 {
        Err(LoadingError())
    } else {
        Ok(address)
    }
}

/// The slot that a query's answer puts in place.
pub fn slot_for(address: u64) -> (r: SlotState)
    ensures
        r == slot_of(address),
{
    match resolve_proc_addr(address) {
        Ok(a) => SlotState::Resolved(a),
        Err(_) => SlotState::Unavailable,
    }
}

impl CallError {
    /// The message of the fatal stop that calling the command `name` ends in.
    pub fn message(&self, name: &str) -> (r: String)
        ensures
            *self == CallError::Uninitialized ==> r@ == uninitialized_message(name@),
            *self == CallError::Unavailable ==> r@ == unavailable_message(name@),
    {
        let mut r = String::from_str("Vulkan function ");
        r.append(name);
        match self {
            CallError::Uninitialized => r.append(" called before initialization!"),
            CallError::Unavailable => r.append(" not available"),
        }
        r
    }
}

/// The table of the commands of one level (instance or device): a name and a
/// slot for each command, and how many resolution passes it has seen.
pub struct CommandTable {
    names: Vec<String>,
    slots: Vec<SlotState>,
    passes: u64,
}

impl CommandTable {
    pub closed spec fn names_view(&self) -> Seq<Seq<char>> {
        self.names@.map_values(|n: String| n@)
    }

    pub closed spec fn slots_view(&self) -> Seq<SlotState> {
        self.slots@
    }

    pub closed spec fn passes_view(&self) -> nat {
        self.passes as nat
    }

    /// A slot per name; at most one resolution pass; before it every slot is
    /// uninitialized, after it none is.
    pub open spec fn wf(&self) -> bool {
        &&& self.slots_view().len() == self.names_view().len()
        &&& self.passes_view() <= 1
        &&& self.passes_view() == 0 ==> forall|i: int|
            0 <= i < self.slots_view().len() ==> self.slots_view()[i] == SlotState::Uninitialized
        &&& self.passes_view() == 1 ==> forall|i: int|
            0 <= i < self.slots_view().len() ==> self.slots_view()[i] != SlotState::Uninitialized
    }

    /// A table for the given commands, none of them loaded.
    pub fn new(names: Vec<String>) -> (r: CommandTable)
        ensures
            r.wf(),
            r.names_view() == names@.map_values(|n: String| n@),
            r.passes_view() == 0,
            r.slots_view() == Seq::new(names@.len(), |i: int| SlotState::Uninitialized),
    {
        let mut slots: Vec<SlotState> = Vec::new();
        let mut i: usize = 0;
        while i < names.len()
            invariant
                i <= names@.len(),
                slots@ == Seq::new(i as nat, |k: int| SlotState::Uninitialized),
            decreases names@.len() - i,
        {
            slots.push(SlotState::Uninitialized);
            i = i + 1;
        }
        CommandTable { names, slots, passes: 0 }
    }

    pub fn len(&self) -> (r: usize)
        ensures
            r == self.names_view().len(),
    {
        self.names.len()
    }

    pub fn is_loaded(&self) -> (r: bool)
        ensures
            r == (self.passes_view() != 0),
    {
        self.passes != 0
    }

    /// How many resolution passes the table has seen: 0 before the first
    /// load, 1 ever after.
    pub fn resolution_passes(&self) -> (r: u64)
        ensures
            r == self.passes_view(),
    {
        self.passes
    }

    /// The name of the command at `index`.
    pub fn name(&self, index: usize) -> (r: &str)
        requires
            index < self.names_view().len(),
        ensures
            r@ == self.names_view()[index as int],
    {
        self.names[index].as_str()
    }

    /// Loads the table once: `addresses[i]` is the driver's answer for the
    /// command `i`. A table that was loaded before stays as it is.
    pub fn load(&mut self, addresses: &Vec<u64>)
        requires
            old(self).wf(),
            addresses@.len() == old(self).names_view().len(),
        ensures
            final(self).wf(),
            final(self).names_view() == old(self).names_view(),
            (final(self).slots_view(), final(self).passes_view()) == after_load(
                old(self).slots_view(),
                old(self).passes_view(),
                addresses@,
            ),
    {
        if self.passes != 0 {
            return ;
        }
        let mut slots: Vec<SlotState> = Vec::new();
        let mut i: usize = 0;
        while i < addresses.len()
            invariant
                i <= addresses@.len(),
                slots@ == addresses@.subrange(0, i as int).map_values(|a: u64| slot_of(a)),
            decreases addresses@.len() - i,
        {
            let s = slot_for(addresses[i]);
            slots.push(s);
            i = i + 1;
            assert(addresses@.subrange(0, i as int) == addresses@.subrange(0, i - 1).push(
                addresses@[i - 1],
            ));
        }
        assert(addresses@.subrange(0, addresses@.len() as int) == addresses@);
        self.slots = slots;
        self.passes = 1;
    }

    /// What calling the command at `index` gives: its resolved address, or
    /// the reason why the call must stop.
    pub fn dispatch(&self, index: usize) -> (r: Result<u64, CallError>)
        requires
            self.wf(),
            index < self.names_view().len(),
        ensures
            r == dispatch_spec(self.slots_view()[index as int]),
    {
        match self.slots[index] {
            SlotState::Uninitialized => Err(CallError::Uninitialized),
            SlotState::Resolved(a) => Ok(a),
            SlotState::Unavailable => Err(CallError::Unavailable),
        }
    }
}

/// Loading a table that was never loaded makes one resolution pass, and any
/// later load, whatever the driver answers then, changes nothing.
pub proof fn lemma_load_once(slots: Seq<SlotState>, first: Seq<u64>, later: Seq<u64>)
    ensures
        after_load(slots, 0, first).1 == 1,
        after_load(after_load(slots, 0, first).0, after_load(slots, 0, first).1, later)
            == after_load(slots, 0, first),
{
}

/// After a load, a command whose query answered null is unavailable and one
/// that got an address calls that address; the two fatal stops, for one and
/// the same command name, carry different messages.
pub proof fn lemma_dispatch_outcomes(address: u64, name: Seq<char>)
    ensures
        address == 0 ==> dispatch_spec(slot_of(address)) == Err::<u64, CallError>(
            CallError::Unavailable,
        ),
        address != 0 ==> dispatch_spec(slot_of(address)) == Ok::<u64, CallError>(address),
        dispatch_spec(SlotState::Uninitialized) == Err::<u64, CallError>(CallError::Uninitialized),
        uninitialized_message(name) != unavailable_message(name),
{
    reveal_strlit("Vulkan function ");
    reveal_strlit(" called before initialization!");
    reveal_strlit(" not available");
    assert(uninitialized_message(name).len() != unavailable_message(name).len());
}

} // verus!
