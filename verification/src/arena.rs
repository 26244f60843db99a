//! The allocation arena: a growing table of guest-owned byte buffers,
//! addressed by integer id. It is the only channel by which the host moves
//! variable-length data (strings, byte buffers) into the guest.
//!
//! Ids are table indices and are never reused: the table only grows, and a
//! cleared slot stays empty forever. Every access to a cleared or
//! out-of-range id reports [`Fault::UseAfterFree`]; decoding bytes that are
//! not valid UTF-8 reports [`Fault::InvalidEncoding`].

use vstd::prelude::*;
use vstd::slice::slice_to_vec;
use vstd::utf8::{decode_utf8, valid_utf8};

use crate::Fault;

verus! {

broadcast use vstd::utf8::encode_utf8_valid_utf8, vstd::utf8::encode_utf8_decode_utf8;

/// The arena's mathematical model: one entry per allocation ever made, with
/// `Some(bytes)` for a live slot and `None` for a cleared one.
pub type ArenaModel = Seq<Option<Seq<u8>>>;

/// True when `id` names a slot that exists and has not been cleared.
pub open spec fn spec_live(a: ArenaModel, id: int) -> bool {
    0 <= id < a.len() && a[id] is Some
}

/// Appending a fresh zero-filled buffer of `size` bytes.
pub open spec fn spec_create(a: ArenaModel, size: nat) -> ArenaModel {
    a.push(Some(Seq::new(size, |i: int| 0u8)))
}

/// Replacing a live slot's contents with `bytes`.
pub open spec fn spec_write(a: ArenaModel, id: int, bytes: Seq<u8>) -> ArenaModel {
    a.update(id, Some(bytes))
}

/// Marking a slot empty; later accesses to it fail.
pub open spec fn spec_clear(a: ArenaModel, id: int) -> ArenaModel {
    a.update(id, None)
}

/// What a copy-out read of slot `id` yields.
pub open spec fn spec_read(a: ArenaModel, id: int) -> Result<Seq<u8>, Fault> {
    if spec_live(a, id) {
        Ok(a[id]->Some_0)
    } else {
        Err(Fault::UseAfterFree)
    }
}

/// What a string read of slot `id` yields: the slot's bytes decoded as
/// UTF-8, or a fault.
pub open spec fn spec_read_string(a: ArenaModel, id: int) -> Result<Seq<char>, Fault> {
    match spec_read(a, id) {
        Ok(bytes) => if valid_utf8(bytes) {
            Ok(decode_utf8(bytes))
        } else {
            Err(Fault::InvalidEncoding)
        },
        Err(fault) => Err(fault),
    }
}

/// Relies on String::from_utf8: it succeeds exactly on input that is valid
/// UTF-8, and then returns the string whose character sequence is the
/// decoding of that input.
#[verifier::external_body]
fn string_from_utf8(bytes: Vec<u8>) -> (r: Option<String>)
    ensures
        r is Some <==> valid_utf8(bytes@),
        r matches Some(s) ==> s@ == decode_utf8(bytes@),
{
    String::from_utf8(bytes).ok()
}

/// The allocation arena. See the module documentation.
pub struct Arena {
    slots: Vec<Option<Vec<u8>>>,
}

impl View for Arena {
    type V = ArenaModel;

    closed spec fn view(&self) -> ArenaModel {
        Seq::new(
            self.slots@.len(),
            |i: int|
                match self.slots@[i] {
                    Some(bytes) => Some(bytes@),
                    None => None,
                },
        )
    }
}

impl Arena {
    /// An arena with no allocations.
    pub fn new() -> (r: Arena)
        ensures
            r@ == Seq::<Option<Seq<u8>>>::empty(),
    {
        let r = Arena { slots: Vec::new() };
        proof {
            assert(r@ =~= Seq::<Option<Seq<u8>>>::empty());
        }
        r
    }

    /// How many allocations have ever been made (live or cleared).
    pub fn slot_count(&self) -> (n: usize)
        ensures
            n == self@.len(),
    {
        self.slots.len()
    }

    /// Append a zero-filled buffer of `size` bytes and return its id, which
    /// was never live before: the table only grows, so no earlier state had
    /// a slot at this index.
    pub fn create_allocation(&mut self, size: usize) -> (id: u32)
        requires
            old(self)@.len() < u32::MAX,
        ensures
            final(self)@ == spec_create(old(self)@, size as nat),
            id == old(self)@.len(),
    {
        let id = self.slots.len() as u32;
        let buffer = vec![0u8; size];
        assert(buffer@ =~= Seq::new(size as nat, |i: int| 0u8));
        self.slots.push(Some(buffer));
        proof {
            assert(self@ =~= spec_create(old(self)@, size as nat));
        }
        id
    }

    /// Borrow a live slot's buffer, so a caller with direct memory access
    /// can copy bytes out without an intermediate copy. The slot must not
    /// be cleared while such a read is in progress.
    pub fn get_allocation(&self, id: u32) -> (r: Result<&Vec<u8>, Fault>)
        ensures
            spec_live(self@, id as int) ==> (r matches Ok(b) && b@ == self@[id as int]->Some_0),
            !spec_live(self@, id as int) ==> r == Err::<&Vec<u8>, Fault>(Fault::UseAfterFree),
    {
        if (id as usize) < self.slots.len() {
            match &self.slots[id as usize] {
                Some(bytes) => Ok(bytes),
                None => Err(Fault::UseAfterFree),
            }
        } else {
            Err(Fault::UseAfterFree)
        }
    }

    /// Replace a live slot's contents. This is the privileged path used
    /// when a host call returns a string or buffer.
    pub fn write(&mut self, id: u32, bytes: Vec<u8>) -> (r: Result<(), Fault>)
        ensures
            spec_live(old(self)@, id as int) ==> (r is Ok && final(self)@ == spec_write(
                old(self)@,
                id as int,
                bytes@,
            )),
            !spec_live(old(self)@, id as int) ==> (r == Err::<(), Fault>(Fault::UseAfterFree)
                && final(self)@ == old(self)@),
    {
        if (id as usize) < self.slots.len() {
            let live = self.slots[id as usize].is_some();
            if live {
                self.slots[id as usize] = Some(bytes);
                proof {
                    assert(self@ =~= spec_write(old(self)@, id as int, bytes@));
                }
                Ok(())
            } else {
                Err(Fault::UseAfterFree)
            }
        } else {
            Err(Fault::UseAfterFree)
        }
    }

    /// Copy a live slot's bytes out.
    pub fn read_bytes(&self, id: u32) -> (r: Result<Vec<u8>, Fault>)
        ensures
            spec_read(self@, id as int) matches Ok(bytes) ==> (r matches Ok(v) && v@ == bytes),
            spec_read(self@, id as int) matches Err(fault) ==> r == Err::<Vec<u8>, Fault>(fault),
    {
        if (id as usize) < self.slots.len() {
            match &self.slots[id as usize] {
                Some(bytes) => Ok(slice_to_vec(bytes.as_slice())),
                None => Err(Fault::UseAfterFree),
            }
        } else {
            Err(Fault::UseAfterFree)
        }
    }

    /// Decode a live slot's bytes as UTF-8.
    pub fn read_string(&self, id: u32) -> (r: Result<String, Fault>)
        ensures
            spec_read_string(self@, id as int) matches Ok(text) ==> (r matches Ok(s) && s@
                == text),
            spec_read_string(self@, id as int) matches Err(fault) ==> r == Err::<String, Fault>(
                fault,
            ),
    {
        match self.read_bytes(id) {
            Ok(bytes) => match string_from_utf8(bytes) {
                Some(s) => Ok(s),
                None => Err(Fault::InvalidEncoding),
            },
            Err(fault) => Err(fault),
        }
    }

    /// The byte length of a live slot.
    pub fn len(&self, id: u32) -> (r: Result<usize, Fault>)
        ensures
            spec_live(self@, id as int) ==> (r matches Ok(n) && n == self@[id as int]->Some_0.len()),
            !spec_live(self@, id as int) ==> r == Err::<usize, Fault>(Fault::UseAfterFree),
    {
        if (id as usize) < self.slots.len() {
            match &self.slots[id as usize] {
                Some(bytes) => Ok(bytes.len()),
                None => Err(Fault::UseAfterFree),
            }
        } else {
            Err(Fault::UseAfterFree)
        }
    }

    /// Mark a live slot empty. Every later access to this id fails with
    /// [`Fault::UseAfterFree`].
    pub fn clear(&mut self, id: u32) -> (r: Result<(), Fault>)
        ensures
            spec_live(old(self)@, id as int) ==> (r is Ok && final(self)@ == spec_clear(
                old(self)@,
                id as int,
            )),
            !spec_live(old(self)@, id as int) ==> (r == Err::<(), Fault>(Fault::UseAfterFree)
                && final(self)@ == old(self)@),
    {
        if (id as usize) < self.slots.len() {
            let live = self.slots[id as usize].is_some();
            if live {
                self.slots[id as usize] = None;
                proof {
                    assert(self@ =~= spec_clear(old(self)@, id as int));
                }
                Ok(())
            } else {
                Err(Fault::UseAfterFree)
            }
        } else {
            Err(Fault::UseAfterFree)
        }
    }
}

/// Creation yields a fresh id: no table that is no longer than the current
/// one — in particular, no earlier state of this arena, since the table
/// only grows — has that id live. Immediately after creation the slot is
/// live, zero-filled, and of the requested length.
pub proof fn lemma_create_fresh(a: ArenaModel, earlier: ArenaModel, size: nat)
    requires
        earlier.len() <= a.len(),
    ensures
        !spec_live(earlier, a.len() as int),
        spec_live(spec_create(a, size), a.len() as int),
        spec_read(spec_create(a, size), a.len() as int) == Ok::<Seq<u8>, Fault>(
            Seq::new(size, |i: int| 0u8),
        ),
        spec_read(spec_create(a, size), a.len() as int)->Ok_0.len() == size,
{
}

/// Round trip: writing bytes into a live slot and reading them back yields
/// exactly those bytes.
pub proof fn lemma_write_read_roundtrip(a: ArenaModel, id: int, bytes: Seq<u8>)
    requires
        spec_live(a, id),
    ensures
        spec_read(spec_write(a, id, bytes), id) == Ok::<Seq<u8>, Fault>(bytes),
{
}

/// Round trip through text: writing a string's UTF-8 encoding into a live
/// slot and reading the slot back as a string yields exactly that string.
pub proof fn lemma_write_read_string_roundtrip(a: ArenaModel, id: int, text: Seq<char>)
    requires
        spec_live(a, id),
    ensures
        spec_read_string(spec_write(a, id, vstd::utf8::encode_utf8(text)), id) == Ok::<
            Seq<char>,
            Fault,
        >(text),
{
}

/// Isolation: two allocations created in sequence have distinct ids, and
/// writing either one leaves what is read from the other unchanged.
pub proof fn lemma_allocations_isolated(
    a: ArenaModel,
    size1: nat,
    size2: nat,
    bytes: Seq<u8>,
)
    ensures
        ({
            let id1 = a.len() as int;
            let both = spec_create(spec_create(a, size1), size2);
            let id2 = both.len() - 1;
            &&& id1 != id2
            &&& spec_read(spec_write(both, id1, bytes), id2) == spec_read(both, id2)
            &&& spec_read(spec_write(both, id2, bytes), id1) == spec_read(both, id1)
        }),
{
}

/// Writing a live slot changes no other slot.
pub proof fn lemma_write_preserves_others(a: ArenaModel, id: int, bytes: Seq<u8>, other: int)
    requires
        spec_live(a, id),
        other != id,
    ensures
        spec_read(spec_write(a, id, bytes), other) == spec_read(a, other),
        spec_read_string(spec_write(a, id, bytes), other) == spec_read_string(a, other),
{
}

/// Use after free: once a slot is cleared, every read on its id — bytes,
/// string, or length — fails with [`Fault::UseAfterFree`].
pub proof fn lemma_use_after_free(a: ArenaModel, id: int)
    requires
        0 <= id < a.len(),
    ensures
        spec_read(spec_clear(a, id), id) == Err::<Seq<u8>, Fault>(Fault::UseAfterFree),
        spec_read_string(spec_clear(a, id), id) == Err::<Seq<char>, Fault>(Fault::UseAfterFree),
        !spec_live(spec_clear(a, id), id),
{
}

} // verus!
