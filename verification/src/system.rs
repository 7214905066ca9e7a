//! The table in service: its life from nothing to a table the processor runs
//! on, and the three operations that move it along.

use crate::descriptor::gdtentry;
use crate::register::{gdtreg, ENTRIES, TABLE_BYTES};
use vstd::prelude::*;

verus! {

/// Where a table stands in its life. It only ever moves forward.
#[derive(Clone, Copy, Debug, PartialEq, Eq, Structural)]
pub enum Stage {
    /// Nothing has been set aside for the table yet.
    Uninitialized,
    /// The table and its register record exist; the processor does not use
    /// them yet.
    Allocated,
    /// The processor has been switched to the table at least once.
    Activated,
}

/// Why an operation on the table was turned down. The table is left as it was.
#[derive(Clone, Copy, Debug, PartialEq, Eq, Structural)]
pub enum GdtError {
    /// `init` on a table that has been initialised before.
    AlreadyInitialized,
    /// No storage could be had for the table.
    AllocationFailed,
    /// `entry` or `load` before `init`.
    NotInitialized,
    /// A slot index outside the table.
    IndexOutOfRange,
}

/// A segment register that a load writes.
#[derive(Clone, Copy, Debug, PartialEq, Eq, Structural)]
pub enum SegmentRegister {
    /// The data segment register.
    Ds,
    /// The extra segment register.
    Es,
    /// The stack segment register.
    Ss,
    /// The register that stands in for thread-local storage.
    Gs,
}

/// One operation of the sequence that switches the processor to a table.
#[derive(Clone, Copy, Debug, PartialEq, Eq, Structural)]
pub enum Step {
    /// Load the table register from this record.
    LoadTable { record: gdtreg },
    /// Transfer control through a far jump with this code selector, which is
    /// the only way the code segment register takes a new value.
    FarJump { selector: u16 },
    /// Write this selector to this segment register.
    Reload { segment: SegmentRegister, selector: u16 },
}

/// What a table is, as the contracts see it.
pub struct TableView {
    pub stage: Stage,
    /// The register record; none before `init`.
    pub register: Option<gdtreg>,
    /// The descriptors, slot by slot; empty before `init`, sixteen after.
    pub entries: Seq<gdtentry>,
}

impl TableView {
    /// The same table with slot `index` holding `e`.
    pub open spec fn with_entry(self, index: int, e: gdtentry) -> TableView {
        TableView { entries: self.entries.update(index, e), ..self }
    }
}

/// The one table of a system, together with the register record that points
/// at it.
#[allow(non_camel_case_types)]
pub struct table {
    stage: Stage,
    reg: gdtreg,
    slots: [gdtentry; 16],
}

impl View for table {
    type V = TableView;

    closed spec fn view(&self) -> TableView {
        if self.stage is Uninitialized {
            TableView { stage: Stage::Uninitialized, register: None, entries: Seq::empty() }
        } else {
            TableView { stage: self.stage, register: Some(self.reg), entries: self.slots@ }
        }
    }
}

/// The bytes of a table as they lie in memory: the descriptors' bytes, slot
/// after slot, nothing between and nothing after.
pub open spec fn image_of(entries: Seq<gdtentry>) -> Seq<u8> {
    Seq::new(8 * entries.len(), |k: int| entries[k / 8].bytes()[k % 8])
}

/// The slot that `index` names, if it names one.
fn slot_of(index: isize) -> (slot: Option<usize>)
    ensures
        0 <= index < ENTRIES ==> slot == Some(index as usize),
        !(0 <= index < ENTRIES) ==> slot is None,
{
    if index < 0 || index >= 16 {
        None
    } else {
        Some(index as usize)
    }
}

impl table {
    /// Once a table is initialised, the limit of its register record is the
    /// size of the table plus one, and stays so.
    #[verifier::type_invariant]
    spec fn limit_kept(self) -> bool {
        !(self.stage is Uninitialized) ==> self.reg.limit == 129
    }

    /// A table that nothing has been set aside for yet.
    pub fn new() -> (sys: table)
        ensures
            sys@.stage is Uninitialized,
            sys@.register is None,
            sys@.entries.len() == 0,
    {
        table {
            stage: Stage::Uninitialized,
            reg: gdtreg { limit: 0, addr: 0 },
            slots: [gdtentry::new(0, 0, 0, 0); 16],
        }
    }

    /// Where the table stands in its life.
    pub fn stage(&self) -> (stage: Stage)
        ensures
            stage == self@.stage,
    {
        self.stage
    }

    /// The register record, once there is one. Its limit is always the size
    /// of the table plus one.
    pub fn register(&self) -> (r: Option<gdtreg>)
        ensures
            r == self@.register,
            r is Some <==> !(self@.stage is Uninitialized),
            r is Some ==> r->0.limit == 129,
    {
        proof {
            use_type_invariant(self);
        }
        match self.stage {
            Stage::Uninitialized => None,
            _ => Some(self.reg),
        }
    }

    /// Reads one slot. Turned down before `init`, and otherwise when `index`
    /// is not one of the sixteen slots.
    pub fn slot(&self, index: isize) -> (r: Result<gdtentry, GdtError>)
        ensures
            self@.stage is Uninitialized ==> r == Err::<gdtentry, GdtError>(
                GdtError::NotInitialized,
            ),
            !(self@.stage is Uninitialized) && !(0 <= index < ENTRIES) ==> r == Err::<
                gdtentry,
                GdtError,
            >(GdtError::IndexOutOfRange),
            !(self@.stage is Uninitialized) && 0 <= index < ENTRIES ==> r == Ok::<gdtentry, GdtError>(
                self@.entries[index as int],
            ),
    {
        match self.stage {
            Stage::Uninitialized => {
                return Err(GdtError::NotInitialized);
            },
            _ => {},
        }
        match slot_of(index) {
            None => Err(GdtError::IndexOutOfRange),
            Some(slot) => Ok(self.slots[slot]),
        }
    }

    /// The whole table as the processor reads it: 128 bytes, the sixteen
    /// descriptors one after another. Turned down before `init`.
    pub fn image(&self) -> (r: Result<Vec<u8>, GdtError>)
        ensures
            self@.stage is Uninitialized ==> r == Err::<Vec<u8>, GdtError>(
                GdtError::NotInitialized,
            ),
            !(self@.stage is Uninitialized) ==> r is Ok,
            r is Ok ==> r->Ok_0@ == image_of(self@.entries),
            r is Ok ==> r->Ok_0@.len() == TABLE_BYTES,
    {
        match self.stage {
            Stage::Uninitialized => {
                return Err(GdtError::NotInitialized);
            },
            _ => {},
        }
        let mut out: Vec<u8> = Vec::new();
        let mut i: usize = 0;
        while i < 16
            invariant
                i <= 16,
                out@ == image_of(self.slots@.subrange(0, i as int)),
            decreases 16 - i,
        {
            let b: [u8; 8] = self.slots[i].to_bytes();
            let ghost before = out@;
            out.push(b[0]);
            out.push(b[1]);
            out.push(b[2]);
            out.push(b[3]);
            out.push(b[4]);
            out.push(b[5]);
            out.push(b[6]);
            out.push(b[7]);
            assert(out@ =~= image_of(self.slots@.subrange(0, i + 1))) by {
                assert(out@ =~= before + b@);
                assert(b@ == self.slots@[i as int].bytes());
            }
            i = i + 1;
        }
        assert(self.slots@.subrange(0, 16) =~= self.slots@);
        Ok(out)
    }
}

/// The table as `init` leaves it: allocated, its register record pointing at
/// `addr`, every slot holding the null descriptor.
pub open spec fn fresh(addr: usize) -> TableView {
    TableView {
        stage: Stage::Allocated,
        register: Some(gdtreg::describe(addr)),
        entries: Seq::new(ENTRIES as nat, |i: int| gdtentry::encode(0, 0, 0, 0)),
    }
}

/// Brings the table into being. `storage` is what the allocator answered when
/// asked for the bytes of a table: the address of the storage, or nothing.
///
/// Turned down, with the table untouched, when the table has been initialised
/// before, and otherwise when there is no storage. On success the table is
/// allocated, its register record describes a table at that address, and all
/// sixteen slots hold the null descriptor.
pub fn init(sys: &mut table, storage: Option<usize>) -> (r: Result<(), GdtError>)
    ensures
        !(old(sys)@.stage is Uninitialized) ==> r == Err::<(), GdtError>(
            GdtError::AlreadyInitialized,
        ),
        old(sys)@.stage is Uninitialized && storage is None ==> r == Err::<(), GdtError>(
            GdtError::AllocationFailed,
        ),
        old(sys)@.stage is Uninitialized && storage is Some ==> r is Ok,
        r is Err ==> *final(sys) == *old(sys),
        r is Ok ==> final(sys)@ == fresh(storage->0),
{
    match sys.stage {
        Stage::Uninitialized => {},
        _ => {
            return Err(GdtError::AlreadyInitialized);
        },
    }
    match storage {
        None => Err(GdtError::AllocationFailed),
        Some(addr) => {
            *sys = table {
                stage: Stage::Allocated,
                reg: gdtreg::new(addr),
                slots: [gdtentry::new(0, 0, 0, 0); 16],
            };
            assert(sys@.entries =~= fresh(addr).entries);
            Ok(())
        },
    }
}

/// Writes one descriptor into the table: slot `index` takes the encoding of
/// `base`, `limit`, `access` and `gran`, and every other slot stays as it is.
///
/// Turned down, with the table untouched, before `init`, and otherwise when
/// `index` is not one of the sixteen slots. A table that is already in use by
/// the processor stays in use; the processor sees the new descriptor when the
/// table is loaded again.
pub fn entry(sys: &mut table, index: isize, base: usize, limit: usize, access: u8, gran: u8) -> (r:
    Result<(), GdtError>)
    ensures
        old(sys)@.stage is Uninitialized ==> r == Err::<(), GdtError>(GdtError::NotInitialized),
        !(old(sys)@.stage is Uninitialized) && !(0 <= index < ENTRIES) ==> r == Err::<(), GdtError>(
            GdtError::IndexOutOfRange,
        ),
        !(old(sys)@.stage is Uninitialized) && 0 <= index < ENTRIES ==> r is Ok,
        r is Err ==> *final(sys) == *old(sys),
        r is Ok ==> final(sys)@ == old(sys)@.with_entry(
            index as int,
            gdtentry::encode(base as nat, limit as nat, access, gran),
        ),
{
    match sys.stage {
        Stage::Uninitialized => {
            return Err(GdtError::NotInitialized);
        },
        _ => {},
    }
    proof {
        use_type_invariant(&*sys);
    }
    match slot_of(index) {
        None => Err(GdtError::IndexOutOfRange),
        Some(slot) => {
            sys.slots[slot] = gdtentry::new(base, limit, access, gran);
            Ok(())
        },
    }
}

/// The operations of a load, in the one order in which they work: the table
/// register first, then the far jump that makes the code selector take hold,
/// then the data, extra and stack segment registers with the data selector,
/// and last the thread-local-storage register with its own.
pub open spec fn load_sequence(register: gdtreg, codeseg: u16, dataseg: u16, tlsemulseg: u16) -> Seq<
    Step,
> {
    seq![
        Step::LoadTable { record: register },
        Step::FarJump { selector: codeseg },
        Step::Reload { segment: SegmentRegister::Ds, selector: dataseg },
        Step::Reload { segment: SegmentRegister::Es, selector: dataseg },
        Step::Reload { segment: SegmentRegister::Ss, selector: dataseg },
        Step::Reload { segment: SegmentRegister::Gs, selector: tlsemulseg },
    ]
}

/// Puts the table into service. Returns the operations that the processor has
/// to carry out, in order and without anything in between, and marks the
/// table as activated. The selectors are passed through as they are.
///
/// Turned down, with the table untouched, before `init`. A table that is in
/// service already may be loaded again.
pub fn load(sys: &mut table, codeseg: u16, dataseg: u16, tlsemulseg: u16) -> (r: Result<
    Vec<Step>,
    GdtError,
>)
    ensures
        old(sys)@.stage is Uninitialized ==> r == Err::<Vec<Step>, GdtError>(
            GdtError::NotInitialized,
        ),
        !(old(sys)@.stage is Uninitialized) ==> r is Ok,
        r is Err ==> *final(sys) == *old(sys),
        r is Ok ==> final(sys)@ == (TableView { stage: Stage::Activated, ..old(sys)@ }),
        r is Ok ==> r->Ok_0@ == load_sequence(
            old(sys)@.register->0,
            codeseg,
            dataseg,
            tlsemulseg,
        ),
        r is Ok ==> r->Ok_0@[0] == (Step::LoadTable {
            record: gdtreg { limit: 129, addr: old(sys)@.register->0.addr },
        }),
{
    match sys.stage {
        Stage::Uninitialized => {
            return Err(GdtError::NotInitialized);
        },
        _ => {},
    }
    proof {
        use_type_invariant(&*sys);
    }
    sys.stage = Stage::Activated;
    let mut steps: Vec<Step> = Vec::new();
    steps.push(Step::LoadTable { record: sys.reg });
    steps.push(Step::FarJump { selector: codeseg });
    steps.push(Step::Reload { segment: SegmentRegister::Ds, selector: dataseg });
    steps.push(Step::Reload { segment: SegmentRegister::Es, selector: dataseg });
    steps.push(Step::Reload { segment: SegmentRegister::Ss, selector: dataseg });
    steps.push(Step::Reload { segment: SegmentRegister::Gs, selector: tlsemulseg });
    assert(steps@ =~= load_sequence(sys.reg, codeseg, dataseg, tlsemulseg));
    Ok(steps)
}

/// Before `init` a table has neither register record nor slots; from then on
/// it has the record and exactly sixteen slots.
pub proof fn lemma_view_shape(sys: table)
    ensures
        sys@.stage is Uninitialized <==> sys@.register is None,
        sys@.stage is Uninitialized ==> sys@.entries.len() == 0,
        !(sys@.stage is Uninitialized) ==> sys@.entries.len() == ENTRIES,
        image_of(sys@.entries).len() == 8 * sys@.entries.len(),
{
}

/// Reading a slot straight after writing it gives back the very descriptor
/// that the arguments encode to, for each of the sixteen slots: in the table
/// that a successful `entry` leaves, slot `index` holds the encoding, which is
/// what `slot` returns, and the table's image holds the encoding's eight bytes
/// at that slot. Every other slot reads as it did before.
pub proof fn lemma_entry_then_slot(
    view: TableView,
    index: int,
    base: nat,
    limit: nat,
    access: u8,
    gran: u8,
)
    requires
        view.entries.len() == ENTRIES,
        0 <= index < ENTRIES,
    ensures
        ({
            let e = gdtentry::encode(base, limit, access, gran);
            let after = view.with_entry(index, e);
            &&& after.entries[index] == e
            &&& image_of(after.entries).subrange(8 * index, 8 * index + 8) == e.bytes()
            &&& forall|other: int|
                0 <= other < ENTRIES && other != index ==> after.entries[other]
                    == view.entries[other]
            &&& after.stage == view.stage
            &&& after.register == view.register
        }),
{
    let e = gdtentry::encode(base, limit, access, gran);
    let after = view.with_entry(index, e);
    assert(image_of(after.entries).subrange(8 * index, 8 * index + 8) =~= e.bytes()) by {
        assert forall|k: int| 0 <= k < 8 implies image_of(after.entries).subrange(
            8 * index,
            8 * index + 8,
        )[k] == e.bytes()[k] by {
            assert((8 * index + k) / 8 == index);
            assert((8 * index + k) % 8 == k);
        }
    }
}

} // verus!
