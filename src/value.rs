//! The tagged value model: runtime values, operand-stack entries and the
//! arena of memory cells that gives places their aliasing semantics.
use vstd::prelude::*;

verus! {

/// A cell is addressed by its index in the interpreter's cell arena.
pub type CellId = usize;

/// An aggregate record: `len` cells allocated together, starting at `base`.
#[derive(Debug, Clone, Copy, PartialEq, Eq, Structural)]
pub struct Aggregate {
    pub base: CellId,
    pub len: usize,
}

impl Aggregate {
    /// The cell holding field `idx`, if the record has such a field.
    pub open spec fn field_cell(self, idx: usize) -> Option<CellId> {
        if idx < self.len && self.base + idx <= usize::MAX {
            Some((self.base + idx) as usize)
        } else {
            None
        }
    }

    pub fn field(&self, idx: usize) -> (r: Option<CellId>)
        ensures
            r == self.field_cell(idx),
    {
        if idx < self.len && self.base <= usize::MAX - idx {
            Some(self.base + idx)
        } else {
            None
        }
    }
}

/// A tagged runtime value.
#[derive(Debug, Clone, Copy, PartialEq, Eq, Structural)]
pub enum BoxedValue {
    I64(i64),
    U64(u64),
    Usize(usize),
    Bool(bool),
    /// An index into the program's function table.
    Func(usize),
    Struct(Aggregate),
    /// The address of a cell.
    Ptr(CellId),
    /// A deferred constant: the function at this index holds it.
    Static(usize),
}

/// The placeholder every fresh cell holds before it is written.
pub open spec fn placeholder() -> BoxedValue {
    BoxedValue::Usize(0)
}

/// An operand-stack entry: an owned value or a place (a cell).
#[derive(Debug, Clone, Copy, PartialEq, Eq, Structural)]
pub enum StackVal {
    Owned(BoxedValue),
    Ref(CellId),
}

/// `n` fresh placeholder cells.
pub open spec fn fresh_cells(n: nat) -> Seq<BoxedValue> {
    Seq::new(n, |i: int| placeholder())
}

impl StackVal {
    /// A place is valid when its cell exists in an arena of `heap_len` cells.
    pub open spec fn valid(self, heap_len: nat) -> bool {
        match self {
            StackVal::Owned(_) => true,
            StackVal::Ref(c) => c < heap_len,
        }
    }

    /// The value this entry denotes: a place reads its cell.
    pub open spec fn current(self, heap: Seq<BoxedValue>) -> BoxedValue
        recommends
            self.valid(heap.len()),
    {
        match self {
            StackVal::Owned(v) => v,
            StackVal::Ref(c) => heap[c as int],
        }
    }

    /// Materialize: a place becomes an owned copy of its current contents.
    pub fn into_owned(self, heap: &Vec<BoxedValue>) -> (r: StackVal)
        requires
            self.valid(heap@.len()),
        ensures
            r == StackVal::Owned(self.current(heap@)),
    {
        match self {
            StackVal::Owned(..) => self,
            StackVal::Ref(cell) => StackVal::Owned(heap[cell]),
        }
    }

    /// Promote to cell: an owned value moves into a fresh cell at the end of
    /// the arena; a place stays as it is.
    pub fn into_cell(self, heap: &mut Vec<BoxedValue>) -> (r: StackVal)
        ensures
            match self {
                StackVal::Owned(v) => final(heap)@ == old(heap)@.push(v) && r == StackVal::Ref(
                    old(heap)@.len() as usize,
                ),
                StackVal::Ref(_) => final(heap)@ == old(heap)@ && r == self,
            },
    {
        match self {
            StackVal::Owned(boxed) => {
                let id = heap.len();
                heap.push(boxed);
                StackVal::Ref(id)
            },
            StackVal::Ref(..) => self,
        }
    }

    /// The owned value of an entry that must be owned.
    pub fn unwrap_value(self) -> (r: BoxedValue)
        requires
            self is Owned,
        ensures
            StackVal::Owned(r) == self,
    {
        match self {
            StackVal::Owned(val) => val,
            StackVal::Ref(_) => {
                proof {
                    assert(false);
                }
                BoxedValue::Usize(0)
            },
        }
    }

    /// The cell of an entry that must be a place.
    pub fn unwrap_cell(self) -> (r: CellId)
        requires
            self is Ref,
        ensures
            StackVal::Ref(r) == self,
    {
        match self {
            StackVal::Ref(c) => c,
            StackVal::Owned(_) => {
                proof {
                    assert(false);
                }
                0
            },
        }
    }

    /// Take address: a place becomes a pointer value to its cell.
    pub fn into_pointer(self) -> (r: StackVal)
        requires
            self is Ref,
        ensures
            r == StackVal::Owned(BoxedValue::Ptr(self->Ref_0)),
    {
        let cell = self.unwrap_cell();
        StackVal::Owned(BoxedValue::Ptr(cell))
    }

    /// Dereference: a pointer value becomes a place at the cell it points to.
    pub fn deref(self, heap: &Vec<BoxedValue>) -> (r: StackVal)
        requires
            self.valid(heap@.len()),
            self.current(heap@) is Ptr,
        ensures
            r == StackVal::Ref(self.current(heap@)->Ptr_0),
    {
        let val = self.into_owned(heap).unwrap_value();
        match val {
            BoxedValue::Ptr(cell) => StackVal::Ref(cell),
            _ => {
                proof {
                    assert(false);
                }
                self
            },
        }
    }
}

} // verus!
