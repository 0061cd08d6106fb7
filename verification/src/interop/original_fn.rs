use vstd::prelude::*;

verus! {

/// Write-once storage for the function that stood at an address before calls
/// to it were redirected. It starts empty, is filled once when the redirection
/// succeeds, and is read by the replacement whenever it chains to the original.
pub struct OriginalFn<T> {
    func: Option<T>,
}

impl<T> View for OriginalFn<T> {
    type V = Option<T>;

    closed spec fn view(&self) -> Option<T> {
        self.func
    }
}

/// What is done to a cell.
pub enum CellOp<T> {
    /// The cell is written with a function.
    Write(T),
    /// The cell is read.
    Read,
}

/// What a cell holds once it is written with `func`: `func`, if it was
/// empty. A cell is written once; a cell that is filled keeps what it holds.
pub open spec fn filled<T>(cell: Option<T>, func: T) -> Option<T> {
    match cell {
        None => Some(func),
        Some(first) => Some(first),
    }
}

/// What a cell holds after `ops` were done to it, in order, from the moment
/// it was made. Reading changes nothing.
pub open spec fn cell_after<T>(ops: Seq<CellOp<T>>) -> Option<T>
    decreases ops.len(),
{
    if ops.len() == 0 {
        None
    } else {
        match ops.last() {
            CellOp::Write(func) => filled(cell_after(ops.drop_last()), func),
            CellOp::Read => cell_after(ops.drop_last()),
        }
    }
}

/// As long as a cell has not been written, it holds nothing, however often
/// it was read: no read of it yields a function. And once it is written, it
/// holds what it was first written with.
pub proof fn lemma_no_read_before_write<T>(ops: Seq<CellOp<T>>)
    ensures
        (forall|i: int| 0 <= i < ops.len() ==> #[trigger] ops[i] is Read) ==> cell_after(ops)
            is None,
        (exists|i: int| 0 <= i < ops.len() && #[trigger] ops[i] is Write) ==> cell_after(ops)
            is Some,
    decreases ops.len(),
{
    if ops.len() > 0 {
        let before = ops.drop_last();
        lemma_no_read_before_write(before);
        if forall|i: int| 0 <= i < ops.len() ==> #[trigger] ops[i] is Read {
            assert(ops.last() is Read);
            assert forall|i: int| 0 <= i < before.len() implies #[trigger] before[i] is Read by {
                assert(before[i] == ops[i]);
            }
        }
        if exists|i: int| 0 <= i < ops.len() && #[trigger] ops[i] is Write {
            let i = choose|i: int| 0 <= i < ops.len() && #[trigger] ops[i] is Write;
            if i < before.len() {
                assert(before[i] is Write);
            } else {
                assert(ops.last() is Write);
            }
        }
    }
}

impl<T> OriginalFn<T> {
    /// Whether the cell has been written.
    pub open spec fn installed(&self) -> bool {
        self@ is Some
    }

    /// An empty cell.
    pub fn new() -> (cell: Self)
        ensures
            cell@ is None,
            cell@ == cell_after(Seq::<CellOp<T>>::empty()),
    {
        OriginalFn::<T> { func: None }
    }

    /// Whether the cell has been written.
    pub fn is_installed(&self) -> (b: bool)
        ensures
            b == self.installed(),
    {
        self.func.is_some()
    }

    /// Writes the cell. A cell is written once: writing a cell that already
    /// holds a function is excluded.
    pub fn set(&mut self, func: T)
        requires
            !old(self).installed(),
        ensures
            final(self)@ == Some(func),
            final(self)@ == filled(old(self)@, func),
    {
        self.func = Some(func);
    }

    /// Reads the cell. Reading an empty cell is excluded: a replacement that
    /// runs before its redirection was installed has no original to call.
    pub fn get(&self) -> (func: T) where T: Copy
        requires
            self.installed(),
        ensures
            self@ == Some(func),
    {
        self.func.unwrap()
    }

    /// Reads the cell if it has been written: `None` exactly when it is empty.
    pub fn try_get(&self) -> (func: Option<T>) where T: Copy
        ensures
            func == self@,
    {
        self.func
    }
}

} // verus!
