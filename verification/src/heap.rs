//! Heap handles and arenas: which heap a handle stands for, whether releasing
//! it must delete or destroy that heap, and how the status codes of the arena
//! calls become results.

use vstd::prelude::*;

verus! {

/// Error returned by arena operations.
#[derive(Debug, Clone, Copy, PartialEq, Eq, Structural)]
pub enum ArenaError {
    /// The OS call failed (e.g., out of memory, invalid parameters).
    Failed,
}

/// What releasing a heap handle asks of the C allocator.
#[derive(Debug, Clone, Copy, PartialEq, Eq, Structural)]
pub enum HeapAction {
    /// Nothing: the handle borrows a heap that it does not own.
    Keep,
    /// `mi_heap_delete` on the heap at this address: its live blocks move to
    /// the main heap.
    Delete(usize),
    /// `mi_heap_destroy` on the heap at this address: its live blocks are freed.
    Destroy(usize),
}

/// A handle to a mimalloc heap, by the address of its `mi_heap_t`.
///
/// An owned handle (from `mi_heap_new` or `mi_heap_new_in_arena`) deletes its
/// heap when it is released; a borrowed handle (the main heap, or the heap
/// that owns some block) leaves the heap alone.
pub struct Heap {
    ptr: usize,
    owned: bool,
}

impl Heap {
    /// The handle points at a heap: its address is never null.
    #[verifier::type_invariant]
    spec fn nonnull(self) -> bool {
        self.ptr != 0
    }

    /// The address of the heap's `mi_heap_t`.
    pub closed spec fn addr(self) -> usize {
        self.ptr
    }

    /// Whether releasing this handle deletes or destroys its heap.
    pub closed spec fn is_owned(self) -> bool {
        self.owned
    }

    /// What dropping this handle asks of the C allocator.
    pub open spec fn release_action(self) -> HeapAction {
        if self.is_owned() {
            HeapAction::Delete(self.addr())
        } else {
            HeapAction::Keep
        }
    }

    /// A handle that owns the heap at `ptr`.
    pub fn owned(ptr: usize) -> (heap: Self)
        requires
            ptr != 0,
        ensures
            heap.addr() == ptr,
            heap.is_owned(),
    {
        Heap { ptr, owned: true }
    }

    /// A handle that borrows the heap at `ptr`.
    pub fn borrowed(ptr: usize) -> (heap: Self)
        requires
            ptr != 0,
        ensures
            heap.addr() == ptr,
            !heap.is_owned(),
    {
        Heap { ptr, owned: false }
    }

    /// The handle for a heap that the C allocator has just created at `raw`
    /// (`mi_heap_new`, `mi_heap_new_in_arena`), or `None` when it returned
    /// null because it could not create one.
    pub fn from_created(raw: usize) -> (heap: Option<Self>)
        ensures
            raw == 0 <==> heap is None,
            heap matches Some(h) ==> h.addr() == raw && h.is_owned(),
    {
        if raw == 0 {
            None
        } else {
            Some(Heap::owned(raw))
        }
    }

    /// The handle for an existing heap found at `raw` (`mi_heap_of`), or
    /// `None` when the lookup returned null. The handle borrows the heap.
    pub fn from_existing(raw: usize) -> (heap: Option<Self>)
        ensures
            raw == 0 <==> heap is None,
            heap matches Some(h) ==> h.addr() == raw && !h.is_owned(),
    {
        if raw == 0 {
            None
        } else {
            Some(Heap::borrowed(raw))
        }
    }

    /// The address of the underlying `mi_heap_t`.
    pub fn as_ptr(&self) -> (ptr: usize)
        ensures
            ptr == self.addr(),
            ptr != 0,
    {
        proof {
            use_type_invariant(self);
        }
        self.ptr
    }

    /// Deleting the heap, moving its live blocks to the main heap: what it
    /// asks of the C allocator. A borrowed handle asks nothing.
    pub fn delete(self) -> (action: HeapAction)
        ensures
            action == (if self.is_owned() {
                HeapAction::Delete(self.addr())
            } else {
                HeapAction::Keep
            }),
    {
        if self.owned {
            HeapAction::Delete(self.ptr)
        } else {
            HeapAction::Keep
        }
    }

    /// Destroying the heap, freeing its live blocks: what it asks of the C
    /// allocator. A borrowed handle asks nothing.
    pub fn destroy(self) -> (action: HeapAction)
        ensures
            action == (if self.is_owned() {
                HeapAction::Destroy(self.addr())
            } else {
                HeapAction::Keep
            }),
    {
        if self.owned {
            HeapAction::Destroy(self.ptr)
        } else {
            HeapAction::Keep
        }
    }

    /// Dropping the handle: an owned heap is deleted, a borrowed one is left
    /// alone.
    pub fn drop_action(&self) -> (action: HeapAction)
        ensures
            action == self.release_action(),
            self.is_owned() ==> action == HeapAction::Delete(self.addr()),
            !self.is_owned() ==> action == HeapAction::Keep,
    {
        if self.owned {
            HeapAction::Delete(self.ptr)
        } else {
            HeapAction::Keep
        }
    }
}

/// Releasing a handle deletes the heap at its address exactly when the
/// handle owns it, whatever that address is; a borrowed heap is never touched.
pub proof fn lemma_release_action(heap: Heap)
    ensures
        heap.is_owned() ==> heap.release_action() == HeapAction::Delete(heap.addr()),
        !heap.is_owned() ==> heap.release_action() == HeapAction::Keep,
{
}

/// Arena identifier for managing memory regions.
#[derive(Debug, Clone, Copy)]
pub struct ArenaId(usize);

impl ArenaId {
    /// The identifier that the C allocator gave the arena.
    pub closed spec fn id(self) -> usize {
        self.0
    }

    /// The identifier that the C allocator gave the arena, to hand back to it.
    pub fn raw(&self) -> (id: usize)
        ensures
            id == self.id(),
    {
        self.0
    }
}

/// The outcome of reserving or managing memory as an arena: the arena the C
/// allocator wrote to `id`, when its status code `rc` is 0, and a failure
/// otherwise.
pub fn arena_from_status(rc: i32, id: usize) -> (res: Result<ArenaId, ArenaError>)
    ensures
        rc == 0 <==> res is Ok,
        res matches Ok(a) ==> a.id() == id,
        res matches Err(e) ==> e == ArenaError::Failed,
{
    if rc == 0 {
        Ok(ArenaId(id))
    } else {
        Err(ArenaError::Failed)
    }
}

/// The outcome of managing an existing memory region as an arena: the arena
/// the C allocator wrote to `id` when it reports success, a failure otherwise.
pub fn arena_from_success(ok: bool, id: usize) -> (res: Result<ArenaId, ArenaError>)
    ensures
        ok <==> res is Ok,
        res matches Ok(a) ==> a.id() == id,
        res matches Err(e) ==> e == ArenaError::Failed,
{
    if ok {
        Ok(ArenaId(id))
    } else {
        Err(ArenaError::Failed)
    }
}

/// The outcome of a huge page reservation: success when the C allocator's
/// status code `rc` is 0, a failure otherwise.
pub fn reservation_status(rc: i32) -> (res: Result<(), ArenaError>)
    ensures
        rc == 0 <==> res is Ok,
        res matches Err(e) ==> e == ArenaError::Failed,
{
    if rc == 0 {
        Ok(())
    } else {
        Err(ArenaError::Failed)
    }
}

} // verus!
