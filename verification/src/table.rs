//! The resolved function table.
//!
//! A value of [`LLVMMethods`] stands for the complete set of resolved entry
//! points: one address-sized handle per required entry point, in resolution
//! order. The table is never partially populated — the resolver either fills
//! it completely or fails — and every wrapper derived from the binding
//! carries its own copy, so it can find its release routine independently
//! of the facade's lifetime.

use vstd::prelude::*;

use crate::entry_points::ENTRY_POINT_COUNT;
use crate::entry_points::IDX_CONTEXT_CREATE;
use crate::entry_points::IDX_CONTEXT_DISPOSE;
use crate::entry_points::IDX_CREATE_BYTE_STRING;
use crate::entry_points::IDX_CREATE_STRING;
use crate::entry_points::IDX_DISPOSE_STRING;
use crate::entry_points::IDX_GET_GLOBAL_CONTEXT;

verus! {

/// The complete table of resolved entry-point handles, in resolution order.
pub struct LLVMMethods {
    handles: Vec<usize>,
}

impl View for LLVMMethods {
    type V = Seq<usize>;

    closed spec fn view(&self) -> Seq<usize> {
        self.handles@
    }
}

impl LLVMMethods {
    /// A table is well formed when it holds one handle per required entry
    /// point; it is never partially populated.
    pub open spec fn wf(&self) -> bool {
        self@.len() == ENTRY_POINT_COUNT
    }

    /// Bundles fully resolved handles into an immutable table.
    pub(crate) fn from_handles(handles: Vec<usize>) -> (methods: Self)
        requires
            handles@.len() == ENTRY_POINT_COUNT,
        ensures
            methods@ == handles@,
            methods.wf(),
    {
        LLVMMethods { handles }
    }

    /// The resolved handle of the entry point at the given position of the
    /// required set.
    pub fn handle_at(&self, index: usize) -> (handle: usize)
        requires
            self.wf(),
            index < ENTRY_POINT_COUNT,
        ensures
            handle == self@[index as int],
    {
        self.handles[index]
    }

    /// The resolved handle of the string-duplication entry point.
    pub fn create_string(&self) -> (handle: usize)
        requires
            self.wf(),
        ensures
            handle == self@[IDX_CREATE_STRING as int],
    {
        self.handles[IDX_CREATE_STRING]
    }

    /// The resolved handle of the byte-string-duplication entry point.
    pub fn create_byte_string(&self) -> (handle: usize)
        requires
            self.wf(),
        ensures
            handle == self@[IDX_CREATE_BYTE_STRING as int],
    {
        self.handles[IDX_CREATE_BYTE_STRING]
    }

    /// The resolved handle of the string-release entry point.
    pub fn dispose_string(&self) -> (handle: usize)
        requires
            self.wf(),
        ensures
            handle == self@[IDX_DISPOSE_STRING as int],
    {
        self.handles[IDX_DISPOSE_STRING]
    }

    /// The resolved handle of the global-context accessor.
    pub fn get_global_context(&self) -> (handle: usize)
        requires
            self.wf(),
        ensures
            handle == self@[IDX_GET_GLOBAL_CONTEXT as int],
    {
        self.handles[IDX_GET_GLOBAL_CONTEXT]
    }

    /// The resolved handle of the context-creation entry point.
    pub fn context_create(&self) -> (handle: usize)
        requires
            self.wf(),
        ensures
            handle == self@[IDX_CONTEXT_CREATE as int],
    {
        self.handles[IDX_CONTEXT_CREATE]
    }

    /// The resolved handle of the context-release entry point.
    pub fn context_dispose(&self) -> (handle: usize)
        requires
            self.wf(),
        ensures
            handle == self@[IDX_CONTEXT_DISPOSE as int],
    {
        self.handles[IDX_CONTEXT_DISPOSE]
    }
}

impl Clone for LLVMMethods {
    /// Copies the table; all copies refer to the same resolved handles.
    fn clone(&self) -> (copy: Self)
        ensures
            copy@ == self@,
    {
        let mut handles: Vec<usize> = Vec::with_capacity(self.handles.len());
        let mut i: usize = 0;
        while i < self.handles.len()
            invariant
                i <= self.handles@.len(),
                handles@.len() == i,
                forall|k: int| 0 <= k < i ==> handles@[k] == self.handles@[k],
            decreases self.handles@.len() - i,
        {
            handles.push(self.handles[i]);
            i = i + 1;
        }
        proof {
            assert(handles@ =~= self.handles@);
        }
        LLVMMethods { handles }
    }
}

} // verus!
