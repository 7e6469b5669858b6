//! Owning wrappers for foreign-allocated resources.
//!
//! Each wrapper carries the decoded content of its resource, the foreign
//! pointer as an address value, and its own copy of the resolved function
//! table, so it can find the correct release routine independently of the
//! facade's lifetime. A wrapper is live (pointer non-zero) or released
//! (pointer zero, content empty); the one transition is [`release`], which
//! hands the caller the foreign call to perform at most once — releasing an
//! already-released wrapper is a no-op. The foreign call itself crosses the
//! ABI and is left to the caller; nothing here dereferences an address.
//!
//! [`release`]: Utf8String::release

use vstd::prelude::*;

use crate::entry_points::ENTRY_POINT_COUNT;
use crate::entry_points::IDX_CONTEXT_DISPOSE;
use crate::entry_points::IDX_DISPOSE_STRING;
use crate::table::LLVMMethods;

verus! {

/// A foreign release call owed by the caller: invoke the routine resolved at
/// `entry` on the resource address `argument`.
#[derive(Clone, Copy, Debug, PartialEq, Eq, Structural)]
pub struct ReleaseAction {
    /// The resolved handle of the release entry point to invoke.
    pub entry: usize,
    /// The address of the foreign resource to release.
    pub argument: usize,
}

/// A UTF-8 string allocated by the native library.
///
/// The underlying buffer lives until the wrapper is released; the decoded
/// content is owned by the wrapper and readable in either state, yielding
/// the empty string once released.
pub struct Utf8String {
    inner: String,
    ptr: usize,
    lib: LLVMMethods,
}

impl Utf8String {
    /// The decoded content of the string.
    pub closed spec fn spec_content(&self) -> Seq<char> {
        self.inner@
    }

    /// The address of the foreign buffer; zero when none is owned.
    pub closed spec fn spec_ptr(&self) -> usize {
        self.ptr
    }

    /// The wrapper's copy of the resolved function table.
    pub closed spec fn spec_table(&self) -> Seq<usize> {
        self.lib@
    }

    /// Whether the wrapper still owns a foreign buffer.
    pub open spec fn is_live(&self) -> bool {
        self.spec_ptr() != 0
    }

    /// The wrapper carries a complete table, and once no buffer is owned the
    /// content is empty.
    pub open spec fn wf(&self) -> bool {
        &&& self.spec_table().len() == ENTRY_POINT_COUNT
        &&& !self.is_live() ==> self.spec_content() =~= Seq::<char>::empty()
    }

    /// A wrapper that owns nothing: the sentinel for a null foreign return.
    pub(crate) fn empty(lib: LLVMMethods) -> (wrapper: Self)
        requires
            lib.wf(),
        ensures
            wrapper.wf(),
            !wrapper.is_live(),
            wrapper.spec_content() =~= Seq::<char>::empty(),
            wrapper.spec_table() == lib@,
    {
        Utf8String { inner: String::new(), ptr: 0, lib }
    }

    /// Wraps a non-null foreign buffer together with its decoded content.
    pub(crate) fn from_foreign(lib: LLVMMethods, ptr: usize, content: String) -> (wrapper: Self)
        requires
            lib.wf(),
            ptr != 0,
        ensures
            wrapper.wf(),
            wrapper.is_live(),
            wrapper.spec_ptr() == ptr,
            wrapper.spec_content() == content@,
            wrapper.spec_table() == lib@,
    {
        Utf8String { inner: content, ptr, lib }
    }

    /// The decoded content; empty once the wrapper has been released.
    pub fn as_str(&self) -> (content: &str)
        ensures
            content@ == self.spec_content(),
    {
        self.inner.as_str()
    }

    /// Gives up the foreign buffer, at most once.
    ///
    /// On a live wrapper this returns the one release call the caller owes —
    /// the string-release entry point applied to the buffer address — and
    /// leaves the wrapper released, its content empty. On a wrapper that owns
    /// nothing (never allocated, or already released) it returns `None` and
    /// changes nothing: a second release never repeats the foreign call.
    pub fn release(&mut self) -> (action: Option<ReleaseAction>)
        requires
            old(self).wf(),
        ensures
            final(self).wf(),
            !final(self).is_live(),
            final(self).spec_content() =~= Seq::<char>::empty(),
            final(self).spec_table() == old(self).spec_table(),
            old(self).is_live() ==> action == Some(
                (ReleaseAction {
                    entry: old(self).spec_table()[IDX_DISPOSE_STRING as int],
                    argument: old(self).spec_ptr(),
                }),
            ),
            !old(self).is_live() ==> action is None && *final(self) == *old(self),
    {
        if self.ptr != 0 {
            let action = ReleaseAction { entry: self.lib.dispose_string(), argument: self.ptr };
            self.ptr = 0;
            self.inner = String::new();
            Some(action)
        } else {
            None
        }
    }
}

/// A byte string allocated by the native library.
///
/// Byte strings carry an explicit length, so content containing zero bytes
/// is preserved in full rather than truncated at the first zero.
pub struct ByteString {
    inner: Vec<u8>,
    ptr: usize,
    lib: LLVMMethods,
}

impl ByteString {
    /// The decoded content of the byte string, embedded zeros included.
    pub closed spec fn spec_content(&self) -> Seq<u8> {
        self.inner@
    }

    /// The address of the foreign buffer; zero when none is owned.
    pub closed spec fn spec_ptr(&self) -> usize {
        self.ptr
    }

    /// The wrapper's copy of the resolved function table.
    pub closed spec fn spec_table(&self) -> Seq<usize> {
        self.lib@
    }

    /// Whether the wrapper still owns a foreign buffer.
    pub open spec fn is_live(&self) -> bool {
        self.spec_ptr() != 0
    }

    /// The wrapper carries a complete table, and once no buffer is owned the
    /// content is empty.
    pub open spec fn wf(&self) -> bool {
        &&& self.spec_table().len() == ENTRY_POINT_COUNT
        &&& !self.is_live() ==> self.spec_content() =~= Seq::<u8>::empty()
    }

    /// A wrapper that owns nothing: the sentinel for a null foreign return.
    pub(crate) fn empty(lib: LLVMMethods) -> (wrapper: Self)
        requires
            lib.wf(),
        ensures
            wrapper.wf(),
            !wrapper.is_live(),
            wrapper.spec_content() =~= Seq::<u8>::empty(),
            wrapper.spec_table() == lib@,
    {
        ByteString { inner: Vec::new(), ptr: 0, lib }
    }

    /// Wraps a non-null foreign buffer together with its decoded content.
    pub(crate) fn from_foreign(lib: LLVMMethods, ptr: usize, content: Vec<u8>) -> (wrapper: Self)
        requires
            lib.wf(),
            ptr != 0,
        ensures
            wrapper.wf(),
            wrapper.is_live(),
            wrapper.spec_ptr() == ptr,
            wrapper.spec_content() == content@,
            wrapper.spec_table() == lib@,
    {
        ByteString { inner: content, ptr, lib }
    }

    /// The decoded content; empty once the wrapper has been released.
    pub fn as_bytes(&self) -> (content: &Vec<u8>)
        ensures
            content@ == self.spec_content(),
    {
        &self.inner
    }

    /// Gives up the foreign buffer, at most once.
    ///
    /// Identical in behaviour to [`Utf8String::release`]: a live wrapper
    /// yields the one owed release call and becomes released; any other
    /// wrapper is left unchanged and yields `None`.
    pub fn release(&mut self) -> (action: Option<ReleaseAction>)
        requires
            old(self).wf(),
        ensures
            final(self).wf(),
            !final(self).is_live(),
            final(self).spec_content() =~= Seq::<u8>::empty(),
            final(self).spec_table() == old(self).spec_table(),
            old(self).is_live() ==> action == Some(
                (ReleaseAction {
                    entry: old(self).spec_table()[IDX_DISPOSE_STRING as int],
                    argument: old(self).spec_ptr(),
                }),
            ),
            !old(self).is_live() ==> action is None && *final(self) == *old(self),
    {
        if self.ptr != 0 {
            let action = ReleaseAction { entry: self.lib.dispose_string(), argument: self.ptr };
            self.ptr = 0;
            self.inner = Vec::new();
            Some(action)
        } else {
            None
        }
    }
}

/// Whether a context is the process-wide singleton or a created one.
///
/// The global context is never released; only an owned context ever owes a
/// release call. Keeping the distinction in the type, rather than in a flag
/// consulted at release time, makes the non-releasable case structurally
/// incapable of accidental release.
#[derive(Clone, Copy, Debug, PartialEq, Eq, Structural)]
pub enum ContextKind {
    /// The process-wide singleton context; never released.
    Global,
    /// A context created for this wrapper; released exactly once.
    Owned,
}

/// A foreign context handle tagged with its ownership.
pub struct Context {
    kind: ContextKind,
    inner: usize,
    lib: LLVMMethods,
}

impl Context {
    /// Whether this wrapper holds the process-wide singleton context.
    pub closed spec fn spec_is_global(&self) -> bool {
        self.kind is Global
    }

    /// The foreign context handle; zero for an owned context once released.
    pub closed spec fn spec_handle(&self) -> usize {
        self.inner
    }

    /// The wrapper's copy of the resolved function table.
    pub closed spec fn spec_table(&self) -> Seq<usize> {
        self.lib@
    }

    /// Whether this wrapper still owes a release call.
    pub open spec fn is_live(&self) -> bool {
        !self.spec_is_global() && self.spec_handle() != 0
    }

    /// The wrapper carries a complete table.
    pub open spec fn wf(&self) -> bool {
        self.spec_table().len() == ENTRY_POINT_COUNT
    }

    /// Wraps a context handle with its ownership tag.
    pub(crate) fn from_foreign(lib: LLVMMethods, kind: ContextKind, inner: usize) -> (context:
        Self)
        requires
            lib.wf(),
        ensures
            context.wf(),
            context.spec_is_global() == (kind is Global),
            context.spec_handle() == inner,
            context.spec_table() == lib@,
    {
        Context { kind, inner, lib }
    }

    /// Whether this wrapper holds the process-wide singleton context.
    pub fn is_global(&self) -> (global: bool)
        ensures
            global == self.spec_is_global(),
    {
        match self.kind {
            ContextKind::Global => true,
            ContextKind::Owned => false,
        }
    }

    /// The foreign context handle, for passing to further foreign calls.
    pub fn handle(&self) -> (handle: usize)
        ensures
            handle == self.spec_handle(),
    {
        self.inner
    }

    /// Gives up an owned context, at most once.
    ///
    /// A global context never owes a release call: the result is `None`
    /// however often this is invoked, and nothing changes. A live owned
    /// context yields the one owed call — the context-release entry point
    /// applied to the handle — and becomes released; releasing it again is a
    /// no-op.
    pub fn release(&mut self) -> (action: Option<ReleaseAction>)
        requires
            old(self).wf(),
        ensures
            final(self).wf(),
            !final(self).is_live(),
            final(self).spec_is_global() == old(self).spec_is_global(),
            final(self).spec_table() == old(self).spec_table(),
            old(self).is_live() ==> action == Some(
                (ReleaseAction {
                    entry: old(self).spec_table()[IDX_CONTEXT_DISPOSE as int],
                    argument: old(self).spec_handle(),
                }),
            ),
            !old(self).is_live() ==> action is None && *final(self) == *old(self),
    {
        match self.kind {
            ContextKind::Global => None,
            ContextKind::Owned => {
                if self.inner != 0 {
                    let action = ReleaseAction {
                        entry: self.lib.context_dispose(),
                        argument: self.inner,
                    };
                    self.inner = 0;
                    Some(action)
                } else {
                    None
                }
            },
        }
    }
}

} // verus!
