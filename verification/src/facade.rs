//! The safe entry point of the binding.
//!
//! A [`LLVMLite`] value owns the complete resolved function table and is the
//! sole construction point for resource wrappers. Foreign calls cross the
//! ABI and are left to the caller: each wrapper-building method takes the
//! raw value the corresponding foreign entry point returned, decides what it
//! means — in particular, whether a null return stands for the empty-string
//! sentinel — and hands the wrapper its own copy of the table.

use vstd::prelude::*;
use vstd::string::StringSliceAdditionalSpecFns;

use crate::entry_points::ENTRY_POINT_COUNT;
use crate::table::LLVMMethods;
use crate::wrappers::ByteString;
use crate::wrappers::Context;
use crate::wrappers::ContextKind;
use crate::wrappers::Utf8String;

verus! {

/// Whether the text contains a zero byte, which a null-terminated encoding
/// cannot represent.
pub open spec fn spec_has_interior_nul(text: &str) -> bool {
    exists|i: int| 0 <= i < text.spec_bytes().len() && text.spec_bytes()[i] == 0
}

/// Reports whether the text contains a zero byte. Callers must rule such
/// text out before encoding it as a null-terminated buffer.
pub fn has_interior_nul(text: &str) -> (found: bool)
    ensures
        found == spec_has_interior_nul(text),
{
    let bytes = text.as_bytes();
    let mut i: usize = 0;
    while i < bytes.len()
        invariant
            i <= bytes@.len(),
            bytes@ == text.spec_bytes(),
            forall|k: int| 0 <= k < i ==> bytes@[k] != 0,
        decreases bytes@.len() - i,
    {
        if bytes[i] == 0 {
            return true;
        }
        i = i + 1;
    }
    false
}

/// Encodes the text as the null-terminated buffer handed to the foreign
/// string-duplication entry point: the text's bytes followed by one zero.
pub fn encode_nul_terminated(text: &str) -> (buffer: Vec<u8>)
    requires
        !spec_has_interior_nul(text),
        text.spec_bytes().len() < usize::MAX,
    ensures
        buffer@ == text.spec_bytes().push(0),
{
    let bytes = text.as_bytes();
    let mut buffer: Vec<u8> = Vec::with_capacity(bytes.len() + 1);
    let mut i: usize = 0;
    while i < bytes.len()
        invariant
            i <= bytes@.len(),
            bytes@ == text.spec_bytes(),
            buffer@.len() == i,
            forall|k: int| 0 <= k < i ==> buffer@[k] == bytes@[k],
        decreases bytes@.len() - i,
    {
        buffer.push(bytes[i]);
        i = i + 1;
    }
    buffer.push(0);
    proof {
        assert(buffer@ =~= text.spec_bytes().push(0));
    }
    buffer
}

/// The binding facade: owns the resolved function table and builds wrappers.
///
/// Every handle in the table stays valid exactly as long as the loaded
/// library stays resident, so the owner of the loaded library must keep it
/// alive for as long as this value or any wrapper derived from it exists.
pub struct LLVMLite {
    methods: LLVMMethods,
}

impl View for LLVMLite {
    type V = Seq<usize>;

    closed spec fn view(&self) -> Seq<usize> {
        self.methods@
    }
}

impl LLVMLite {
    /// The facade holds a complete table.
    pub open spec fn wf(&self) -> bool {
        self@.len() == ENTRY_POINT_COUNT
    }

    /// Wraps a fully resolved function table as the binding facade.
    pub fn new(methods: LLVMMethods) -> (lite: Self)
        requires
            methods.wf(),
        ensures
            lite.wf(),
            lite@ == methods@,
    {
        LLVMLite { methods }
    }

    /// The resolved handle of the entry point at the given position of the
    /// required set, for performing foreign calls.
    pub fn handle_at(&self, index: usize) -> (handle: usize)
        requires
            self.wf(),
            index < ENTRY_POINT_COUNT,
        ensures
            handle == self@[index as int],
    {
        self.methods.handle_at(index)
    }

    /// Wraps what the foreign string-duplication entry point returned.
    ///
    /// `content` is the decoded text of the duplicated buffer at address
    /// `raw`. A null return is treated as a valid empty-string sentinel, not
    /// an error: the wrapper then owns nothing and reads as empty.
    pub fn create_string(&self, content: String, raw: usize) -> (wrapper: Utf8String)
        requires
            self.wf(),
        ensures
            wrapper.wf(),
            wrapper.spec_table() == self@,
            raw == 0 ==> !wrapper.is_live() && wrapper.spec_content() =~= Seq::<char>::empty(),
            raw != 0 ==> wrapper.is_live() && wrapper.spec_ptr() == raw && wrapper.spec_content()
                == content@,
    {
        if raw == 0 {
            Utf8String::empty(self.methods.clone())
        } else {
            Utf8String::from_foreign(self.methods.clone(), raw, content)
        }
    }

    /// Wraps what the foreign byte-string-duplication entry point returned.
    ///
    /// `content` is the duplicated buffer at address `raw`, read with its
    /// explicit length: zero bytes inside it are preserved in full, never
    /// truncated. A null return is the empty sentinel, as for
    /// [`create_string`](Self::create_string).
    pub fn create_byte_string(&self, content: Vec<u8>, raw: usize) -> (wrapper: ByteString)
        requires
            self.wf(),
        ensures
            wrapper.wf(),
            wrapper.spec_table() == self@,
            raw == 0 ==> !wrapper.is_live() && wrapper.spec_content() =~= Seq::<u8>::empty(),
            raw != 0 ==> wrapper.is_live() && wrapper.spec_ptr() == raw && wrapper.spec_content()
                == content@,
    {
        if raw == 0 {
            ByteString::empty(self.methods.clone())
        } else {
            ByteString::from_foreign(self.methods.clone(), raw, content)
        }
    }

    /// Wraps the process-wide singleton context returned by the foreign
    /// global-context accessor. The wrapper never owes a release call.
    pub fn get_global_context(&self, raw: usize) -> (context: Context)
        requires
            self.wf(),
        ensures
            context.wf(),
            context.spec_table() == self@,
            context.spec_is_global(),
            !context.is_live(),
            context.spec_handle() == raw,
    {
        Context::from_foreign(self.methods.clone(), ContextKind::Global, raw)
    }

    /// Wraps a context returned by the foreign context-creation entry point.
    /// The wrapper owes exactly one release call.
    pub fn create_context(&self, raw: usize) -> (context: Context)
        requires
            self.wf(),
        ensures
            context.wf(),
            context.spec_table() == self@,
            !context.spec_is_global(),
            context.spec_handle() == raw,
            raw != 0 ==> context.is_live(),
    {
        Context::from_foreign(self.methods.clone(), ContextKind::Owned, raw)
    }
}

} // verus!
