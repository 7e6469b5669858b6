//! Opaque marker types for the handles the native library hands out.
//!
//! A handle is an address-sized value owned by the native library; the
//! binding never dereferences one. These markers only give each kind of
//! handle a distinct Rust type for callers that want typed pointers; the
//! binding itself never makes a value of one.

use vstd::prelude::*;

verus! {

#[derive(Debug)]
pub enum LLVMAttributeListIterator {
    Opaque,
}

#[derive(Debug)]
pub enum LLVMAttributeSetIterator {
    Opaque,
}

#[derive(Debug)]
pub enum LLVMBlocksIterator {
    Opaque,
}

#[derive(Debug)]
pub enum LLVMArgumentsIterator {
    Opaque,
}

#[derive(Debug)]
pub enum LLVMInstructionsIterator {
    Opaque,
}

#[derive(Debug)]
pub enum LLVMOperandsIterator {
    Opaque,
}

#[derive(Debug)]
pub enum LLVMOpaqueSectionIterator {
    Opaque,
}

#[derive(Debug)]
pub enum LLVMOpaqueGlobalsIterator {
    Opaque,
}

#[derive(Debug)]
pub enum LLVMTypesIterator {
    Opaque,
}

#[derive(Debug)]
pub enum LLVMOpaqueFunctionsIterator {
    Opaque,
}

#[derive(Debug)]
pub enum LLVMObjectFile {
    Opaque,
}

#[derive(Debug)]
pub enum LLVMObjectCache {
    Opaque,
}

#[derive(Debug)]
pub enum LLVMOpaqueTargetData {
    Opaque,
}

#[derive(Debug)]
pub enum LLVMOpaqueTargetMachine {
    Opaque,
}

#[derive(Debug)]
pub enum LLVMTarget {
    Opaque,
}

#[derive(Debug)]
pub enum LLVMOpaqueGenericValue {
    Opaque,
}

#[derive(Debug)]
pub enum LLVMOpaqueExecutionEngine {
    Opaque,
}

#[derive(Debug)]
pub enum LLVMOpaqueMCJITMemoryManager {
    Opaque,
}

#[derive(Debug)]
pub enum LLVMMemoryBuffer {
    Opaque,
}

#[derive(Debug)]
pub enum LLVMContext {
    Opaque,
}

#[derive(Debug)]
pub enum LLVMModule {
    Opaque,
}

#[derive(Debug)]
pub enum LLVMType {
    Opaque,
}

#[derive(Debug)]
pub enum LLVMValue {
    Opaque,
}

#[derive(Debug)]
pub enum LLVMBasicBlock {
    Opaque,
}

#[derive(Debug)]
pub enum LLVMOpaqueMetadata {
    Opaque,
}

#[derive(Debug)]
pub enum LLVMOpaqueNamedMDNode {
    Opaque,
}

#[derive(Debug)]
pub enum LLVMOpaqueValueMetadataEntry {
    Opaque,
}

#[derive(Debug)]
pub enum LLVMBuilder {
    Opaque,
}

#[derive(Debug)]
pub enum LLVMOpaqueDIBuilder {
    Opaque,
}

#[derive(Debug)]
pub enum LLVMModuleProvider {
    Opaque,
}

#[derive(Debug)]
pub enum LLVMPassManager {
    Opaque,
}

#[derive(Debug)]
pub enum LLVMPassManagerBuilder {
    Opaque,
}

#[derive(Debug)]
pub enum LLVMPassRegistry {
    Opaque,
}

#[derive(Debug)]
pub enum LLVMUse {
    Opaque,
}

#[derive(Debug)]
pub enum LLVMDiagnosticInfo {
    Opaque,
}

#[derive(Debug)]
pub enum LLVMComdat {
    Opaque,
}

#[derive(Debug)]
pub enum LLVMOpaqueModuleFlagEntry {
    Opaque,
}

#[derive(Debug)]
pub enum LLVMOpaqueJITEventListener {
    Opaque,
}

#[derive(Debug)]
pub enum LLVMOpaqueAttributeRef {
    Opaque,
}

} // verus!
