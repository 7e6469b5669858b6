//! A safe binding layer over a dynamically loaded LLVM toolkit library.
//!
//! The crate models the binding in three layers: a resolver that turns
//! per-symbol lookup outcomes into a complete function table or a precise
//! error naming the first unresolved entry point, a facade that owns the
//! resolved table and builds resource wrappers, and the wrappers themselves,
//! which release their foreign resource at most once.

mod codes;
mod entry_points;
mod errors;
mod facade;
mod handles;
mod resolver;
mod stats;
mod table;
mod wrappers;

pub use codes::LLVMAtomicOrdering;
pub use codes::LLVMAtomicRMWBinOp;
pub use codes::LLVMCallConv;
pub use codes::LLVMDLLStorageClass;
pub use codes::LLVMDiagnosticSeverity;
pub use codes::LLVMInlineAsmDialect;
pub use codes::LLVMIntPredicate;
pub use codes::LLVMLandingPadClauseTy;
pub use codes::LLVMLinkage;
pub use codes::LLVMModuleFlagBehavior;
pub use codes::LLVMOpcode;
pub use codes::LLVMRealPredicate;
pub use codes::LLVMThreadLocalMode;
pub use codes::LLVMTypeKind;
pub use codes::LLVMUnnamedAddr;
pub use codes::LLVMValueKind;
pub use codes::LLVMVisibility;
pub use errors::LoadError;
pub use facade::LLVMLite;
pub use facade::encode_nul_terminated;
pub use facade::has_interior_nul;
pub use facade::spec_has_interior_nul;
pub use resolver::LookupOutcome;
pub use resolver::is_found;
pub use resolver::lemma_failure_position_unique;
pub use resolver::lemma_single_missing_fails_there;
pub use resolver::resolution_fails_at;
pub use stats::PruneStats;
pub use table::LLVMMethods;
pub use wrappers::ByteString;
pub use wrappers::Context;
pub use wrappers::ContextKind;
pub use wrappers::ReleaseAction;
pub use wrappers::Utf8String;

pub use entry_points::ENTRY_POINT_COUNT;
pub use entry_points::IDX_CONTEXT_CREATE;
pub use entry_points::IDX_CONTEXT_DISPOSE;
pub use entry_points::IDX_CREATE_BYTE_STRING;
pub use entry_points::IDX_CREATE_STRING;
pub use entry_points::IDX_DISPOSE_STRING;
pub use entry_points::IDX_GET_GLOBAL_CONTEXT;
pub use entry_points::required_entry_point_names;
pub use entry_points::spec_entry_point_names;
pub use handles::LLVMArgumentsIterator;
pub use handles::LLVMAttributeListIterator;
pub use handles::LLVMAttributeSetIterator;
pub use handles::LLVMBasicBlock;
pub use handles::LLVMBlocksIterator;
pub use handles::LLVMBuilder;
pub use handles::LLVMComdat;
pub use handles::LLVMContext;
pub use handles::LLVMDiagnosticInfo;
pub use handles::LLVMInstructionsIterator;
pub use handles::LLVMMemoryBuffer;
pub use handles::LLVMModule;
pub use handles::LLVMModuleProvider;
pub use handles::LLVMObjectCache;
pub use handles::LLVMObjectFile;
pub use handles::LLVMOpaqueAttributeRef;
pub use handles::LLVMOpaqueDIBuilder;
pub use handles::LLVMOpaqueExecutionEngine;
pub use handles::LLVMOpaqueFunctionsIterator;
pub use handles::LLVMOpaqueGenericValue;
pub use handles::LLVMOpaqueGlobalsIterator;
pub use handles::LLVMOpaqueJITEventListener;
pub use handles::LLVMOpaqueMCJITMemoryManager;
pub use handles::LLVMOpaqueMetadata;
pub use handles::LLVMOpaqueModuleFlagEntry;
pub use handles::LLVMOpaqueNamedMDNode;
pub use handles::LLVMOpaqueSectionIterator;
pub use handles::LLVMOpaqueTargetData;
pub use handles::LLVMOpaqueTargetMachine;
pub use handles::LLVMOpaqueValueMetadataEntry;
pub use handles::LLVMOperandsIterator;
pub use handles::LLVMPassManager;
pub use handles::LLVMPassManagerBuilder;
pub use handles::LLVMPassRegistry;
pub use handles::LLVMTarget;
pub use handles::LLVMType;
pub use handles::LLVMTypesIterator;
pub use handles::LLVMUse;
pub use handles::LLVMValue;
