//! The required entry-point set of the native library.
//!
//! Resolution is by exact symbol name; every name listed here must be
//! present in the loaded library for construction to succeed.

use vstd::prelude::*;

verus! {

/// Number of entry points the binding resolves from the loaded library.
pub const ENTRY_POINT_COUNT: usize = 227;

/// Position of the string-duplication entry point in the required set.
pub const IDX_CREATE_STRING: usize = 4;

/// Position of the byte-string-duplication entry point in the required set.
pub const IDX_CREATE_BYTE_STRING: usize = 5;

/// Position of the string-release entry point in the required set.
pub const IDX_DISPOSE_STRING: usize = 6;

/// Position of the global-context accessor in the required set.
pub const IDX_GET_GLOBAL_CONTEXT: usize = 7;

/// Position of the context-creation entry point in the required set.
pub const IDX_CONTEXT_CREATE: usize = 8;

/// Position of the context-release entry point in the required set.
pub const IDX_CONTEXT_DISPOSE: usize = 9;

/// One block of the required entry-point names.
pub open spec fn spec_names_part_0() -> Seq<Seq<char>> {
    seq![
        "LLVMPY_SetCommandLine"@,
        "LLVMPY_ParseAssembly"@,
        "LLVMPY_WriteBitcodeToString"@,
        "LLVMPY_ParseBitcode"@,
        "LLVMPY_CreateString"@,
        "LLVMPY_CreateByteString"@,
        "LLVMPY_DisposeString"@,
        "LLVMPY_GetGlobalContext"@,
        "LLVMPY_ContextCreate"@,
        "LLVMPY_ContextDispose"@,
        "LLVMPY_AddRefPrunePass"@,
        "LLVMPY_DumpRefPruneStats"@,
        "LLVMPY_SearchAddressOfSymbol"@,
        "LLVMPY_AddSymbol"@,
        "LLVMPY_LoadLibraryPermanently"@,
        "LLVMPY_LinkInMCJIT"@,
        "LLVMPY_DisposeExecutionEngine"@,
        "LLVMPY_AddModule"@,
        "LLVMPY_RemoveModule"@,
        "LLVMPY_FinalizeObject"@,
        "LLVMPY_CreateMCJITCompiler"@,
        "LLVMPY_GetGlobalValueAddress"@,
        "LLVMPY_GetFunctionAddress"@,
        "LLVMPY_RunStaticConstructors"@,
        "LLVMPY_RunStaticDestructors"@,
    ]
}

/// One block of the required entry-point names.
pub open spec fn spec_names_part_1() -> Seq<Seq<char>> {
    seq![
        "LLVMPY_AddGlobalMapping"@,
        "LLVMPY_GetExecutionEngineTargetData"@,
        "LLVMPY_TryAllocateExecutableMemory"@,
        "LLVMPY_EnableJITEvents"@,
        "LLVMPY_MCJITAddObjectFile"@,
        "LLVMPY_CreateObjectCache"@,
        "LLVMPY_DisposeObjectCache"@,
        "LLVMPY_SetObjectCache"@,
        "LLVMPY_Shutdown"@,
        "LLVMPY_GetVersionInfo"@,
        "LLVMPY_LinkModules"@,
        "LLVMPY_DisposeModule"@,
        "LLVMPY_PrintModuleToString"@,
        "LLVMPY_GetModuleSourceFileName"@,
        "LLVMPY_GetModuleName"@,
        "LLVMPY_SetModuleName"@,
        "LLVMPY_GetNamedFunction"@,
        "LLVMPY_GetNamedGlobalVariable"@,
        "LLVMPY_GetNamedStructType"@,
        "LLVMPY_VerifyModule"@,
        "LLVMPY_GetDataLayout"@,
        "LLVMPY_SetDataLayout"@,
        "LLVMPY_GetTarget"@,
        "LLVMPY_SetTarget"@,
        "LLVMPY_ModuleGlobalsIter"@,
    ]
}

/// One block of the required entry-point names.
pub open spec fn spec_names_part_2() -> Seq<Seq<char>> {
    seq![
        "LLVMPY_ModuleFunctionsIter"@,
        "LLVMPY_ModuleTypesIter"@,
        "LLVMPY_GlobalsIterNext"@,
        "LLVMPY_FunctionsIterNext"@,
        "LLVMPY_TypesIterNext"@,
        "LLVMPY_DisposeGlobalsIter"@,
        "LLVMPY_DisposeFunctionsIter"@,
        "LLVMPY_DisposeTypesIter"@,
        "LLVMPY_CloneModule"@,
        "LLVMPY_CreateObjectFile"@,
        "LLVMPY_DisposeObjectFile"@,
        "LLVMPY_GetSections"@,
        "LLVMPY_DisposeSectionIterator"@,
        "LLVMPY_MoveToNextSection"@,
        "LLVMPY_IsSectionIteratorAtEnd"@,
        "LLVMPY_GetSectionName"@,
        "LLVMPY_GetSectionAddress"@,
        "LLVMPY_GetSectionContents"@,
        "LLVMPY_GetSectionSize"@,
        "LLVMPY_IsSectionText"@,
        "LLVMPY_SetTimePasses"@,
        "LLVMPY_ReportAndResetTimings"@,
        "LLVMPY_CreatePassManager"@,
        "LLVMPY_DisposePassManager"@,
        "LLVMPY_CreateFunctionPassManager"@,
    ]
}

/// One block of the required entry-point names.
pub open spec fn spec_names_part_3() -> Seq<Seq<char>> {
    seq![
        "LLVMPY_RunPassManagerWithRemarks"@,
        "LLVMPY_RunPassManager"@,
        "LLVMPY_RunFunctionPassManagerWithRemarks"@,
        "LLVMPY_RunFunctionPassManager"@,
        "LLVMPY_InitializeFunctionPassManager"@,
        "LLVMPY_FinalizeFunctionPassManager"@,
        "LLVMPY_AddAAEvalPass"@,
        "LLVMPY_AddBasicAAWrapperPass"@,
        "LLVMPY_AddDependenceAnalysisPass"@,
        "LLVMPY_AddCallGraphDOTPrinterPass"@,
        "LLVMPY_AddDotDomPrinterPass"@,
        "LLVMPY_AddGlobalsModRefAAPass"@,
        "LLVMPY_AddDotPostDomPrinterPass"@,
        "LLVMPY_AddCFGPrinterPass"@,
        "LLVMPY_AddConstantMergePass"@,
        "LLVMPY_AddDeadStoreEliminationPass"@,
        "LLVMPY_AddReversePostOrderFunctionAttrsPass"@,
        "LLVMPY_AddDeadArgEliminationPass"@,
        "LLVMPY_AddInstructionCountPass"@,
        "LLVMPY_AddIVUsersPass"@,
        "LLVMPY_AddLazyValueInfoPass"@,
        "LLVMPY_AddLintPass"@,
        "LLVMPY_AddModuleDebugInfoPrinterPass"@,
        "LLVMPY_AddRegionInfoPass"@,
        "LLVMPY_AddScalarEvolutionAAPass"@,
    ]
}

/// One block of the required entry-point names.
pub open spec fn spec_names_part_4() -> Seq<Seq<char>> {
    seq![
        "LLVMPY_AddAggressiveDCEPass"@,
        "LLVMPY_AddAlwaysInlinerPass"@,
        "LLVMPY_AddArgPromotionPass"@,
        "LLVMPY_AddBreakCriticalEdgesPass"@,
        "LLVMPY_AddFunctionAttrsPass"@,
        "LLVMPY_AddFunctionInliningPass"@,
        "LLVMPY_AddGlobalOptimizerPass"@,
        "LLVMPY_AddGlobalDCEPass"@,
        "LLVMPY_AddIPSCCPPass"@,
        "LLVMPY_AddDeadCodeEliminationPass"@,
        "LLVMPY_AddAggressiveInstructionCombiningPass"@,
        "LLVMPY_AddInternalizePass"@,
        "LLVMPY_AddJumpThreadingPass"@,
        "LLVMPY_AddLCSSAPass"@,
        "LLVMPY_AddLoopDeletionPass"@,
        "LLVMPY_AddSingleLoopExtractorPass"@,
        "LLVMPY_AddLoopStrengthReducePass"@,
        "LLVMPY_AddLoopSimplificationPass"@,
        "LLVMPY_AddLoopUnrollPass"@,
        "LLVMPY_AddLoopUnrollAndJamPass"@,
        "LLVMPY_AddLoopUnswitchPass"@,
        "LLVMPY_AddLowerAtomicPass"@,
        "LLVMPY_AddLowerInvokePass"@,
        "LLVMPY_AddLowerSwitchPass"@,
        "LLVMPY_AddMemCpyOptimizationPass"@,
    ]
}

/// One block of the required entry-point names.
pub open spec fn spec_names_part_5() -> Seq<Seq<char>> {
    seq![
        "LLVMPY_AddMergeFunctionsPass"@,
        "LLVMPY_AddMergeReturnsPass"@,
        "LLVMPY_AddPartialInliningPass"@,
        "LLVMPY_AddPruneExceptionHandlingPass"@,
        "LLVMPY_AddReassociatePass"@,
        "LLVMPY_AddDemoteRegisterToMemoryPass"@,
        "LLVMPY_AddSinkPass"@,
        "LLVMPY_AddStripSymbolsPass"@,
        "LLVMPY_AddStripDeadDebugInfoPass"@,
        "LLVMPY_AddStripDeadPrototypesPass"@,
        "LLVMPY_AddStripDebugDeclarePrototypesPass"@,
        "LLVMPY_AddStripNondebugSymbolsPass"@,
        "LLVMPY_AddTailCallEliminationPass"@,
        "LLVMPY_AddCFGSimplificationPass"@,
        "LLVMPY_AddGVNPass"@,
        "LLVMPY_AddInstructionCombiningPass"@,
        "LLVMPY_AddLICMPass"@,
        "LLVMPY_AddSCCPPass"@,
        "LLVMPY_AddSROAPass"@,
        "LLVMPY_AddTypeBasedAliasAnalysisPass"@,
        "LLVMPY_AddBasicAliasAnalysisPass"@,
        "LLVMPY_LLVMAddLoopRotatePass"@,
        "LLVMPY_GetProcessTriple"@,
        "LLVMPY_GetHostCPUFeatures"@,
        "LLVMPY_GetDefaultTargetTriple"@,
    ]
}

/// One block of the required entry-point names.
pub open spec fn spec_names_part_6() -> Seq<Seq<char>> {
    seq![
        "LLVMPY_GetHostCPUName"@,
        "LLVMPY_GetTripleObjectFormat"@,
        "LLVMPY_CreateTargetData"@,
        "LLVMPY_CopyStringRepOfTargetData"@,
        "LLVMPY_DisposeTargetData"@,
        "LLVMPY_ABISizeOfType"@,
        "LLVMPY_OffsetOfElement"@,
        "LLVMPY_ABISizeOfElementType"@,
        "LLVMPY_ABIAlignmentOfElementType"@,
        "LLVMPY_GetTargetFromTriple"@,
        "LLVMPY_GetTargetName"@,
        "LLVMPY_GetTargetDescription"@,
        "LLVMPY_CreateTargetMachine"@,
        "LLVMPY_DisposeTargetMachine"@,
        "LLVMPY_GetTargetMachineTriple"@,
        "LLVMPY_SetTargetMachineAsmVerbosity"@,
        "LLVMPY_TargetMachineEmitToMemory"@,
        "LLVMPY_CreateTargetMachineData"@,
        "LLVMPY_AddAnalysisPasses"@,
        "LLVMPY_GetBufferStart"@,
        "LLVMPY_GetBufferSize"@,
        "LLVMPY_DisposeMemoryBuffer"@,
        "LLVMPY_HasSVMLSupport"@,
        "LLVMPY_PassManagerBuilderCreate"@,
        "LLVMPY_PassManagerBuilderDispose"@,
    ]
}

/// One block of the required entry-point names.
pub open spec fn spec_names_part_7() -> Seq<Seq<char>> {
    seq![
        "LLVMPY_PassManagerBuilderGetOptLevel"@,
        "LLVMPY_PassManagerBuilderSetOptLevel"@,
        "LLVMPY_PassManagerBuilderGetSizeLevel"@,
        "LLVMPY_PassManagerBuilderSetSizeLevel"@,
        "LLVMPY_PassManagerBuilderGetDisableUnrollLoops"@,
        "LLVMPY_PassManagerBuilderSetDisableUnrollLoops"@,
        "LLVMPY_PassManagerBuilderUseInlinerWithThreshold"@,
        "LLVMPY_PassManagerBuilderPopulateFunctionPassManager"@,
        "LLVMPY_PassManagerBuilderSetLoopVectorize"@,
        "LLVMPY_PassManagerBuilderGetLoopVectorize"@,
        "LLVMPY_PassManagerBuilderSetSLPVectorize"@,
        "LLVMPY_PassManagerBuilderGetSLPVectorize"@,
        "LLVMPY_FunctionAttributesIter"@,
        "LLVMPY_ArgumentAttributesIter"@,
        "LLVMPY_CallInstAttributesIter"@,
        "LLVMPY_InvokeInstAttributesIter"@,
        "LLVMPY_GlobalAttributesIter"@,
        "LLVMPY_FunctionBlocksIter"@,
        "LLVMPY_FunctionArgumentsIter"@,
        "LLVMPY_BlockInstructionsIter"@,
        "LLVMPY_InstructionOperandsIter"@,
        "LLVMPY_AttributeListIterNext"@,
        "LLVMPY_BlocksIterNext"@,
        "LLVMPY_ArgumentsIterNext"@,
        "LLVMPY_InstructionsIterNext"@,
    ]
}

/// One block of the required entry-point names.
pub open spec fn spec_names_part_8() -> Seq<Seq<char>> {
    seq![
        "LLVMPY_OperandsIterNext"@,
        "LLVMPY_DisposeAttributeListIter"@,
        "LLVMPY_DisposeAttributeSetIter"@,
        "LLVMPY_DisposeBlocksIter"@,
        "LLVMPY_DisposeArgumentsIter"@,
        "LLVMPY_DisposeInstructionsIter"@,
        "LLVMPY_DisposeOperandsIter"@,
        "LLVMPY_PrintValueToString"@,
        "LLVMPY_GetValueName"@,
        "LLVMPY_SetValueName"@,
        "LLVMPY_GetGlobalParent"@,
        "LLVMPY_TypeOf"@,
        "LLVMPY_PrintType"@,
        "LLVMPY_GetTypeName"@,
        "LLVMPY_TypeIsPointer"@,
        "LLVMPY_GetElementType"@,
        "LLVMPY_SetLinkage"@,
        "LLVMPY_GetLinkage"@,
        "LLVMPY_SetVisibility"@,
        "LLVMPY_GetVisibility"@,
        "LLVMPY_SetDLLStorageClass"@,
        "LLVMPY_GetDLLStorageClass"@,
        "LLVMPY_GetEnumAttributeKindForName"@,
        "LLVMPY_AddFunctionAttr"@,
        "LLVMPY_IsDeclaration"@,
    ]
}

/// One block of the required entry-point names.
pub open spec fn spec_names_part_9() -> Seq<Seq<char>> {
    seq![
        "LLVMPY_WriteCFG"@,
        "LLVMPY_GetOpcodeName"@,
    ]
}

/// The names of the required entry points, in resolution order.
pub open spec fn spec_entry_point_names() -> Seq<Seq<char>> {
    spec_names_part_0() + spec_names_part_1() + spec_names_part_2() + spec_names_part_3() + spec_names_part_4() + spec_names_part_5() + spec_names_part_6() + spec_names_part_7() + spec_names_part_8() + spec_names_part_9()
}

fn push_names_part_0(names: &mut Vec<&'static str>)
    ensures
        final(names)@.len() == old(names)@.len() + spec_names_part_0().len(),
        forall|i: int| 0 <= i < old(names)@.len() ==> final(names)@[i] == old(names)@[i],
        forall|k: int| 0 <= k < spec_names_part_0().len()
            ==> final(names)@[old(names)@.len() + k]@ == spec_names_part_0()[k],
{
    names.push("LLVMPY_SetCommandLine");
    names.push("LLVMPY_ParseAssembly");
    names.push("LLVMPY_WriteBitcodeToString");
    names.push("LLVMPY_ParseBitcode");
    names.push("LLVMPY_CreateString");
    names.push("LLVMPY_CreateByteString");
    names.push("LLVMPY_DisposeString");
    names.push("LLVMPY_GetGlobalContext");
    names.push("LLVMPY_ContextCreate");
    names.push("LLVMPY_ContextDispose");
    names.push("LLVMPY_AddRefPrunePass");
    names.push("LLVMPY_DumpRefPruneStats");
    names.push("LLVMPY_SearchAddressOfSymbol");
    names.push("LLVMPY_AddSymbol");
    names.push("LLVMPY_LoadLibraryPermanently");
    names.push("LLVMPY_LinkInMCJIT");
    names.push("LLVMPY_DisposeExecutionEngine");
    names.push("LLVMPY_AddModule");
    names.push("LLVMPY_RemoveModule");
    names.push("LLVMPY_FinalizeObject");
    names.push("LLVMPY_CreateMCJITCompiler");
    names.push("LLVMPY_GetGlobalValueAddress");
    names.push("LLVMPY_GetFunctionAddress");
    names.push("LLVMPY_RunStaticConstructors");
    names.push("LLVMPY_RunStaticDestructors");
}

fn push_names_part_1(names: &mut Vec<&'static str>)
    ensures
        final(names)@.len() == old(names)@.len() + spec_names_part_1().len(),
        forall|i: int| 0 <= i < old(names)@.len() ==> final(names)@[i] == old(names)@[i],
        forall|k: int| 0 <= k < spec_names_part_1().len()
            ==> final(names)@[old(names)@.len() + k]@ == spec_names_part_1()[k],
{
    names.push("LLVMPY_AddGlobalMapping");
    names.push("LLVMPY_GetExecutionEngineTargetData");
    names.push("LLVMPY_TryAllocateExecutableMemory");
    names.push("LLVMPY_EnableJITEvents");
    names.push("LLVMPY_MCJITAddObjectFile");
    names.push("LLVMPY_CreateObjectCache");
    names.push("LLVMPY_DisposeObjectCache");
    names.push("LLVMPY_SetObjectCache");
    names.push("LLVMPY_Shutdown");
    names.push("LLVMPY_GetVersionInfo");
    names.push("LLVMPY_LinkModules");
    names.push("LLVMPY_DisposeModule");
    names.push("LLVMPY_PrintModuleToString");
    names.push("LLVMPY_GetModuleSourceFileName");
    names.push("LLVMPY_GetModuleName");
    names.push("LLVMPY_SetModuleName");
    names.push("LLVMPY_GetNamedFunction");
    names.push("LLVMPY_GetNamedGlobalVariable");
    names.push("LLVMPY_GetNamedStructType");
    names.push("LLVMPY_VerifyModule");
    names.push("LLVMPY_GetDataLayout");
    names.push("LLVMPY_SetDataLayout");
    names.push("LLVMPY_GetTarget");
    names.push("LLVMPY_SetTarget");
    names.push("LLVMPY_ModuleGlobalsIter");
}

fn push_names_part_2(names: &mut Vec<&'static str>)
    ensures
        final(names)@.len() == old(names)@.len() + spec_names_part_2().len(),
        forall|i: int| 0 <= i < old(names)@.len() ==> final(names)@[i] == old(names)@[i],
        forall|k: int| 0 <= k < spec_names_part_2().len()
            ==> final(names)@[old(names)@.len() + k]@ == spec_names_part_2()[k],
{
    names.push("LLVMPY_ModuleFunctionsIter");
    names.push("LLVMPY_ModuleTypesIter");
    names.push("LLVMPY_GlobalsIterNext");
    names.push("LLVMPY_FunctionsIterNext");
    names.push("LLVMPY_TypesIterNext");
    names.push("LLVMPY_DisposeGlobalsIter");
    names.push("LLVMPY_DisposeFunctionsIter");
    names.push("LLVMPY_DisposeTypesIter");
    names.push("LLVMPY_CloneModule");
    names.push("LLVMPY_CreateObjectFile");
    names.push("LLVMPY_DisposeObjectFile");
    names.push("LLVMPY_GetSections");
    names.push("LLVMPY_DisposeSectionIterator");
    names.push("LLVMPY_MoveToNextSection");
    names.push("LLVMPY_IsSectionIteratorAtEnd");
    names.push("LLVMPY_GetSectionName");
    names.push("LLVMPY_GetSectionAddress");
    names.push("LLVMPY_GetSectionContents");
    names.push("LLVMPY_GetSectionSize");
    names.push("LLVMPY_IsSectionText");
    names.push("LLVMPY_SetTimePasses");
    names.push("LLVMPY_ReportAndResetTimings");
    names.push("LLVMPY_CreatePassManager");
    names.push("LLVMPY_DisposePassManager");
    names.push("LLVMPY_CreateFunctionPassManager");
}

fn push_names_part_3(names: &mut Vec<&'static str>)
    ensures
        final(names)@.len() == old(names)@.len() + spec_names_part_3().len(),
        forall|i: int| 0 <= i < old(names)@.len() ==> final(names)@[i] == old(names)@[i],
        forall|k: int| 0 <= k < spec_names_part_3().len()
            ==> final(names)@[old(names)@.len() + k]@ == spec_names_part_3()[k],
{
    names.push("LLVMPY_RunPassManagerWithRemarks");
    names.push("LLVMPY_RunPassManager");
    names.push("LLVMPY_RunFunctionPassManagerWithRemarks");
    names.push("LLVMPY_RunFunctionPassManager");
    names.push("LLVMPY_InitializeFunctionPassManager");
    names.push("LLVMPY_FinalizeFunctionPassManager");
    names.push("LLVMPY_AddAAEvalPass");
    names.push("LLVMPY_AddBasicAAWrapperPass");
    names.push("LLVMPY_AddDependenceAnalysisPass");
    names.push("LLVMPY_AddCallGraphDOTPrinterPass");
    names.push("LLVMPY_AddDotDomPrinterPass");
    names.push("LLVMPY_AddGlobalsModRefAAPass");
    names.push("LLVMPY_AddDotPostDomPrinterPass");
    names.push("LLVMPY_AddCFGPrinterPass");
    names.push("LLVMPY_AddConstantMergePass");
    names.push("LLVMPY_AddDeadStoreEliminationPass");
    names.push("LLVMPY_AddReversePostOrderFunctionAttrsPass");
    names.push("LLVMPY_AddDeadArgEliminationPass");
    names.push("LLVMPY_AddInstructionCountPass");
    names.push("LLVMPY_AddIVUsersPass");
    names.push("LLVMPY_AddLazyValueInfoPass");
    names.push("LLVMPY_AddLintPass");
    names.push("LLVMPY_AddModuleDebugInfoPrinterPass");
    names.push("LLVMPY_AddRegionInfoPass");
    names.push("LLVMPY_AddScalarEvolutionAAPass");
}

fn push_names_part_4(names: &mut Vec<&'static str>)
    ensures
        final(names)@.len() == old(names)@.len() + spec_names_part_4().len(),
        forall|i: int| 0 <= i < old(names)@.len() ==> final(names)@[i] == old(names)@[i],
        forall|k: int| 0 <= k < spec_names_part_4().len()
            ==> final(names)@[old(names)@.len() + k]@ == spec_names_part_4()[k],
{
    names.push("LLVMPY_AddAggressiveDCEPass");
    names.push("LLVMPY_AddAlwaysInlinerPass");
    names.push("LLVMPY_AddArgPromotionPass");
    names.push("LLVMPY_AddBreakCriticalEdgesPass");
    names.push("LLVMPY_AddFunctionAttrsPass");
    names.push("LLVMPY_AddFunctionInliningPass");
    names.push("LLVMPY_AddGlobalOptimizerPass");
    names.push("LLVMPY_AddGlobalDCEPass");
    names.push("LLVMPY_AddIPSCCPPass");
    names.push("LLVMPY_AddDeadCodeEliminationPass");
    names.push("LLVMPY_AddAggressiveInstructionCombiningPass");
    names.push("LLVMPY_AddInternalizePass");
    names.push("LLVMPY_AddJumpThreadingPass");
    names.push("LLVMPY_AddLCSSAPass");
    names.push("LLVMPY_AddLoopDeletionPass");
    names.push("LLVMPY_AddSingleLoopExtractorPass");
    names.push("LLVMPY_AddLoopStrengthReducePass");
    names.push("LLVMPY_AddLoopSimplificationPass");
    names.push("LLVMPY_AddLoopUnrollPass");
    names.push("LLVMPY_AddLoopUnrollAndJamPass");
    names.push("LLVMPY_AddLoopUnswitchPass");
    names.push("LLVMPY_AddLowerAtomicPass");
    names.push("LLVMPY_AddLowerInvokePass");
    names.push("LLVMPY_AddLowerSwitchPass");
    names.push("LLVMPY_AddMemCpyOptimizationPass");
}

fn push_names_part_5(names: &mut Vec<&'static str>)
    ensures
        final(names)@.len() == old(names)@.len() + spec_names_part_5().len(),
        forall|i: int| 0 <= i < old(names)@.len() ==> final(names)@[i] == old(names)@[i],
        forall|k: int| 0 <= k < spec_names_part_5().len()
            ==> final(names)@[old(names)@.len() + k]@ == spec_names_part_5()[k],
{
    names.push("LLVMPY_AddMergeFunctionsPass");
    names.push("LLVMPY_AddMergeReturnsPass");
    names.push("LLVMPY_AddPartialInliningPass");
    names.push("LLVMPY_AddPruneExceptionHandlingPass");
    names.push("LLVMPY_AddReassociatePass");
    names.push("LLVMPY_AddDemoteRegisterToMemoryPass");
    names.push("LLVMPY_AddSinkPass");
    names.push("LLVMPY_AddStripSymbolsPass");
    names.push("LLVMPY_AddStripDeadDebugInfoPass");
    names.push("LLVMPY_AddStripDeadPrototypesPass");
    names.push("LLVMPY_AddStripDebugDeclarePrototypesPass");
    names.push("LLVMPY_AddStripNondebugSymbolsPass");
    names.push("LLVMPY_AddTailCallEliminationPass");
    names.push("LLVMPY_AddCFGSimplificationPass");
    names.push("LLVMPY_AddGVNPass");
    names.push("LLVMPY_AddInstructionCombiningPass");
    names.push("LLVMPY_AddLICMPass");
    names.push("LLVMPY_AddSCCPPass");
    names.push("LLVMPY_AddSROAPass");
    names.push("LLVMPY_AddTypeBasedAliasAnalysisPass");
    names.push("LLVMPY_AddBasicAliasAnalysisPass");
    names.push("LLVMPY_LLVMAddLoopRotatePass");
    names.push("LLVMPY_GetProcessTriple");
    names.push("LLVMPY_GetHostCPUFeatures");
    names.push("LLVMPY_GetDefaultTargetTriple");
}

fn push_names_part_6(names: &mut Vec<&'static str>)
    ensures
        final(names)@.len() == old(names)@.len() + spec_names_part_6().len(),
        forall|i: int| 0 <= i < old(names)@.len() ==> final(names)@[i] == old(names)@[i],
        forall|k: int| 0 <= k < spec_names_part_6().len()
            ==> final(names)@[old(names)@.len() + k]@ == spec_names_part_6()[k],
{
    names.push("LLVMPY_GetHostCPUName");
    names.push("LLVMPY_GetTripleObjectFormat");
    names.push("LLVMPY_CreateTargetData");
    names.push("LLVMPY_CopyStringRepOfTargetData");
    names.push("LLVMPY_DisposeTargetData");
    names.push("LLVMPY_ABISizeOfType");
    names.push("LLVMPY_OffsetOfElement");
    names.push("LLVMPY_ABISizeOfElementType");
    names.push("LLVMPY_ABIAlignmentOfElementType");
    names.push("LLVMPY_GetTargetFromTriple");
    names.push("LLVMPY_GetTargetName");
    names.push("LLVMPY_GetTargetDescription");
    names.push("LLVMPY_CreateTargetMachine");
    names.push("LLVMPY_DisposeTargetMachine");
    names.push("LLVMPY_GetTargetMachineTriple");
    names.push("LLVMPY_SetTargetMachineAsmVerbosity");
    names.push("LLVMPY_TargetMachineEmitToMemory");
    names.push("LLVMPY_CreateTargetMachineData");
    names.push("LLVMPY_AddAnalysisPasses");
    names.push("LLVMPY_GetBufferStart");
    names.push("LLVMPY_GetBufferSize");
    names.push("LLVMPY_DisposeMemoryBuffer");
    names.push("LLVMPY_HasSVMLSupport");
    names.push("LLVMPY_PassManagerBuilderCreate");
    names.push("LLVMPY_PassManagerBuilderDispose");
}

fn push_names_part_7(names: &mut Vec<&'static str>)
    ensures
        final(names)@.len() == old(names)@.len() + spec_names_part_7().len(),
        forall|i: int| 0 <= i < old(names)@.len() ==> final(names)@[i] == old(names)@[i],
        forall|k: int| 0 <= k < spec_names_part_7().len()
            ==> final(names)@[old(names)@.len() + k]@ == spec_names_part_7()[k],
{
    names.push("LLVMPY_PassManagerBuilderGetOptLevel");
    names.push("LLVMPY_PassManagerBuilderSetOptLevel");
    names.push("LLVMPY_PassManagerBuilderGetSizeLevel");
    names.push("LLVMPY_PassManagerBuilderSetSizeLevel");
    names.push("LLVMPY_PassManagerBuilderGetDisableUnrollLoops");
    names.push("LLVMPY_PassManagerBuilderSetDisableUnrollLoops");
    names.push("LLVMPY_PassManagerBuilderUseInlinerWithThreshold");
    names.push("LLVMPY_PassManagerBuilderPopulateFunctionPassManager");
    names.push("LLVMPY_PassManagerBuilderSetLoopVectorize");
    names.push("LLVMPY_PassManagerBuilderGetLoopVectorize");
    names.push("LLVMPY_PassManagerBuilderSetSLPVectorize");
    names.push("LLVMPY_PassManagerBuilderGetSLPVectorize");
    names.push("LLVMPY_FunctionAttributesIter");
    names.push("LLVMPY_ArgumentAttributesIter");
    names.push("LLVMPY_CallInstAttributesIter");
    names.push("LLVMPY_InvokeInstAttributesIter");
    names.push("LLVMPY_GlobalAttributesIter");
    names.push("LLVMPY_FunctionBlocksIter");
    names.push("LLVMPY_FunctionArgumentsIter");
    names.push("LLVMPY_BlockInstructionsIter");
    names.push("LLVMPY_InstructionOperandsIter");
    names.push("LLVMPY_AttributeListIterNext");
    names.push("LLVMPY_BlocksIterNext");
    names.push("LLVMPY_ArgumentsIterNext");
    names.push("LLVMPY_InstructionsIterNext");
}

fn push_names_part_8(names: &mut Vec<&'static str>)
    ensures
        final(names)@.len() == old(names)@.len() + spec_names_part_8().len(),
        forall|i: int| 0 <= i < old(names)@.len() ==> final(names)@[i] == old(names)@[i],
        forall|k: int| 0 <= k < spec_names_part_8().len()
            ==> final(names)@[old(names)@.len() + k]@ == spec_names_part_8()[k],
{
    names.push("LLVMPY_OperandsIterNext");
    names.push("LLVMPY_DisposeAttributeListIter");
    names.push("LLVMPY_DisposeAttributeSetIter");
    names.push("LLVMPY_DisposeBlocksIter");
    names.push("LLVMPY_DisposeArgumentsIter");
    names.push("LLVMPY_DisposeInstructionsIter");
    names.push("LLVMPY_DisposeOperandsIter");
    names.push("LLVMPY_PrintValueToString");
    names.push("LLVMPY_GetValueName");
    names.push("LLVMPY_SetValueName");
    names.push("LLVMPY_GetGlobalParent");
    names.push("LLVMPY_TypeOf");
    names.push("LLVMPY_PrintType");
    names.push("LLVMPY_GetTypeName");
    names.push("LLVMPY_TypeIsPointer");
    names.push("LLVMPY_GetElementType");
    names.push("LLVMPY_SetLinkage");
    names.push("LLVMPY_GetLinkage");
    names.push("LLVMPY_SetVisibility");
    names.push("LLVMPY_GetVisibility");
    names.push("LLVMPY_SetDLLStorageClass");
    names.push("LLVMPY_GetDLLStorageClass");
    names.push("LLVMPY_GetEnumAttributeKindForName");
    names.push("LLVMPY_AddFunctionAttr");
    names.push("LLVMPY_IsDeclaration");
}

fn push_names_part_9(names: &mut Vec<&'static str>)
    ensures
        final(names)@.len() == old(names)@.len() + spec_names_part_9().len(),
        forall|i: int| 0 <= i < old(names)@.len() ==> final(names)@[i] == old(names)@[i],
        forall|k: int| 0 <= k < spec_names_part_9().len()
            ==> final(names)@[old(names)@.len() + k]@ == spec_names_part_9()[k],
{
    names.push("LLVMPY_WriteCFG");
    names.push("LLVMPY_GetOpcodeName");
}

/// The names of the required entry points, in resolution order.
pub fn required_entry_point_names() -> (names: Vec<&'static str>)
    ensures
        names@.len() == ENTRY_POINT_COUNT,
        forall|i: int| 0 <= i < names@.len() ==> names@[i]@ == spec_entry_point_names()[i],
{
    let mut names: Vec<&'static str> = Vec::with_capacity(ENTRY_POINT_COUNT);
    push_names_part_0(&mut names);
    assert(forall|i: int| 0 <= i < names@.len()
        ==> names@[i]@ == (spec_names_part_0())[i]);
    push_names_part_1(&mut names);
    assert(forall|i: int| 0 <= i < names@.len()
        ==> names@[i]@ == (spec_names_part_0() + spec_names_part_1())[i]);
    push_names_part_2(&mut names);
    assert(forall|i: int| 0 <= i < names@.len()
        ==> names@[i]@ == (spec_names_part_0() + spec_names_part_1() + spec_names_part_2())[i]);
    push_names_part_3(&mut names);
    assert(forall|i: int| 0 <= i < names@.len()
        ==> names@[i]@ == (spec_names_part_0() + spec_names_part_1() + spec_names_part_2() + spec_names_part_3())[i]);
    push_names_part_4(&mut names);
    assert(forall|i: int| 0 <= i < names@.len()
        ==> names@[i]@ == (spec_names_part_0() + spec_names_part_1() + spec_names_part_2() + spec_names_part_3() + spec_names_part_4())[i]);
    push_names_part_5(&mut names);
    assert(forall|i: int| 0 <= i < names@.len()
        ==> names@[i]@ == (spec_names_part_0() + spec_names_part_1() + spec_names_part_2() + spec_names_part_3() + spec_names_part_4() + spec_names_part_5())[i]);
    push_names_part_6(&mut names);
    assert(forall|i: int| 0 <= i < names@.len()
        ==> names@[i]@ == (spec_names_part_0() + spec_names_part_1() + spec_names_part_2() + spec_names_part_3() + spec_names_part_4() + spec_names_part_5() + spec_names_part_6())[i]);
    push_names_part_7(&mut names);
    assert(forall|i: int| 0 <= i < names@.len()
        ==> names@[i]@ == (spec_names_part_0() + spec_names_part_1() + spec_names_part_2() + spec_names_part_3() + spec_names_part_4() + spec_names_part_5() + spec_names_part_6() + spec_names_part_7())[i]);
    push_names_part_8(&mut names);
    assert(forall|i: int| 0 <= i < names@.len()
        ==> names@[i]@ == (spec_names_part_0() + spec_names_part_1() + spec_names_part_2() + spec_names_part_3() + spec_names_part_4() + spec_names_part_5() + spec_names_part_6() + spec_names_part_7() + spec_names_part_8())[i]);
    push_names_part_9(&mut names);
    assert(forall|i: int| 0 <= i < names@.len()
        ==> names@[i]@ == (spec_names_part_0() + spec_names_part_1() + spec_names_part_2() + spec_names_part_3() + spec_names_part_4() + spec_names_part_5() + spec_names_part_6() + spec_names_part_7() + spec_names_part_8() + spec_names_part_9())[i]);
    names
}

} // verus!
