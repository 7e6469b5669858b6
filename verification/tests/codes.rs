use llvmlite::LLVMAtomicOrdering;
use llvmlite::LLVMAtomicRMWBinOp;
use llvmlite::LLVMCallConv;
use llvmlite::LLVMDLLStorageClass;
use llvmlite::LLVMDiagnosticSeverity;
use llvmlite::LLVMInlineAsmDialect;
use llvmlite::LLVMIntPredicate;
use llvmlite::LLVMLandingPadClauseTy;
use llvmlite::LLVMLinkage;
use llvmlite::LLVMModuleFlagBehavior;
use llvmlite::LLVMOpcode;
use llvmlite::LLVMRealPredicate;
use llvmlite::LLVMThreadLocalMode;
use llvmlite::LLVMTypeKind;
use llvmlite::LLVMUnnamedAddr;
use llvmlite::LLVMValueKind;
use llvmlite::LLVMVisibility;

#[test]
fn opcode_codes() {
    assert_eq!(LLVMOpcode::LLVMRet.code(), 1);
    assert_eq!(LLVMOpcode::LLVMBr.code(), 2);
    assert_eq!(LLVMOpcode::LLVMUnreachable.code(), 7);
    assert_eq!(LLVMOpcode::LLVMFNeg.code(), 66);
    assert_eq!(LLVMOpcode::LLVMCallBr.code(), 67);
    assert_eq!(LLVMOpcode::LLVMFreeze.code(), 68);
    assert_eq!(LLVMOpcode::LLVMAdd.code(), 8);
    assert_eq!(LLVMOpcode::LLVMAddrSpaceCast.code(), 60);
    assert_eq!(LLVMOpcode::LLVMCatchSwitch.code(), 65);
}

#[test]
fn opcode_from_code_roundtrip() {
    for value in 0..=80u32 {
        if let Some(op) = LLVMOpcode::from_code(value) {
            assert_eq!(op.code(), value);
        }
    }
    // The native numbering has no opcode 0 and no opcode 6.
    assert_eq!(LLVMOpcode::from_code(0), None);
    assert_eq!(LLVMOpcode::from_code(6), None);
    assert_eq!(LLVMOpcode::from_code(69), None);
    assert_eq!(LLVMOpcode::from_code(1), Some(LLVMOpcode::LLVMRet));
}

#[test]
fn type_kind_codes() {
    assert_eq!(LLVMTypeKind::LLVMVoidTypeKind.code(), 0);
    assert_eq!(LLVMTypeKind::LLVMIntegerTypeKind.code(), 8);
    assert_eq!(LLVMTypeKind::LLVMPointerTypeKind.code(), 12);
    assert_eq!(LLVMTypeKind::LLVMX86_AMXTypeKind.code(), 19);
    assert_eq!(LLVMTypeKind::from_code(11), Some(LLVMTypeKind::LLVMArrayTypeKind));
    assert_eq!(LLVMTypeKind::from_code(20), None);
}

#[test]
fn linkage_codes() {
    assert_eq!(LLVMLinkage::LLVMExternalLinkage.code(), 0);
    assert_eq!(LLVMLinkage::LLVMInternalLinkage.code(), 8);
    assert_eq!(LLVMLinkage::LLVMLinkerPrivateWeakLinkage.code(), 16);
    assert_eq!(LLVMLinkage::from_code(9), Some(LLVMLinkage::LLVMPrivateLinkage));
    assert_eq!(LLVMLinkage::from_code(17), None);
}

#[test]
fn visibility_codes() {
    assert_eq!(LLVMVisibility::LLVMDefaultVisibility.code(), 0);
    assert_eq!(LLVMVisibility::LLVMHiddenVisibility.code(), 1);
    assert_eq!(LLVMVisibility::LLVMProtectedVisibility.code(), 2);
    assert_eq!(LLVMVisibility::from_code(3), None);
}

#[test]
fn unnamed_addr_codes() {
    assert_eq!(LLVMUnnamedAddr::LLVMNoUnnamedAddr.code(), 0);
    assert_eq!(LLVMUnnamedAddr::LLVMLocalUnnamedAddr.code(), 1);
    assert_eq!(LLVMUnnamedAddr::LLVMGlobalUnnamedAddr.code(), 2);
}

#[test]
fn dll_storage_class_codes() {
    assert_eq!(LLVMDLLStorageClass::LLVMDefaultStorageClass.code(), 0);
    assert_eq!(LLVMDLLStorageClass::LLVMDLLImportStorageClass.code(), 1);
    assert_eq!(LLVMDLLStorageClass::LLVMDLLExportStorageClass.code(), 2);
}

#[test]
fn call_conv_codes() {
    assert_eq!(LLVMCallConv::LLVMCCallConv.code(), 0);
    assert_eq!(LLVMCallConv::LLVMFastCallConv.code(), 8);
    assert_eq!(LLVMCallConv::LLVMX86StdcallCallConv.code(), 64);
    assert_eq!(LLVMCallConv::LLVMAMDGPUESCallConv.code(), 96);
    // The numbering jumps from 17 to 64.
    assert_eq!(LLVMCallConv::from_code(18), None);
    assert_eq!(LLVMCallConv::from_code(16), Some(LLVMCallConv::LLVMSwiftCallConv));
}

#[test]
fn value_kind_codes() {
    assert_eq!(LLVMValueKind::LLVMArgumentValueKind.code(), 0);
    assert_eq!(LLVMValueKind::LLVMFunctionValueKind.code(), 5);
    assert_eq!(LLVMValueKind::LLVMPoisonValueKind.code(), 25);
    assert_eq!(LLVMValueKind::from_code(26), None);
}

#[test]
fn int_predicate_codes() {
    assert_eq!(LLVMIntPredicate::LLVMIntEQ.code(), 32);
    assert_eq!(LLVMIntPredicate::LLVMIntSLE.code(), 41);
    assert_eq!(LLVMIntPredicate::from_code(31), None);
    assert_eq!(LLVMIntPredicate::from_code(36), Some(LLVMIntPredicate::LLVMIntULT));
}

#[test]
fn real_predicate_codes() {
    assert_eq!(LLVMRealPredicate::LLVMRealPredicateFalse.code(), 0);
    assert_eq!(LLVMRealPredicate::LLVMRealPredicateTrue.code(), 15);
    assert_eq!(LLVMRealPredicate::from_code(16), None);
}

#[test]
fn landing_pad_clause_codes() {
    assert_eq!(LLVMLandingPadClauseTy::LLVMLandingPadCatch.code(), 0);
    assert_eq!(LLVMLandingPadClauseTy::LLVMLandingPadFilter.code(), 1);
}

#[test]
fn thread_local_mode_codes() {
    assert_eq!(LLVMThreadLocalMode::LLVMNotThreadLocal.code(), 0);
    assert_eq!(LLVMThreadLocalMode::LLVMLocalExecTLSModel.code(), 4);
}

#[test]
fn atomic_ordering_codes() {
    assert_eq!(LLVMAtomicOrdering::LLVMAtomicOrderingNotAtomic.code(), 0);
    assert_eq!(LLVMAtomicOrdering::LLVMAtomicOrderingMonotonic.code(), 2);
    // The native numbering has no ordering 3.
    assert_eq!(LLVMAtomicOrdering::from_code(3), None);
    assert_eq!(LLVMAtomicOrdering::LLVMAtomicOrderingAcquire.code(), 4);
    assert_eq!(LLVMAtomicOrdering::LLVMAtomicOrderingSequentiallyConsistent.code(), 7);
}

#[test]
fn atomic_rmw_bin_op_codes() {
    assert_eq!(LLVMAtomicRMWBinOp::LLVMAtomicRMWBinOpXchg.code(), 0);
    assert_eq!(LLVMAtomicRMWBinOp::LLVMAtomicRMWBinOpFMin.code(), 14);
}

#[test]
fn diagnostic_severity_codes() {
    assert_eq!(LLVMDiagnosticSeverity::LLVMDSError.code(), 0);
    assert_eq!(LLVMDiagnosticSeverity::LLVMDSNote.code(), 3);
}

#[test]
fn inline_asm_dialect_codes() {
    assert_eq!(LLVMInlineAsmDialect::LLVMInlineAsmDialectATT.code(), 0);
    assert_eq!(LLVMInlineAsmDialect::LLVMInlineAsmDialectIntel.code(), 1);
}

#[test]
fn module_flag_behavior_codes() {
    assert_eq!(LLVMModuleFlagBehavior::LLVMModuleFlagBehaviorError.code(), 0);
    assert_eq!(LLVMModuleFlagBehavior::LLVMModuleFlagBehaviorAppendUnique.code(), 5);
    assert_eq!(
        LLVMModuleFlagBehavior::from_code(3),
        Some(LLVMModuleFlagBehavior::LLVMModuleFlagBehaviorOverride)
    );
}
