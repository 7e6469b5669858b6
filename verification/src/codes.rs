//! The constant tables of the native interface.
//!
//! The native interface identifies opcodes, linkage kinds, calling
//! conventions and the like by fixed numeric values. Each table here pairs
//! the named variants with those values: `code` gives a variant's numeric
//! value for handing across the ABI, and `from_code` recovers the variant a
//! native call returned, or `None` for a value outside the table.

use vstd::prelude::*;

verus! {

/// See the native interface's `LLVMOpcode` constant table.
#[derive(Clone, Copy, Debug, PartialEq, Eq, Structural)]
pub enum LLVMOpcode {
    LLVMRet,
    LLVMBr,
    LLVMSwitch,
    LLVMIndirectBr,
    LLVMInvoke,
    LLVMUnreachable,
    LLVMCallBr,
    LLVMFNeg,
    LLVMAdd,
    LLVMFAdd,
    LLVMSub,
    LLVMFSub,
    LLVMMul,
    LLVMFMul,
    LLVMUDiv,
    LLVMSDiv,
    LLVMFDiv,
    LLVMURem,
    LLVMSRem,
    LLVMFRem,
    LLVMShl,
    LLVMLShr,
    LLVMAShr,
    LLVMAnd,
    LLVMOr,
    LLVMXor,
    LLVMAlloca,
    LLVMLoad,
    LLVMStore,
    LLVMGetElementPtr,
    LLVMTrunc,
    LLVMZExt,
    LLVMSExt,
    LLVMFPToUI,
    LLVMFPToSI,
    LLVMUIToFP,
    LLVMSIToFP,
    LLVMFPTrunc,
    LLVMFPExt,
    LLVMPtrToInt,
    LLVMIntToPtr,
    LLVMBitCast,
    LLVMAddrSpaceCast,
    LLVMICmp,
    LLVMFCmp,
    LLVMPHI,
    LLVMCall,
    LLVMSelect,
    LLVMUserOp1,
    LLVMUserOp2,
    LLVMVAArg,
    LLVMExtractElement,
    LLVMInsertElement,
    LLVMShuffleVector,
    LLVMExtractValue,
    LLVMInsertValue,
    LLVMFreeze,
    LLVMFence,
    LLVMAtomicCmpXchg,
    LLVMAtomicRMW,
    LLVMResume,
    LLVMLandingPad,
    LLVMCleanupRet,
    LLVMCatchRet,
    LLVMCatchPad,
    LLVMCleanupPad,
    LLVMCatchSwitch,
}

impl LLVMOpcode {
    /// The numeric value this variant has in the native interface.
    pub open spec fn spec_code(self) -> u32 {
        match self {
            LLVMOpcode::LLVMRet => 1,
            LLVMOpcode::LLVMBr => 2,
            LLVMOpcode::LLVMSwitch => 3,
            LLVMOpcode::LLVMIndirectBr => 4,
            LLVMOpcode::LLVMInvoke => 5,
            LLVMOpcode::LLVMUnreachable => 7,
            LLVMOpcode::LLVMCallBr => 67,
            LLVMOpcode::LLVMFNeg => 66,
            LLVMOpcode::LLVMAdd => 8,
            LLVMOpcode::LLVMFAdd => 9,
            LLVMOpcode::LLVMSub => 10,
            LLVMOpcode::LLVMFSub => 11,
            LLVMOpcode::LLVMMul => 12,
            LLVMOpcode::LLVMFMul => 13,
            LLVMOpcode::LLVMUDiv => 14,
            LLVMOpcode::LLVMSDiv => 15,
            LLVMOpcode::LLVMFDiv => 16,
            LLVMOpcode::LLVMURem => 17,
            LLVMOpcode::LLVMSRem => 18,
            LLVMOpcode::LLVMFRem => 19,
            LLVMOpcode::LLVMShl => 20,
            LLVMOpcode::LLVMLShr => 21,
            LLVMOpcode::LLVMAShr => 22,
            LLVMOpcode::LLVMAnd => 23,
            LLVMOpcode::LLVMOr => 24,
            LLVMOpcode::LLVMXor => 25,
            LLVMOpcode::LLVMAlloca => 26,
            LLVMOpcode::LLVMLoad => 27,
            LLVMOpcode::LLVMStore => 28,
            LLVMOpcode::LLVMGetElementPtr => 29,
            LLVMOpcode::LLVMTrunc => 30,
            LLVMOpcode::LLVMZExt => 31,
            LLVMOpcode::LLVMSExt => 32,
            LLVMOpcode::LLVMFPToUI => 33,
            LLVMOpcode::LLVMFPToSI => 34,
            LLVMOpcode::LLVMUIToFP => 35,
            LLVMOpcode::LLVMSIToFP => 36,
            LLVMOpcode::LLVMFPTrunc => 37,
            LLVMOpcode::LLVMFPExt => 38,
            LLVMOpcode::LLVMPtrToInt => 39,
            LLVMOpcode::LLVMIntToPtr => 40,
            LLVMOpcode::LLVMBitCast => 41,
            LLVMOpcode::LLVMAddrSpaceCast => 60,
            LLVMOpcode::LLVMICmp => 42,
            LLVMOpcode::LLVMFCmp => 43,
            LLVMOpcode::LLVMPHI => 44,
            LLVMOpcode::LLVMCall => 45,
            LLVMOpcode::LLVMSelect => 46,
            LLVMOpcode::LLVMUserOp1 => 47,
            LLVMOpcode::LLVMUserOp2 => 48,
            LLVMOpcode::LLVMVAArg => 49,
            LLVMOpcode::LLVMExtractElement => 50,
            LLVMOpcode::LLVMInsertElement => 51,
            LLVMOpcode::LLVMShuffleVector => 52,
            LLVMOpcode::LLVMExtractValue => 53,
            LLVMOpcode::LLVMInsertValue => 54,
            LLVMOpcode::LLVMFreeze => 68,
            LLVMOpcode::LLVMFence => 55,
            LLVMOpcode::LLVMAtomicCmpXchg => 56,
            LLVMOpcode::LLVMAtomicRMW => 57,
            LLVMOpcode::LLVMResume => 58,
            LLVMOpcode::LLVMLandingPad => 59,
            LLVMOpcode::LLVMCleanupRet => 61,
            LLVMOpcode::LLVMCatchRet => 62,
            LLVMOpcode::LLVMCatchPad => 63,
            LLVMOpcode::LLVMCleanupPad => 64,
            LLVMOpcode::LLVMCatchSwitch => 65,
        }
    }

    /// The numeric value this variant has in the native interface.
    pub fn code(self) -> (code: u32)
        ensures
            code == self.spec_code(),
    {
        match self {
            LLVMOpcode::LLVMRet => 1,
            LLVMOpcode::LLVMBr => 2,
            LLVMOpcode::LLVMSwitch => 3,
            LLVMOpcode::LLVMIndirectBr => 4,
            LLVMOpcode::LLVMInvoke => 5,
            LLVMOpcode::LLVMUnreachable => 7,
            LLVMOpcode::LLVMCallBr => 67,
            LLVMOpcode::LLVMFNeg => 66,
            LLVMOpcode::LLVMAdd => 8,
            LLVMOpcode::LLVMFAdd => 9,
            LLVMOpcode::LLVMSub => 10,
            LLVMOpcode::LLVMFSub => 11,
            LLVMOpcode::LLVMMul => 12,
            LLVMOpcode::LLVMFMul => 13,
            LLVMOpcode::LLVMUDiv => 14,
            LLVMOpcode::LLVMSDiv => 15,
            LLVMOpcode::LLVMFDiv => 16,
            LLVMOpcode::LLVMURem => 17,
            LLVMOpcode::LLVMSRem => 18,
            LLVMOpcode::LLVMFRem => 19,
            LLVMOpcode::LLVMShl => 20,
            LLVMOpcode::LLVMLShr => 21,
            LLVMOpcode::LLVMAShr => 22,
            LLVMOpcode::LLVMAnd => 23,
            LLVMOpcode::LLVMOr => 24,
            LLVMOpcode::LLVMXor => 25,
            LLVMOpcode::LLVMAlloca => 26,
            LLVMOpcode::LLVMLoad => 27,
            LLVMOpcode::LLVMStore => 28,
            LLVMOpcode::LLVMGetElementPtr => 29,
            LLVMOpcode::LLVMTrunc => 30,
            LLVMOpcode::LLVMZExt => 31,
            LLVMOpcode::LLVMSExt => 32,
            LLVMOpcode::LLVMFPToUI => 33,
            LLVMOpcode::LLVMFPToSI => 34,
            LLVMOpcode::LLVMUIToFP => 35,
            LLVMOpcode::LLVMSIToFP => 36,
            LLVMOpcode::LLVMFPTrunc => 37,
            LLVMOpcode::LLVMFPExt => 38,
            LLVMOpcode::LLVMPtrToInt => 39,
            LLVMOpcode::LLVMIntToPtr => 40,
            LLVMOpcode::LLVMBitCast => 41,
            LLVMOpcode::LLVMAddrSpaceCast => 60,
            LLVMOpcode::LLVMICmp => 42,
            LLVMOpcode::LLVMFCmp => 43,
            LLVMOpcode::LLVMPHI => 44,
            LLVMOpcode::LLVMCall => 45,
            LLVMOpcode::LLVMSelect => 46,
            LLVMOpcode::LLVMUserOp1 => 47,
            LLVMOpcode::LLVMUserOp2 => 48,
            LLVMOpcode::LLVMVAArg => 49,
            LLVMOpcode::LLVMExtractElement => 50,
            LLVMOpcode::LLVMInsertElement => 51,
            LLVMOpcode::LLVMShuffleVector => 52,
            LLVMOpcode::LLVMExtractValue => 53,
            LLVMOpcode::LLVMInsertValue => 54,
            LLVMOpcode::LLVMFreeze => 68,
            LLVMOpcode::LLVMFence => 55,
            LLVMOpcode::LLVMAtomicCmpXchg => 56,
            LLVMOpcode::LLVMAtomicRMW => 57,
            LLVMOpcode::LLVMResume => 58,
            LLVMOpcode::LLVMLandingPad => 59,
            LLVMOpcode::LLVMCleanupRet => 61,
            LLVMOpcode::LLVMCatchRet => 62,
            LLVMOpcode::LLVMCatchPad => 63,
            LLVMOpcode::LLVMCleanupPad => 64,
            LLVMOpcode::LLVMCatchSwitch => 65,
        }
    }

    /// The variant whose native numeric value is `code`, if the table has one.
    pub fn from_code(code: u32) -> (variant: Option<Self>)
        ensures
            (variant matches Some(v) ==> v.spec_code() == code),
            (variant is None ==> forall|v: LLVMOpcode| v.spec_code() != code),
    {
        match code {
            1 => Some(LLVMOpcode::LLVMRet),
            2 => Some(LLVMOpcode::LLVMBr),
            3 => Some(LLVMOpcode::LLVMSwitch),
            4 => Some(LLVMOpcode::LLVMIndirectBr),
            5 => Some(LLVMOpcode::LLVMInvoke),
            7 => Some(LLVMOpcode::LLVMUnreachable),
            67 => Some(LLVMOpcode::LLVMCallBr),
            66 => Some(LLVMOpcode::LLVMFNeg),
            8 => Some(LLVMOpcode::LLVMAdd),
            9 => Some(LLVMOpcode::LLVMFAdd),
            10 => Some(LLVMOpcode::LLVMSub),
            11 => Some(LLVMOpcode::LLVMFSub),
            12 => Some(LLVMOpcode::LLVMMul),
            13 => Some(LLVMOpcode::LLVMFMul),
            14 => Some(LLVMOpcode::LLVMUDiv),
            15 => Some(LLVMOpcode::LLVMSDiv),
            16 => Some(LLVMOpcode::LLVMFDiv),
            17 => Some(LLVMOpcode::LLVMURem),
            18 => Some(LLVMOpcode::LLVMSRem),
            19 => Some(LLVMOpcode::LLVMFRem),
            20 => Some(LLVMOpcode::LLVMShl),
            21 => Some(LLVMOpcode::LLVMLShr),
            22 => Some(LLVMOpcode::LLVMAShr),
            23 => Some(LLVMOpcode::LLVMAnd),
            24 => Some(LLVMOpcode::LLVMOr),
            25 => Some(LLVMOpcode::LLVMXor),
            26 => Some(LLVMOpcode::LLVMAlloca),
            27 => Some(LLVMOpcode::LLVMLoad),
            28 => Some(LLVMOpcode::LLVMStore),
            29 => Some(LLVMOpcode::LLVMGetElementPtr),
            30 => Some(LLVMOpcode::LLVMTrunc),
            31 => Some(LLVMOpcode::LLVMZExt),
            32 => Some(LLVMOpcode::LLVMSExt),
            33 => Some(LLVMOpcode::LLVMFPToUI),
            34 => Some(LLVMOpcode::LLVMFPToSI),
            35 => Some(LLVMOpcode::LLVMUIToFP),
            36 => Some(LLVMOpcode::LLVMSIToFP),
            37 => Some(LLVMOpcode::LLVMFPTrunc),
            38 => Some(LLVMOpcode::LLVMFPExt),
            39 => Some(LLVMOpcode::LLVMPtrToInt),
            40 => Some(LLVMOpcode::LLVMIntToPtr),
            41 => Some(LLVMOpcode::LLVMBitCast),
            60 => Some(LLVMOpcode::LLVMAddrSpaceCast),
            42 => Some(LLVMOpcode::LLVMICmp),
            43 => Some(LLVMOpcode::LLVMFCmp),
            44 => Some(LLVMOpcode::LLVMPHI),
            45 => Some(LLVMOpcode::LLVMCall),
            46 => Some(LLVMOpcode::LLVMSelect),
            47 => Some(LLVMOpcode::LLVMUserOp1),
            48 => Some(LLVMOpcode::LLVMUserOp2),
            49 => Some(LLVMOpcode::LLVMVAArg),
            50 => Some(LLVMOpcode::LLVMExtractElement),
            51 => Some(LLVMOpcode::LLVMInsertElement),
            52 => Some(LLVMOpcode::LLVMShuffleVector),
            53 => Some(LLVMOpcode::LLVMExtractValue),
            54 => Some(LLVMOpcode::LLVMInsertValue),
            68 => Some(LLVMOpcode::LLVMFreeze),
            55 => Some(LLVMOpcode::LLVMFence),
            56 => Some(LLVMOpcode::LLVMAtomicCmpXchg),
            57 => Some(LLVMOpcode::LLVMAtomicRMW),
            58 => Some(LLVMOpcode::LLVMResume),
            59 => Some(LLVMOpcode::LLVMLandingPad),
            61 => Some(LLVMOpcode::LLVMCleanupRet),
            62 => Some(LLVMOpcode::LLVMCatchRet),
            63 => Some(LLVMOpcode::LLVMCatchPad),
            64 => Some(LLVMOpcode::LLVMCleanupPad),
            65 => Some(LLVMOpcode::LLVMCatchSwitch),
            _ => None,
        }
    }
}

/// See the native interface's `LLVMTypeKind` constant table.
#[derive(Clone, Copy, Debug, PartialEq, Eq, Structural)]
pub enum LLVMTypeKind {
    LLVMVoidTypeKind,
    LLVMHalfTypeKind,
    LLVMFloatTypeKind,
    LLVMDoubleTypeKind,
    LLVMX86_FP80TypeKind,
    LLVMFP128TypeKind,
    LLVMPPC_FP128TypeKind,
    LLVMLabelTypeKind,
    LLVMIntegerTypeKind,
    LLVMFunctionTypeKind,
    LLVMStructTypeKind,
    LLVMArrayTypeKind,
    LLVMPointerTypeKind,
    LLVMVectorTypeKind,
    LLVMMetadataTypeKind,
    LLVMX86_MMXTypeKind,
    LLVMTokenTypeKind,
    LLVMScalableVectorTypeKind,
    LLVMBFloatTypeKind,
    LLVMX86_AMXTypeKind,
}

impl LLVMTypeKind {
    /// The numeric value this variant has in the native interface.
    pub open spec fn spec_code(self) -> u32 {
        match self {
            LLVMTypeKind::LLVMVoidTypeKind => 0,
            LLVMTypeKind::LLVMHalfTypeKind => 1,
            LLVMTypeKind::LLVMFloatTypeKind => 2,
            LLVMTypeKind::LLVMDoubleTypeKind => 3,
            LLVMTypeKind::LLVMX86_FP80TypeKind => 4,
            LLVMTypeKind::LLVMFP128TypeKind => 5,
            LLVMTypeKind::LLVMPPC_FP128TypeKind => 6,
            LLVMTypeKind::LLVMLabelTypeKind => 7,
            LLVMTypeKind::LLVMIntegerTypeKind => 8,
            LLVMTypeKind::LLVMFunctionTypeKind => 9,
            LLVMTypeKind::LLVMStructTypeKind => 10,
            LLVMTypeKind::LLVMArrayTypeKind => 11,
            LLVMTypeKind::LLVMPointerTypeKind => 12,
            LLVMTypeKind::LLVMVectorTypeKind => 13,
            LLVMTypeKind::LLVMMetadataTypeKind => 14,
            LLVMTypeKind::LLVMX86_MMXTypeKind => 15,
            LLVMTypeKind::LLVMTokenTypeKind => 16,
            LLVMTypeKind::LLVMScalableVectorTypeKind => 17,
            LLVMTypeKind::LLVMBFloatTypeKind => 18,
            LLVMTypeKind::LLVMX86_AMXTypeKind => 19,
        }
    }

    /// The numeric value this variant has in the native interface.
    pub fn code(self) -> (code: u32)
        ensures
            code == self.spec_code(),
    {
        match self {
            LLVMTypeKind::LLVMVoidTypeKind => 0,
            LLVMTypeKind::LLVMHalfTypeKind => 1,
            LLVMTypeKind::LLVMFloatTypeKind => 2,
            LLVMTypeKind::LLVMDoubleTypeKind => 3,
            LLVMTypeKind::LLVMX86_FP80TypeKind => 4,
            LLVMTypeKind::LLVMFP128TypeKind => 5,
            LLVMTypeKind::LLVMPPC_FP128TypeKind => 6,
            LLVMTypeKind::LLVMLabelTypeKind => 7,
            LLVMTypeKind::LLVMIntegerTypeKind => 8,
            LLVMTypeKind::LLVMFunctionTypeKind => 9,
            LLVMTypeKind::LLVMStructTypeKind => 10,
            LLVMTypeKind::LLVMArrayTypeKind => 11,
            LLVMTypeKind::LLVMPointerTypeKind => 12,
            LLVMTypeKind::LLVMVectorTypeKind => 13,
            LLVMTypeKind::LLVMMetadataTypeKind => 14,
            LLVMTypeKind::LLVMX86_MMXTypeKind => 15,
            LLVMTypeKind::LLVMTokenTypeKind => 16,
            LLVMTypeKind::LLVMScalableVectorTypeKind => 17,
            LLVMTypeKind::LLVMBFloatTypeKind => 18,
            LLVMTypeKind::LLVMX86_AMXTypeKind => 19,
        }
    }

    /// The variant whose native numeric value is `code`, if the table has one.
    pub fn from_code(code: u32) -> (variant: Option<Self>)
        ensures
            (variant matches Some(v) ==> v.spec_code() == code),
            (variant is None ==> forall|v: LLVMTypeKind| v.spec_code() != code),
    {
        match code {
            0 => Some(LLVMTypeKind::LLVMVoidTypeKind),
            1 => Some(LLVMTypeKind::LLVMHalfTypeKind),
            2 => Some(LLVMTypeKind::LLVMFloatTypeKind),
            3 => Some(LLVMTypeKind::LLVMDoubleTypeKind),
            4 => Some(LLVMTypeKind::LLVMX86_FP80TypeKind),
            5 => Some(LLVMTypeKind::LLVMFP128TypeKind),
            6 => Some(LLVMTypeKind::LLVMPPC_FP128TypeKind),
            7 => Some(LLVMTypeKind::LLVMLabelTypeKind),
            8 => Some(LLVMTypeKind::LLVMIntegerTypeKind),
            9 => Some(LLVMTypeKind::LLVMFunctionTypeKind),
            10 => Some(LLVMTypeKind::LLVMStructTypeKind),
            11 => Some(LLVMTypeKind::LLVMArrayTypeKind),
            12 => Some(LLVMTypeKind::LLVMPointerTypeKind),
            13 => Some(LLVMTypeKind::LLVMVectorTypeKind),
            14 => Some(LLVMTypeKind::LLVMMetadataTypeKind),
            15 => Some(LLVMTypeKind::LLVMX86_MMXTypeKind),
            16 => Some(LLVMTypeKind::LLVMTokenTypeKind),
            17 => Some(LLVMTypeKind::LLVMScalableVectorTypeKind),
            18 => Some(LLVMTypeKind::LLVMBFloatTypeKind),
            19 => Some(LLVMTypeKind::LLVMX86_AMXTypeKind),
            _ => None,
        }
    }
}

/// See the native interface's `LLVMLinkage` constant table.
#[derive(Clone, Copy, Debug, PartialEq, Eq, Structural)]
pub enum LLVMLinkage {
    LLVMExternalLinkage,
    LLVMAvailableExternallyLinkage,
    LLVMLinkOnceAnyLinkage,
    LLVMLinkOnceODRLinkage,
    LLVMLinkOnceODRAutoHideLinkage,
    LLVMWeakAnyLinkage,
    LLVMWeakODRLinkage,
    LLVMAppendingLinkage,
    LLVMInternalLinkage,
    LLVMPrivateLinkage,
    LLVMDLLImportLinkage,
    LLVMDLLExportLinkage,
    LLVMExternalWeakLinkage,
    LLVMGhostLinkage,
    LLVMCommonLinkage,
    LLVMLinkerPrivateLinkage,
    LLVMLinkerPrivateWeakLinkage,
}

impl LLVMLinkage {
    /// The numeric value this variant has in the native interface.
    pub open spec fn spec_code(self) -> u32 {
        match self {
            LLVMLinkage::LLVMExternalLinkage => 0,
            LLVMLinkage::LLVMAvailableExternallyLinkage => 1,
            LLVMLinkage::LLVMLinkOnceAnyLinkage => 2,
            LLVMLinkage::LLVMLinkOnceODRLinkage => 3,
            LLVMLinkage::LLVMLinkOnceODRAutoHideLinkage => 4,
            LLVMLinkage::LLVMWeakAnyLinkage => 5,
            LLVMLinkage::LLVMWeakODRLinkage => 6,
            LLVMLinkage::LLVMAppendingLinkage => 7,
            LLVMLinkage::LLVMInternalLinkage => 8,
            LLVMLinkage::LLVMPrivateLinkage => 9,
            LLVMLinkage::LLVMDLLImportLinkage => 10,
            LLVMLinkage::LLVMDLLExportLinkage => 11,
            LLVMLinkage::LLVMExternalWeakLinkage => 12,
            LLVMLinkage::LLVMGhostLinkage => 13,
            LLVMLinkage::LLVMCommonLinkage => 14,
            LLVMLinkage::LLVMLinkerPrivateLinkage => 15,
            LLVMLinkage::LLVMLinkerPrivateWeakLinkage => 16,
        }
    }

    /// The numeric value this variant has in the native interface.
    pub fn code(self) -> (code: u32)
        ensures
            code == self.spec_code(),
    {
        match self {
            LLVMLinkage::LLVMExternalLinkage => 0,
            LLVMLinkage::LLVMAvailableExternallyLinkage => 1,
            LLVMLinkage::LLVMLinkOnceAnyLinkage => 2,
            LLVMLinkage::LLVMLinkOnceODRLinkage => 3,
            LLVMLinkage::LLVMLinkOnceODRAutoHideLinkage => 4,
            LLVMLinkage::LLVMWeakAnyLinkage => 5,
            LLVMLinkage::LLVMWeakODRLinkage => 6,
            LLVMLinkage::LLVMAppendingLinkage => 7,
            LLVMLinkage::LLVMInternalLinkage => 8,
            LLVMLinkage::LLVMPrivateLinkage => 9,
            LLVMLinkage::LLVMDLLImportLinkage => 10,
            LLVMLinkage::LLVMDLLExportLinkage => 11,
            LLVMLinkage::LLVMExternalWeakLinkage => 12,
            LLVMLinkage::LLVMGhostLinkage => 13,
            LLVMLinkage::LLVMCommonLinkage => 14,
            LLVMLinkage::LLVMLinkerPrivateLinkage => 15,
            LLVMLinkage::LLVMLinkerPrivateWeakLinkage => 16,
        }
    }

    /// The variant whose native numeric value is `code`, if the table has one.
    pub fn from_code(code: u32) -> (variant: Option<Self>)
        ensures
            (variant matches Some(v) ==> v.spec_code() == code),
            (variant is None ==> forall|v: LLVMLinkage| v.spec_code() != code),
    {
        match code {
            0 => Some(LLVMLinkage::LLVMExternalLinkage),
            1 => Some(LLVMLinkage::LLVMAvailableExternallyLinkage),
            2 => Some(LLVMLinkage::LLVMLinkOnceAnyLinkage),
            3 => Some(LLVMLinkage::LLVMLinkOnceODRLinkage),
            4 => Some(LLVMLinkage::LLVMLinkOnceODRAutoHideLinkage),
            5 => Some(LLVMLinkage::LLVMWeakAnyLinkage),
            6 => Some(LLVMLinkage::LLVMWeakODRLinkage),
            7 => Some(LLVMLinkage::LLVMAppendingLinkage),
            8 => Some(LLVMLinkage::LLVMInternalLinkage),
            9 => Some(LLVMLinkage::LLVMPrivateLinkage),
            10 => Some(LLVMLinkage::LLVMDLLImportLinkage),
            11 => Some(LLVMLinkage::LLVMDLLExportLinkage),
            12 => Some(LLVMLinkage::LLVMExternalWeakLinkage),
            13 => Some(LLVMLinkage::LLVMGhostLinkage),
            14 => Some(LLVMLinkage::LLVMCommonLinkage),
            15 => Some(LLVMLinkage::LLVMLinkerPrivateLinkage),
            16 => Some(LLVMLinkage::LLVMLinkerPrivateWeakLinkage),
            _ => None,
        }
    }
}

/// See the native interface's `LLVMVisibility` constant table.
#[derive(Clone, Copy, Debug, PartialEq, Eq, Structural)]
pub enum LLVMVisibility {
    LLVMDefaultVisibility,
    LLVMHiddenVisibility,
    LLVMProtectedVisibility,
}

impl LLVMVisibility {
    /// The numeric value this variant has in the native interface.
    pub open spec fn spec_code(self) -> u32 {
        match self {
            LLVMVisibility::LLVMDefaultVisibility => 0,
            LLVMVisibility::LLVMHiddenVisibility => 1,
            LLVMVisibility::LLVMProtectedVisibility => 2,
        }
    }

    /// The numeric value this variant has in the native interface.
    pub fn code(self) -> (code: u32)
        ensures
            code == self.spec_code(),
    {
        match self {
            LLVMVisibility::LLVMDefaultVisibility => 0,
            LLVMVisibility::LLVMHiddenVisibility => 1,
            LLVMVisibility::LLVMProtectedVisibility => 2,
        }
    }

    /// The variant whose native numeric value is `code`, if the table has one.
    pub fn from_code(code: u32) -> (variant: Option<Self>)
        ensures
            (variant matches Some(v) ==> v.spec_code() == code),
            (variant is None ==> forall|v: LLVMVisibility| v.spec_code() != code),
    {
        match code {
            0 => Some(LLVMVisibility::LLVMDefaultVisibility),
            1 => Some(LLVMVisibility::LLVMHiddenVisibility),
            2 => Some(LLVMVisibility::LLVMProtectedVisibility),
            _ => None,
        }
    }
}

/// See the native interface's `LLVMUnnamedAddr` constant table.
#[derive(Clone, Copy, Debug, PartialEq, Eq, Structural)]
pub enum LLVMUnnamedAddr {
    LLVMNoUnnamedAddr,
    LLVMLocalUnnamedAddr,
    LLVMGlobalUnnamedAddr,
}

impl LLVMUnnamedAddr {
    /// The numeric value this variant has in the native interface.
    pub open spec fn spec_code(self) -> u32 {
        match self {
            LLVMUnnamedAddr::LLVMNoUnnamedAddr => 0,
            LLVMUnnamedAddr::LLVMLocalUnnamedAddr => 1,
            LLVMUnnamedAddr::LLVMGlobalUnnamedAddr => 2,
        }
    }

    /// The numeric value this variant has in the native interface.
    pub fn code(self) -> (code: u32)
        ensures
            code == self.spec_code(),
    {
        match self {
            LLVMUnnamedAddr::LLVMNoUnnamedAddr => 0,
            LLVMUnnamedAddr::LLVMLocalUnnamedAddr => 1,
            LLVMUnnamedAddr::LLVMGlobalUnnamedAddr => 2,
        }
    }

    /// The variant whose native numeric value is `code`, if the table has one.
    pub fn from_code(code: u32) -> (variant: Option<Self>)
        ensures
            (variant matches Some(v) ==> v.spec_code() == code),
            (variant is None ==> forall|v: LLVMUnnamedAddr| v.spec_code() != code),
    {
        match code {
            0 => Some(LLVMUnnamedAddr::LLVMNoUnnamedAddr),
            1 => Some(LLVMUnnamedAddr::LLVMLocalUnnamedAddr),
            2 => Some(LLVMUnnamedAddr::LLVMGlobalUnnamedAddr),
            _ => None,
        }
    }
}

/// See the native interface's `LLVMDLLStorageClass` constant table.
#[derive(Clone, Copy, Debug, PartialEq, Eq, Structural)]
pub enum LLVMDLLStorageClass {
    LLVMDefaultStorageClass,
    LLVMDLLImportStorageClass,
    LLVMDLLExportStorageClass,
}

impl LLVMDLLStorageClass {
    /// The numeric value this variant has in the native interface.
    pub open spec fn spec_code(self) -> u32 {
        match self {
            LLVMDLLStorageClass::LLVMDefaultStorageClass => 0,
            LLVMDLLStorageClass::LLVMDLLImportStorageClass => 1,
            LLVMDLLStorageClass::LLVMDLLExportStorageClass => 2,
        }
    }

    /// The numeric value this variant has in the native interface.
    pub fn code(self) -> (code: u32)
        ensures
            code == self.spec_code(),
    {
        match self {
            LLVMDLLStorageClass::LLVMDefaultStorageClass => 0,
            LLVMDLLStorageClass::LLVMDLLImportStorageClass => 1,
            LLVMDLLStorageClass::LLVMDLLExportStorageClass => 2,
        }
    }

    /// The variant whose native numeric value is `code`, if the table has one.
    pub fn from_code(code: u32) -> (variant: Option<Self>)
        ensures
            (variant matches Some(v) ==> v.spec_code() == code),
            (variant is None ==> forall|v: LLVMDLLStorageClass| v.spec_code() != code),
    {
        match code {
            0 => Some(LLVMDLLStorageClass::LLVMDefaultStorageClass),
            1 => Some(LLVMDLLStorageClass::LLVMDLLImportStorageClass),
            2 => Some(LLVMDLLStorageClass::LLVMDLLExportStorageClass),
            _ => None,
        }
    }
}

/// See the native interface's `LLVMCallConv` constant table.
#[derive(Clone, Copy, Debug, PartialEq, Eq, Structural)]
pub enum LLVMCallConv {
    LLVMCCallConv,
    LLVMFastCallConv,
    LLVMColdCallConv,
    LLVMGHCCallConv,
    LLVMHiPECallConv,
    LLVMWebKitJSCallConv,
    LLVMAnyRegCallConv,
    LLVMPreserveMostCallConv,
    LLVMPreserveAllCallConv,
    LLVMSwiftCallConv,
    LLVMCXXFASTTLSCallConv,
    LLVMX86StdcallCallConv,
    LLVMX86FastcallCallConv,
    LLVMARMAPCSCallConv,
    LLVMARMAAPCSCallConv,
    LLVMARMAAPCSVFPCallConv,
    LLVMMSP430INTRCallConv,
    LLVMX86ThisCallCallConv,
    LLVMPTXKernelCallConv,
    LLVMPTXDeviceCallConv,
    LLVMSPIRFUNCCallConv,
    LLVMSPIRKERNELCallConv,
    LLVMIntelOCLBICallConv,
    LLVMX8664SysVCallConv,
    LLVMWin64CallConv,
    LLVMX86VectorCallCallConv,
    LLVMHHVMCallConv,
    LLVMHHVMCCallConv,
    LLVMX86INTRCallConv,
    LLVMAVRINTRCallConv,
    LLVMAVRSIGNALCallConv,
    LLVMAVRBUILTINCallConv,
    LLVMAMDGPUVSCallConv,
    LLVMAMDGPUGSCallConv,
    LLVMAMDGPUPSCallConv,
    LLVMAMDGPUCSCallConv,
    LLVMAMDGPUKERNELCallConv,
    LLVMX86RegCallCallConv,
    LLVMAMDGPUHSCallConv,
    LLVMMSP430BUILTINCallConv,
    LLVMAMDGPULSCallConv,
    LLVMAMDGPUESCallConv,
}

impl LLVMCallConv {
    /// The numeric value this variant has in the native interface.
    pub open spec fn spec_code(self) -> u32 {
        match self {
            LLVMCallConv::LLVMCCallConv => 0,
            LLVMCallConv::LLVMFastCallConv => 8,
            LLVMCallConv::LLVMColdCallConv => 9,
            LLVMCallConv::LLVMGHCCallConv => 10,
            LLVMCallConv::LLVMHiPECallConv => 11,
            LLVMCallConv::LLVMWebKitJSCallConv => 12,
            LLVMCallConv::LLVMAnyRegCallConv => 13,
            LLVMCallConv::LLVMPreserveMostCallConv => 14,
            LLVMCallConv::LLVMPreserveAllCallConv => 15,
            LLVMCallConv::LLVMSwiftCallConv => 16,
            LLVMCallConv::LLVMCXXFASTTLSCallConv => 17,
            LLVMCallConv::LLVMX86StdcallCallConv => 64,
            LLVMCallConv::LLVMX86FastcallCallConv => 65,
            LLVMCallConv::LLVMARMAPCSCallConv => 66,
            LLVMCallConv::LLVMARMAAPCSCallConv => 67,
            LLVMCallConv::LLVMARMAAPCSVFPCallConv => 68,
            LLVMCallConv::LLVMMSP430INTRCallConv => 69,
            LLVMCallConv::LLVMX86ThisCallCallConv => 70,
            LLVMCallConv::LLVMPTXKernelCallConv => 71,
            LLVMCallConv::LLVMPTXDeviceCallConv => 72,
            LLVMCallConv::LLVMSPIRFUNCCallConv => 75,
            LLVMCallConv::LLVMSPIRKERNELCallConv => 76,
            LLVMCallConv::LLVMIntelOCLBICallConv => 77,
            LLVMCallConv::LLVMX8664SysVCallConv => 78,
            LLVMCallConv::LLVMWin64CallConv => 79,
            LLVMCallConv::LLVMX86VectorCallCallConv => 80,
            LLVMCallConv::LLVMHHVMCallConv => 81,
            LLVMCallConv::LLVMHHVMCCallConv => 82,
            LLVMCallConv::LLVMX86INTRCallConv => 83,
            LLVMCallConv::LLVMAVRINTRCallConv => 84,
            LLVMCallConv::LLVMAVRSIGNALCallConv => 85,
            LLVMCallConv::LLVMAVRBUILTINCallConv => 86,
            LLVMCallConv::LLVMAMDGPUVSCallConv => 87,
            LLVMCallConv::LLVMAMDGPUGSCallConv => 88,
            LLVMCallConv::LLVMAMDGPUPSCallConv => 89,
            LLVMCallConv::LLVMAMDGPUCSCallConv => 90,
            LLVMCallConv::LLVMAMDGPUKERNELCallConv => 91,
            LLVMCallConv::LLVMX86RegCallCallConv => 92,
            LLVMCallConv::LLVMAMDGPUHSCallConv => 93,
            LLVMCallConv::LLVMMSP430BUILTINCallConv => 94,
            LLVMCallConv::LLVMAMDGPULSCallConv => 95,
            LLVMCallConv::LLVMAMDGPUESCallConv => 96,
        }
    }

    /// The numeric value this variant has in the native interface.
    pub fn code(self) -> (code: u32)
        ensures
            code == self.spec_code(),
    {
        match self {
            LLVMCallConv::LLVMCCallConv => 0,
            LLVMCallConv::LLVMFastCallConv => 8,
            LLVMCallConv::LLVMColdCallConv => 9,
            LLVMCallConv::LLVMGHCCallConv => 10,
            LLVMCallConv::LLVMHiPECallConv => 11,
            LLVMCallConv::LLVMWebKitJSCallConv => 12,
            LLVMCallConv::LLVMAnyRegCallConv => 13,
            LLVMCallConv::LLVMPreserveMostCallConv => 14,
            LLVMCallConv::LLVMPreserveAllCallConv => 15,
            LLVMCallConv::LLVMSwiftCallConv => 16,
            LLVMCallConv::LLVMCXXFASTTLSCallConv => 17,
            LLVMCallConv::LLVMX86StdcallCallConv => 64,
            LLVMCallConv::LLVMX86FastcallCallConv => 65,
            LLVMCallConv::LLVMARMAPCSCallConv => 66,
            LLVMCallConv::LLVMARMAAPCSCallConv => 67,
            LLVMCallConv::LLVMARMAAPCSVFPCallConv => 68,
            LLVMCallConv::LLVMMSP430INTRCallConv => 69,
            LLVMCallConv::LLVMX86ThisCallCallConv => 70,
            LLVMCallConv::LLVMPTXKernelCallConv => 71,
            LLVMCallConv::LLVMPTXDeviceCallConv => 72,
            LLVMCallConv::LLVMSPIRFUNCCallConv => 75,
            LLVMCallConv::LLVMSPIRKERNELCallConv => 76,
            LLVMCallConv::LLVMIntelOCLBICallConv => 77,
            LLVMCallConv::LLVMX8664SysVCallConv => 78,
            LLVMCallConv::LLVMWin64CallConv => 79,
            LLVMCallConv::LLVMX86VectorCallCallConv => 80,
            LLVMCallConv::LLVMHHVMCallConv => 81,
            LLVMCallConv::LLVMHHVMCCallConv => 82,
            LLVMCallConv::LLVMX86INTRCallConv => 83,
            LLVMCallConv::LLVMAVRINTRCallConv => 84,
            LLVMCallConv::LLVMAVRSIGNALCallConv => 85,
            LLVMCallConv::LLVMAVRBUILTINCallConv => 86,
            LLVMCallConv::LLVMAMDGPUVSCallConv => 87,
            LLVMCallConv::LLVMAMDGPUGSCallConv => 88,
            LLVMCallConv::LLVMAMDGPUPSCallConv => 89,
            LLVMCallConv::LLVMAMDGPUCSCallConv => 90,
            LLVMCallConv::LLVMAMDGPUKERNELCallConv => 91,
            LLVMCallConv::LLVMX86RegCallCallConv => 92,
            LLVMCallConv::LLVMAMDGPUHSCallConv => 93,
            LLVMCallConv::LLVMMSP430BUILTINCallConv => 94,
            LLVMCallConv::LLVMAMDGPULSCallConv => 95,
            LLVMCallConv::LLVMAMDGPUESCallConv => 96,
        }
    }

    /// The variant whose native numeric value is `code`, if the table has one.
    pub fn from_code(code: u32) -> (variant: Option<Self>)
        ensures
            (variant matches Some(v) ==> v.spec_code() == code),
            (variant is None ==> forall|v: LLVMCallConv| v.spec_code() != code),
    {
        match code {
            0 => Some(LLVMCallConv::LLVMCCallConv),
            8 => Some(LLVMCallConv::LLVMFastCallConv),
            9 => Some(LLVMCallConv::LLVMColdCallConv),
            10 => Some(LLVMCallConv::LLVMGHCCallConv),
            11 => Some(LLVMCallConv::LLVMHiPECallConv),
            12 => Some(LLVMCallConv::LLVMWebKitJSCallConv),
            13 => Some(LLVMCallConv::LLVMAnyRegCallConv),
            14 => Some(LLVMCallConv::LLVMPreserveMostCallConv),
            15 => Some(LLVMCallConv::LLVMPreserveAllCallConv),
            16 => Some(LLVMCallConv::LLVMSwiftCallConv),
            17 => Some(LLVMCallConv::LLVMCXXFASTTLSCallConv),
            64 => Some(LLVMCallConv::LLVMX86StdcallCallConv),
            65 => Some(LLVMCallConv::LLVMX86FastcallCallConv),
            66 => Some(LLVMCallConv::LLVMARMAPCSCallConv),
            67 => Some(LLVMCallConv::LLVMARMAAPCSCallConv),
            68 => Some(LLVMCallConv::LLVMARMAAPCSVFPCallConv),
            69 => Some(LLVMCallConv::LLVMMSP430INTRCallConv),
            70 => Some(LLVMCallConv::LLVMX86ThisCallCallConv),
            71 => Some(LLVMCallConv::LLVMPTXKernelCallConv),
            72 => Some(LLVMCallConv::LLVMPTXDeviceCallConv),
            75 => Some(LLVMCallConv::LLVMSPIRFUNCCallConv),
            76 => Some(LLVMCallConv::LLVMSPIRKERNELCallConv),
            77 => Some(LLVMCallConv::LLVMIntelOCLBICallConv),
            78 => Some(LLVMCallConv::LLVMX8664SysVCallConv),
            79 => Some(LLVMCallConv::LLVMWin64CallConv),
            80 => Some(LLVMCallConv::LLVMX86VectorCallCallConv),
            81 => Some(LLVMCallConv::LLVMHHVMCallConv),
            82 => Some(LLVMCallConv::LLVMHHVMCCallConv),
            83 => Some(LLVMCallConv::LLVMX86INTRCallConv),
            84 => Some(LLVMCallConv::LLVMAVRINTRCallConv),
            85 => Some(LLVMCallConv::LLVMAVRSIGNALCallConv),
            86 => Some(LLVMCallConv::LLVMAVRBUILTINCallConv),
            87 => Some(LLVMCallConv::LLVMAMDGPUVSCallConv),
            88 => Some(LLVMCallConv::LLVMAMDGPUGSCallConv),
            89 => Some(LLVMCallConv::LLVMAMDGPUPSCallConv),
            90 => Some(LLVMCallConv::LLVMAMDGPUCSCallConv),
            91 => Some(LLVMCallConv::LLVMAMDGPUKERNELCallConv),
            92 => Some(LLVMCallConv::LLVMX86RegCallCallConv),
            93 => Some(LLVMCallConv::LLVMAMDGPUHSCallConv),
            94 => Some(LLVMCallConv::LLVMMSP430BUILTINCallConv),
            95 => Some(LLVMCallConv::LLVMAMDGPULSCallConv),
            96 => Some(LLVMCallConv::LLVMAMDGPUESCallConv),
            _ => None,
        }
    }
}

/// See the native interface's `LLVMValueKind` constant table.
#[derive(Clone, Copy, Debug, PartialEq, Eq, Structural)]
pub enum LLVMValueKind {
    LLVMArgumentValueKind,
    LLVMBasicBlockValueKind,
    LLVMMemoryUseValueKind,
    LLVMMemoryDefValueKind,
    LLVMMemoryPhiValueKind,
    LLVMFunctionValueKind,
    LLVMGlobalAliasValueKind,
    LLVMGlobalIFuncValueKind,
    LLVMGlobalVariableValueKind,
    LLVMBlockAddressValueKind,
    LLVMConstantExprValueKind,
    LLVMConstantArrayValueKind,
    LLVMConstantStructValueKind,
    LLVMConstantVectorValueKind,
    LLVMUndefValueValueKind,
    LLVMConstantAggregateZeroValueKind,
    LLVMConstantDataArrayValueKind,
    LLVMConstantDataVectorValueKind,
    LLVMConstantIntValueKind,
    LLVMConstantFPValueKind,
    LLVMConstantPointerNullValueKind,
    LLVMConstantTokenNoneValueKind,
    LLVMMetadataAsValueValueKind,
    LLVMInlineAsmValueKind,
    LLVMInstructionValueKind,
    LLVMPoisonValueKind,
}

impl LLVMValueKind {
    /// The numeric value this variant has in the native interface.
    pub open spec fn spec_code(self) -> u32 {
        match self {
            LLVMValueKind::LLVMArgumentValueKind => 0,
            LLVMValueKind::LLVMBasicBlockValueKind => 1,
            LLVMValueKind::LLVMMemoryUseValueKind => 2,
            LLVMValueKind::LLVMMemoryDefValueKind => 3,
            LLVMValueKind::LLVMMemoryPhiValueKind => 4,
            LLVMValueKind::LLVMFunctionValueKind => 5,
            LLVMValueKind::LLVMGlobalAliasValueKind => 6,
            LLVMValueKind::LLVMGlobalIFuncValueKind => 7,
            LLVMValueKind::LLVMGlobalVariableValueKind => 8,
            LLVMValueKind::LLVMBlockAddressValueKind => 9,
            LLVMValueKind::LLVMConstantExprValueKind => 10,
            LLVMValueKind::LLVMConstantArrayValueKind => 11,
            LLVMValueKind::LLVMConstantStructValueKind => 12,
            LLVMValueKind::LLVMConstantVectorValueKind => 13,
            LLVMValueKind::LLVMUndefValueValueKind => 14,
            LLVMValueKind::LLVMConstantAggregateZeroValueKind => 15,
            LLVMValueKind::LLVMConstantDataArrayValueKind => 16,
            LLVMValueKind::LLVMConstantDataVectorValueKind => 17,
            LLVMValueKind::LLVMConstantIntValueKind => 18,
            LLVMValueKind::LLVMConstantFPValueKind => 19,
            LLVMValueKind::LLVMConstantPointerNullValueKind => 20,
            LLVMValueKind::LLVMConstantTokenNoneValueKind => 21,
            LLVMValueKind::LLVMMetadataAsValueValueKind => 22,
            LLVMValueKind::LLVMInlineAsmValueKind => 23,
            LLVMValueKind::LLVMInstructionValueKind => 24,
            LLVMValueKind::LLVMPoisonValueKind => 25,
        }
    }

    /// The numeric value this variant has in the native interface.
    pub fn code(self) -> (code: u32)
        ensures
            code == self.spec_code(),
    {
        match self {
            LLVMValueKind::LLVMArgumentValueKind => 0,
            LLVMValueKind::LLVMBasicBlockValueKind => 1,
            LLVMValueKind::LLVMMemoryUseValueKind => 2,
            LLVMValueKind::LLVMMemoryDefValueKind => 3,
            LLVMValueKind::LLVMMemoryPhiValueKind => 4,
            LLVMValueKind::LLVMFunctionValueKind => 5,
            LLVMValueKind::LLVMGlobalAliasValueKind => 6,
            LLVMValueKind::LLVMGlobalIFuncValueKind => 7,
            LLVMValueKind::LLVMGlobalVariableValueKind => 8,
            LLVMValueKind::LLVMBlockAddressValueKind => 9,
            LLVMValueKind::LLVMConstantExprValueKind => 10,
            LLVMValueKind::LLVMConstantArrayValueKind => 11,
            LLVMValueKind::LLVMConstantStructValueKind => 12,
            LLVMValueKind::LLVMConstantVectorValueKind => 13,
            LLVMValueKind::LLVMUndefValueValueKind => 14,
            LLVMValueKind::LLVMConstantAggregateZeroValueKind => 15,
            LLVMValueKind::LLVMConstantDataArrayValueKind => 16,
            LLVMValueKind::LLVMConstantDataVectorValueKind => 17,
            LLVMValueKind::LLVMConstantIntValueKind => 18,
            LLVMValueKind::LLVMConstantFPValueKind => 19,
            LLVMValueKind::LLVMConstantPointerNullValueKind => 20,
            LLVMValueKind::LLVMConstantTokenNoneValueKind => 21,
            LLVMValueKind::LLVMMetadataAsValueValueKind => 22,
            LLVMValueKind::LLVMInlineAsmValueKind => 23,
            LLVMValueKind::LLVMInstructionValueKind => 24,
            LLVMValueKind::LLVMPoisonValueKind => 25,
        }
    }

    /// The variant whose native numeric value is `code`, if the table has one.
    pub fn from_code(code: u32) -> (variant: Option<Self>)
        ensures
            (variant matches Some(v) ==> v.spec_code() == code),
            (variant is None ==> forall|v: LLVMValueKind| v.spec_code() != code),
    {
        match code {
            0 => Some(LLVMValueKind::LLVMArgumentValueKind),
            1 => Some(LLVMValueKind::LLVMBasicBlockValueKind),
            2 => Some(LLVMValueKind::LLVMMemoryUseValueKind),
            3 => Some(LLVMValueKind::LLVMMemoryDefValueKind),
            4 => Some(LLVMValueKind::LLVMMemoryPhiValueKind),
            5 => Some(LLVMValueKind::LLVMFunctionValueKind),
            6 => Some(LLVMValueKind::LLVMGlobalAliasValueKind),
            7 => Some(LLVMValueKind::LLVMGlobalIFuncValueKind),
            8 => Some(LLVMValueKind::LLVMGlobalVariableValueKind),
            9 => Some(LLVMValueKind::LLVMBlockAddressValueKind),
            10 => Some(LLVMValueKind::LLVMConstantExprValueKind),
            11 => Some(LLVMValueKind::LLVMConstantArrayValueKind),
            12 => Some(LLVMValueKind::LLVMConstantStructValueKind),
            13 => Some(LLVMValueKind::LLVMConstantVectorValueKind),
            14 => Some(LLVMValueKind::LLVMUndefValueValueKind),
            15 => Some(LLVMValueKind::LLVMConstantAggregateZeroValueKind),
            16 => Some(LLVMValueKind::LLVMConstantDataArrayValueKind),
            17 => Some(LLVMValueKind::LLVMConstantDataVectorValueKind),
            18 => Some(LLVMValueKind::LLVMConstantIntValueKind),
            19 => Some(LLVMValueKind::LLVMConstantFPValueKind),
            20 => Some(LLVMValueKind::LLVMConstantPointerNullValueKind),
            21 => Some(LLVMValueKind::LLVMConstantTokenNoneValueKind),
            22 => Some(LLVMValueKind::LLVMMetadataAsValueValueKind),
            23 => Some(LLVMValueKind::LLVMInlineAsmValueKind),
            24 => Some(LLVMValueKind::LLVMInstructionValueKind),
            25 => Some(LLVMValueKind::LLVMPoisonValueKind),
            _ => None,
        }
    }
}

/// See the native interface's `LLVMIntPredicate` constant table.
#[derive(Clone, Copy, Debug, PartialEq, Eq, Structural)]
pub enum LLVMIntPredicate {
    LLVMIntEQ,
    LLVMIntNE,
    LLVMIntUGT,
    LLVMIntUGE,
    LLVMIntULT,
    LLVMIntULE,
    LLVMIntSGT,
    LLVMIntSGE,
    LLVMIntSLT,
    LLVMIntSLE,
}

impl LLVMIntPredicate {
    /// The numeric value this variant has in the native interface.
    pub open spec fn spec_code(self) -> u32 {
        match self {
            LLVMIntPredicate::LLVMIntEQ => 32,
            LLVMIntPredicate::LLVMIntNE => 33,
            LLVMIntPredicate::LLVMIntUGT => 34,
            LLVMIntPredicate::LLVMIntUGE => 35,
            LLVMIntPredicate::LLVMIntULT => 36,
            LLVMIntPredicate::LLVMIntULE => 37,
            LLVMIntPredicate::LLVMIntSGT => 38,
            LLVMIntPredicate::LLVMIntSGE => 39,
            LLVMIntPredicate::LLVMIntSLT => 40,
            LLVMIntPredicate::LLVMIntSLE => 41,
        }
    }

    /// The numeric value this variant has in the native interface.
    pub fn code(self) -> (code: u32)
        ensures
            code == self.spec_code(),
    {
        match self {
            LLVMIntPredicate::LLVMIntEQ => 32,
            LLVMIntPredicate::LLVMIntNE => 33,
            LLVMIntPredicate::LLVMIntUGT => 34,
            LLVMIntPredicate::LLVMIntUGE => 35,
            LLVMIntPredicate::LLVMIntULT => 36,
            LLVMIntPredicate::LLVMIntULE => 37,
            LLVMIntPredicate::LLVMIntSGT => 38,
            LLVMIntPredicate::LLVMIntSGE => 39,
            LLVMIntPredicate::LLVMIntSLT => 40,
            LLVMIntPredicate::LLVMIntSLE => 41,
        }
    }

    /// The variant whose native numeric value is `code`, if the table has one.
    pub fn from_code(code: u32) -> (variant: Option<Self>)
        ensures
            (variant matches Some(v) ==> v.spec_code() == code),
            (variant is None ==> forall|v: LLVMIntPredicate| v.spec_code() != code),
    {
        match code {
            32 => Some(LLVMIntPredicate::LLVMIntEQ),
            33 => Some(LLVMIntPredicate::LLVMIntNE),
            34 => Some(LLVMIntPredicate::LLVMIntUGT),
            35 => Some(LLVMIntPredicate::LLVMIntUGE),
            36 => Some(LLVMIntPredicate::LLVMIntULT),
            37 => Some(LLVMIntPredicate::LLVMIntULE),
            38 => Some(LLVMIntPredicate::LLVMIntSGT),
            39 => Some(LLVMIntPredicate::LLVMIntSGE),
            40 => Some(LLVMIntPredicate::LLVMIntSLT),
            41 => Some(LLVMIntPredicate::LLVMIntSLE),
            _ => None,
        }
    }
}

/// See the native interface's `LLVMRealPredicate` constant table.
#[derive(Clone, Copy, Debug, PartialEq, Eq, Structural)]
pub enum LLVMRealPredicate {
    LLVMRealPredicateFalse,
    LLVMRealOEQ,
    LLVMRealOGT,
    LLVMRealOGE,
    LLVMRealOLT,
    LLVMRealOLE,
    LLVMRealONE,
    LLVMRealORD,
    LLVMRealUNO,
    LLVMRealUEQ,
    LLVMRealUGT,
    LLVMRealUGE,
    LLVMRealULT,
    LLVMRealULE,
    LLVMRealUNE,
    LLVMRealPredicateTrue,
}

impl LLVMRealPredicate {
    /// The numeric value this variant has in the native interface.
    pub open spec fn spec_code(self) -> u32 {
        match self {
            LLVMRealPredicate::LLVMRealPredicateFalse => 0,
            LLVMRealPredicate::LLVMRealOEQ => 1,
            LLVMRealPredicate::LLVMRealOGT => 2,
            LLVMRealPredicate::LLVMRealOGE => 3,
            LLVMRealPredicate::LLVMRealOLT => 4,
            LLVMRealPredicate::LLVMRealOLE => 5,
            LLVMRealPredicate::LLVMRealONE => 6,
            LLVMRealPredicate::LLVMRealORD => 7,
            LLVMRealPredicate::LLVMRealUNO => 8,
            LLVMRealPredicate::LLVMRealUEQ => 9,
            LLVMRealPredicate::LLVMRealUGT => 10,
            LLVMRealPredicate::LLVMRealUGE => 11,
            LLVMRealPredicate::LLVMRealULT => 12,
            LLVMRealPredicate::LLVMRealULE => 13,
            LLVMRealPredicate::LLVMRealUNE => 14,
            LLVMRealPredicate::LLVMRealPredicateTrue => 15,
        }
    }

    /// The numeric value this variant has in the native interface.
    pub fn code(self) -> (code: u32)
        ensures
            code == self.spec_code(),
    {
        match self {
            LLVMRealPredicate::LLVMRealPredicateFalse => 0,
            LLVMRealPredicate::LLVMRealOEQ => 1,
            LLVMRealPredicate::LLVMRealOGT => 2,
            LLVMRealPredicate::LLVMRealOGE => 3,
            LLVMRealPredicate::LLVMRealOLT => 4,
            LLVMRealPredicate::LLVMRealOLE => 5,
            LLVMRealPredicate::LLVMRealONE => 6,
            LLVMRealPredicate::LLVMRealORD => 7,
            LLVMRealPredicate::LLVMRealUNO => 8,
            LLVMRealPredicate::LLVMRealUEQ => 9,
            LLVMRealPredicate::LLVMRealUGT => 10,
            LLVMRealPredicate::LLVMRealUGE => 11,
            LLVMRealPredicate::LLVMRealULT => 12,
            LLVMRealPredicate::LLVMRealULE => 13,
            LLVMRealPredicate::LLVMRealUNE => 14,
            LLVMRealPredicate::LLVMRealPredicateTrue => 15,
        }
    }

    /// The variant whose native numeric value is `code`, if the table has one.
    pub fn from_code(code: u32) -> (variant: Option<Self>)
        ensures
            (variant matches Some(v) ==> v.spec_code() == code),
            (variant is None ==> forall|v: LLVMRealPredicate| v.spec_code() != code),
    {
        match code {
            0 => Some(LLVMRealPredicate::LLVMRealPredicateFalse),
            1 => Some(LLVMRealPredicate::LLVMRealOEQ),
            2 => Some(LLVMRealPredicate::LLVMRealOGT),
            3 => Some(LLVMRealPredicate::LLVMRealOGE),
            4 => Some(LLVMRealPredicate::LLVMRealOLT),
            5 => Some(LLVMRealPredicate::LLVMRealOLE),
            6 => Some(LLVMRealPredicate::LLVMRealONE),
            7 => Some(LLVMRealPredicate::LLVMRealORD),
            8 => Some(LLVMRealPredicate::LLVMRealUNO),
            9 => Some(LLVMRealPredicate::LLVMRealUEQ),
            10 => Some(LLVMRealPredicate::LLVMRealUGT),
            11 => Some(LLVMRealPredicate::LLVMRealUGE),
            12 => Some(LLVMRealPredicate::LLVMRealULT),
            13 => Some(LLVMRealPredicate::LLVMRealULE),
            14 => Some(LLVMRealPredicate::LLVMRealUNE),
            15 => Some(LLVMRealPredicate::LLVMRealPredicateTrue),
            _ => None,
        }
    }
}

/// See the native interface's `LLVMLandingPadClauseTy` constant table.
#[derive(Clone, Copy, Debug, PartialEq, Eq, Structural)]
pub enum LLVMLandingPadClauseTy {
    LLVMLandingPadCatch,
    LLVMLandingPadFilter,
}

impl LLVMLandingPadClauseTy {
    /// The numeric value this variant has in the native interface.
    pub open spec fn spec_code(self) -> u32 {
        match self {
            LLVMLandingPadClauseTy::LLVMLandingPadCatch => 0,
            LLVMLandingPadClauseTy::LLVMLandingPadFilter => 1,
        }
    }

    /// The numeric value this variant has in the native interface.
    pub fn code(self) -> (code: u32)
        ensures
            code == self.spec_code(),
    {
        match self {
            LLVMLandingPadClauseTy::LLVMLandingPadCatch => 0,
            LLVMLandingPadClauseTy::LLVMLandingPadFilter => 1,
        }
    }

    /// The variant whose native numeric value is `code`, if the table has one.
    pub fn from_code(code: u32) -> (variant: Option<Self>)
        ensures
            (variant matches Some(v) ==> v.spec_code() == code),
            (variant is None ==> forall|v: LLVMLandingPadClauseTy| v.spec_code() != code),
    {
        match code {
            0 => Some(LLVMLandingPadClauseTy::LLVMLandingPadCatch),
            1 => Some(LLVMLandingPadClauseTy::LLVMLandingPadFilter),
            _ => None,
        }
    }
}

/// See the native interface's `LLVMThreadLocalMode` constant table.
#[derive(Clone, Copy, Debug, PartialEq, Eq, Structural)]
pub enum LLVMThreadLocalMode {
    LLVMNotThreadLocal,
    LLVMGeneralDynamicTLSModel,
    LLVMLocalDynamicTLSModel,
    LLVMInitialExecTLSModel,
    LLVMLocalExecTLSModel,
}

impl LLVMThreadLocalMode {
    /// The numeric value this variant has in the native interface.
    pub open spec fn spec_code(self) -> u32 {
        match self {
            LLVMThreadLocalMode::LLVMNotThreadLocal => 0,
            LLVMThreadLocalMode::LLVMGeneralDynamicTLSModel => 1,
            LLVMThreadLocalMode::LLVMLocalDynamicTLSModel => 2,
            LLVMThreadLocalMode::LLVMInitialExecTLSModel => 3,
            LLVMThreadLocalMode::LLVMLocalExecTLSModel => 4,
        }
    }

    /// The numeric value this variant has in the native interface.
    pub fn code(self) -> (code: u32)
        ensures
            code == self.spec_code(),
    {
        match self {
            LLVMThreadLocalMode::LLVMNotThreadLocal => 0,
            LLVMThreadLocalMode::LLVMGeneralDynamicTLSModel => 1,
            LLVMThreadLocalMode::LLVMLocalDynamicTLSModel => 2,
            LLVMThreadLocalMode::LLVMInitialExecTLSModel => 3,
            LLVMThreadLocalMode::LLVMLocalExecTLSModel => 4,
        }
    }

    /// The variant whose native numeric value is `code`, if the table has one.
    pub fn from_code(code: u32) -> (variant: Option<Self>)
        ensures
            (variant matches Some(v) ==> v.spec_code() == code),
            (variant is None ==> forall|v: LLVMThreadLocalMode| v.spec_code() != code),
    {
        match code {
            0 => Some(LLVMThreadLocalMode::LLVMNotThreadLocal),
            1 => Some(LLVMThreadLocalMode::LLVMGeneralDynamicTLSModel),
            2 => Some(LLVMThreadLocalMode::LLVMLocalDynamicTLSModel),
            3 => Some(LLVMThreadLocalMode::LLVMInitialExecTLSModel),
            4 => Some(LLVMThreadLocalMode::LLVMLocalExecTLSModel),
            _ => None,
        }
    }
}

/// See the native interface's `LLVMAtomicOrdering` constant table.
#[derive(Clone, Copy, Debug, PartialEq, Eq, Structural)]
pub enum LLVMAtomicOrdering {
    LLVMAtomicOrderingNotAtomic,
    LLVMAtomicOrderingUnordered,
    LLVMAtomicOrderingMonotonic,
    LLVMAtomicOrderingAcquire,
    LLVMAtomicOrderingRelease,
    LLVMAtomicOrderingAcquireRelease,
    LLVMAtomicOrderingSequentiallyConsistent,
}

impl LLVMAtomicOrdering {
    /// The numeric value this variant has in the native interface.
    pub open spec fn spec_code(self) -> u32 {
        match self {
            LLVMAtomicOrdering::LLVMAtomicOrderingNotAtomic => 0,
            LLVMAtomicOrdering::LLVMAtomicOrderingUnordered => 1,
            LLVMAtomicOrdering::LLVMAtomicOrderingMonotonic => 2,
            LLVMAtomicOrdering::LLVMAtomicOrderingAcquire => 4,
            LLVMAtomicOrdering::LLVMAtomicOrderingRelease => 5,
            LLVMAtomicOrdering::LLVMAtomicOrderingAcquireRelease => 6,
            LLVMAtomicOrdering::LLVMAtomicOrderingSequentiallyConsistent => 7,
        }
    }

    /// The numeric value this variant has in the native interface.
    pub fn code(self) -> (code: u32)
        ensures
            code == self.spec_code(),
    {
        match self {
            LLVMAtomicOrdering::LLVMAtomicOrderingNotAtomic => 0,
            LLVMAtomicOrdering::LLVMAtomicOrderingUnordered => 1,
            LLVMAtomicOrdering::LLVMAtomicOrderingMonotonic => 2,
            LLVMAtomicOrdering::LLVMAtomicOrderingAcquire => 4,
            LLVMAtomicOrdering::LLVMAtomicOrderingRelease => 5,
            LLVMAtomicOrdering::LLVMAtomicOrderingAcquireRelease => 6,
            LLVMAtomicOrdering::LLVMAtomicOrderingSequentiallyConsistent => 7,
        }
    }

    /// The variant whose native numeric value is `code`, if the table has one.
    pub fn from_code(code: u32) -> (variant: Option<Self>)
        ensures
            (variant matches Some(v) ==> v.spec_code() == code),
            (variant is None ==> forall|v: LLVMAtomicOrdering| v.spec_code() != code),
    {
        match code {
            0 => Some(LLVMAtomicOrdering::LLVMAtomicOrderingNotAtomic),
            1 => Some(LLVMAtomicOrdering::LLVMAtomicOrderingUnordered),
            2 => Some(LLVMAtomicOrdering::LLVMAtomicOrderingMonotonic),
            4 => Some(LLVMAtomicOrdering::LLVMAtomicOrderingAcquire),
            5 => Some(LLVMAtomicOrdering::LLVMAtomicOrderingRelease),
            6 => Some(LLVMAtomicOrdering::LLVMAtomicOrderingAcquireRelease),
            7 => Some(LLVMAtomicOrdering::LLVMAtomicOrderingSequentiallyConsistent),
            _ => None,
        }
    }
}

/// See the native interface's `LLVMAtomicRMWBinOp` constant table.
#[derive(Clone, Copy, Debug, PartialEq, Eq, Structural)]
pub enum LLVMAtomicRMWBinOp {
    LLVMAtomicRMWBinOpXchg,
    LLVMAtomicRMWBinOpAdd,
    LLVMAtomicRMWBinOpSub,
    LLVMAtomicRMWBinOpAnd,
    LLVMAtomicRMWBinOpNand,
    LLVMAtomicRMWBinOpOr,
    LLVMAtomicRMWBinOpXor,
    LLVMAtomicRMWBinOpMax,
    LLVMAtomicRMWBinOpMin,
    LLVMAtomicRMWBinOpUMax,
    LLVMAtomicRMWBinOpUMin,
    LLVMAtomicRMWBinOpFAdd,
    LLVMAtomicRMWBinOpFSub,
    LLVMAtomicRMWBinOpFMax,
    LLVMAtomicRMWBinOpFMin,
}

impl LLVMAtomicRMWBinOp {
    /// The numeric value this variant has in the native interface.
    pub open spec fn spec_code(self) -> u32 {
        match self {
            LLVMAtomicRMWBinOp::LLVMAtomicRMWBinOpXchg => 0,
            LLVMAtomicRMWBinOp::LLVMAtomicRMWBinOpAdd => 1,
            LLVMAtomicRMWBinOp::LLVMAtomicRMWBinOpSub => 2,
            LLVMAtomicRMWBinOp::LLVMAtomicRMWBinOpAnd => 3,
            LLVMAtomicRMWBinOp::LLVMAtomicRMWBinOpNand => 4,
            LLVMAtomicRMWBinOp::LLVMAtomicRMWBinOpOr => 5,
            LLVMAtomicRMWBinOp::LLVMAtomicRMWBinOpXor => 6,
            LLVMAtomicRMWBinOp::LLVMAtomicRMWBinOpMax => 7,
            LLVMAtomicRMWBinOp::LLVMAtomicRMWBinOpMin => 8,
            LLVMAtomicRMWBinOp::LLVMAtomicRMWBinOpUMax => 9,
            LLVMAtomicRMWBinOp::LLVMAtomicRMWBinOpUMin => 10,
            LLVMAtomicRMWBinOp::LLVMAtomicRMWBinOpFAdd => 11,
            LLVMAtomicRMWBinOp::LLVMAtomicRMWBinOpFSub => 12,
            LLVMAtomicRMWBinOp::LLVMAtomicRMWBinOpFMax => 13,
            LLVMAtomicRMWBinOp::LLVMAtomicRMWBinOpFMin => 14,
        }
    }

    /// The numeric value this variant has in the native interface.
    pub fn code(self) -> (code: u32)
        ensures
            code == self.spec_code(),
    {
        match self {
            LLVMAtomicRMWBinOp::LLVMAtomicRMWBinOpXchg => 0,
            LLVMAtomicRMWBinOp::LLVMAtomicRMWBinOpAdd => 1,
            LLVMAtomicRMWBinOp::LLVMAtomicRMWBinOpSub => 2,
            LLVMAtomicRMWBinOp::LLVMAtomicRMWBinOpAnd => 3,
            LLVMAtomicRMWBinOp::LLVMAtomicRMWBinOpNand => 4,
            LLVMAtomicRMWBinOp::LLVMAtomicRMWBinOpOr => 5,
            LLVMAtomicRMWBinOp::LLVMAtomicRMWBinOpXor => 6,
            LLVMAtomicRMWBinOp::LLVMAtomicRMWBinOpMax => 7,
            LLVMAtomicRMWBinOp::LLVMAtomicRMWBinOpMin => 8,
            LLVMAtomicRMWBinOp::LLVMAtomicRMWBinOpUMax => 9,
            LLVMAtomicRMWBinOp::LLVMAtomicRMWBinOpUMin => 10,
            LLVMAtomicRMWBinOp::LLVMAtomicRMWBinOpFAdd => 11,
            LLVMAtomicRMWBinOp::LLVMAtomicRMWBinOpFSub => 12,
            LLVMAtomicRMWBinOp::LLVMAtomicRMWBinOpFMax => 13,
            LLVMAtomicRMWBinOp::LLVMAtomicRMWBinOpFMin => 14,
        }
    }

    /// The variant whose native numeric value is `code`, if the table has one.
    pub fn from_code(code: u32) -> (variant: Option<Self>)
        ensures
            (variant matches Some(v) ==> v.spec_code() == code),
            (variant is None ==> forall|v: LLVMAtomicRMWBinOp| v.spec_code() != code),
    {
        match code {
            0 => Some(LLVMAtomicRMWBinOp::LLVMAtomicRMWBinOpXchg),
            1 => Some(LLVMAtomicRMWBinOp::LLVMAtomicRMWBinOpAdd),
            2 => Some(LLVMAtomicRMWBinOp::LLVMAtomicRMWBinOpSub),
            3 => Some(LLVMAtomicRMWBinOp::LLVMAtomicRMWBinOpAnd),
            4 => Some(LLVMAtomicRMWBinOp::LLVMAtomicRMWBinOpNand),
            5 => Some(LLVMAtomicRMWBinOp::LLVMAtomicRMWBinOpOr),
            6 => Some(LLVMAtomicRMWBinOp::LLVMAtomicRMWBinOpXor),
            7 => Some(LLVMAtomicRMWBinOp::LLVMAtomicRMWBinOpMax),
            8 => Some(LLVMAtomicRMWBinOp::LLVMAtomicRMWBinOpMin),
            9 => Some(LLVMAtomicRMWBinOp::LLVMAtomicRMWBinOpUMax),
            10 => Some(LLVMAtomicRMWBinOp::LLVMAtomicRMWBinOpUMin),
            11 => Some(LLVMAtomicRMWBinOp::LLVMAtomicRMWBinOpFAdd),
            12 => Some(LLVMAtomicRMWBinOp::LLVMAtomicRMWBinOpFSub),
            13 => Some(LLVMAtomicRMWBinOp::LLVMAtomicRMWBinOpFMax),
            14 => Some(LLVMAtomicRMWBinOp::LLVMAtomicRMWBinOpFMin),
            _ => None,
        }
    }
}

/// See the native interface's `LLVMDiagnosticSeverity` constant table.
#[derive(Clone, Copy, Debug, PartialEq, Eq, Structural)]
pub enum LLVMDiagnosticSeverity {
    LLVMDSError,
    LLVMDSWarning,
    LLVMDSRemark,
    LLVMDSNote,
}

impl LLVMDiagnosticSeverity {
    /// The numeric value this variant has in the native interface.
    pub open spec fn spec_code(self) -> u32 {
        match self {
            LLVMDiagnosticSeverity::LLVMDSError => 0,
            LLVMDiagnosticSeverity::LLVMDSWarning => 1,
            LLVMDiagnosticSeverity::LLVMDSRemark => 2,
            LLVMDiagnosticSeverity::LLVMDSNote => 3,
        }
    }

    /// The numeric value this variant has in the native interface.
    pub fn code(self) -> (code: u32)
        ensures
            code == self.spec_code(),
    {
        match self {
            LLVMDiagnosticSeverity::LLVMDSError => 0,
            LLVMDiagnosticSeverity::LLVMDSWarning => 1,
            LLVMDiagnosticSeverity::LLVMDSRemark => 2,
            LLVMDiagnosticSeverity::LLVMDSNote => 3,
        }
    }

    /// The variant whose native numeric value is `code`, if the table has one.
    pub fn from_code(code: u32) -> (variant: Option<Self>)
        ensures
            (variant matches Some(v) ==> v.spec_code() == code),
            (variant is None ==> forall|v: LLVMDiagnosticSeverity| v.spec_code() != code),
    {
        match code {
            0 => Some(LLVMDiagnosticSeverity::LLVMDSError),
            1 => Some(LLVMDiagnosticSeverity::LLVMDSWarning),
            2 => Some(LLVMDiagnosticSeverity::LLVMDSRemark),
            3 => Some(LLVMDiagnosticSeverity::LLVMDSNote),
            _ => None,
        }
    }
}

/// See the native interface's `LLVMInlineAsmDialect` constant table.
#[derive(Clone, Copy, Debug, PartialEq, Eq, Structural)]
pub enum LLVMInlineAsmDialect {
    LLVMInlineAsmDialectATT,
    LLVMInlineAsmDialectIntel,
}

impl LLVMInlineAsmDialect {
    /// The numeric value this variant has in the native interface.
    pub open spec fn spec_code(self) -> u32 {
        match self {
            LLVMInlineAsmDialect::LLVMInlineAsmDialectATT => 0,
            LLVMInlineAsmDialect::LLVMInlineAsmDialectIntel => 1,
        }
    }

    /// The numeric value this variant has in the native interface.
    pub fn code(self) -> (code: u32)
        ensures
            code == self.spec_code(),
    {
        match self {
            LLVMInlineAsmDialect::LLVMInlineAsmDialectATT => 0,
            LLVMInlineAsmDialect::LLVMInlineAsmDialectIntel => 1,
        }
    }

    /// The variant whose native numeric value is `code`, if the table has one.
    pub fn from_code(code: u32) -> (variant: Option<Self>)
        ensures
            (variant matches Some(v) ==> v.spec_code() == code),
            (variant is None ==> forall|v: LLVMInlineAsmDialect| v.spec_code() != code),
    {
        match code {
            0 => Some(LLVMInlineAsmDialect::LLVMInlineAsmDialectATT),
            1 => Some(LLVMInlineAsmDialect::LLVMInlineAsmDialectIntel),
            _ => None,
        }
    }
}

/// See the native interface's `LLVMModuleFlagBehavior` constant table.
#[derive(Clone, Copy, Debug, PartialEq, Eq, Structural)]
pub enum LLVMModuleFlagBehavior {
    LLVMModuleFlagBehaviorError,
    LLVMModuleFlagBehaviorWarning,
    LLVMModuleFlagBehaviorRequire,
    LLVMModuleFlagBehaviorOverride,
    LLVMModuleFlagBehaviorAppend,
    LLVMModuleFlagBehaviorAppendUnique,
}

impl LLVMModuleFlagBehavior {
    /// The numeric value this variant has in the native interface.
    pub open spec fn spec_code(self) -> u32 {
        match self {
            LLVMModuleFlagBehavior::LLVMModuleFlagBehaviorError => 0,
            LLVMModuleFlagBehavior::LLVMModuleFlagBehaviorWarning => 1,
            LLVMModuleFlagBehavior::LLVMModuleFlagBehaviorRequire => 2,
            LLVMModuleFlagBehavior::LLVMModuleFlagBehaviorOverride => 3,
            LLVMModuleFlagBehavior::LLVMModuleFlagBehaviorAppend => 4,
            LLVMModuleFlagBehavior::LLVMModuleFlagBehaviorAppendUnique => 5,
        }
    }

    /// The numeric value this variant has in the native interface.
    pub fn code(self) -> (code: u32)
        ensures
            code == self.spec_code(),
    {
        match self {
            LLVMModuleFlagBehavior::LLVMModuleFlagBehaviorError => 0,
            LLVMModuleFlagBehavior::LLVMModuleFlagBehaviorWarning => 1,
            LLVMModuleFlagBehavior::LLVMModuleFlagBehaviorRequire => 2,
            LLVMModuleFlagBehavior::LLVMModuleFlagBehaviorOverride => 3,
            LLVMModuleFlagBehavior::LLVMModuleFlagBehaviorAppend => 4,
            LLVMModuleFlagBehavior::LLVMModuleFlagBehaviorAppendUnique => 5,
        }
    }

    /// The variant whose native numeric value is `code`, if the table has one.
    pub fn from_code(code: u32) -> (variant: Option<Self>)
        ensures
            (variant matches Some(v) ==> v.spec_code() == code),
            (variant is None ==> forall|v: LLVMModuleFlagBehavior| v.spec_code() != code),
    {
        match code {
            0 => Some(LLVMModuleFlagBehavior::LLVMModuleFlagBehaviorError),
            1 => Some(LLVMModuleFlagBehavior::LLVMModuleFlagBehaviorWarning),
            2 => Some(LLVMModuleFlagBehavior::LLVMModuleFlagBehaviorRequire),
            3 => Some(LLVMModuleFlagBehavior::LLVMModuleFlagBehaviorOverride),
            4 => Some(LLVMModuleFlagBehavior::LLVMModuleFlagBehaviorAppend),
            5 => Some(LLVMModuleFlagBehavior::LLVMModuleFlagBehaviorAppendUnique),
            _ => None,
        }
    }
}

} // verus!
