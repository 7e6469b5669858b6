use llvmlite::ContextKind;
use llvmlite::LLVMLite;
use llvmlite::LLVMMethods;
use llvmlite::LoadError;
use llvmlite::LookupOutcome;
use llvmlite::ReleaseAction;
use llvmlite::ENTRY_POINT_COUNT;
use llvmlite::IDX_CONTEXT_CREATE;
use llvmlite::IDX_CONTEXT_DISPOSE;
use llvmlite::IDX_CREATE_BYTE_STRING;
use llvmlite::IDX_CREATE_STRING;
use llvmlite::IDX_DISPOSE_STRING;
use llvmlite::IDX_GET_GLOBAL_CONTEXT;

/// A stand-in for a loaded library image: entry point `i` resolves to the
/// handle `BASE + i`, except for the names listed as absent.
const BASE: usize = 0x1000;

fn image_without(absent: &[&str]) -> (Vec<&'static str>, Vec<LookupOutcome>) {
    let names = llvmlite::required_entry_point_names();
    let outcomes = names
        .iter()
        .enumerate()
        .map(|(i, name)| {
            if absent.contains(name) {
                LookupOutcome::Missing(format!("undefined symbol: {name}"))
            } else {
                LookupOutcome::Found(BASE + i)
            }
        })
        .collect();
    (names, outcomes)
}

fn full_facade() -> LLVMLite {
    let (names, outcomes) = image_without(&[]);
    let methods = LLVMMethods::load(&names, &outcomes).expect("full image must resolve");
    LLVMLite::new(methods)
}

#[test]
pub fn test_works() -> anyhow::Result<()> {
    let lite = full_facade();

    let mut ctx = lite.create_context(0x4242);

    let action = ctx.release();
    assert!(action.is_some());

    Ok(())
}

#[test]
fn full_entry_point_set_resolves() {
    let (names, outcomes) = image_without(&[]);
    let methods = LLVMMethods::load(&names, &outcomes).expect("full image must resolve");
    let lite = LLVMLite::new(methods);
    for i in 0..ENTRY_POINT_COUNT {
        assert_eq!(lite.handle_at(i), BASE + i);
    }
    // The facade is usable: it builds wrappers.
    let s = lite.create_string("ok".to_string(), 77);
    assert_eq!(s.as_str(), "ok");
}

#[test]
fn missing_entry_point_is_named() {
    let (names, outcomes) = image_without(&["LLVMPY_DisposeString"]);
    let error = LLVMMethods::load(&names, &outcomes).err().expect("image must not resolve");
    match &error {
        LoadError::LoadFunction { inner, target } => {
            assert_eq!(target.as_str(), "LLVMPY_DisposeString");
            assert_eq!(inner.as_str(), "undefined symbol: LLVMPY_DisposeString");
        }
        LoadError::LoadLLVM { .. } => panic!("wrong error variant"),
    }
    assert_eq!(
        error.message(),
        "failed to resolve entry point LLVMPY_DisposeString: undefined symbol: \
         LLVMPY_DisposeString (the loaded library's version may be incompatible with the \
         expected entry-point set)"
    );
}

#[test]
fn first_missing_entry_point_wins() {
    let (names, outcomes) =
        image_without(&["LLVMPY_ContextDispose", "LLVMPY_CreateString", "LLVMPY_Shutdown"]);
    let error = LLVMMethods::load(&names, &outcomes).err().expect("image must not resolve");
    match &error {
        LoadError::LoadFunction { target, .. } => {
            // LLVMPY_CreateString comes before the other two in resolution order.
            assert_eq!(target.as_str(), "LLVMPY_CreateString");
        }
        LoadError::LoadLLVM { .. } => panic!("wrong error variant"),
    }
}

#[test]
fn open_error_message() {
    let error = LoadError::LoadLLVM {
        inner: "No such file or directory".to_string(),
        target: "llvmlite".to_string(),
    };
    assert_eq!(
        error.message(),
        "failed to open library llvmlite: No such file or directory"
    );
}

#[test]
fn required_names_match_resolution_order() {
    let names = llvmlite::required_entry_point_names();
    assert_eq!(names.len(), ENTRY_POINT_COUNT);
    assert_eq!(names[0], "LLVMPY_SetCommandLine");
    assert_eq!(names[IDX_CREATE_STRING], "LLVMPY_CreateString");
    assert_eq!(names[IDX_CREATE_BYTE_STRING], "LLVMPY_CreateByteString");
    assert_eq!(names[IDX_DISPOSE_STRING], "LLVMPY_DisposeString");
    assert_eq!(names[IDX_GET_GLOBAL_CONTEXT], "LLVMPY_GetGlobalContext");
    assert_eq!(names[IDX_CONTEXT_CREATE], "LLVMPY_ContextCreate");
    assert_eq!(names[IDX_CONTEXT_DISPOSE], "LLVMPY_ContextDispose");
    assert_eq!(names[ENTRY_POINT_COUNT - 1], "LLVMPY_GetOpcodeName");
}

/// An instrumented stand-in for the foreign allocator: hands out distinct
/// addresses and counts how many release calls were performed against the
/// string-release entry point.
struct ForeignStrings {
    next: usize,
    allocated: usize,
    released: usize,
}

impl ForeignStrings {
    fn new() -> Self {
        ForeignStrings { next: 0x9000, allocated: 0, released: 0 }
    }

    fn allocate(&mut self) -> usize {
        self.allocated += 1;
        self.next += 16;
        self.next
    }

    fn perform(&mut self, action: ReleaseAction) {
        assert_eq!(action.entry, BASE + IDX_DISPOSE_STRING, "wrong release routine");
        self.released += 1;
    }
}

#[test]
fn create_string_yields_its_input() {
    let lite = full_facade();
    let mut foreign = ForeignStrings::new();

    let raw_empty = foreign.allocate();
    let mut empty = lite.create_string("".to_string(), raw_empty);
    assert_eq!(empty.as_str(), "");

    let raw_hello = foreign.allocate();
    let mut hello = lite.create_string("hello".to_string(), raw_hello);
    assert_eq!(hello.as_str(), "hello");

    if let Some(action) = empty.release() {
        assert_eq!(action.argument, raw_empty);
        foreign.perform(action);
    }
    if let Some(action) = hello.release() {
        assert_eq!(action.argument, raw_hello);
        foreign.perform(action);
    }
    assert_eq!(foreign.allocated, foreign.released);
}

#[test]
fn null_string_return_is_empty_sentinel() {
    let lite = full_facade();
    let mut wrapper = lite.create_string("ignored".to_string(), 0);
    assert_eq!(wrapper.as_str(), "");
    // The sentinel owns no foreign buffer, so nothing is ever released.
    assert!(wrapper.release().is_none());
}

#[test]
fn string_release_is_idempotent() {
    let lite = full_facade();
    let mut wrapper = lite.create_string("once".to_string(), 0x7777);
    assert_eq!(wrapper.as_str(), "once");

    let first = wrapper.release().expect("a live wrapper owes one release call");
    assert_eq!(first.entry, BASE + IDX_DISPOSE_STRING);
    assert_eq!(first.argument, 0x7777);
    assert_eq!(wrapper.as_str(), "");

    // A second release performs no foreign call and changes nothing.
    assert!(wrapper.release().is_none());
    assert!(wrapper.release().is_none());
    assert_eq!(wrapper.as_str(), "");
}

#[test]
fn byte_string_keeps_embedded_zero() {
    let lite = full_facade();
    let bytes = vec![b'h', 0, b'i', 0, 0, b'!'];
    let mut wrapper = lite.create_byte_string(bytes.clone(), 0x5150);
    assert_eq!(wrapper.as_bytes().len(), bytes.len());
    assert_eq!(wrapper.as_bytes(), &bytes);

    let action = wrapper.release().expect("a live wrapper owes one release call");
    assert_eq!(action.entry, BASE + IDX_DISPOSE_STRING);
    assert_eq!(action.argument, 0x5150);
    assert!(wrapper.as_bytes().is_empty());
    assert!(wrapper.release().is_none());
}

#[test]
fn byte_string_null_return_is_empty_sentinel() {
    let lite = full_facade();
    let mut wrapper = lite.create_byte_string(vec![1, 2, 3], 0);
    assert!(wrapper.as_bytes().is_empty());
    assert!(wrapper.release().is_none());
}

#[test]
fn global_context_is_never_released() {
    let lite = full_facade();
    let mut released = 0;
    for _ in 0..5 {
        let mut ctx = lite.get_global_context(0x6060);
        assert!(ctx.is_global());
        assert_eq!(ctx.handle(), 0x6060);
        for _ in 0..3 {
            if ctx.release().is_some() {
                released += 1;
            }
        }
    }
    assert_eq!(released, 0);
}

#[test]
fn owned_contexts_release_exactly_once() {
    let lite = full_facade();
    let n = 4;
    let mut contexts: Vec<_> = (0..n).map(|i| lite.create_context(0x8000 + i)).collect();
    for ctx in &contexts {
        assert!(!ctx.is_global());
    }

    let mut released = 0;
    for (i, ctx) in contexts.iter_mut().enumerate() {
        let action = ctx.release().expect("a live owned context owes one release call");
        assert_eq!(action.entry, BASE + IDX_CONTEXT_DISPOSE);
        assert_eq!(action.argument, 0x8000 + i);
        released += 1;
    }
    assert_eq!(released, n);

    // Never more: a second pass releases nothing.
    for ctx in contexts.iter_mut() {
        assert!(ctx.release().is_none());
    }
}

#[test]
fn context_kind_is_structural() {
    assert_eq!(ContextKind::Global, ContextKind::Global);
    assert_ne!(ContextKind::Global, ContextKind::Owned);
}

#[test]
fn nul_terminated_encoding() {
    assert!(!llvmlite::has_interior_nul("hello"));
    assert!(!llvmlite::has_interior_nul(""));
    assert!(llvmlite::has_interior_nul("he\0llo"));

    assert_eq!(llvmlite::encode_nul_terminated("hello"), b"hello\0");
    assert_eq!(llvmlite::encode_nul_terminated(""), b"\0");
    assert_eq!(llvmlite::encode_nul_terminated("né"), "né\0".as_bytes());
}

#[test]
fn prune_stats_carries_counters() {
    let stats = llvmlite::PruneStats::new(1, 2, 3, 4);
    assert_eq!(stats.basicblock(), 1);
    assert_eq!(stats.diamond(), 2);
    assert_eq!(stats.fanout(), 3);
    assert_eq!(stats.fanout_raise(), 4);
}
