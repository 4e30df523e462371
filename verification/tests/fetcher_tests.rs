use nur_worker::artifact::FetchedFunction;
use nur_worker::fetcher::{
    FetchFlow, FetchFunctionError, FetchResolution, FetchState, FunctionFetcher,
};

const FUNCTION_ID: u128 = 7;

fn garbage_wasm() -> Vec<u8> {
    // Not a Wasm module: the runtime cannot compile it, so precompilation
    // falls back to the raw bytes.
    vec![0xde, 0xad, 0xbe, 0xef, 0x42]
}

#[test]
fn test_origin_fetch_then_l1_hit() {
    let mut fetcher = FunctionFetcher::new(String::from(".cache"));

    // First fetch: L1 and L2 miss, the origin answers.
    let mut flow = FetchFlow::begin(FUNCTION_ID, 100);
    flow.step_l1(&fetcher);
    assert!(matches!(flow.state, FetchState::AtL2Stat));
    flow.step_l2_stat(None);
    assert!(matches!(flow.state, FetchState::AtOrigin));
    flow.step_origin(&mut fetcher, Ok(garbage_wasm()), 100);
    let first_bytes = match &flow.state {
        FetchState::Finished { resolution: FetchResolution::OriginSuccess { artifact } } => {
            assert_eq!(artifact.fetched_at(), 100);
            artifact.wasm_bytes().clone()
        },
        other => panic!("expected an origin success, got {other:?}"),
    };

    // Second fetch with the same id and timestamp: an L1 hit, without the
    // flow ever reaching the L2 or origin states, and byte-identical.
    let mut second = FetchFlow::begin(FUNCTION_ID, 100);
    second.step_l1(&fetcher);
    match &second.state {
        FetchState::Finished { resolution: FetchResolution::L1Hit { artifact } } => {
            assert_eq!(artifact.wasm_bytes(), &first_bytes);
            assert!(artifact.fetched_at() >= 100);
        },
        other => panic!("expected an L1 hit, got {other:?}"),
    }
}

#[test]
fn test_l2_hit_is_precompiled() {
    let mut fetcher = FunctionFetcher::new(String::from(".cache"));
    let file_bytes = vec![9, 9, 9];

    let mut flow = FetchFlow::begin(FUNCTION_ID, 50);
    flow.step_l1(&fetcher);
    assert!(matches!(flow.state, FetchState::AtL2Stat));
    flow.step_l2_stat(Some(60));
    assert!(matches!(flow.state, FetchState::AtL2Read));
    flow.step_l2_read(&mut fetcher, Some(file_bytes.clone()), 70);
    match &flow.state {
        FetchState::Finished { resolution: FetchResolution::L2Hit { artifact } } => {
            assert!(artifact.is_precompiled());
            assert_eq!(artifact.wasm_bytes(), &file_bytes);
            assert_eq!(artifact.fetched_at(), 70);
        },
        other => panic!("expected an L2 hit, got {other:?}"),
    }
}

#[test]
fn test_l2_equal_mtime_is_fresh() {
    // The freshness test is inclusive: an mtime equal to the deployment
    // timestamp is a hit.
    let mut flow = FetchFlow::begin(FUNCTION_ID, 100);
    let fetcher = FunctionFetcher::new(String::from(".cache"));
    flow.step_l1(&fetcher);
    flow.step_l2_stat(Some(100));
    assert!(matches!(flow.state, FetchState::AtL2Read));
}

#[test]
fn test_l2_stale_or_absent_goes_to_origin() {
    let fetcher = FunctionFetcher::new(String::from(".cache"));

    let mut stale = FetchFlow::begin(FUNCTION_ID, 100);
    stale.step_l1(&fetcher);
    stale.step_l2_stat(Some(99));
    assert!(matches!(stale.state, FetchState::AtOrigin));

    let mut absent = FetchFlow::begin(FUNCTION_ID, 100);
    absent.step_l1(&fetcher);
    absent.step_l2_stat(None);
    assert!(matches!(absent.state, FetchState::AtOrigin));
}

#[test]
fn test_l2_read_failure_falls_back_to_origin() {
    let mut fetcher = FunctionFetcher::new(String::from(".cache"));
    let mut flow = FetchFlow::begin(FUNCTION_ID, 0);
    flow.step_l1(&fetcher);
    flow.step_l2_stat(Some(1));
    flow.step_l2_read(&mut fetcher, None, 5);
    assert!(matches!(flow.state, FetchState::AtOrigin));
}

#[test]
fn test_download_error_is_typed() {
    let mut fetcher = FunctionFetcher::new(String::from(".cache"));
    let mut flow = FetchFlow::begin(FUNCTION_ID, 0);
    flow.step_l1(&fetcher);
    flow.step_l2_stat(None);
    flow.step_origin(&mut fetcher, Err(FetchFunctionError::Download), 5);
    match &flow.state {
        FetchState::Finished { resolution: FetchResolution::Failed { error } } => {
            assert_eq!(*error, FetchFunctionError::Download);
        },
        other => panic!("expected a failure, got {other:?}"),
    }
}

#[test]
fn test_decompression_error_is_typed() {
    let mut fetcher = FunctionFetcher::new(String::from(".cache"));
    let mut flow = FetchFlow::begin(FUNCTION_ID, 0);
    flow.step_l1(&fetcher);
    flow.step_l2_stat(None);
    flow.step_origin(&mut fetcher, Err(FetchFunctionError::Decompression), 5);
    match &flow.state {
        FetchState::Finished { resolution: FetchResolution::Failed { error } } => {
            assert_eq!(*error, FetchFunctionError::Decompression);
        },
        other => panic!("expected a failure, got {other:?}"),
    }
}

#[test]
fn test_stale_l1_entry_misses() {
    let mut fetcher = FunctionFetcher::new(String::from(".cache"));
    let mut flow = FetchFlow::begin(FUNCTION_ID, 10);
    flow.step_l1(&fetcher);
    flow.step_l2_stat(None);
    flow.step_origin(&mut fetcher, Ok(garbage_wasm()), 10);
    assert!(matches!(
        flow.state,
        FetchState::Finished { resolution: FetchResolution::OriginSuccess { .. } }
    ));

    // A later deployment makes the entry stale: the flow moves past L1.
    let mut second = FetchFlow::begin(FUNCTION_ID, 11);
    second.step_l1(&fetcher);
    assert!(matches!(second.state, FetchState::AtL2Stat));
}

#[test]
fn test_precompile_fallback_keeps_raw_bytes() {
    // The runtime cannot serialize these bytes: the artifact carries them
    // unchanged, unmarked.
    let artifact = FetchedFunction::try_precompile(garbage_wasm(), 7);
    assert!(!artifact.is_precompiled());
    assert_eq!(artifact.wasm_bytes(), &garbage_wasm());
    assert_eq!(artifact.fetched_at(), 7);
}

#[test]
fn test_precompile_fallback_round_trips_through_l2() {
    // Origin returns a module the runtime cannot serialize; the fetch still
    // completes, and the bytes the caller writes to the L2 file come back
    // byte-equal on the next L2 read.
    let mut fetcher = FunctionFetcher::new(String::from(".cache"));
    let mut flow = FetchFlow::begin(FUNCTION_ID, 0);
    flow.step_l1(&fetcher);
    flow.step_l2_stat(None);
    flow.step_origin(&mut fetcher, Ok(garbage_wasm()), 3);
    let written = match &flow.state {
        FetchState::Finished { resolution: FetchResolution::OriginSuccess { artifact } } => {
            assert!(!artifact.is_precompiled());
            assert_eq!(artifact.wasm_bytes(), &garbage_wasm());
            artifact.wasm_bytes().clone()
        },
        other => panic!("expected an origin success, got {other:?}"),
    };

    let mut fresh_fetcher = FunctionFetcher::new(String::from(".cache"));
    let mut next = FetchFlow::begin(FUNCTION_ID, 0);
    next.step_l1(&fresh_fetcher);
    next.step_l2_stat(Some(4));
    next.step_l2_read(&mut fresh_fetcher, Some(written.clone()), 5);
    match &next.state {
        FetchState::Finished { resolution: FetchResolution::L2Hit { artifact } } => {
            assert_eq!(artifact.wasm_bytes(), &written);
        },
        other => panic!("expected an L2 hit, got {other:?}"),
    }
}

#[test]
fn test_precompile_marks_valid_module() {
    // The smallest valid Wasm module: the runtime compiles and serializes
    // it, so the artifact is precompiled and its bytes are the runtime's
    // native form, not the input.
    let empty_module = vec![0x00, 0x61, 0x73, 0x6d, 0x01, 0x00, 0x00, 0x00];
    let artifact = FetchedFunction::try_precompile(empty_module.clone(), 1);
    assert!(artifact.is_precompiled());
    assert_ne!(artifact.wasm_bytes(), &empty_module);
}

#[test]
fn test_from_wasm_is_unmarked() {
    let artifact = FetchedFunction::from_wasm(vec![1, 2, 3], 42);
    assert!(!artifact.is_precompiled());
    assert_eq!(artifact.wasm_bytes(), &vec![1, 2, 3]);
    assert_eq!(artifact.fetched_at(), 42);
}

#[test]
fn test_cache_dir_is_kept() {
    let fetcher = FunctionFetcher::new(String::from("/var/cache/nur"));
    assert_eq!(fetcher.cache_dir(), "/var/cache/nur");
}
