use unqlite_util::allocate_fill_buffer;
use unqlite_util::complete_mapping;
use unqlite_util::complete_random_string;
use unqlite_util::prepare_mapping;
use unqlite_util::validate_map_reply;
use unqlite_util::wrap;
use unqlite_util::Error;
use unqlite_util::ENGINE_CORRUPT;

#[test]
fn test_mmap() {
    let contents = b"Hello, world!".to_vec();
    let path = b"hello.txt".to_vec();
    let request = prepare_mapping(&path).expect("a nul-free path must be accepted");
    assert_eq!(request.path_with_nul().as_slice(), b"hello.txt\0");
    assert_eq!(validate_map_reply(0, 13), Ok(()));
    let mut resource = complete_mapping(0, contents.clone()).expect("a successful reply yields a resource");
    assert_eq!(resource.size(), 13);
    assert_eq!(resource.bytes().as_slice(), contents.as_slice());
    assert!(resource.release());
    assert!(!resource.release());
}

#[test]
fn allocate_fill_buffer_has_exact_length() {
    for length in [0u32, 1, 3, 32, 4096] {
        let buf = allocate_fill_buffer(length);
        assert_eq!(buf.len(), length as usize);
        assert!(buf.iter().all(|b| *b == 0));
    }
}

#[test]
fn complete_random_string_hands_back_the_filled_buffer() {
    let filled = b"kqzmwa".to_vec();
    let s = complete_random_string(0, filled.clone(), 6).expect("a successful fill is owed to the caller");
    assert_eq!(s, filled);
}

#[test]
fn complete_random_string_failure_yields_no_buffer() {
    // the engine refuses a fill request it considers invalid; the partial
    // buffer must not reach the caller
    let outcome = complete_random_string(-9, allocate_fill_buffer(2), 2);
    assert_eq!(outcome, Err(Error::EngineError(-9)));
}

#[test]
fn wrap_adapts_success() {
    assert_eq!(wrap(0), Ok(()));
}

#[test]
fn wrap_adapts_failure() {
    assert_eq!(wrap(-6), Err(Error::EngineError(-6)));
    assert_eq!(wrap(1), Err(Error::EngineError(1)));
}

#[test]
fn prepare_mapping_appends_one_nul() {
    let path = b"data/store.db".to_vec();
    let request = prepare_mapping(&path).expect("a nul-free path must be accepted");
    assert_eq!(request.path_with_nul().as_slice(), b"data/store.db\0");
}

#[test]
fn prepare_mapping_accepts_empty_path() {
    let path = Vec::new();
    let request = prepare_mapping(&path).expect("the empty path holds no nul");
    assert_eq!(request.path_with_nul().as_slice(), b"\0");
}

#[test]
fn prepare_mapping_rejects_embedded_nul() {
    let path = b"data\0store.db".to_vec();
    assert_eq!(prepare_mapping(&path).err(), Some(Error::PathEncodingError));
    let nul_only = b"\0".to_vec();
    assert_eq!(prepare_mapping(&nul_only).err(), Some(Error::PathEncodingError));
}

#[test]
fn validate_map_reply_passes_a_sound_success() {
    assert_eq!(validate_map_reply(0, 0), Ok(()));
    assert_eq!(validate_map_reply(0, 4096), Ok(()));
}

#[test]
fn validate_map_reply_adapts_a_failing_status() {
    assert_eq!(validate_map_reply(-6, 0), Err(Error::EngineError(-6)));
}

#[test]
fn validate_map_reply_rejects_a_negative_size() {
    assert_eq!(validate_map_reply(0, -1), Err(Error::EngineError(ENGINE_CORRUPT)));
    assert_eq!(validate_map_reply(0, i64::MIN), Err(Error::EngineError(ENGINE_CORRUPT)));
}

#[test]
fn complete_mapping_failure_yields_no_resource() {
    let outcome = complete_mapping(-6, Vec::new());
    match outcome {
        Ok(_) => panic!("an engine failure must not yield a resource"),
        Err(e) => assert_eq!(e, Error::EngineError(-6)),
    }
}

#[test]
fn complete_mapping_reports_the_mapped_size() {
    let data = vec![7u8; 4096];
    let resource = complete_mapping(0, data).expect("a successful reply yields a resource");
    assert_eq!(resource.size(), 4096);
    assert!(resource.active());
}

#[test]
fn release_twice_is_a_noop() {
    let mut resource = complete_mapping(0, vec![1u8, 2, 3]).expect("a successful reply yields a resource");
    assert!(resource.active());
    let owed_first = resource.release();
    assert!(owed_first);
    assert!(!resource.active());
    let owed_second = resource.release();
    assert!(!owed_second);
    assert!(!resource.active());
    assert_eq!(resource.size(), 3);
}
