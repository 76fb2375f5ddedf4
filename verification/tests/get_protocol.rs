use local_file_kv_store::error::{IoFailure, StoreError};
use local_file_kv_store::get::{GetOp, GetReply, GetStage, GetStep};
use local_file_kv_store::key::PlainKey;
use local_file_kv_store::store::LocalFileKVStore;
use local_file_kv_store::options::LocalFileKVStoreOptions;

fn fresh() -> GetOp {
    let store = LocalFileKVStore::new(LocalFileKVStoreOptions {
        root_path: "/tmp/store".to_string(),
        num_bucket: 4,
    });
    store.get(PlainKey { hash: 10, filename: "abc".to_string() })
}

fn at(stage: GetStage) -> GetOp {
    GetOp { stage, ..fresh() }
}

fn failed(not_found: bool, detail: &str) -> GetReply {
    GetReply::Failed(IoFailure { not_found, detail: detail.to_string() })
}

fn path() -> String {
    "/tmp/store/2/abc".to_string()
}

fn unexpected() -> GetStep {
    GetStep::Done(Err(StoreError::UnexpectedReply { path: path() }))
}

#[test]
fn get_starts_by_opening_the_file_of_the_key() {
    let op = fresh();
    assert_eq!(op.stage, GetStage::Open);
    assert_eq!(op.path, "/tmp/store/2/abc");
}

#[test]
fn opened_file_is_asked_for_its_size() {
    assert_eq!(
        fresh().step(GetReply::Opened),
        GetStep::Next(GetOp { path: path(), stage: GetStage::Metadata })
    );
}

#[test]
fn file_that_cannot_be_opened_ends_the_get() {
    assert_eq!(
        fresh().step(failed(true, "No such file or directory")),
        GetStep::Done(Err(StoreError::Open {
            path: path(),
            detail: "No such file or directory".to_string(),
        }))
    );
    assert_eq!(
        fresh().step(failed(false, "Permission denied")),
        GetStep::Done(Err(StoreError::Open {
            path: path(),
            detail: "Permission denied".to_string(),
        }))
    );
}

#[test]
fn size_decides_how_much_is_read() {
    assert_eq!(
        at(GetStage::Metadata).step(GetReply::Size(5)),
        GetStep::Next(GetOp { path: path(), stage: GetStage::Read { len: 5 } })
    );
    assert_eq!(
        at(GetStage::Metadata).step(GetReply::Size(0)),
        GetStep::Next(GetOp { path: path(), stage: GetStage::Read { len: 0 } })
    );
}

#[test]
fn size_beyond_memory_ends_the_get() {
    assert_eq!(
        at(GetStage::Metadata).step(GetReply::Size(u64::MAX)),
        GetStep::Done(Err(StoreError::TooLarge { path: path(), size: u64::MAX }))
    );
    let first_too_large = isize::MAX as u64 + 1;
    assert_eq!(
        at(GetStage::Metadata).step(GetReply::Size(first_too_large)),
        GetStep::Done(Err(StoreError::TooLarge { path: path(), size: first_too_large }))
    );
}

#[test]
fn largest_size_that_fits_is_read() {
    assert_eq!(
        at(GetStage::Metadata).step(GetReply::Size(isize::MAX as u64)),
        GetStep::Next(GetOp { path: path(), stage: GetStage::Read { len: isize::MAX as usize } })
    );
}

#[test]
fn size_that_cannot_be_learned_ends_the_get() {
    assert_eq!(
        at(GetStage::Metadata).step(failed(false, "Input/output error")),
        GetStep::Done(Err(StoreError::Metadata {
            path: path(),
            detail: "Input/output error".to_string(),
        }))
    );
}

#[test]
fn buffer_has_exactly_the_size_to_read() {
    assert_eq!(at(GetStage::Read { len: 5 }).buffer(), vec![0u8; 5]);
    assert_eq!(at(GetStage::Read { len: 0 }).buffer(), Vec::<u8>::new());
    assert_eq!(at(GetStage::Read { len: 4096 }).buffer(), vec![0u8; 4096]);
}

#[test]
fn buffer_is_empty_before_the_size_is_known() {
    assert_eq!(fresh().buffer(), Vec::<u8>::new());
    assert_eq!(at(GetStage::Metadata).buffer(), Vec::<u8>::new());
}

#[test]
fn bytes_read_are_the_value() {
    assert_eq!(
        at(GetStage::Read { len: 5 }).step(GetReply::Data(b"hello".to_vec())),
        GetStep::Done(Ok(b"hello".to_vec()))
    );
    assert_eq!(
        at(GetStage::Read { len: 0 }).step(GetReply::Data(Vec::new())),
        GetStep::Done(Ok(Vec::new()))
    );
}

#[test]
fn read_of_another_length_ends_the_get() {
    assert_eq!(
        at(GetStage::Read { len: 5 }).step(GetReply::Data(b"hell".to_vec())),
        GetStep::Done(Err(StoreError::SizeMismatch { path: path(), expected: 5, found: 4 }))
    );
    assert_eq!(
        at(GetStage::Read { len: 1 }).step(GetReply::Data(b"short".to_vec())),
        GetStep::Done(Err(StoreError::SizeMismatch { path: path(), expected: 1, found: 5 }))
    );
    assert_eq!(
        at(GetStage::Read { len: 3 }).step(GetReply::Data(Vec::new())),
        GetStep::Done(Err(StoreError::SizeMismatch { path: path(), expected: 3, found: 0 }))
    );
}

#[test]
fn read_failure_ends_the_get() {
    assert_eq!(
        at(GetStage::Read { len: 5 }).step(failed(false, "failed to fill whole buffer")),
        GetStep::Done(Err(StoreError::Read {
            path: path(),
            detail: "failed to fill whole buffer".to_string(),
        }))
    );
}

#[test]
fn reply_to_another_request_ends_the_get() {
    assert_eq!(fresh().step(GetReply::Size(5)), unexpected());
    assert_eq!(fresh().step(GetReply::Data(b"hello".to_vec())), unexpected());
    assert_eq!(at(GetStage::Metadata).step(GetReply::Opened), unexpected());
    assert_eq!(at(GetStage::Metadata).step(GetReply::Data(Vec::new())), unexpected());
    assert_eq!(at(GetStage::Read { len: 0 }).step(GetReply::Opened), unexpected());
    assert_eq!(at(GetStage::Read { len: 5 }).step(GetReply::Size(5)), unexpected());
}

#[test]
fn whole_get_takes_three_answers() {
    let op = match fresh().step(GetReply::Opened) {
        GetStep::Next(op) => op,
        GetStep::Done(result) => panic!("the get ended with {:?}", result),
    };
    let op = match op.step(GetReply::Size(5)) {
        GetStep::Next(op) => op,
        GetStep::Done(result) => panic!("the get ended with {:?}", result),
    };
    let mut buf = op.buffer();
    buf.copy_from_slice(b"hello");
    assert_eq!(op.step(GetReply::Data(buf)), GetStep::Done(Ok(b"hello".to_vec())));
}
