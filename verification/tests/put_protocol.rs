use bytes::Bytes;
use local_file_kv_store::error::{IoFailure, StoreError};
use local_file_kv_store::key::PlainKey;
use local_file_kv_store::store::LocalFileKVStore;
use local_file_kv_store::options::LocalFileKVStoreOptions;
use local_file_kv_store::put::{PutOp, PutStage, PutStep};

fn fresh(value: &'static [u8]) -> PutOp {
    let store = LocalFileKVStore::new(LocalFileKVStoreOptions {
        root_path: "/tmp/store".to_string(),
        num_bucket: 4,
    });
    store.put(PlainKey { hash: 10, filename: "abc".to_string() }, Bytes::from_static(value))
}

fn at(stage: PutStage) -> PutOp {
    PutOp { stage, ..fresh(b"hello") }
}

fn missing(detail: &str) -> Result<(), IoFailure> {
    Err(IoFailure { not_found: true, detail: detail.to_string() })
}

fn refused(detail: &str) -> Result<(), IoFailure> {
    Err(IoFailure { not_found: false, detail: detail.to_string() })
}

fn next(step: PutStep) -> PutOp {
    match step {
        PutStep::Next(op) => op,
        PutStep::Done(result) => panic!("the put ended with {:?}", result),
    }
}

#[test]
fn put_starts_by_creating_the_file_of_the_key() {
    let op = fresh(b"hello");
    assert_eq!(op.stage, PutStage::Create);
    assert_eq!(op.path, "/tmp/store/2/abc");
    assert_eq!(op.dir, "/tmp/store/2");
    assert_eq!(op.data, Bytes::from_static(b"hello"));
}

#[test]
fn payload_is_the_bytes_given() {
    assert_eq!(fresh(b"hello").payload(), b"hello");
    assert_eq!(fresh(b"hello").payload().len(), 5);
    assert_eq!(fresh(b"").payload(), b"");
    assert_eq!(fresh(b"\x00\xff\x00").payload(), &[0u8, 255, 0]);
}

#[test]
fn payload_of_a_slice_of_a_larger_buffer_is_that_slice() {
    let whole = Bytes::from(vec![1u8, 2, 3, 4, 5, 6]);
    let op = PutOp { data: whole.slice(2..5), ..fresh(b"") };
    assert_eq!(op.payload(), &[3u8, 4, 5]);
}

#[test]
fn created_file_is_written_next() {
    let op = next(fresh(b"hello").step(Ok(())));
    assert_eq!(op.stage, PutStage::Write);
    assert_eq!(op.path, "/tmp/store/2/abc");
    assert_eq!(op.dir, "/tmp/store/2");
    assert_eq!(op.payload(), b"hello");
}

#[test]
fn missing_directory_is_made_next() {
    let op = next(fresh(b"hello").step(missing("No such file or directory")));
    assert_eq!(op.stage, PutStage::MakeDir);
    assert_eq!(op.dir, "/tmp/store/2");
    assert_eq!(op.path, "/tmp/store/2/abc");
    assert_eq!(op.payload(), b"hello");
}

#[test]
fn other_creation_failure_ends_the_put() {
    assert_eq!(
        fresh(b"hello").step(refused("Permission denied")),
        PutStep::Done(Err(StoreError::CreateFile {
            path: "/tmp/store/2/abc".to_string(),
            detail: "Permission denied".to_string(),
        }))
    );
}

#[test]
fn made_directory_leads_to_a_second_creation() {
    let op = next(at(PutStage::MakeDir).step(Ok(())));
    assert_eq!(op.stage, PutStage::Recreate);
    assert_eq!(op.path, "/tmp/store/2/abc");
    assert_eq!(op.payload(), b"hello");
}

#[test]
fn directory_failure_ends_the_put() {
    assert_eq!(
        at(PutStage::MakeDir).step(refused("Read-only file system")),
        PutStep::Done(Err(StoreError::CreateDir {
            path: "/tmp/store/2".to_string(),
            detail: "Read-only file system".to_string(),
        }))
    );
    assert_eq!(
        at(PutStage::MakeDir).step(missing("gone")),
        PutStep::Done(Err(StoreError::CreateDir {
            path: "/tmp/store/2".to_string(),
            detail: "gone".to_string(),
        }))
    );
}

#[test]
fn second_creation_is_written_next() {
    let op = next(at(PutStage::Recreate).step(Ok(())));
    assert_eq!(op.stage, PutStage::Write);
    assert_eq!(op.payload(), b"hello");
}

#[test]
fn second_creation_failure_is_not_retried() {
    assert_eq!(
        at(PutStage::Recreate).step(missing("No such file or directory")),
        PutStep::Done(Err(StoreError::CreateFile {
            path: "/tmp/store/2/abc".to_string(),
            detail: "No such file or directory".to_string(),
        }))
    );
    assert_eq!(
        at(PutStage::Recreate).step(refused("Permission denied")),
        PutStep::Done(Err(StoreError::CreateFile {
            path: "/tmp/store/2/abc".to_string(),
            detail: "Permission denied".to_string(),
        }))
    );
}

#[test]
fn completed_write_is_success() {
    assert_eq!(at(PutStage::Write).step(Ok(())), PutStep::Done(Ok(())));
}

#[test]
fn write_failure_ends_the_put() {
    assert_eq!(
        at(PutStage::Write).step(refused("No space left on device")),
        PutStep::Done(Err(StoreError::Write {
            path: "/tmp/store/2/abc".to_string(),
            detail: "No space left on device".to_string(),
        }))
    );
    assert_eq!(
        at(PutStage::Write).step(missing("vanished")),
        PutStep::Done(Err(StoreError::Write {
            path: "/tmp/store/2/abc".to_string(),
            detail: "vanished".to_string(),
        }))
    );
}

#[test]
fn straight_put_takes_two_answers() {
    let op = next(fresh(b"hello").step(Ok(())));
    assert_eq!(op.step(Ok(())), PutStep::Done(Ok(())));
}

#[test]
fn put_into_a_missing_bucket_takes_four_answers() {
    let op = next(fresh(b"hello").step(missing("No such file or directory")));
    assert_eq!(op.stage, PutStage::MakeDir);
    let op = next(op.step(Ok(())));
    assert_eq!(op.stage, PutStage::Recreate);
    let op = next(op.step(Ok(())));
    assert_eq!(op.stage, PutStage::Write);
    assert_eq!(op.step(Ok(())), PutStep::Done(Ok(())));
}
