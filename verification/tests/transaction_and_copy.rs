use pg_blocking::copy::{CopyIn, CopyOut};
use pg_blocking::engine::Engine;
use pg_blocking::transaction::{IsolationLevel, Transaction, TransactionBuilder};

#[test]
fn committed_transaction_persists_its_mutations() {
    let mut durable: Vec<i64> = vec![100];
    let mut tx = Transaction::begin();
    tx.run(1);
    tx.run(2);
    tx.commit(&mut durable);
    assert_eq!(durable, vec![100, 1, 2]);
}

#[test]
fn abandoned_transaction_leaves_state_unchanged() {
    let mut durable: Vec<i64> = vec![100];
    let mut tx = Transaction::begin();
    tx.run(1);
    tx.run(2);
    tx.abandon(&mut durable);
    assert_eq!(durable, vec![100]);
}

#[test]
fn explicit_rollback_leaves_state_unchanged() {
    let mut durable: Vec<i64> = vec![7];
    let mut tx = Transaction::begin();
    tx.run(8);
    tx.rollback(&mut durable);
    assert_eq!(durable, vec![7]);
}

#[test]
fn builder_records_exactly_what_was_set() {
    let builder = TransactionBuilder::new()
        .isolation_level(IsolationLevel::RepeatableRead)
        .read_only(true);
    assert_eq!(builder.isolation, Some(IsolationLevel::RepeatableRead));
    assert_eq!(builder.read_only, Some(true));
    assert_eq!(builder.deferrable, None);

    let tx = builder.start();
    // The begun transaction carries exactly the recorded attributes.
    assert_eq!(tx.begun_with(), builder);
    let mut durable: Vec<i64> = vec![];
    tx.rollback(&mut durable);
    assert_eq!(durable, vec![]);
}

#[test]
fn plain_begin_leaves_every_attribute_to_the_server() {
    let tx = Transaction::begin();
    assert_eq!(tx.begun_with(), TransactionBuilder::new());
}

#[test]
fn finished_copy_reports_the_row_count_of_its_input() {
    let mut writer = CopyIn::begin();
    writer.write(&b"1\tjohn\n2\tjane\n".to_vec());
    let mut table: Vec<u8> = vec![];
    let count = writer.finish(&mut table);
    assert_eq!(count, 2);
    assert_eq!(table, b"1\tjohn\n2\tjane\n".to_vec());
}

#[test]
fn copy_chunks_accumulate_verbatim() {
    let mut writer = CopyIn::begin();
    writer.write(&b"1\tjo".to_vec());
    writer.write(&b"hn\n".to_vec());
    let mut table: Vec<u8> = vec![];
    let count = writer.finish(&mut table);
    assert_eq!(count, 1);
    assert_eq!(table, b"1\tjohn\n".to_vec());
}

#[test]
fn abandoned_copy_commits_nothing() {
    let mut writer = CopyIn::begin();
    writer.write(&b"1\tjohn\n2\tja".to_vec());
    let mut table: Vec<u8> = b"kept".to_vec();
    writer.abandon(&mut table);
    assert_eq!(table, b"kept".to_vec());
}

#[test]
fn empty_copy_finishes_with_zero_rows() {
    let writer = CopyIn::begin();
    let mut table: Vec<u8> = vec![];
    let count = writer.finish(&mut table);
    assert_eq!(count, 0);
    assert!(table.is_empty());
}

#[test]
fn engine_admits_one_access_right_at_a_time() {
    let mut engine = Engine::new();
    engine.run_blocking();

    let first = engine.lease();
    engine.drive(first);
    engine.release(first);

    let second = engine.lease();
    // Tokens are never reused: the released right cannot be confused with
    // the live one.
    assert_ne!(first, second);
    engine.release(second);
    engine.run_blocking();
}

#[test]
fn copy_out_delivers_arrived_bytes_verbatim() {
    let mut reader = CopyOut::begin();
    assert!(reader.is_drained());
    reader.arrive(&b"1\tjo".to_vec());
    reader.arrive(&b"hn\n".to_vec());

    // Reads re-chunk freely but deliver the same bytes in the same order.
    let first = reader.read_into(5);
    assert_eq!(first, b"1\tjoh".to_vec());
    let second = reader.read_into(100);
    assert_eq!(second, b"n\n".to_vec());
    assert!(reader.is_drained());
}

#[test]
fn copy_out_read_beyond_buffer_delivers_what_is_there() {
    let mut reader = CopyOut::begin();
    reader.arrive(&b"abc".to_vec());
    assert_eq!(reader.read_into(10), b"abc".to_vec());
    assert_eq!(reader.read_into(10), Vec::<u8>::new());
}
