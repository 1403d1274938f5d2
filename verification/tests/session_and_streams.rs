use pg_blocking::connect::SslMode;
use pg_blocking::session::{
    bind, cancel_request_frame, select_at_most_one, select_exactly_one, CancelKey, QueryError,
    Session,
};

fn open_session() -> Session {
    let key = CancelKey { process_id: 11, secret_key: 13 };
    Session::establish(SslMode::Prefer, true, true, true, true, key).expect("must connect")
}

#[test]
fn round_trip_query_submits_its_bound_value() {
    let mut session = open_session();
    let statement = session.prepare(1);
    let bound = bind(&statement, vec![1]);
    let (frame, resolved) = session.execute(&bound, Ok::<u64, String>(1));
    assert_eq!(frame.statement_id, statement.id);
    assert_eq!(frame.args, vec![1]);
    assert_eq!(resolved, Ok(1));
}

#[test]
fn collaborator_outcome_is_returned_unchanged() {
    let mut session = open_session();
    let statement = session.prepare(1);
    let bound = bind(&statement, vec![4]);

    let (_, ok) = session.execute(&bound, Ok::<u64, String>(7));
    assert_eq!(ok, Ok(7));

    let (_, err) = session.execute(&bound, Err::<u64, String>("server fault".to_string()));
    assert_eq!(err, Err("server fault".to_string()));
    // An error on one call leaves the session usable for the next.
    assert!(!session.is_closed());
}

#[test]
fn reexecution_carries_only_its_own_parameters() {
    let mut session = open_session();
    let statement = session.prepare(2);

    let (first, _) = session.execute(&bind(&statement, vec![1, 2]), Ok::<u64, String>(0));
    let (second, _) = session.execute(&bind(&statement, vec![30, 40]), Ok::<u64, String>(0));

    assert_eq!(first.statement_id, statement.id);
    assert_eq!(second.statement_id, statement.id);
    assert_eq!(first.args, vec![1, 2]);
    assert_eq!(second.args, vec![30, 40]);
}

#[test]
fn statements_get_fresh_identities() {
    let mut session = open_session();
    let a = session.prepare(0);
    let b = session.prepare(3);
    assert_ne!(a.id, b.id);
    assert_eq!(b.n_params, 3);
}

#[test]
fn exactly_one_row_is_returned() {
    let rows = vec![vec![1]];
    assert_eq!(select_exactly_one(rows), Ok(vec![1]));
}

#[test]
fn zero_rows_fail_the_single_row_form() {
    let rows: Vec<Vec<i64>> = vec![];
    assert_eq!(select_exactly_one(rows), Err(QueryError::UnexpectedRowCount));
}

#[test]
fn two_rows_fail_the_single_row_form() {
    let rows = vec![vec![1], vec![2]];
    assert_eq!(select_exactly_one(rows), Err(QueryError::UnexpectedRowCount));
}

#[test]
fn at_most_one_row_accepts_zero_and_one() {
    assert_eq!(select_at_most_one(vec![]), Ok(None));
    assert_eq!(select_at_most_one(vec![vec![5]]), Ok(Some(vec![5])));
    assert_eq!(
        select_at_most_one(vec![vec![5], vec![6]]),
        Err(QueryError::UnexpectedRowCount)
    );
}

#[test]
fn streaming_handle_keeps_driving_then_releases() {
    let mut session = open_session();
    let statement = session.prepare(1);
    let bound = bind(&statement, vec![9]);

    let stream = session
        .open_stream(&bound, Ok::<(), String>(()))
        .expect("a started stream yields a handle");
    session.stream_advance(&stream);
    session.stream_advance(&stream);
    session.close_stream(stream);

    // Once the lease is back, ordinary calls run again.
    let (frame, _) = session.execute(&bind(&statement, vec![10]), Ok::<u64, String>(0));
    assert_eq!(frame.args, vec![10]);
}

#[test]
fn failed_stream_returns_the_error_and_no_handle() {
    let mut session = open_session();
    let statement = session.prepare(1);
    let bound = bind(&statement, vec![2]);

    let outcome = session.open_stream(&bound, Err::<(), String>("stream refused".to_string()));
    assert_eq!(outcome.unwrap_err(), "stream refused".to_string());

    // No handle was constructed; the session stays usable.
    let (frame, _) = session.execute(&bound, Ok::<u64, String>(0));
    assert_eq!(frame.args, vec![2]);
}

#[test]
fn cancellation_in_flight_surfaces_as_cancelled_error() {
    let mut session = open_session();
    let statement = session.prepare(1);
    let bound = bind(&statement, vec![1]);

    let outcome = session.execute_racing_cancel(&bound, Ok::<u64, String>(1), true);
    assert!(matches!(outcome, Err(QueryError::Cancelled)));

    // The originating session is neither deadlocked nor corrupted.
    assert!(!session.is_closed());
    let (frame, _) = session.execute(&bound, Ok::<u64, String>(1));
    assert_eq!(frame.args, vec![1]);
}

#[test]
fn cancellation_too_late_has_no_observable_effect() {
    let mut session = open_session();
    let statement = session.prepare(1);
    let bound = bind(&statement, vec![8]);

    let outcome = session.execute_racing_cancel(&bound, Ok::<u64, String>(9), false);
    match outcome {
        Ok((frame, resolved)) => {
            assert_eq!(frame.args, vec![8]);
            assert_eq!(resolved, Ok(9));
        }
        Err(_) => panic!("a query that completed first is unaffected"),
    }
}

#[test]
fn cancel_token_is_detached_and_minimal() {
    let session = open_session();
    let token = session.cancel_token();
    assert_eq!(token, CancelKey { process_id: 11, secret_key: 13 });
    // The request sent on the fresh connection carries exactly those identifiers.
    assert_eq!(cancel_request_frame(&token), (11, 13));
}

#[test]
fn closed_connection_is_reported() {
    let mut session = open_session();
    assert!(!session.is_closed());
    session.mark_closed();
    assert!(session.is_closed());
}
