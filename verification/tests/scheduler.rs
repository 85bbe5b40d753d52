use arango_load::arangodb::{ArangoError, FieldValue, Method, Payload};
use arango_load::scheduler::{
    batch, batch_ranges, count_batches, generate_batch, insert_batch_request,
    insert_batch_request_at, select_endpoint, Batch, LoadScheduler, SchedulerAction, BATCH_SIZE,
};

fn endpoints() -> Vec<String> {
    vec!["http://h1".to_string(), "http://h2".to_string(), "http://h3".to_string()]
}

#[test]
fn batch_size_is_one_thousand() {
    assert_eq!(BATCH_SIZE, 1000);
}

#[test]
fn batch_partitioning() {
    assert_eq!(
        batch_ranges(2500),
        vec![
            Batch { start: 1, end: 1000 },
            Batch { start: 1001, end: 2000 },
            Batch { start: 2001, end: 2500 },
        ]
    );
}

#[test]
fn batch_partitioning_edges() {
    assert_eq!(batch_ranges(0), Vec::<Batch>::new());
    assert_eq!(batch_ranges(1), vec![Batch { start: 1, end: 1 }]);
    assert_eq!(batch_ranges(999), vec![Batch { start: 1, end: 999 }]);
    assert_eq!(batch_ranges(1000), vec![Batch { start: 1, end: 1000 }]);
    assert_eq!(
        batch_ranges(1001),
        vec![Batch { start: 1, end: 1000 }, Batch { start: 1001, end: 1001 }]
    );
    assert_eq!(
        batch_ranges(2000),
        vec![Batch { start: 1, end: 1000 }, Batch { start: 1001, end: 2000 }]
    );
}

#[test]
fn batch_count_rounds_up() {
    assert_eq!(count_batches(0), 0);
    assert_eq!(count_batches(1), 1);
    assert_eq!(count_batches(1000), 1);
    assert_eq!(count_batches(1001), 2);
    assert_eq!(count_batches(2500), 3);
    assert_eq!(count_batches(u32::MAX), 4294968);
}

#[test]
fn batch_by_number() {
    assert_eq!(batch(2500, 0), Some(Batch { start: 1, end: 1000 }));
    assert_eq!(batch(2500, 2), Some(Batch { start: 2001, end: 2500 }));
    assert_eq!(batch(2500, 3), None);
    assert_eq!(batch(0, 0), None);
    assert_eq!(batch(u32::MAX, 4294967), Some(Batch { start: 4294967001, end: u32::MAX }));
    assert_eq!(batch(u32::MAX, 4294966), Some(Batch { start: 4294966001, end: 4294967000 }));
    assert_eq!(batch(u32::MAX, 4294968), None);
    assert_eq!(batch(u32::MAX, u32::MAX), None);
}

#[test]
fn batches_cover_the_range_without_gaps() {
    for count in [1u32, 17, 1000, 1001, 4999, 5000, 12345] {
        let ranges = batch_ranges(count);
        assert_eq!(ranges.len() as u32, count_batches(count));
        assert_eq!(ranges[0].start, 1);
        assert_eq!(ranges[ranges.len() - 1].end, count);
        for k in 0..ranges.len() {
            assert!(ranges[k].start <= ranges[k].end);
            assert!(ranges[k].end - ranges[k].start < 1000);
            if k + 1 < ranges.len() {
                assert_eq!(ranges[k].end - ranges[k].start, 999);
                assert_eq!(ranges[k + 1].start, ranges[k].end + 1);
            }
        }
    }
}

#[test]
fn scheduler_hands_out_up_to_the_limit() {
    let mut scheduler = LoadScheduler::new(2500, 2);
    assert_eq!(scheduler.batches_in_flight(), 0);
    assert_eq!(scheduler.next_action(), SchedulerAction::Dispatch(Batch { start: 1, end: 1000 }));
    assert_eq!(
        scheduler.next_action(),
        SchedulerAction::Dispatch(Batch { start: 1001, end: 2000 })
    );
    assert_eq!(scheduler.batches_in_flight(), 2);
    assert_eq!(scheduler.next_action(), SchedulerAction::Wait);
    assert_eq!(scheduler.next_action(), SchedulerAction::Wait);
    scheduler.complete(Ok(()));
    assert_eq!(scheduler.batches_in_flight(), 1);
    assert_eq!(
        scheduler.next_action(),
        SchedulerAction::Dispatch(Batch { start: 2001, end: 2500 })
    );
    assert_eq!(scheduler.next_action(), SchedulerAction::Wait);
    scheduler.complete(Ok(()));
    assert_eq!(scheduler.next_action(), SchedulerAction::Wait);
    scheduler.complete(Ok(()));
    assert_eq!(scheduler.batches_in_flight(), 0);
    assert_eq!(scheduler.next_action(), SchedulerAction::Finish(Ok(())));
    assert_eq!(scheduler.next_action(), SchedulerAction::Finish(Ok(())));
}

#[test]
fn scheduler_without_documents_finishes_at_once() {
    let mut scheduler = LoadScheduler::new(0, 4);
    assert_eq!(scheduler.next_action(), SchedulerAction::Finish(Ok(())));
    let mut scheduler = LoadScheduler::new(0, 0);
    assert_eq!(scheduler.next_action(), SchedulerAction::Finish(Ok(())));
}

#[test]
fn scheduler_without_concurrency_stalls() {
    let mut scheduler = LoadScheduler::new(10, 0);
    assert_eq!(scheduler.next_action(), SchedulerAction::Stalled);
    assert_eq!(scheduler.next_action(), SchedulerAction::Stalled);
    assert_eq!(scheduler.batches_in_flight(), 0);
}

#[test]
fn scheduler_never_exceeds_the_limit() {
    for limit in 1..=7u32 {
        let mut scheduler = LoadScheduler::new(20000, limit);
        let mut dispatched = 0;
        let mut finished = 0;
        loop {
            match scheduler.next_action() {
                SchedulerAction::Dispatch(_) => {
                    dispatched += 1;
                    assert!(scheduler.batches_in_flight() <= limit);
                }
                SchedulerAction::Wait => {
                    assert_eq!(scheduler.batches_in_flight(), limit.min(20 - finished));
                    scheduler.complete(Ok(()));
                    finished += 1;
                }
                SchedulerAction::Stalled => panic!("the limit admits a batch"),
                SchedulerAction::Finish(result) => {
                    assert_eq!(result, Ok(()));
                    break;
                }
            }
        }
        assert_eq!(dispatched, 20);
        assert_eq!(finished, 20);
    }
}

#[test]
fn drain_then_report() {
    let failure = ArangoError::InvalidResponse(
        "Failed to insert documents: 500 Internal Server Error - batch 2".to_string(),
    );
    let mut scheduler = LoadScheduler::new(5000, 5);
    let mut batches = Vec::new();
    loop {
        match scheduler.next_action() {
            SchedulerAction::Dispatch(next) => batches.push(next),
            SchedulerAction::Wait => break,
            other => panic!("unexpected {:?}", other),
        }
    }
    assert_eq!(batches, batch_ranges(5000));
    assert_eq!(batches.len(), 5);
    scheduler.complete(Ok(()));
    scheduler.complete(Err(failure.clone()));
    assert_eq!(scheduler.next_action(), SchedulerAction::Wait);
    scheduler.complete(Ok(()));
    assert_eq!(scheduler.next_action(), SchedulerAction::Wait);
    scheduler.complete(Ok(()));
    assert_eq!(scheduler.next_action(), SchedulerAction::Wait);
    scheduler.complete(Ok(()));
    assert_eq!(scheduler.next_action(), SchedulerAction::Finish(Err(failure)));
}

#[test]
fn failure_does_not_stop_later_batches() {
    let failure = ArangoError::RequestError("connection reset".to_string());
    let mut scheduler = LoadScheduler::new(5000, 1);
    let mut attempted = Vec::new();
    let result = loop {
        match scheduler.next_action() {
            SchedulerAction::Dispatch(next) => attempted.push(next),
            SchedulerAction::Wait => {
                if attempted.len() == 2 {
                    scheduler.complete(Err(failure.clone()));
                } else {
                    scheduler.complete(Ok(()));
                }
            }
            SchedulerAction::Stalled => panic!("the limit admits a batch"),
            SchedulerAction::Finish(result) => break result,
        }
    };
    assert_eq!(attempted, batch_ranges(5000));
    assert_eq!(result, Err(failure));
}

#[test]
fn first_failure_in_order_of_finishing_is_reported() {
    let first = ArangoError::InvalidResponse("first".to_string());
    let second = ArangoError::RequestError("second".to_string());
    let mut scheduler = LoadScheduler::new(3000, 3);
    for _ in 0..3 {
        assert!(matches!(scheduler.next_action(), SchedulerAction::Dispatch(_)));
    }
    scheduler.complete(Ok(()));
    scheduler.complete(Err(first.clone()));
    scheduler.complete(Err(second));
    assert_eq!(scheduler.next_action(), SchedulerAction::Finish(Err(first)));
}

#[test]
fn generated_batch_has_one_document_for_each_index() {
    let documents = generate_batch(Batch { start: 2001, end: 2500 }, 100, 5);
    assert_eq!(documents.len(), 500);
    for (i, document) in documents.iter().enumerate() {
        assert_eq!(document.fields.len(), 8);
        assert_eq!(document.fields[0].name, "_key");
        assert_eq!(document.fields[0].value, FieldValue::Text(format!("K{}", 2001 + i)));
        match &document.fields[3].value {
            FieldValue::Text(text) => assert_eq!(text.len(), 10),
            _ => panic!("a filler attribute holds a text"),
        }
    }
}

#[test]
fn generated_batch_edges() {
    assert_eq!(generate_batch(Batch { start: 7, end: 7 }, 0, 0).len(), 1);
    assert_eq!(generate_batch(Batch { start: 8, end: 7 }, 0, 0).len(), 0);
    let last = generate_batch(Batch { start: u32::MAX - 1, end: u32::MAX }, 0, 0);
    assert_eq!(last.len(), 2);
    assert_eq!(last[1].fields[0].value, FieldValue::Text("K4294967295".to_string()));
}

#[test]
fn selected_endpoint_is_one_of_them() {
    let all = endpoints();
    let mut seen = [false; 3];
    for _ in 0..500 {
        let index = select_endpoint(&all);
        assert!(index < 3);
        seen[index] = true;
    }
    assert_eq!(seen, [true, true, true]);
    let one = vec!["http://only".to_string()];
    for _ in 0..20 {
        assert_eq!(select_endpoint(&one), 0);
    }
}

#[test]
fn insert_request_at_an_endpoint() {
    let request =
        insert_batch_request_at(&endpoints(), 1, "t_crud", "c2", Batch { start: 1, end: 10 }, 100, 5);
    assert_eq!(request.method, Method::Post);
    assert_eq!(request.url, "http://h2/_db/t_crud/_api/document/c2");
    match request.payload {
        Payload::Array(documents) => {
            assert_eq!(documents.len(), 10);
            assert_eq!(documents[9].fields[0].value, FieldValue::Text("K10".to_string()));
        }
        _ => panic!("the body is an array"),
    }
}

#[test]
fn insert_request_goes_to_some_endpoint() {
    let all = endpoints();
    let urls: Vec<String> =
        all.iter().map(|e| format!("{}/_db/d/_api/document/c1", e)).collect();
    let mut seen = [false; 3];
    for _ in 0..300 {
        let request = insert_batch_request(&all, "d", "c1", Batch { start: 1, end: 1 }, 60, 1);
        let index = urls.iter().position(|u| *u == request.url).unwrap();
        seen[index] = true;
    }
    assert_eq!(seen, [true, true, true]);
}
