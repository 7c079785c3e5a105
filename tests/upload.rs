use transfer_manager::context::{UploadContext, UploadRequest};
use transfer_manager::error::{BuildError, UploadError};
use transfer_manager::handle::{
    Action, CompleteOutput, CompleteRequest, CompletedPart, HandleState, UploadHandle,
};
use transfer_manager::plan::{plan_parts, PartRange};
use transfer_manager::response::UploadResponseBuilder;

fn request() -> UploadRequest {
    UploadRequest {
        bucket: "test-bucket".to_string(),
        key: "big-object".to_string(),
        request_payer: Some("requester".to_string()),
        expected_bucket_owner: Some("111122223333".to_string()),
        sse_customer_algorithm: None,
        sse_customer_key: None,
        sse_customer_key_md5: None,
    }
}

fn started_builder() -> UploadResponseBuilder {
    UploadResponseBuilder::new().set_initial_fields(
        Some("test-bucket".to_string()),
        Some("big-object".to_string()),
        Some("upload-1".to_string()),
    )
}

/// A handle with a session and `n` scheduled parts.
fn handle_with_parts(n: u32) -> UploadHandle {
    let mut h = UploadHandle::new(UploadContext::new(request()));
    h.set_response(started_builder()).unwrap();
    for i in 1..=n {
        assert_eq!(h.spawn_part(), Ok(i));
    }
    h
}

fn part(n: u32, tag: &str) -> Result<CompletedPart, UploadError> {
    Ok(CompletedPart { part_number: n, e_tag: tag.to_string() })
}

fn service_error(text: &str) -> Result<CompletedPart, UploadError> {
    Err(UploadError::Service(text.to_string()))
}

fn upload_failed(cause: UploadError) -> UploadError {
    UploadError::UploadFailed(Box::new(cause), Some("upload-1".to_string()))
}

fn expect_finalize(a: Action) -> CompleteRequest {
    match a {
        Action::Finalize(req) => req,
        other => panic!("expected a finalization call, got {:?}", other),
    }
}

fn numbers(req: &CompleteRequest) -> Vec<u32> {
    req.parts.iter().map(|p| p.part_number).collect()
}

#[test]
fn three_parts_succeed_in_order() {
    let mut h = handle_with_parts(3);
    assert!(matches!(h.join(), Action::AwaitNext));
    assert!(matches!(h.part_finished(part(1, "a")), Action::AwaitNext));
    assert!(matches!(h.part_finished(part(2, "b")), Action::AwaitNext));
    let req = expect_finalize(h.part_finished(part(3, "c")));
    assert_eq!(
        req.parts,
        vec![
            CompletedPart { part_number: 1, e_tag: "a".to_string() },
            CompletedPart { part_number: 2, e_tag: "b".to_string() },
            CompletedPart { part_number: 3, e_tag: "c".to_string() },
        ]
    );
    assert_eq!(req.upload_id, "upload-1");
    assert_eq!(req.request.bucket, "test-bucket");
    assert_eq!(req.request.key, "big-object");
    assert_eq!(req.request.request_payer, Some("requester".to_string()));
    assert_eq!(req.request.expected_bucket_owner, Some("111122223333".to_string()));
    assert_eq!(h.state(), HandleState::Completing);
    let out = CompleteOutput {
        e_tag: Some("object-tag".to_string()),
        expiration: None,
        version_id: Some("v7".to_string()),
    };
    match h.finalized(Ok(out)) {
        Action::Finish(Ok(resp)) => {
            assert_eq!(resp.e_tag, "object-tag");
            assert_eq!(resp.version_id, Some("v7".to_string()));
            assert_eq!(resp.upload_id, Some("upload-1".to_string()));
            assert_eq!(resp.bucket, "test-bucket");
            assert_eq!(resp.key, "big-object");
        }
        other => panic!("expected a response, got {:?}", other),
    }
    assert_eq!(h.state(), HandleState::Completed);
}

#[test]
fn parts_are_ordered_whatever_the_arrival_order() {
    let orders: Vec<Vec<u32>> = vec![
        vec![1, 2, 3, 4, 5],
        vec![5, 4, 3, 2, 1],
        vec![3, 1, 5, 2, 4],
        vec![2, 5, 1, 4, 3],
    ];
    for order in orders {
        let mut h = handle_with_parts(5);
        assert!(matches!(h.join(), Action::AwaitNext));
        let mut last = None;
        for n in &order {
            last = Some(h.part_finished(part(*n, &format!("tag-{}", n))));
        }
        let req = expect_finalize(last.unwrap());
        assert_eq!(numbers(&req), vec![1, 2, 3, 4, 5]);
        for p in &req.parts {
            assert_eq!(p.e_tag, format!("tag-{}", p.part_number));
        }
    }
}

#[test]
fn finalization_names_every_part_once() {
    let mut h = handle_with_parts(8);
    assert!(matches!(h.join(), Action::AwaitNext));
    let order = [8u32, 2, 6, 4, 1, 7, 3, 5];
    let mut last = None;
    for n in order {
        last = Some(h.part_finished(part(n, "t")));
    }
    let req = expect_finalize(last.unwrap());
    assert_eq!(req.parts.len(), 8);
    assert_eq!(numbers(&req), (1..=8).collect::<Vec<u32>>());
}

#[test]
fn failing_part_cancels_and_drains_the_rest() {
    let mut h = handle_with_parts(3);
    assert!(matches!(h.join(), Action::AwaitNext));
    assert!(matches!(h.part_finished(service_error("part 2 failed")), Action::CancelAll));
    assert_eq!(h.state(), HandleState::Draining);
    assert_eq!(h.in_flight(), 2);
    assert!(matches!(h.part_finished(part(1, "a")), Action::AwaitNext));
    assert_eq!(h.in_flight(), 1);
    match h.part_finished(service_error("cancelled")) {
        Action::Finish(Err(e)) => assert_eq!(
            e,
            upload_failed(UploadError::Service("part 2 failed".to_string()))
        ),
        other => panic!("expected the part failure, got {:?}", other),
    }
    assert_eq!(h.in_flight(), 0);
    assert_eq!(h.state(), HandleState::Failed);
}

#[test]
fn failure_of_any_part_never_finalizes() {
    for k in 1..=4u32 {
        let mut h = handle_with_parts(4);
        assert!(matches!(h.join(), Action::AwaitNext));
        let mut finished = None;
        for n in 1..=4u32 {
            let r = if n == k { service_error("boom") } else { part(n, "t") };
            let a = h.part_finished(r);
            assert!(!matches!(a, Action::Finalize(_)));
            if let Action::Finish(r) = a {
                finished = Some(r);
            }
        }
        assert_eq!(
            finished,
            Some(Err(upload_failed(UploadError::Service("boom".to_string()))))
        );
        assert_eq!(h.in_flight(), 0);
    }
}

#[test]
fn last_part_failing_reports_at_once() {
    let mut h = handle_with_parts(2);
    assert!(matches!(h.join(), Action::AwaitNext));
    assert!(matches!(h.part_finished(part(1, "a")), Action::AwaitNext));
    match h.part_finished(service_error("late")) {
        Action::Finish(Err(e)) => {
            assert_eq!(e, upload_failed(UploadError::Service("late".to_string())))
        }
        other => panic!("expected the failure, got {:?}", other),
    }
    assert_eq!(h.state(), HandleState::Failed);
}

#[test]
fn unexpected_or_repeated_part_fails_the_upload() {
    let mut h = handle_with_parts(3);
    assert!(matches!(h.join(), Action::AwaitNext));
    assert!(matches!(h.part_finished(part(2, "b")), Action::AwaitNext));
    assert!(matches!(h.part_finished(part(2, "b")), Action::CancelAll));
    match h.part_finished(part(1, "a")) {
        Action::Finish(Err(e)) => assert_eq!(e, upload_failed(UploadError::UnexpectedPart(2))),
        other => panic!("expected a failure, got {:?}", other),
    }

    let mut h = handle_with_parts(1);
    assert!(matches!(h.join(), Action::AwaitNext));
    match h.part_finished(part(9, "x")) {
        Action::Finish(Err(e)) => assert_eq!(e, upload_failed(UploadError::UnexpectedPart(9))),
        other => panic!("expected a failure, got {:?}", other),
    }
}

#[test]
fn abort_after_two_of_three_parts() {
    let mut h = handle_with_parts(3);
    assert!(matches!(h.abort(), Action::CancelAll));
    assert_eq!(h.state(), HandleState::Aborting);
    assert!(matches!(h.part_finished(part(1, "a")), Action::AwaitNext));
    assert!(matches!(h.part_finished(part(2, "b")), Action::AwaitNext));
    match h.part_finished(service_error("cancelled")) {
        Action::Finish(Err(e)) => assert_eq!(
            e,
            UploadError::AbortCleanupNotPerformed(Some("upload-1".to_string()))
        ),
        other => panic!("expected the cleanup condition, got {:?}", other),
    }
    assert_eq!(h.state(), HandleState::Aborted);
    assert_eq!(h.in_flight(), 0);
    assert!(matches!(h.join(), Action::Finish(Err(UploadError::HandleClosed))));
}

#[test]
fn abort_with_nothing_in_flight() {
    let mut h = handle_with_parts(0);
    match h.abort() {
        Action::Finish(Err(e)) => assert_eq!(
            e,
            UploadError::AbortCleanupNotPerformed(Some("upload-1".to_string()))
        ),
        other => panic!("expected the cleanup condition, got {:?}", other),
    }
    assert!(matches!(h.abort(), Action::Finish(Err(UploadError::HandleClosed))));
}

#[test]
fn abort_while_joining() {
    let mut h = handle_with_parts(2);
    assert!(matches!(h.join(), Action::AwaitNext));
    assert!(matches!(h.part_finished(part(1, "a")), Action::AwaitNext));
    assert!(matches!(h.abort(), Action::CancelAll));
    assert!(matches!(
        h.part_finished(part(2, "b")),
        Action::Finish(Err(UploadError::AbortCleanupNotPerformed(_)))
    ));
}

#[test]
fn no_parts_after_join() {
    let mut h = handle_with_parts(1);
    assert!(matches!(h.join(), Action::AwaitNext));
    assert_eq!(h.spawn_part(), Err(UploadError::HandleClosed));
    assert!(matches!(h.join(), Action::Finish(Err(UploadError::HandleClosed))));
}

#[test]
fn parts_need_a_session() {
    let mut h = UploadHandle::new(UploadContext::new(request()));
    assert_eq!(h.spawn_part(), Err(UploadError::MissingUploadId));
    assert!(matches!(h.join(), Action::Finish(Err(UploadError::SingleShotUnsupported))));
    assert_eq!(h.state(), HandleState::Failed);
}

#[test]
fn join_without_parts_finalizes_empty_list() {
    let mut h = handle_with_parts(0);
    let req = expect_finalize(h.join());
    assert!(req.parts.is_empty());
}

#[test]
fn session_id_cannot_be_set_twice() {
    let mut ctx = UploadContext::new(request());
    assert!(!ctx.is_multipart_upload());
    assert_eq!(ctx.set_upload_id("first".to_string()), Ok(()));
    assert_eq!(ctx.set_upload_id("second".to_string()), Err(UploadError::UploadIdAlreadySet));
    assert_eq!(ctx.upload_id(), Some(&"first".to_string()));
    assert!(ctx.is_multipart_upload());

    let mut h = handle_with_parts(0);
    assert_eq!(h.set_response(started_builder()), Err(UploadError::UploadIdAlreadySet));
    assert_eq!(h.context().upload_id(), Some(&"upload-1".to_string()));
    let no_id = UploadResponseBuilder::new();
    assert_eq!(h.set_response(no_id), Ok(()));
}

#[test]
fn finalization_failure_is_reported() {
    let mut h = handle_with_parts(1);
    assert!(matches!(h.join(), Action::AwaitNext));
    expect_finalize(h.part_finished(part(1, "a")));
    match h.finalized(Err(UploadError::Service("complete failed".to_string()))) {
        Action::Finish(Err(e)) => assert_eq!(e, UploadError::Service("complete failed".to_string())),
        other => panic!("expected a failure, got {:?}", other),
    }
    assert_eq!(h.state(), HandleState::Failed);
}

#[test]
fn finalization_without_tag_is_invalid() {
    let mut h = handle_with_parts(1);
    assert!(matches!(h.join(), Action::AwaitNext));
    expect_finalize(h.part_finished(part(1, "a")));
    let out = CompleteOutput { e_tag: None, expiration: None, version_id: None };
    match h.finalized(Ok(out)) {
        Action::Finish(Err(e)) => {
            assert_eq!(e, UploadError::InvalidResponse(BuildError::MissingETag))
        }
        other => panic!("expected a failure, got {:?}", other),
    }
}

#[test]
fn finalization_with_incomplete_builder() {
    let mut h = UploadHandle::new(UploadContext::new(request()));
    let mut b = UploadResponseBuilder::new();
    b.upload_id = Some("u".to_string());
    h.set_response(b).unwrap();
    assert_eq!(h.spawn_part(), Ok(1));
    assert!(matches!(h.join(), Action::AwaitNext));
    expect_finalize(h.part_finished(part(1, "a")));
    let out = CompleteOutput { e_tag: Some("t".to_string()), expiration: None, version_id: None };
    match h.finalized(Ok(out)) {
        Action::Finish(Err(e)) => {
            assert_eq!(e, UploadError::InvalidResponse(BuildError::MissingBucket))
        }
        other => panic!("expected a failure, got {:?}", other),
    }
    assert!(matches!(
        h.finalized(Err(UploadError::HandleClosed)),
        Action::Finish(Err(UploadError::HandleClosed))
    ));
}

#[test]
fn results_outside_a_join_are_refused() {
    let mut h = handle_with_parts(1);
    assert!(matches!(
        h.part_finished(part(1, "a")),
        Action::Finish(Err(UploadError::HandleClosed))
    ));
    assert_eq!(h.in_flight(), 1);
}

#[test]
fn build_twice_gives_equal_results() {
    let b = started_builder().set_final_fields(Some("etag".to_string()), None, None);
    let first = b.build(true);
    let second = b.build(true);
    assert_eq!(first, second);
    let resp = first.unwrap();
    assert_eq!(resp.e_tag, "etag");
    assert_eq!(resp.upload_id, Some("upload-1".to_string()));
}

#[test]
fn build_before_required_fields_fails() {
    let b = UploadResponseBuilder::new();
    assert_eq!(b.build(false), Err(BuildError::MissingBucket));
    assert_eq!(b.build(false), Err(BuildError::MissingBucket));
    let b = b.set_initial_fields(Some("b".to_string()), None, None);
    assert_eq!(b.build(true), Err(BuildError::MissingKey));
    let b = b.set_initial_fields(Some("b".to_string()), Some("k".to_string()), None);
    assert_eq!(b.build(true), Err(BuildError::MissingUploadId));
    assert_eq!(b.build(false), Err(BuildError::MissingETag));
    assert_eq!(b.build(false), Err(BuildError::MissingETag));
    let b = b.set_e_tag(Some("e".to_string())).set_expiration(Some("x".to_string()));
    assert_eq!(b.build(true), Err(BuildError::MissingUploadId));
    let resp = b.build(false).unwrap();
    assert_eq!(resp.expiration, Some("x".to_string()));
    assert_eq!(resp.upload_id, None);
}

#[test]
fn plan_splits_into_contiguous_parts() {
    let parts = plan_parts(10, 4).unwrap();
    assert_eq!(
        parts,
        vec![
            PartRange { part_number: 1, start: 0, end: 4 },
            PartRange { part_number: 2, start: 4, end: 8 },
            PartRange { part_number: 3, start: 8, end: 10 },
        ]
    );
    let parts = plan_parts(8, 4).unwrap();
    assert_eq!(parts.len(), 2);
    assert_eq!(parts[1], PartRange { part_number: 2, start: 4, end: 8 });
    assert_eq!(plan_parts(3, 5).unwrap(), vec![PartRange { part_number: 1, start: 0, end: 3 }]);
}

#[test]
fn plan_edge_cases() {
    assert_eq!(plan_parts(0, 4).unwrap(), vec![]);
    assert_eq!(plan_parts(10, 0), Err(UploadError::InvalidPartSize));
    assert_eq!(plan_parts(u64::MAX, 1), Err(UploadError::TooManyParts));
    let parts = plan_parts(u64::MAX, u64::MAX).unwrap();
    assert_eq!(parts, vec![PartRange { part_number: 1, start: 0, end: u64::MAX }]);
}

/// A handle whose context has a session but no response builder.
fn handle_without_builder(parts: u32) -> UploadHandle {
    let mut ctx = UploadContext::new(request());
    ctx.set_upload_id("upload-1".to_string()).unwrap();
    let mut h = UploadHandle::new(ctx);
    for i in 1..=parts {
        assert_eq!(h.spawn_part(), Ok(i));
    }
    h
}

#[test]
fn join_without_builder_fails_before_finalizing() {
    let mut h = handle_without_builder(2);
    assert!(matches!(h.join(), Action::CancelAll));
    assert!(matches!(h.part_finished(part(1, "a")), Action::AwaitNext));
    match h.part_finished(part(2, "b")) {
        Action::Finish(Err(e)) => assert_eq!(e, upload_failed(UploadError::MissingResponse)),
        other => panic!("expected a failure, got {:?}", other),
    }
    assert_eq!(h.state(), HandleState::Failed);

    let mut h = handle_without_builder(0);
    match h.join() {
        Action::Finish(Err(e)) => assert_eq!(e, upload_failed(UploadError::MissingResponse)),
        other => panic!("expected a failure, got {:?}", other),
    }
}

#[test]
fn multipart_response_needs_its_session_id() {
    let mut h = handle_with_parts(1);
    assert_eq!(h.set_response(UploadResponseBuilder::new().set_initial_fields(
        Some("test-bucket".to_string()),
        Some("big-object".to_string()),
        None,
    )), Ok(()));
    assert!(matches!(h.join(), Action::AwaitNext));
    expect_finalize(h.part_finished(part(1, "a")));
    let out = CompleteOutput { e_tag: Some("t".to_string()), expiration: None, version_id: None };
    match h.finalized(Ok(out)) {
        Action::Finish(Err(e)) => {
            assert_eq!(e, UploadError::InvalidResponse(BuildError::MissingUploadId))
        }
        other => panic!("expected a failure, got {:?}", other),
    }
    assert_eq!(h.state(), HandleState::Failed);
}
