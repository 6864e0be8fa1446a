use pool_commands::{
    frame_listing, list_result, refusal, refused_reply, Action, ErrorKind, PoolCommand, PoolCommandExecutor, PoolError,
    PoolInfo, Reply, ServiceCall, ServiceOutcome, DEFAULT_PROTOCOL_VERSION,
};

fn service_error(kind: ErrorKind) -> PoolError {
    PoolError::new(kind, "service failed".to_string())
}

fn info(name: &str) -> PoolInfo {
    PoolInfo { pool: name.to_string() }
}

#[test]
fn create_open_close_ack_scenario() {
    let mut ex: PoolCommandExecutor<u32> = PoolCommandExecutor::new();

    let a = ex.execute(PoolCommand::Create("pool1".to_string(), None, 1));
    assert_eq!(a, Action::Call(ServiceCall::Create("pool1".to_string(), None), 1));
    let a = ex.resume(ServiceOutcome::Create(Ok(())), 1);
    assert_eq!(a, Action::Deliver(1, Reply::Done(Ok(()))));

    let a = ex.execute(PoolCommand::Open("pool1".to_string(), None, 2));
    assert_eq!(a, Action::Call(ServiceCall::Open("pool1".to_string(), None), 2));
    let a = ex.resume(ServiceOutcome::Open(Ok(7)), 2);
    assert_eq!(a, Action::Deliver(2, Reply::Opened(Ok(7))));

    let a = ex.execute(PoolCommand::Close(7, 3));
    assert_eq!(a, Action::Call(ServiceCall::Close(7), 3));
    let a = ex.resume(ServiceOutcome::Close(Ok(40)), 3);
    assert_eq!(a, Action::Wait);
    assert!(ex.is_pending(40));
    assert_eq!(ex.pending_count(), 1);

    let a = ex.execute(PoolCommand::CloseAck(40, Ok(())));
    assert_eq!(a, Action::Deliver(3, Reply::Done(Ok(()))));
    assert!(!ex.is_pending(40));
    assert_eq!(ex.pending_count(), 0);
}

#[test]
fn close_callback_gets_the_acknowledged_error_once() {
    let mut ex: PoolCommandExecutor<u32> = PoolCommandExecutor::new();
    assert_eq!(ex.resume(ServiceOutcome::Close(Ok(5)), 9), Action::Wait);
    let err = service_error(ErrorKind::PoolTerminated);
    let a = ex.close_ack(5, Err(err.clone()));
    assert_eq!(a, Action::Deliver(9, Reply::Done(Err(err))));
    let a = ex.close_ack(5, Ok(()));
    assert_eq!(a, Action::Orphan(5, Ok(())));
}

#[test]
fn ack_without_pending_close_is_an_orphan() {
    let mut ex: PoolCommandExecutor<u32> = PoolCommandExecutor::new();
    let a = ex.execute(PoolCommand::CloseAck(12, Ok(())));
    assert_eq!(a, Action::Orphan(12, Ok(())));
    assert_eq!(ex.pending_count(), 0);
}

#[test]
fn failed_close_is_delivered_at_once() {
    let mut ex: PoolCommandExecutor<u32> = PoolCommandExecutor::new();
    let err = service_error(ErrorKind::InvalidPoolHandle);
    let a = ex.resume(ServiceOutcome::Close(Err(err.clone())), 4);
    assert_eq!(a, Action::Deliver(4, Reply::Done(Err(err))));
    assert_eq!(ex.pending_count(), 0);
}

#[test]
fn duplicate_correlation_id_is_refused() {
    let mut ex: PoolCommandExecutor<u32> = PoolCommandExecutor::new();
    assert_eq!(ex.close(Ok(8), 1), None);
    match ex.close(Ok(8), 2) {
        Some((cb, Err(e))) => {
            assert_eq!(cb, 2);
            assert_eq!(e.kind, ErrorKind::InvalidState);
        }
        other => panic!("unexpected {:?}", other),
    }
    assert_eq!(ex.close_ack(8, Ok(())), Action::Deliver(1, Reply::Done(Ok(()))));
}

#[test]
fn distinct_ids_do_not_cross_deliver() {
    let mut ex: PoolCommandExecutor<u32> = PoolCommandExecutor::new();
    assert_eq!(ex.close(Ok(1), 100), None);
    assert_eq!(ex.close(Ok(2), 200), None);
    let err = service_error(ErrorKind::PoolTimeout);
    assert_eq!(ex.close_ack(2, Err(err.clone())), Action::Deliver(200, Reply::Done(Err(err))));
    assert!(ex.is_pending(1));
    assert_eq!(ex.close(Ok(3), 300), None);
    assert_eq!(ex.close_ack(1, Ok(())), Action::Deliver(100, Reply::Done(Ok(()))));
    assert_eq!(ex.close_ack(3, Ok(())), Action::Deliver(300, Reply::Done(Ok(()))));
    assert_eq!(ex.pending_count(), 0);
}

#[test]
fn protocol_versions_one_and_two_are_accepted() {
    let mut ex: PoolCommandExecutor<u32> = PoolCommandExecutor::new();
    assert_eq!(ex.protocol_version(), DEFAULT_PROTOCOL_VERSION);
    assert_eq!(ex.set_protocol_version(1), Ok(()));
    assert_eq!(ex.protocol_version(), 1);
    let a = ex.execute(PoolCommand::SetProtocolVersion(2, 6));
    assert_eq!(a, Action::Deliver(6, Reply::Done(Ok(()))));
    assert_eq!(ex.protocol_version(), 2);
}

#[test]
fn other_protocol_versions_are_refused() {
    let mut ex: PoolCommandExecutor<u32> = PoolCommandExecutor::new();
    assert_eq!(ex.set_protocol_version(1), Ok(()));
    for v in [0usize, 3, 100, usize::MAX] {
        let r = ex.set_protocol_version(v);
        assert_eq!(r.unwrap_err().kind, ErrorKind::PoolIncompatibleProtocolVersion);
        assert_eq!(ex.protocol_version(), 1);
    }
    match ex.execute(PoolCommand::SetProtocolVersion(0, 5)) {
        Action::Deliver(5, Reply::Done(Err(e))) => {
            assert_eq!(e.kind, ErrorKind::PoolIncompatibleProtocolVersion)
        }
        other => panic!("unexpected {:?}", other),
    }
    assert_eq!(ex.protocol_version(), 1);
}

#[test]
fn empty_catalog_lists_as_empty_array() {
    assert_eq!(list_result(Ok(vec![])), Ok("[]".to_string()));
    let mut ex: PoolCommandExecutor<u32> = PoolCommandExecutor::new();
    assert_eq!(ex.execute(PoolCommand::List(1)), Action::Call(ServiceCall::List, 1));
    let a = ex.resume(ServiceOutcome::List(Ok(vec![])), 1);
    assert_eq!(a, Action::Deliver(1, Reply::Listed(Ok("[]".to_string()))));
}

#[test]
fn catalog_lists_each_pool_in_order() {
    let r = list_result(Ok(vec![info("pool1"), info("pool2")]));
    assert_eq!(r, Ok(r#"[{"pool":"pool1"},{"pool":"pool2"}]"#.to_string()));
}

#[test]
fn pool_names_are_escaped_in_the_listing() {
    let r = list_result(Ok(vec![info("a\"b\\c")]));
    assert_eq!(r, Ok(r#"[{"pool":"a\"b\\c"}]"#.to_string()));
}

#[test]
fn list_passes_service_error_on() {
    let err = service_error(ErrorKind::IOError);
    assert_eq!(list_result(Err(err.clone())), Err(err));
}

#[test]
fn frame_listing_joins_quoted_names() {
    assert_eq!(frame_listing(&vec![]), "[]");
    let quoted = vec!["\"x\"".to_string(), "\"y\"".to_string(), "\"z\"".to_string()];
    assert_eq!(frame_listing(&quoted), r#"[{"pool":"x"},{"pool":"y"},{"pool":"z"}]"#);
}

#[test]
fn open_and_refresh_deliver_service_outcome() {
    let mut ex: PoolCommandExecutor<u32> = PoolCommandExecutor::new();
    let err = service_error(ErrorKind::PoolNotCreated);
    assert_eq!(
        ex.resume(ServiceOutcome::Open(Err(err.clone())), 1),
        Action::Deliver(1, Reply::Opened(Err(err.clone())))
    );
    assert_eq!(ex.execute(PoolCommand::Refresh(3, 2)), Action::Call(ServiceCall::Refresh(3), 2));
    assert_eq!(
        ex.resume(ServiceOutcome::Refresh(Err(err.clone())), 2),
        Action::Deliver(2, Reply::Done(Err(err)))
    );
    assert_eq!(ex.resume(ServiceOutcome::Refresh(Ok(())), 3), Action::Deliver(3, Reply::Done(Ok(()))));
}

#[test]
fn create_and_delete_pass_results_through() {
    let mut ex: PoolCommandExecutor<u32> = PoolCommandExecutor::new();
    assert_eq!(
        ex.execute(PoolCommand::Delete("p".to_string(), 1)),
        Action::Call(ServiceCall::Delete("p".to_string()), 1)
    );
    let err = service_error(ErrorKind::PoolConfigAlreadyExists);
    assert_eq!(
        ex.resume(ServiceOutcome::Create(Err(err.clone())), 2),
        Action::Deliver(2, Reply::Done(Err(err)))
    );
    assert_eq!(ex.resume(ServiceOutcome::Delete(Ok(())), 1), Action::Deliver(1, Reply::Done(Ok(()))));
    assert_eq!(ex.pending_count(), 0);
}

#[test]
fn control_characters_are_escaped_in_the_listing() {
    let r = list_result(Ok(vec![info("a\u{1}\n\u{1f}\u{8}\u{c}\t\rb")]));
    assert_eq!(r, Ok(r#"[{"pool":"a\u0001\n\u001f\b\f\t\rb"}]"#.to_string()));
    let r = list_result(Ok(vec![info("é/ü")]));
    assert_eq!(r, Ok(r#"[{"pool":"é/ü"}]"#.to_string()));
}

#[test]
fn unreachable_state_refuses_commands_by_their_kind() {
    let e = PoolError::new(ErrorKind::InvalidState, "busy".to_string());
    assert_eq!(
        refusal(PoolCommand::Close(3, 1u32), e.clone()),
        Action::Deliver(1, Reply::Done(Err(e.clone())))
    );
    assert_eq!(
        refusal(PoolCommand::Open("p".to_string(), None, 2u32), e.clone()),
        Action::Deliver(2, Reply::Opened(Err(e.clone())))
    );
    assert_eq!(
        refusal(PoolCommand::List(3u32), e.clone()),
        Action::Deliver(3, Reply::Listed(Err(e.clone())))
    );
    assert_eq!(
        refusal(PoolCommand::SetProtocolVersion(1, 4u32), e.clone()),
        Action::Deliver(4, Reply::Done(Err(e.clone())))
    );
    assert_eq!(
        refusal(PoolCommand::<u32>::CloseAck(9, Ok(())), e.clone()),
        Action::Orphan(9, Ok(()))
    );
    assert_eq!(refused_reply(&ServiceCall::List, e.clone()), Reply::Listed(Err(e.clone())));
    assert_eq!(
        refused_reply(&ServiceCall::Open("p".to_string(), None), e.clone()),
        Reply::Opened(Err(e.clone()))
    );
    assert_eq!(refused_reply(&ServiceCall::Close(5), e.clone()), Reply::Done(Err(e)));
}
