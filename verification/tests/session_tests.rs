use optee_teec::{
    ConnectionMethods, Context, Error, ErrorKind, ErrorOrigin, InvokeCommandReply, Operation,
    OpenSessionReply, ParamDirection, ParamNone, ParamTmpRef, ParamType, ParamTypes, ParamValue,
    Session, Uuid,
};

type PlainOperation = Operation<ParamNone, ParamNone, ParamNone, ParamNone>;

fn demo_uuid() -> Uuid {
    Uuid::parse_str("8abcf200-2450-11e4-abe2-0002a5d5c51b").unwrap()
}

fn open_ok(context: &mut Context, id: u32) -> Session {
    Session::new(
        context,
        demo_uuid(),
        ConnectionMethods::LoginPublic,
        None::<&PlainOperation>,
        OpenSessionReply { status: 0, origin: 0, session_id: id },
    )
    .unwrap()
}

#[test]
fn context_open_follows_the_native_status() {
    let context = Context::open(0).unwrap();
    assert_eq!(context.sessions_opened(), 0);
    assert_eq!(context.sessions_closed(), 0);
    match Context::open(0xFFFF000C) {
        Err(Error::ConnectionError { code }) => assert_eq!(code, 0xFFFF000C),
        other => panic!("unexpected outcome: {:?}", other.is_ok()),
    }
}

#[test]
fn failed_open_session_reports_kind_and_origin_and_counts_nothing() {
    let mut context = Context::open(0).unwrap();
    let r = Session::new(
        &mut context,
        demo_uuid(),
        ConnectionMethods::LoginUser,
        None::<&PlainOperation>,
        OpenSessionReply { status: 0xFFFF0006, origin: 3, session_id: 0 },
    );
    assert_eq!(
        r.err(),
        Some(Error::SessionError { kind: ErrorKind::BadParameters, origin: ErrorOrigin::Tee })
    );
    assert_eq!(context.sessions_opened(), 0);
    assert_eq!(context.sessions_closed(), 0);
}

#[test]
fn n_lifecycles_issue_n_opens_and_n_closes() {
    let mut context = Context::open(0).unwrap();
    let mut sessions = Vec::new();
    for id in 0..3u32 {
        sessions.push(open_ok(&mut context, id));
    }
    assert_eq!(context.sessions_opened(), 3);
    assert_eq!(context.sessions_closed(), 0);

    // a failing invoke in between moves no counter
    let mut op = Operation::new(ParamNone, ParamNone, ParamNone, ParamNone);
    let r = sessions[1].invoke_command(
        7,
        &mut op,
        InvokeCommandReply { status: 0xFFFF0000, origin: 2 },
    );
    assert!(r.is_err());

    for s in sessions.iter_mut() {
        assert!(s.close(&mut context));
    }
    assert_eq!(context.sessions_opened(), 3);
    assert_eq!(context.sessions_closed(), 3);

    // a second close issues nothing and counts nothing
    for s in sessions.iter_mut() {
        assert!(!s.close(&mut context));
    }
    assert_eq!(context.sessions_opened(), 3);
    assert_eq!(context.sessions_closed(), 3);
}

#[test]
fn invoke_on_open_session_follows_the_native_status() {
    let mut context = Context::open(0).unwrap();
    let mut session = open_ok(&mut context, 11);
    assert_eq!(session.session_id(), 11);
    assert!(session.is_open());

    let mut op = Operation::new(
        ParamValue::new(1, 2, ParamDirection::Inout),
        ParamNone,
        ParamNone,
        ParamNone,
    );
    let ok = session.invoke_command(1, &mut op, InvokeCommandReply { status: 0, origin: 0 });
    assert_eq!(ok, Ok(()));
    let err = session.invoke_command(
        1,
        &mut op,
        InvokeCommandReply { status: 0xFFFF0002, origin: 4 },
    );
    assert_eq!(
        err,
        Err(Error::SessionError { kind: ErrorKind::Cancel, origin: ErrorOrigin::TrustedApp })
    );
    session.close(&mut context);
}

#[test]
fn invoke_after_close_fails_with_a_session_error() {
    let mut context = Context::open(0).unwrap();
    let mut session = open_ok(&mut context, 5);
    assert!(session.close(&mut context));
    assert!(!session.is_open());

    let mut op: PlainOperation = Operation::new(ParamNone, ParamNone, ParamNone, ParamNone);
    let r = session.invoke_command(2, &mut op, InvokeCommandReply { status: 0, origin: 0 });
    assert_eq!(
        r,
        Err(Error::SessionError { kind: ErrorKind::BadState, origin: ErrorOrigin::Api })
    );
}

#[test]
fn login_methods_use_the_fixed_codes() {
    assert_eq!(ConnectionMethods::LoginPublic.as_raw(), 0x0);
    assert_eq!(ConnectionMethods::LoginUser.as_raw(), 0x1);
    assert_eq!(ConnectionMethods::LoginGroup.as_raw(), 0x2);
    assert_eq!(ConnectionMethods::LoginApplication.as_raw(), 0x4);
    assert_eq!(ConnectionMethods::LoginUserApplication.as_raw(), 0x5);
    assert_eq!(ConnectionMethods::LoginGroupApplication.as_raw(), 0x6);
}

#[test]
fn param_type_codes_follow_the_closed_table() {
    assert_eq!(ParamType::Unused.as_raw(), 0x0);
    assert_eq!(ParamType::ValueInput.as_raw(), 0x1);
    assert_eq!(ParamType::ValueOutput.as_raw(), 0x2);
    assert_eq!(ParamType::ValueInout.as_raw(), 0x3);
    assert_eq!(ParamType::MemrefTempInput.as_raw(), 0x5);
    assert_eq!(ParamType::MemrefTempOutput.as_raw(), 0x6);
    assert_eq!(ParamType::MemrefTempInout.as_raw(), 0x7);
    assert_eq!(ParamType::MemrefWhole.as_raw(), 0xC);
    assert_eq!(ParamType::MemrefPartialInput.as_raw(), 0xD);
    assert_eq!(ParamType::MemrefPartialOutput.as_raw(), 0xE);
    assert_eq!(ParamType::MemrefPartialInout.as_raw(), 0xF);
}

#[test]
fn operation_packs_one_nibble_per_slot() {
    let op = Operation::new(
        ParamValue::new(0, 0, ParamDirection::Input),
        ParamTmpRef::new(vec![1, 2, 3], ParamDirection::Output),
        ParamNone,
        ParamNone,
    );
    assert_eq!(op.param_types(), 0x1 | (0x6 << 4));
    assert_eq!(op.started(), 0);

    let packed = ParamTypes::new(
        ParamType::ValueInout,
        ParamType::MemrefTempInput,
        ParamType::Unused,
        ParamType::MemrefWhole,
    );
    assert_eq!(packed.as_raw(), 0x3 | (0x5 << 4) | (0xC << 12));
}

#[test]
fn value_and_tmpref_parameters_keep_their_payload() {
    let value = ParamValue::new(17, 42, ParamDirection::Inout);
    assert_eq!(value.a(), 17);
    assert_eq!(value.b(), 42);
    let tmpref = ParamTmpRef::new(vec![9, 8, 7], ParamDirection::Input);
    assert_eq!(tmpref.buffer(), &[9, 8, 7]);
}
