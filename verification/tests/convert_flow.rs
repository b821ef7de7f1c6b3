use dcds::convert::{ConvertAction, ConvertEvent, ConvertProcess, InputCoin, SuspendedCoin};
use dcds::response::{Failure, Outcome};

fn coin(value: u64, valid: bool, quota: &[u8], wallet: &[u8]) -> InputCoin {
    InputCoin {
        value,
        signature_valid: valid,
        quota_field: quota.to_vec(),
        wallet_cert: wallet.to_vec(),
    }
}

fn row(id: &str, hex: &str) -> SuspendedCoin {
    SuspendedCoin { id: id.to_string(), quota_field_hex: hex.to_string() }
}

fn start() -> ConvertProcess {
    let (p, a) = ConvertProcess::new("c0ffee", "cloud-9".to_string());
    match a {
        ConvertAction::ParseRequest { request } => assert_eq!(request, vec![0xc0, 0xff, 0xee]),
        _ => panic!("expected ParseRequest"),
    }
    p
}

fn feed(p: &mut ConvertProcess, e: ConvertEvent) -> ConvertAction {
    assert!(p.can_step(&e));
    p.step(e)
}

#[test]
fn converts_one_hundred_into_two_fifties() {
    let mut p = start();
    let a = feed(
        &mut p,
        ConvertEvent::Parsed { inputs: vec![coin(100, true, &[0xab], &[0x01, 0x2f])], outputs: vec![(50, 2)] },
    );
    match &a {
        ConvertAction::CountSuspended { value, state, user } => {
            assert_eq!(user, "cloud-9");
            assert_eq!(*value, 50);
            assert_eq!(state, "suspended");
        },
        _ => panic!("expected CountSuspended"),
    }
    let a = feed(&mut p, ConvertEvent::Counted(Ok(3)));
    match a {
        ConvertAction::FindInput { quota_field_hex, owner_hex, state, user } => {
            assert_eq!(user, "cloud-9");
            assert_eq!(quota_field_hex, "ab");
            assert_eq!(owner_hex, "012f");
            assert_eq!(state, "circulation");
        },
        _ => panic!("expected FindInput"),
    }
    let a = feed(&mut p, ConvertEvent::Found(Ok(1)));
    match a {
        ConvertAction::RetireInput { quota_field_hex, state, user } => {
            assert_eq!(user, "cloud-9");
            assert_eq!(quota_field_hex, "ab");
            assert_eq!(state, "suspended");
        },
        _ => panic!("expected RetireInput"),
    }
    let a = feed(&mut p, ConvertEvent::Retired(Ok(())));
    match a {
        ConvertAction::LoadTarget { wallet_cert } => assert_eq!(wallet_cert, vec![0x01, 0x2f]),
        _ => panic!("expected LoadTarget"),
    }
    let a = feed(&mut p, ConvertEvent::TargetLoaded);
    match &a {
        ConvertAction::ListSuspended { value, state, user } => {
            assert_eq!(user, "cloud-9");
            assert_eq!(*value, 50);
            assert_eq!(state, "suspended");
        },
        _ => panic!("expected ListSuspended"),
    }
    let a = feed(
        &mut p,
        ConvertEvent::Listed(Ok(vec![row("a", "0A0B"), row("b", "ff"), row("c", "00")])),
    );
    match a {
        ConvertAction::PromoteRow { id, quota_field, owner_hex, state, user } => {
            assert_eq!(user, "cloud-9");
            assert_eq!(id, "a");
            assert_eq!(quota_field, vec![0x0a, 0x0b]);
            assert_eq!(owner_hex, "012f");
            assert_eq!(state, "circulation");
        },
        _ => panic!("expected PromoteRow"),
    }
    let a = feed(&mut p, ConvertEvent::Promoted(Ok(vec![0x10])));
    match a {
        ConvertAction::PromoteRow { id, quota_field, .. } => {
            assert_eq!(id, "b");
            assert_eq!(quota_field, vec![0xff]);
        },
        _ => panic!("expected PromoteRow"),
    }
    let a = feed(&mut p, ConvertEvent::Promoted(Ok(vec![0x20, 0x21])));
    match a {
        ConvertAction::Finish(Outcome::Success(Some(v))) => {
            assert_eq!(v, vec!["10".to_string(), "2021".to_string()])
        },
        _ => panic!("expected success"),
    }
}

#[test]
fn unequal_totals_are_refused() {
    let mut p = start();
    feed(&mut p, ConvertEvent::Parsed { inputs: vec![coin(100, true, &[1], &[2])], outputs: vec![(50, 1)] });
    let a = feed(&mut p, ConvertEvent::Counted(Ok(5)));
    assert!(matches!(a, ConvertAction::Finish(Outcome::Failure(Failure::CurrencyConvert))));
}

#[test]
fn shortage_is_refused_before_totals() {
    let mut p = start();
    feed(&mut p, ConvertEvent::Parsed { inputs: vec![coin(7, true, &[1], &[2])], outputs: vec![(50, 4)] });
    let a = feed(&mut p, ConvertEvent::Counted(Ok(3)));
    assert!(matches!(a, ConvertAction::Finish(Outcome::Failure(Failure::StrConverError))));
}

#[test]
fn database_error_while_counting() {
    let mut p = start();
    feed(&mut p, ConvertEvent::Parsed { inputs: vec![], outputs: vec![(1, 1)] });
    let a = feed(&mut p, ConvertEvent::Counted(Err("boom".to_string())));
    match a {
        ConvertAction::Finish(Outcome::Failure(Failure::DatabaseRunning(m))) => assert_eq!(m, "boom"),
        _ => panic!("expected database failure"),
    }
}

#[test]
fn bad_signature_is_refused() {
    let mut p = start();
    let a = feed(&mut p, ConvertEvent::Parsed { inputs: vec![coin(0, false, &[1], &[2])], outputs: vec![] });
    assert!(matches!(a, ConvertAction::Finish(Outcome::Failure(Failure::JsonParseError))));
}

#[test]
fn unknown_input_is_refused() {
    let mut p = start();
    feed(&mut p, ConvertEvent::Parsed { inputs: vec![coin(0, true, &[1], &[2])], outputs: vec![] });
    let a = feed(&mut p, ConvertEvent::Found(Ok(0)));
    assert!(matches!(a, ConvertAction::Finish(Outcome::Failure(Failure::DatabaseBuild))));
}

#[test]
fn nothing_suspended_for_an_output() {
    let mut p = start();
    feed(&mut p, ConvertEvent::Parsed { inputs: vec![], outputs: vec![(5, 0)] });
    feed(&mut p, ConvertEvent::Counted(Ok(0)));
    let a = feed(&mut p, ConvertEvent::TargetLoaded);
    assert!(matches!(a, ConvertAction::ListSuspended { value: 5, .. }));
    let a = feed(&mut p, ConvertEvent::Listed(Ok(vec![])));
    assert!(matches!(a, ConvertAction::Finish(Outcome::Failure(Failure::DatabaseBuild))));
}

#[test]
fn zero_count_output_takes_no_rows() {
    let mut p = start();
    let a = feed(&mut p, ConvertEvent::Parsed { inputs: vec![], outputs: vec![(5, 0)] });
    assert!(matches!(a, ConvertAction::CountSuspended { value: 5, .. }));
    let a = feed(&mut p, ConvertEvent::Counted(Ok(0)));
    match a {
        ConvertAction::LoadTarget { wallet_cert } => assert!(wallet_cert.is_empty()),
        _ => panic!("expected LoadTarget"),
    }
    feed(&mut p, ConvertEvent::TargetLoaded);
    let a = feed(&mut p, ConvertEvent::Listed(Ok(vec![row("x", "zz")])));
    match a {
        ConvertAction::Finish(Outcome::Success(Some(v))) => assert!(v.is_empty()),
        _ => panic!("expected success"),
    }
}

#[test]
fn refused_update_is_a_build_error() {
    let mut p = start();
    feed(&mut p, ConvertEvent::Parsed { inputs: vec![], outputs: vec![(0, 1)] });
    feed(&mut p, ConvertEvent::Counted(Ok(1)));
    feed(&mut p, ConvertEvent::TargetLoaded);
    feed(&mut p, ConvertEvent::Listed(Ok(vec![row("x", "01")])));
    let a = feed(&mut p, ConvertEvent::Promoted(Err(())));
    assert!(matches!(a, ConvertAction::Finish(Outcome::Failure(Failure::DatabaseBuild))));
}

#[test]
fn overflowing_sums_are_not_taken() {
    let p = start();
    let e = ConvertEvent::Parsed { inputs: vec![coin(u64::MAX, true, &[], &[]), coin(1, true, &[], &[])], outputs: vec![] };
    assert!(!p.can_step(&e));
    let e = ConvertEvent::Parsed { inputs: vec![], outputs: vec![(u64::MAX, 2)] };
    assert!(!p.can_step(&e));
    let mut p = start();
    feed(&mut p, ConvertEvent::Parsed { inputs: vec![], outputs: vec![(u64::MAX, 1), (1, 1)] });
    assert!(!p.can_step(&ConvertEvent::Counted(Ok(1))));
    assert!(p.can_step(&ConvertEvent::Counted(Ok(0))));
}

#[test]
fn malformed_row_is_not_taken() {
    let mut p = start();
    feed(&mut p, ConvertEvent::Parsed { inputs: vec![], outputs: vec![(0, 2)] });
    feed(&mut p, ConvertEvent::Counted(Ok(2)));
    feed(&mut p, ConvertEvent::TargetLoaded);
    assert!(!p.can_step(&ConvertEvent::Listed(Ok(vec![row("x", "q1")]))));
    feed(&mut p, ConvertEvent::Listed(Ok(vec![row("x", "01"), row("y", "1")])));
    assert!(!p.can_step(&ConvertEvent::Promoted(Ok(vec![]))));
    assert!(!p.can_step(&ConvertEvent::TargetLoaded));
}

#[test]
fn converts_with_two_inputs_and_fewer_rows_than_asked() {
    let mut p = start();
    feed(
        &mut p,
        ConvertEvent::Parsed {
            inputs: vec![coin(30, true, &[1], &[0xaa]), coin(20, true, &[2], &[0xbb])],
            outputs: vec![(10, 5)],
        },
    );
    feed(&mut p, ConvertEvent::Counted(Ok(5)));
    feed(&mut p, ConvertEvent::Found(Ok(1)));
    let a = feed(&mut p, ConvertEvent::Retired(Ok(())));
    match a {
        ConvertAction::FindInput { quota_field_hex, owner_hex, .. } => {
            assert_eq!(quota_field_hex, "02");
            assert_eq!(owner_hex, "bb");
        },
        _ => panic!("expected FindInput"),
    }
    feed(&mut p, ConvertEvent::Found(Ok(2)));
    let a = feed(&mut p, ConvertEvent::Retired(Ok(())));
    match a {
        ConvertAction::LoadTarget { wallet_cert } => assert_eq!(wallet_cert, vec![0xbb]),
        _ => panic!("expected LoadTarget"),
    }
    feed(&mut p, ConvertEvent::TargetLoaded);
    feed(&mut p, ConvertEvent::Listed(Ok(vec![row("r1", "01")])));
    let a = feed(&mut p, ConvertEvent::Promoted(Ok(vec![0xde, 0xad])));
    match a {
        ConvertAction::Finish(Outcome::Success(Some(v))) => assert_eq!(v, vec!["dead".to_string()]),
        _ => panic!("expected success"),
    }
}

#[test]
fn repeated_face_value_lists_each_output_anew() {
    let mut p = start();
    feed(
        &mut p,
        ConvertEvent::Parsed { inputs: vec![coin(100, true, &[0x0c], &[0x0d])], outputs: vec![(50, 1), (50, 1)] },
    );
    feed(&mut p, ConvertEvent::Counted(Ok(1)));
    feed(&mut p, ConvertEvent::Counted(Ok(1)));
    feed(&mut p, ConvertEvent::Found(Ok(1)));
    feed(&mut p, ConvertEvent::Retired(Ok(())));
    feed(&mut p, ConvertEvent::TargetLoaded);
    let a = feed(&mut p, ConvertEvent::Listed(Ok(vec![row("a", "01"), row("b", "02")])));
    assert!(matches!(a, ConvertAction::PromoteRow { .. }));
    let a = feed(&mut p, ConvertEvent::Promoted(Ok(vec![0x31])));
    assert!(matches!(a, ConvertAction::ListSuspended { value: 50, .. }));
    let a = feed(&mut p, ConvertEvent::Listed(Ok(vec![row("b", "02")])));
    match a {
        ConvertAction::PromoteRow { id, owner_hex, .. } => {
            assert_eq!(id, "b");
            assert_eq!(owner_hex, "0d");
        },
        _ => panic!("expected PromoteRow"),
    }
    let a = feed(&mut p, ConvertEvent::Promoted(Ok(vec![0x32])));
    match a {
        ConvertAction::Finish(Outcome::Success(Some(v))) => {
            assert_eq!(v, vec!["31".to_string(), "32".to_string()])
        },
        _ => panic!("expected success"),
    }
}

#[test]
fn short_listing_issues_fewer_currencies() {
    let mut p = start();
    feed(&mut p, ConvertEvent::Parsed { inputs: vec![coin(100, true, &[0x0e], &[0x0f])], outputs: vec![(50, 2)] });
    feed(&mut p, ConvertEvent::Counted(Ok(2)));
    feed(&mut p, ConvertEvent::Found(Ok(1)));
    feed(&mut p, ConvertEvent::Retired(Ok(())));
    feed(&mut p, ConvertEvent::TargetLoaded);
    let a = feed(&mut p, ConvertEvent::Listed(Ok(vec![row("only", "aa")])));
    assert!(matches!(a, ConvertAction::PromoteRow { .. }));
    let a = feed(&mut p, ConvertEvent::Promoted(Ok(vec![0x01])));
    match a {
        ConvertAction::Finish(Outcome::Success(Some(v))) => assert_eq!(v, vec!["01".to_string()]),
        _ => panic!("expected success"),
    }
}
