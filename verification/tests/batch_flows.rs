use dcds::config::{CMSRequestAddr, QCSRequestAddr};
use dcds::internal_meta::{InternalMetaRequest, MetaAction, MetaEvent, MetaProcess};
use dcds::public_transaction::{TransferAction, TransferEvent, TransferProcess};
use dcds::quotas_request::{
    CentralRequest, IssueAction, IssueEvent, IssueProcess, IssueResponse, QuotaRequest,
    QuotaResponse, QuotasRequest,
};
use dcds::response::{Failure, Outcome};

#[test]
fn transfers_each_transaction() {
    let reqs = vec!["0102".to_string(), "ff".to_string()];
    assert!(TransferProcess::can_start(&reqs));
    let (mut p, a) = TransferProcess::new(reqs);
    match a {
        TransferAction::Transfer { transaction } => assert_eq!(transaction, vec![1, 2]),
        _ => panic!("expected Transfer"),
    }
    let e = TransferEvent::Transferred { quota_field: vec![0xaa], wallet_cert: vec![0xbb], currency: vec![0xcc] };
    assert!(p.can_step(&e));
    match p.step(e) {
        TransferAction::FindQuota { quota_field_hex } => assert_eq!(quota_field_hex, "aa"),
        _ => panic!("expected FindQuota"),
    }
    match p.step(TransferEvent::Found(Ok(1))) {
        TransferAction::SetOwner { owner_hex, quota_field_hex } => {
            assert_eq!(owner_hex, "bb");
            assert_eq!(quota_field_hex, "aa");
        },
        _ => panic!("expected SetOwner"),
    }
    let e = TransferEvent::OwnerSet(Ok(()));
    assert!(p.can_step(&e));
    match p.step(e) {
        TransferAction::Transfer { transaction } => assert_eq!(transaction, vec![0xff]),
        _ => panic!("expected Transfer"),
    }
    p.step(TransferEvent::Transferred { quota_field: vec![1], wallet_cert: vec![2], currency: vec![0x3c] });
    p.step(TransferEvent::Found(Ok(4)));
    match p.step(TransferEvent::OwnerSet(Ok(()))) {
        TransferAction::Finish(Outcome::Success(Some(v))) => {
            assert_eq!(v, vec!["cc".to_string(), "3c".to_string()])
        },
        _ => panic!("expected success"),
    }
}

#[test]
fn transfer_failures() {
    let (mut p, _) = TransferProcess::new(vec!["00".to_string()]);
    p.step(TransferEvent::Transferred { quota_field: vec![], wallet_cert: vec![], currency: vec![] });
    assert!(matches!(
        p.step(TransferEvent::Found(Ok(0))),
        TransferAction::Finish(Outcome::Failure(Failure::DatabaseBuild))
    ));
    let (mut p, _) = TransferProcess::new(vec!["00".to_string()]);
    p.step(TransferEvent::Transferred { quota_field: vec![], wallet_cert: vec![], currency: vec![] });
    p.step(TransferEvent::Found(Ok(1)));
    match p.step(TransferEvent::OwnerSet(Err("down".to_string()))) {
        TransferAction::Finish(Outcome::Failure(Failure::DatabaseRunning(m))) => assert_eq!(m, "down"),
        _ => panic!("expected database failure"),
    }
}

#[test]
fn transfer_of_nothing_succeeds_empty() {
    let (_, a) = TransferProcess::new(vec![]);
    match a {
        TransferAction::Finish(Outcome::Success(Some(v))) => assert!(v.is_empty()),
        _ => panic!("expected success"),
    }
}

#[test]
fn malformed_transactions_are_not_taken() {
    assert!(!TransferProcess::can_start(&vec!["abc".to_string()]));
    let (mut p, _) = TransferProcess::new(vec!["00".to_string(), "xy".to_string()]);
    p.step(TransferEvent::Transferred { quota_field: vec![], wallet_cert: vec![], currency: vec![] });
    p.step(TransferEvent::Found(Ok(1)));
    assert!(!p.can_step(&TransferEvent::OwnerSet(Ok(()))));
    assert!(p.can_step(&TransferEvent::OwnerSet(Err(String::new()))));
}

fn meta(quota: &str, target: &str) -> InternalMetaRequest {
    InternalMetaRequest { quota: quota.to_string(), target: target.to_string() }
}

#[test]
fn mints_each_request_into_circulation() {
    let reqs = vec![meta("0a", "0B")];
    assert!(MetaProcess::can_start(&reqs));
    let (mut p, a) = MetaProcess::new(reqs);
    match a {
        MetaAction::Mint { quota_field, target_cert } => {
            assert_eq!(quota_field, vec![0x0a]);
            assert_eq!(target_cert, vec![0x0b]);
        },
        _ => panic!("expected Mint"),
    }
    let e = MetaEvent::Minted {
        currency_valid: true,
        quota_field: vec![0x11],
        wallet_cert: vec![0x22],
        currency: vec![0x33],
        digital: vec![0x44],
        id: vec![0x55],
    };
    match p.step(e) {
        MetaAction::Insert { id_hex, quota_field_hex, state, owner_hex } => {
            assert_eq!(id_hex, "55");
            assert_eq!(quota_field_hex, "11");
            assert_eq!(state, "circulation");
            assert_eq!(owner_hex, "22");
        },
        _ => panic!("expected Insert"),
    }
    assert!(p.can_step(&MetaEvent::Inserted));
    match p.step(MetaEvent::Inserted) {
        MetaAction::Finish(Outcome::Success(Some(v))) => assert_eq!(v, vec!["33".to_string()]),
        _ => panic!("expected success"),
    }
    assert_eq!(p.digital, vec!["44".to_string()]);
}

#[test]
fn unverified_minted_currency_is_refused() {
    let (mut p, _) = MetaProcess::new(vec![meta("", "")]);
    let e = MetaEvent::Minted {
        currency_valid: false,
        quota_field: vec![],
        wallet_cert: vec![],
        currency: vec![],
        digital: vec![],
        id: vec![],
    };
    assert!(matches!(p.step(e), MetaAction::Finish(Outcome::Failure(Failure::JsonParseError))));
}

#[test]
fn malformed_minting_requests_are_not_taken() {
    assert!(!MetaProcess::can_start(&vec![meta("0a", "0")]));
    assert!(!MetaProcess::can_start(&vec![meta("g0", "00")]));
    let (mut p, _) = MetaProcess::new(vec![meta("00", "00"), meta("00", "0x")]);
    p.step(MetaEvent::Minted {
        currency_valid: true,
        quota_field: vec![],
        wallet_cert: vec![],
        currency: vec![],
        digital: vec![],
        id: vec![],
    });
    assert!(!p.can_step(&MetaEvent::Inserted));
}

#[test]
fn request_bodies() {
    assert_eq!(CentralRequest::new("ab".to_string()).issue, "ab");
    assert_eq!(QuotaRequest::new("cd".to_string()).issue_quota_request, "cd");
}

#[test]
fn issues_quota_as_suspended_currency() {
    let lines = vec![QuotasRequest { value: 100, number: 3 }, QuotasRequest { value: 5, number: 1 }];
    let (mut p, a) = IssueProcess::new(&lines, CMSRequestAddr::new(Some("cms:1")), QCSRequestAddr::new(None), "cloud-9".to_string());
    match a {
        IssueAction::SignIssue { issue_info } => assert_eq!(issue_info, vec![(100, 3), (5, 1)]),
        _ => panic!("expected SignIssue"),
    }
    match p.step(IssueEvent::IssueSigned { signature_valid: true, issue: vec![0xfe, 0x01] }) {
        IssueAction::PostCentral { url, body, user } => {
            assert_eq!(user, "cloud-9");
            assert_eq!(url, "http://cms:1/api/dcds/qouta_issue");
            assert_eq!(body.issue, "fe01");
        },
        _ => panic!("expected PostCentral"),
    }
    let reply = IssueResponse { code: 0, message: "success".to_string(), data: "resigned".to_string() };
    match p.step(IssueEvent::CentralReplied(reply)) {
        IssueAction::PostQuota { url, body, user } => {
            assert_eq!(user, "cloud-9");
            assert_eq!(url, "http://localhost:8088/api/quota");
            assert_eq!(body.issue_quota_request, "resigned");
        },
        _ => panic!("expected PostQuota"),
    }
    let quotas = QuotaResponse { code: 0, message: "success".to_string(), data: vec!["A1".to_string()] };
    let e = IssueEvent::QuotaReplied(quotas);
    assert!(p.can_step(&e));
    match p.step(e) {
        IssueAction::SignQuota { quota_field } => assert_eq!(quota_field, vec![0xa1]),
        _ => panic!("expected SignQuota"),
    }
    match p.step(IssueEvent::QuotaSigned { signature_valid: true, quota_field: vec![0x0c], id: vec![0x0d] }) {
        IssueAction::Insert { id_hex, quota_field_hex, state, user } => {
            assert_eq!(user, "cloud-9");
            assert_eq!(id_hex, "0d");
            assert_eq!(quota_field_hex, "0c");
            assert_eq!(state, "suspended");
        },
        _ => panic!("expected Insert"),
    }
    assert!(matches!(p.step(IssueEvent::Inserted(Ok(()))), IssueAction::Finish(Outcome::Success(None))));
}

#[test]
fn issue_failures() {
    let (mut p, _) = IssueProcess::new(&vec![], CMSRequestAddr::new(None), QCSRequestAddr::new(None), "cloud-9".to_string());
    assert!(matches!(
        p.step(IssueEvent::IssueSigned { signature_valid: false, issue: vec![] }),
        IssueAction::Finish(Outcome::Failure(Failure::JsonParseError))
    ));
    let (mut p, _) = IssueProcess::new(&vec![], CMSRequestAddr::new(None), QCSRequestAddr::new(None), "cloud-9".to_string());
    p.step(IssueEvent::IssueSigned { signature_valid: true, issue: vec![] });
    p.step(IssueEvent::CentralReplied(IssueResponse { code: 0, message: String::new(), data: String::new() }));
    let bad = QuotaResponse { code: 0, message: String::new(), data: vec!["1".to_string()] };
    assert!(!p.can_step(&IssueEvent::QuotaReplied(bad)));
    p.step(IssueEvent::QuotaReplied(QuotaResponse {
        code: 0,
        message: String::new(),
        data: vec!["00".to_string(), "11".to_string()],
    }));
    assert!(matches!(
        p.step(IssueEvent::QuotaSigned { signature_valid: false, quota_field: vec![], id: vec![] }),
        IssueAction::Finish(Outcome::Failure(Failure::JsonParseError))
    ));
}

#[test]
fn issue_insert_failure_and_empty_reply() {
    let (mut p, _) = IssueProcess::new(&vec![], CMSRequestAddr::new(None), QCSRequestAddr::new(None), "cloud-9".to_string());
    p.step(IssueEvent::IssueSigned { signature_valid: true, issue: vec![] });
    p.step(IssueEvent::CentralReplied(IssueResponse { code: 0, message: String::new(), data: String::new() }));
    p.step(IssueEvent::QuotaReplied(QuotaResponse { code: 0, message: String::new(), data: vec!["00".to_string()] }));
    p.step(IssueEvent::QuotaSigned { signature_valid: true, quota_field: vec![], id: vec![] });
    match p.step(IssueEvent::Inserted(Err("dup".to_string()))) {
        IssueAction::Finish(Outcome::Failure(Failure::DatabaseRunning(m))) => assert_eq!(m, "dup"),
        _ => panic!("expected database failure"),
    }
    let (mut p, _) = IssueProcess::new(&vec![], CMSRequestAddr::new(None), QCSRequestAddr::new(None), "cloud-9".to_string());
    p.step(IssueEvent::IssueSigned { signature_valid: true, issue: vec![] });
    p.step(IssueEvent::CentralReplied(IssueResponse { code: 0, message: String::new(), data: String::new() }));
    assert!(matches!(
        p.step(IssueEvent::QuotaReplied(QuotaResponse { code: 0, message: String::new(), data: vec![] })),
        IssueAction::Finish(Outcome::Success(None))
    ));
}
