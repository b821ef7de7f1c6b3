use dcds::get_quota_info::{
    page_offset, page_offset_fits, wallet_url, HistoryAction, HistoryProcess, HistoryRequest,
    HistoryRow, QuotaPageAction, QuotaPageProcess, QuotaRequest, TallyAction, TallyProcess,
};
use dcds::response::{Failure, Outcome};

const WITH_AND: &str =
    "select id from digital_currency where (explain_info->'t_obj'->'value') = $1 AND cloud_user_id = $2";
const WITHOUT_AND: &str =
    "select id from digital_currency where (explain_info->'t_obj'->'value') = $1 cloud_user_id = $2";

#[test]
fn tallies_every_face_value() {
    let (mut p, mut a) = TallyProcess::new("user-7".to_string());
    let expected = [10000i64, 5000, 2000, 1000, 500, 100, 50, 10, 1];
    for (i, d) in expected.iter().enumerate() {
        match a {
            TallyAction::Count { denomination, statement, user } => {
                assert_eq!(denomination, *d);
                assert_eq!(user, "user-7");
                assert_eq!(statement, if i < 3 { WITH_AND } else { WITHOUT_AND });
            },
            _ => panic!("expected Count"),
        }
        a = p.step(Ok(i * 2));
    }
    match a {
        TallyAction::Finish(Outcome::Success(Some(v))) => {
            let want: Vec<(i64, i64)> = expected.iter().enumerate().map(|(i, d)| (*d, (i * 2) as i64)).collect();
            assert_eq!(v, want);
        },
        _ => panic!("expected success"),
    }
}

#[test]
fn one_more_row_raises_only_its_count() {
    let run = |extra: usize| {
        let (mut p, _) = TallyProcess::new("u".to_string());
        let mut a = p.step(Ok(2));
        for i in 1..9 {
            a = p.step(Ok(if i == 4 { 6 + extra } else { 1 }));
        }
        match a {
            TallyAction::Finish(Outcome::Success(Some(v))) => v,
            _ => panic!("expected success"),
        }
    };
    let before = run(0);
    let after = run(1);
    for j in 0..9 {
        if j == 4 {
            assert_eq!(after[j], (500, before[j].1 + 1));
        } else {
            assert_eq!(after[j], before[j]);
        }
    }
}

#[test]
fn tally_stops_at_database_error() {
    let (mut p, _) = TallyProcess::new("user-7".to_string());
    p.step(Ok(1));
    match p.step(Err("syntax error".to_string())) {
        TallyAction::Finish(Outcome::Failure(Failure::DatabaseRunning(m))) => assert_eq!(m, "syntax error"),
        _ => panic!("expected database failure"),
    }
}

#[test]
fn offsets_of_pages() {
    assert_eq!(page_offset(1, 10), 0);
    assert_eq!(page_offset(3, 20), 40);
    assert_eq!(page_offset(0, 5), -5);
    assert!(page_offset_fits(3, 20));
    assert!(!page_offset_fits(i64::MIN, 1));
    assert!(!page_offset_fits(i64::MAX, 3));
    assert!(page_offset_fits(i64::MIN + 1, 0));
}

#[test]
fn quota_page_flow() {
    let (mut p, a) = QuotaPageProcess::<u32>::new(&QuotaRequest { page: 2, page_size: 5 });
    assert!(matches!(a, QuotaPageAction::QueryPage { offset: 5, limit: 5 }));
    assert!(matches!(p.on_rows(Ok(vec![7, 8])), QuotaPageAction::CountTotal));
    match p.on_total(12) {
        QuotaPageAction::Finish(Outcome::Success(Some(page))) => {
            assert_eq!(page.total, 12);
            assert_eq!(page.inner, vec![7, 8]);
        },
        _ => panic!("expected success"),
    }
    let (mut p, _) = QuotaPageProcess::<u32>::new(&QuotaRequest { page: 1, page_size: 5 });
    assert!(matches!(
        p.on_rows(Err("bad".to_string())),
        QuotaPageAction::Finish(Outcome::Failure(Failure::DatabaseRunning(_)))
    ));
}

#[test]
fn wallet_address_is_upper_case() {
    assert_eq!(wallet_url("04ab9fz"), "http://git.curdata.cn:9004/api/wallet?cert=04AB9FZ");
    assert_eq!(wallet_url("é-q"), "http://git.curdata.cn:9004/api/wallet?cert=é-Q");
}

#[test]
fn history_flow() {
    let req = HistoryRequest { id: "c1".to_string(), page: 1, page_size: 10 };
    let (mut p, a) = HistoryProcess::<u8, String>::new(&req);
    match a {
        HistoryAction::QueryPage { id, offset, limit } => {
            assert_eq!(id, "c1");
            assert_eq!(offset, 0);
            assert_eq!(limit, 10);
        },
        _ => panic!("expected QueryPage"),
    }
    let rows = vec![
        HistoryRow { id: "t1".to_string(), create_time: 1u8, owner_cert: "ab".to_string() },
        HistoryRow { id: "t2".to_string(), create_time: 2u8, owner_cert: "cd".to_string() },
    ];
    match p.on_rows(Ok(rows)) {
        HistoryAction::CountTotal { id } => assert_eq!(id, "c1"),
        _ => panic!("expected CountTotal"),
    }
    match p.on_total(2) {
        HistoryAction::FetchOwner { url } => assert_eq!(url, "http://git.curdata.cn:9004/api/wallet?cert=AB"),
        _ => panic!("expected FetchOwner"),
    }
    match p.on_owner("alice".to_string()) {
        HistoryAction::FetchOwner { url } => assert_eq!(url, "http://git.curdata.cn:9004/api/wallet?cert=CD"),
        _ => panic!("expected FetchOwner"),
    }
    match p.on_owner("bob".to_string()) {
        HistoryAction::Finish(Outcome::Success(Some(page))) => {
            assert_eq!(page.total, 2);
            let got: Vec<(String, u8, String)> =
                page.inner.into_iter().map(|e| (e.id, e.create_time, e.owner)).collect();
            assert_eq!(got, vec![("t1".to_string(), 1, "alice".to_string()), ("t2".to_string(), 2, "bob".to_string())]);
        },
        _ => panic!("expected success"),
    }
}

#[test]
fn empty_history_page() {
    let req = HistoryRequest { id: "c".to_string(), page: 4, page_size: 3 };
    let (mut p, a) = HistoryProcess::<u8, u8>::new(&req);
    assert!(matches!(a, HistoryAction::QueryPage { offset: 9, limit: 3, .. }));
    p.on_rows(Ok(vec![]));
    match p.on_total(0) {
        HistoryAction::Finish(Outcome::Success(Some(page))) => {
            assert_eq!(page.total, 0);
            assert!(page.inner.is_empty());
        },
        _ => panic!("expected success"),
    }
}
