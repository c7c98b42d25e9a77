use std::time::{Duration, Instant};

use trading_ig::session::tokens::RefreshState;
use trading_ig::client::{check_builder, should_retry_unauthorized, 
    auth_headers, base_headers, effective_method, fallback_error_code, retry_after_status,
    HttpMethod,
};
use trading_ig::error::{ApiError, Error};
use trading_ig::history::{
    activity_params, activity_period_path, build_path_with_params, extract_query_params,
    next_page_params, transaction_type_str, transactions_params, transactions_period_path,
    urlencoding_simple, ActivityRequest, TransactionType, TransactionsRequest,
};
use trading_ig::markets::{get_many_path, percent_encode, search_path, MarketDetailFilter};
use trading_ig::models::common::{DealId, Epic};
use trading_ig::session::tokens::{AuthTokens, RestAuth, SessionState};
use trading_ig::time::DateTime;

#[test]
fn urlencoding_keeps_timestamp_colons() {
    assert_eq!(urlencoding_simple("2024-01-01T10:00:00"), "2024-01-01T10:00:00");
    assert_eq!(urlencoding_simple("a b&c=d"), "a+b%26c%3Dd");
    assert_eq!(urlencoding_simple("é"), "%C3%A9");
    assert_eq!(urlencoding_simple("type==POSITION;status!=X*"), "type%3D%3DPOSITION%3Bstatus!%3DX*");
}

#[test]
fn markets_percent_encode_is_strict() {
    assert_eq!(percent_encode("a:b"), "a%3Ab");
    assert_eq!(percent_encode("FTSE 100"), "FTSE+100");
    assert_eq!(search_path("gbp usd"), "markets?searchTerm=gbp+usd");
}

#[test]
fn path_with_params() {
    assert_eq!(build_path_with_params("history/activity", &[]), "history/activity");
    let p = vec![("from".to_owned(), "2024-01-01T00:00:00".to_owned()), ("pageSize".to_owned(), "50".to_owned())];
    assert_eq!(
        build_path_with_params("history/activity", &p),
        "history/activity?from=2024-01-01T00:00:00&pageSize=50"
    );
}

#[test]
fn activity_request_params() {
    let req = ActivityRequest {
        from: DateTime::new(2024, 1, 2, 3, 4, 5),
        detailed: true,
        deal_id: Some(DealId::new("D1")),
        filter: Some("type==POSITION".into()),
        ..ActivityRequest::default()
    };
    let p = activity_params(&req);
    assert_eq!(
        p,
        vec![
            ("from".to_owned(), "2024-01-02T03:04:05".to_owned()),
            ("detailed".to_owned(), "true".to_owned()),
            ("dealId".to_owned(), "D1".to_owned()),
            ("filter".to_owned(), "type==POSITION".to_owned()),
            ("pageSize".to_owned(), "50".to_owned()),
        ]
    );
    let d = activity_params(&ActivityRequest::default());
    assert_eq!(d, vec![("pageSize".to_owned(), "50".to_owned())]);
}

#[test]
fn transactions_request_params() {
    let req = TransactionsRequest {
        trans_type: Some(TransactionType::AllDeal),
        page_size: Some(10),
        ..TransactionsRequest::default()
    };
    assert_eq!(
        transactions_params(&req),
        vec![("type".to_owned(), "ALL_DEAL".to_owned()), ("pageSize".to_owned(), "10".to_owned())]
    );
    assert_eq!(transaction_type_str(TransactionType::Withdrawal), "WITHDRAWAL");
    assert_eq!(transactions_period_path(TransactionType::Deposit, 600), "history/transactions/DEPOSIT/600");
    assert_eq!(activity_period_path(86_400_000), "history/activity/86400000");
}

#[test]
fn next_page_urls() {
    let abs = extract_query_params("https://api.ig.com/gateway/deal/history/activity?from=a&pageSize=50").unwrap();
    assert_eq!(abs, vec![("from".to_owned(), "a".to_owned()), ("pageSize".to_owned(), "50".to_owned())]);
    let rel = extract_query_params("/history/activity?x=1%202").unwrap();
    assert_eq!(rel, vec![("x".to_owned(), "1 2".to_owned())]);
    let rel2 = extract_query_params("history/activity?y=2").unwrap();
    assert_eq!(rel2, vec![("y".to_owned(), "2".to_owned())]);
    assert!(next_page_params(None).unwrap().is_none());
    assert!(next_page_params(Some("history/activity?z=3".into())).unwrap().is_some());
}

#[test]
fn get_many_requires_epics() {
    match get_many_path(&[], MarketDetailFilter::All) {
        Err(Error::InvalidInput(m)) => assert_eq!(m, "epics list must not be empty"),
        other => panic!("unexpected {other:?}"),
    }
    let p = get_many_path(&[Epic::new("A"), Epic::new("B")], MarketDetailFilter::SnapshotOnly).unwrap();
    assert_eq!(p, "markets?epics=A,B&filter=SNAPSHOT_ONLY");
    assert_eq!(MarketDetailFilter::All.as_query_str(), "ALL");
}

#[test]
fn transport_headers() {
    let h = base_headers("KEY", Some(3));
    assert_eq!(
        h,
        vec![
            ("X-IG-API-KEY", "KEY".to_owned()),
            ("Accept", "application/json; charset=UTF-8".to_owned()),
            ("Version", "3".to_owned()),
        ]
    );
    assert_eq!(base_headers("KEY", None).len(), 2);

    let mut s = SessionState::default();
    assert!(matches!(auth_headers(&s), Err(Error::Auth(_))));
    s.tokens = AuthTokens {
        rest: Some(RestAuth::OAuth { access_token: "tok".into(), token_type: "Bearer".into() }),
        streaming: None,
        refresh: None,
    };
    s.account_id = Some("ACC".into());
    assert_eq!(
        auth_headers(&s).unwrap(),
        vec![("Authorization", "Bearer tok".to_owned()), ("IG-ACCOUNT-ID", "ACC".to_owned())]
    );
    s.tokens.rest = Some(RestAuth::Cst { cst: "c".into(), x_security_token: "x".into() });
    assert_eq!(
        auth_headers(&s).unwrap(),
        vec![("CST", "c".to_owned()), ("X-SECURITY-TOKEN", "x".to_owned())]
    );
}

#[test]
fn transport_decisions() {
    assert_eq!(effective_method(HttpMethod::Delete, true), (HttpMethod::Post, Some("DELETE")));
    assert_eq!(effective_method(HttpMethod::Delete, false), (HttpMethod::Delete, None));
    assert_eq!(effective_method(HttpMethod::Put, true), (HttpMethod::Put, None));
    assert!(retry_after_status(401, true));
    assert!(!retry_after_status(401, false));
    assert!(!retry_after_status(403, true));
    assert_eq!(fallback_error_code(502), "http-502");
}

fn api_error(code: &str) -> Error {
    Error::Api {
        status: 401,
        source: ApiError { error_code: code.into(), extra: serde_json::Map::new() },
    }
}

#[test]
fn error_classification() {
    assert!(Error::Auth("x".into()).is_auth());
    assert!(api_error("error.security.oauth-token-invalid").is_auth());
    assert!(api_error("error.security.client-token-missing").is_auth());
    assert!(api_error("security-token-expired").is_auth());
    assert!(!api_error("error.public-api.exceeded-api-key-allowance").is_auth());
    assert!(api_error("error.public-api.api-rate-exceeded").is_rate_limited());
    assert!(Error::RateLimited("x".into()).is_rate_limited());
    assert!(!Error::Config("x".into()).is_rate_limited());
    assert!(!Error::Streaming("x".into()).is_auth());
}

#[test]
fn retry_only_unauthorized_refreshable() {
    let mut t = AuthTokens::default();
    assert!(!should_retry_unauthorized(&api_error("x"), &t));
    t.refresh = Some(RefreshState { refresh_token: "r".into(), expires_at: Instant::now() + Duration::from_secs(60) });
    assert!(should_retry_unauthorized(&api_error("x"), &t));
    assert!(!should_retry_unauthorized(&Error::Auth("x".into()), &t));
    let forbidden = Error::Api {
        status: 403,
        source: ApiError { error_code: "x".into(), extra: serde_json::Map::new() },
    };
    assert!(!should_retry_unauthorized(&forbidden, &t));
}

#[test]
fn builder_requirements() {
    match check_builder(false, true) {
        Err(Error::Config(m)) => assert_eq!(m, "environment is required"),
        other => panic!("unexpected {other:?}"),
    }
    match check_builder(true, false) {
        Err(Error::Config(m)) => assert_eq!(m, "api_key is required"),
        other => panic!("unexpected {other:?}"),
    }
    assert!(check_builder(true, true).is_ok());
}
