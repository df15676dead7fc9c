use mordhub::auth::{AuthError, CallbackFlow, CallbackStep, CheckReply};
use mordhub::connection::PoolError;
use mordhub::error::DbError;
use mordhub::{SteamId, StatementName, Value};

fn redirect_query(claimed: &str) -> String {
    format!(
        "openid.ns=http%3A%2F%2Fspecs.openid.net%2Fauth%2F2.0&openid.mode=id_res\
         &openid.op_endpoint=https%3A%2F%2Fsteamcommunity.com%2Fopenid%2Flogin\
         &openid.claimed_id=https%3A%2F%2Fsteamcommunity.com%2Fopenid%2Fid%2F{claimed}\
         &openid.identity=https%3A%2F%2Fsteamcommunity.com%2Fopenid%2Fid%2F{claimed}\
         &openid.return_to=http%3A%2F%2Flocalhost%3A3000%2Fauth%2Fcallback\
         &openid.response_nonce=2019-06-15T00%3A36%3A00Z7nVIS5lDAcZe%2FT0gT4%2BQNQyexyA%3D\
         &openid.assoc_handle=1234567890\
         &openid.signed=signed%2Cop_endpoint%2Cclaimed_id%2Cidentity%2Creturn_to%2Cresponse_nonce%2Cassoc_handle\
         &openid.sig=BK0zC%2F%2FKzERs7N%2BNlDO0aL06%2BBA%3D"
    )
}

#[test]
fn steam_id_bits_are_reinterpreted() {
    let id = SteamId(u64::MAX);
    assert_eq!(id.as_u64(), u64::MAX);
    assert_eq!(id.as_i64(), -1);
    assert_eq!(SteamId::from_i64(-1), id);
    assert_eq!(SteamId(76561198000000001).as_i64(), 76561198000000001i64);
    assert_eq!(SteamId::from_i64(i64::MIN).as_u64(), 1u64 << 63);
    assert_eq!(SteamId(1u64 << 63).as_i64(), i64::MIN);
}

#[test]
fn steam_id_text_round_trip_on_values() {
    for v in [0u64, 7, 10, 100, 76561198000000001, u64::MAX] {
        let text = SteamId(v).to_string();
        assert_eq!(text, v.to_string());
        assert_eq!(SteamId::parse(&text), Some(SteamId(v)));
    }
}

#[test]
fn steam_id_parse_rejects_what_is_not_a_u64() {
    assert_eq!(SteamId::parse(""), None);
    assert_eq!(SteamId::parse("+"), None);
    assert_eq!(SteamId::parse("-1"), None);
    assert_eq!(SteamId::parse("12a"), None);
    assert_eq!(SteamId::parse(" 1"), None);
    assert_eq!(SteamId::parse("18446744073709551616"), None);
    assert_eq!(SteamId::parse("99999999999999999999"), None);
    assert_eq!(SteamId::parse("18446744073709551615"), Some(SteamId(u64::MAX)));
    assert_eq!(SteamId::parse("+42"), Some(SteamId(42)));
    assert_eq!(SteamId::parse("007"), Some(SteamId(7)));
}

#[test]
fn session_identity_is_read_as_steam_id() {
    assert_eq!(
        SteamId::from_identity(Some("76561198000000001".to_string())).ok(),
        Some(SteamId(76561198000000001))
    );
    assert!(matches!(SteamId::from_identity(None), Err(mordhub::Error::NotFound)));
    assert!(matches!(
        SteamId::from_identity(Some("nope".to_string())),
        Err(mordhub::Error::NotFound)
    ));
}

#[test]
fn callback_with_confirming_reply_signs_in() {
    let query = redirect_query("76561198000000001");
    let (flow, step) = CallbackFlow::start(&query);
    match step {
        CallbackStep::SendCheck(req) => {
            assert_eq!(req.method, "POST");
            assert_eq!(req.uri, "https://steamcommunity.com/openid/login");
            let body = String::from_utf8(req.body.clone()).unwrap();
            assert!(body.contains("openid.mode=check_authentication"));
            assert!(!body.contains("openid.mode=id_res"));
            assert!(body.contains("openid.assoc_handle=1234567890"));
            assert_eq!(req.headers.len(), 1);
            assert_eq!(req.headers[0].0, "content-type");
            assert_eq!(req.headers[0].1, b"application/x-www-form-urlencoded".to_vec());
        }
        _ => panic!("expected a check request"),
    }
    let reply = "ns:http://specs.openid.net/auth/2.0\nis_valid:true\n".to_string();
    let (flow, step) = flow.on_reply(CheckReply::Body(reply));
    match step {
        CallbackStep::RecordUser(plan) => {
            assert_eq!(plan.statement, StatementName::PostLoginInsertUser);
            assert_eq!(plan.params.len(), 1);
            assert!(matches!(plan.params[0], Value::Int8(76561198000000001)));
        }
        _ => panic!("expected the user to be recorded"),
    }
    let (_, step) = flow.on_recorded(Ok(()));
    match step {
        CallbackStep::SignIn { cookie, location } => {
            assert_eq!(cookie, "76561198000000001");
            assert_eq!(location, "/");
        }
        _ => panic!("expected a sign-in"),
    }
}

#[test]
fn callback_with_refusing_reply_is_refused() {
    let query = redirect_query("76561198000000001");
    let (flow, _) = CallbackFlow::start(&query);
    let (_, step) = flow.on_reply(CheckReply::Body("ns:x\nis_valid:false\n".to_string()));
    assert!(matches!(step, CallbackStep::Refuse(AuthError::Invalid)));
    let err = mordhub::Error::SteamAuth(AuthError::Invalid);
    let resp = err.error_response(&mordhub::FileCache::new(), false);
    assert_eq!(resp.status, 401);
    assert!(resp.location.is_none());
}

#[test]
fn callback_reply_line_must_match_exactly() {
    for body in ["", "is_valid:true2", "xis_valid:true", "is_valid: true", "is_valid:true\r\n"] {
        let (flow, _) = CallbackFlow::start(&redirect_query("5"));
        let (_, step) = flow.on_reply(CheckReply::Body(body.to_string()));
        assert!(matches!(step, CallbackStep::Refuse(AuthError::Invalid)), "{body:?}");
    }
    let (flow, _) = CallbackFlow::start(&redirect_query("5"));
    let (_, step) = flow.on_reply(CheckReply::Body("a:b\r\nis_valid:true".to_string()));
    assert!(matches!(step, CallbackStep::RecordUser(_)));
}

#[test]
fn callback_failures_are_refused() {
    let (flow, _) = CallbackFlow::start(&redirect_query("5"));
    let (_, step) = flow.on_reply(CheckReply::NotText);
    assert!(matches!(step, CallbackStep::Refuse(AuthError::Deserialize)));
    let (flow, _) = CallbackFlow::start(&redirect_query("5"));
    let (_, step) = flow.on_reply(CheckReply::Failed);
    assert!(matches!(step, CallbackStep::Refuse(AuthError::Request)));

    let (flow, _) = CallbackFlow::start(&redirect_query("5"));
    let (flow, _) = flow.on_reply(CheckReply::Body("is_valid:true".to_string()));
    let (_, step) = flow.on_recorded(Err(PoolError::External(DbError::Other("boom".to_string()))));
    assert!(matches!(step, CallbackStep::Refuse(AuthError::Db(ref m)) if m == "boom"));
    let (flow, _) = CallbackFlow::start(&redirect_query("5"));
    let (flow, _) = flow.on_reply(CheckReply::Body("is_valid:true".to_string()));
    let (_, step) = flow.on_recorded(Err(PoolError::TimedOut));
    assert!(matches!(step, CallbackStep::Refuse(AuthError::DbTimeout)));
    let (flow, _) = CallbackFlow::start(&redirect_query("5"));
    assert!(flow.awaiting_reply());
    let (flow, _) = flow.on_reply(CheckReply::Body("is_valid:true".to_string()));
    assert!(flow.awaiting_record());
    let (flow, step) = flow.on_recorded(Err(PoolError::Internal));
    assert!(!flow.awaiting_reply() && !flow.awaiting_record());
    assert!(matches!(step, CallbackStep::Refuse(AuthError::Db(ref m)) if m == "connection pool failure"));
}

#[test]
fn callback_with_bad_claimed_id_is_refused() {
    let (_, step) = CallbackFlow::start(&redirect_query("not-a-number"));
    assert!(matches!(step, CallbackStep::Refuse(AuthError::Provider(_))));
    let (_, step) = CallbackFlow::start(&redirect_query("18446744073709551616"));
    assert!(matches!(step, CallbackStep::Refuse(AuthError::Provider(_))));
    let (_, step) = CallbackFlow::start("garbage");
    assert!(matches!(step, CallbackStep::Refuse(AuthError::Provider(_))));
}

#[test]
fn steam_id_std_conversions() {
    assert_eq!("76561198000000001".parse::<SteamId>(), Ok(SteamId(76561198000000001)));
    assert_eq!("x".parse::<SteamId>(), Err(mordhub::ParseSteamIdError));
    assert_eq!(SteamId::from(-2i64), SteamId(u64::MAX - 1));
    assert_eq!(i64::from(SteamId(u64::MAX - 1)), -2);
    assert_eq!(i64::from(SteamId(42)), 42);
}

#[test]
fn callback_records_the_claimed_user() {
    let (flow, _) = CallbackFlow::start(&redirect_query("12345"));
    let (flow, step) = flow.on_reply(CheckReply::Body("is_valid:true\n".to_string()));
    assert!(matches!(step, CallbackStep::RecordUser(ref plan) if matches!(plan.params[..], [Value::Int8(12345)])));
    let (_, step) = flow.on_recorded(Ok(()));
    assert!(matches!(step, CallbackStep::SignIn { ref cookie, .. } if cookie == "12345"));
}
