use mordhub::error::{DbError, Error};
use mordhub::loadout::{image_url, loadout_path, path_loadout_id, CreateFlow, CreateLoadout, CreateStep};
use mordhub::page::{create_form, ActiveLink, TmplBase};
use mordhub::row::{Row, Value};
use mordhub::{read, FileCache, SteamId, StatementName, User};

fn form() -> CreateLoadout {
    CreateLoadout {
        name: "X".to_string(),
        data: "Y".to_string(),
        cloudinary_id: "abc".to_string(),
        cloudinary_format: "png".to_string(),
    }
}

#[test]
fn create_loadout_with_cover_image() {
    let user = User { id: 8, steam_id: SteamId(100) };
    let (flow, step) = CreateFlow::start(&user, form());
    match step {
        CreateStep::InsertLoadout(plan) => {
            assert_eq!(plan.statement, StatementName::CreateLoadout);
            match plan.params.as_slice() {
                [Value::Int4(8), Value::Text(n), Value::Text(d)] => {
                    assert_eq!(n, "X");
                    assert_eq!(d, "Y");
                }
                other => panic!("unexpected parameters {other:?}"),
            }
        }
        _ => panic!("expected the loadout insert"),
    }
    let (flow, step) = flow.on_loadout(Ok(vec![Row { values: vec![Value::Int4(42)] }]));
    match step {
        CreateStep::InsertImage(plan) => {
            assert_eq!(plan.statement, StatementName::CreateImage);
            match plan.params.as_slice() {
                [Value::Text(url), Value::Int4(42), Value::Int4(0)] => {
                    assert_eq!(url, "https://res.cloudinary.com/zeta64/image/upload/abc.png");
                }
                other => panic!("unexpected parameters {other:?}"),
            }
        }
        _ => panic!("expected the image insert"),
    }
    let (_, step) = flow.on_image(Ok(()));
    match step {
        CreateStep::Redirect { status, location } => {
            assert_eq!(status, 303);
            assert_eq!(location, "/loadouts/42");
        }
        _ => panic!("expected a redirect"),
    }
}

#[test]
fn create_loadout_failures() {
    let user = User { id: 8, steam_id: SteamId(100) };
    let (flow, _) = CreateFlow::start(&user, form());
    let (_, step) = flow.on_loadout(Ok(Vec::new()));
    assert!(matches!(step, CreateStep::Fail(Error::DbNothingReturned)));
    let (flow, _) = CreateFlow::start(&user, form());
    let (_, step) = flow.on_loadout(Err(DbError::Other("down".to_string())));
    assert!(matches!(step, CreateStep::Fail(Error::Database(ref m)) if m == "down"));
    let (flow, _) = CreateFlow::start(&user, form());
    let (_, step) = flow.on_loadout(Ok(vec![Row { values: vec![Value::Text("1".to_string())] }]));
    assert!(matches!(step, CreateStep::Fail(Error::Database(_))));
    let (flow, _) = CreateFlow::start(&user, form());
    let (flow, _) = flow.on_loadout(Ok(vec![Row { values: vec![Value::Int4(1)] }]));
    let (_, step) = flow.on_image(Err(DbError::Other("full".to_string())));
    assert!(matches!(step, CreateStep::Fail(Error::Database(ref m)) if m == "full"));
}

#[test]
fn urls_and_paths() {
    assert_eq!(image_url("id", "jpg"), "https://res.cloudinary.com/zeta64/image/upload/id.jpg");
    assert_eq!(loadout_path(0), "/loadouts/0");
    assert_eq!(loadout_path(1234567), "/loadouts/1234567");
    assert_eq!(loadout_path(-5), "/loadouts/-5");
    assert_eq!(loadout_path(i32::MIN), "/loadouts/-2147483648");
    assert_eq!(loadout_path(i32::MAX), "/loadouts/2147483647");
    assert_eq!(path_loadout_id(7).ok(), Some(7));
    assert_eq!(path_loadout_id(i32::MAX as u32).ok(), Some(i32::MAX));
    assert!(matches!(path_loadout_id(u32::MAX), Err(Error::NotFound)));
    assert!(matches!(path_loadout_id(1u32 << 31), Err(Error::NotFound)));
}

#[test]
fn create_form_needs_a_user() {
    assert!(matches!(create_form(None), Err(Error::RedirectToLogin)));
    let user = User { id: 1, steam_id: SteamId(2) };
    let base = create_form(Some(user)).ok().unwrap();
    assert_eq!(base, TmplBase { user: Some(user), active_link: ActiveLink::Loadouts });
    let other = TmplBase::new(None, ActiveLink::Guides);
    assert_eq!(other.user, None);
    assert_eq!(other.active_link, ActiveLink::Guides);
}

#[test]
fn file_cache_reads() {
    let cache = FileCache::new();
    assert_eq!(read(&cache, "static/404.html"), "internal error");
    let cache = cache.file("a".to_string(), "one".to_string()).file("b".to_string(), "two".to_string());
    assert_eq!(read(&cache, "a"), "one");
    assert_eq!(read(&cache, "b"), "two");
    let cache = cache.file("a".to_string(), "three".to_string());
    assert_eq!(read(&cache, "a"), "three");
    assert_eq!(cache.get("c"), None);
}

#[test]
fn error_responses() {
    let files = FileCache::new();
    let r = Error::RedirectToLogin.error_response(&files, false);
    assert_eq!(r.status, 302);
    assert_eq!(r.location.as_deref(), Some("/auth/login"));
    let r = Error::NotFound.error_response(&files, true);
    assert_eq!(r.status, 404);
    assert_eq!(r.body, "internal error");
    for e in [Error::Database("x".to_string()), Error::Unauthorized, Error::CanceledBlock, Error::Template("t".to_string())] {
        let release = e.error_response(&files, false);
        assert_eq!(release.status, 500);
        assert_eq!(release.body, "Unknown internal server error");
        let debug = e.error_response(&files, true);
        assert_eq!(debug.status, 500);
        assert_eq!(debug.body, e.message());
    }
    let r = Error::Database("x".to_string()).error_response(&files, true);
    assert_eq!(r.body, "database error: x");
    for e in [Error::Internal, Error::DbNothingReturned, Error::DatabaseTimedOut] {
        let r = e.error_response(&files, true);
        assert_eq!(r.status, 500);
        assert_eq!(r.body, "Unknown internal server error");
    }
    let r = Error::SteamAuth(mordhub::AuthError::Request).error_response(&files, true);
    assert_eq!(r.status, 401);
    assert_eq!(r.body, "Failed to authenticate with Steam");
    assert_eq!(Error::Unauthorized.message(), "unauthorized");
}

#[test]
fn api_test_answer() {
    let r = mordhub::page::test();
    assert_eq!(r.foo, "hello");
    assert_eq!(r.bar, 123);
    assert!(!r.baz);
}
