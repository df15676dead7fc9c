use mordhub::connection::{Connection, PoolError, TerminationSignal};
use mordhub::error::{DbError, Error};
use mordhub::models::{Image, LoadoutMultiple, LoadoutSingle, User};
use mordhub::queries::{statement_catalogue, QueriesBuilder, SqlType, StatementName};
use mordhub::row::{Row, Timestamp, Value};
use mordhub::{FileCache, SteamId};

fn ts(secs: i64) -> Value {
    Value::Timestamp(Timestamp { secs, nanos: 0 })
}

fn text(s: &str) -> Value {
    Value::Text(s.to_string())
}

fn multiple_row(id: i32, user_id: i32, steam: i64, cover: Value) -> Row {
    Row {
        values: vec![
            Value::Int4(id),
            Value::Int4(user_id),
            text("name"),
            text("data"),
            ts(1_560_000_000),
            Value::Int8(3),
            Value::Int8(steam),
            cover,
        ],
    }
}

#[test]
fn listing_without_viewer_is_never_liked() {
    let rows = vec![
        multiple_row(1, 10, 100, text("A.jpg")),
        multiple_row(2, 20, 200, text("B.jpg")),
    ];
    let plan = LoadoutMultiple::query(&None);
    assert_eq!(plan.statement, StatementName::LoadoutMultipleWithoutUser);
    assert!(plan.params.is_empty());
    let list = LoadoutMultiple::decode(&rows, &None).ok().unwrap();
    assert_eq!(list.len(), 2);
    assert_eq!(list[0].id, 1);
    assert_eq!(list[1].id, 2);
    assert_eq!(list[0].user_steam_id, SteamId(100));
    assert_eq!(list[1].user_steam_id, SteamId(200));
    assert_eq!(list[0].main_image_url, "A.jpg");
    assert_eq!(list[1].main_image_url, "B.jpg");
    assert!(!list[0].has_liked);
    assert!(!list[1].has_liked);
    assert_eq!(list[0].like_count, 3);
}

#[test]
fn listing_with_viewer_reads_liked_column() {
    let viewer = Some(User { id: 5, steam_id: SteamId(500) });
    let plan = LoadoutMultiple::query(&viewer);
    assert_eq!(plan.statement, StatementName::LoadoutMultipleWithUser);
    assert!(matches!(plan.params.as_slice(), [Value::Int4(5)]));
    let mut liked = multiple_row(1, 10, 100, Value::Null);
    liked.values.push(Value::Bool(true));
    let mut not_liked = multiple_row(2, 20, -1, text("B.jpg"));
    not_liked.values.push(Value::Bool(false));
    let list = LoadoutMultiple::decode(&vec![liked, not_liked], &viewer).ok().unwrap();
    assert!(list[0].has_liked);
    assert!(!list[1].has_liked);
    assert_eq!(list[0].main_image_url, "");
    assert_eq!(list[1].user_steam_id, SteamId(u64::MAX));
    // A row without the liked column does not decode for a viewer.
    let short = multiple_row(3, 30, 300, text("C.jpg"));
    assert!(matches!(LoadoutMultiple::decode(&vec![short], &viewer), Err(Error::Database(_))));
}

fn single_row(id: i32, likes: i64, liked: Option<bool>) -> Row {
    let mut values = vec![Value::Int4(id), Value::Int4(9), text("X"), text("Y"), ts(0), Value::Int8(likes)];
    if let Some(l) = liked {
        values.push(Value::Bool(l));
    }
    Row { values }
}

#[test]
fn single_with_viewer_who_liked_it() {
    let viewer = Some(User { id: 4, steam_id: SteamId(76561198000000001) });
    let plan = LoadoutSingle::query(7, &viewer);
    assert_eq!(plan.statement, StatementName::LoadoutSingleWithUser);
    assert!(matches!(plan.params.as_slice(), [Value::Int4(4), Value::Int4(7)]));
    let found = LoadoutSingle::decode(&vec![single_row(7, 2, Some(true))], &viewer).ok().unwrap().unwrap();
    assert!(found.has_liked);
    assert_eq!(found.like_count, 2);
    assert_eq!(found.id, 7);
    assert_eq!(found.name, "X");
    assert_eq!(found.data, "Y");
}

#[test]
fn single_without_viewer_is_not_liked() {
    let plan = LoadoutSingle::query(7, &None);
    assert_eq!(plan.statement, StatementName::LoadoutSingleWithoutUser);
    assert!(matches!(plan.params.as_slice(), [Value::Int4(7)]));
    let found = LoadoutSingle::decode(&vec![single_row(7, 0, None)], &None).ok().unwrap().unwrap();
    assert!(!found.has_liked);
    assert_eq!(found.like_count, 0);
}

#[test]
fn missing_loadout_is_a_404_page() {
    let none = LoadoutSingle::decode(&Vec::new(), &None).ok().unwrap();
    assert!(none.is_none());
    let err = mordhub::loadout::single_page(none, Vec::new()).err().unwrap();
    assert!(matches!(err, Error::NotFound));
    let files = FileCache::new().file("static/404.html".to_string(), "<h1>404</h1>".to_string());
    let resp = err.error_response(&files, false);
    assert_eq!(resp.status, 404);
    assert!(resp.html);
    assert_eq!(resp.body, "<h1>404</h1>");
    assert_eq!(mordhub::loadout::path_loadout_id(99999).ok(), Some(99999));
}

#[test]
fn images_decode_in_row_order() {
    let plan = Image::query(3);
    assert_eq!(plan.statement, StatementName::GetImageById);
    assert!(matches!(plan.params.as_slice(), [Value::Int4(3)]));
    let rows: Vec<Row> = (0..3)
        .map(|p| Row {
            values: vec![Value::Int4(10 + p), text(&format!("{p}.png")), Value::Int4(3), Value::Int4(p), ts(5)],
        })
        .collect();
    let images = Image::decode(&rows).ok().unwrap();
    let positions: Vec<i32> = images.iter().map(|i| i.position).collect();
    assert_eq!(positions, vec![0, 1, 2]);
    assert_eq!(images[0].url, "0.png");
    assert_eq!(images[2].id, 12);
    assert_eq!(images[1].created_at, Timestamp { secs: 5, nanos: 0 });
    let bad = vec![Row { values: vec![Value::Int4(1), Value::Int4(2)] }];
    assert!(matches!(Image::decode(&bad), Err(Error::Database(ref m)) if m == "unexpected column value"));
    assert!(Image::decode(&Vec::new()).ok().unwrap().is_empty());
}

#[test]
fn user_lookup_decodes_and_refuses_unknown() {
    let plan = User::get_by_steam_id(SteamId(u64::MAX));
    assert_eq!(plan.statement, StatementName::GetUserById);
    assert!(matches!(plan.params.as_slice(), [Value::Int8(-1)]));
    let rows = vec![Row { values: vec![Value::Int4(3), Value::Int8(76561198000000001)] }];
    let user = User::decode(&rows).ok().unwrap();
    assert_eq!(user, Some(User { id: 3, steam_id: SteamId(76561198000000001) }));
    assert!(User::decode(&Vec::new()).ok().unwrap().is_none());
    assert!(matches!(User::signed_in(None), Err(Error::Unauthorized)));
    assert!(matches!(User::profile(None), Err(Error::NotFound)));
    assert_eq!(User::signed_in(user).ok(), user);
    let wrong = vec![Row { values: vec![Value::Int4(3), Value::Int4(7)] }];
    assert!(matches!(User::decode(&wrong), Err(Error::Database(_))));
}

#[test]
fn catalogue_prepares_into_a_full_table() {
    let names = statement_catalogue();
    assert_eq!(names.len(), 9);
    let mut builder: QueriesBuilder<usize> = QueriesBuilder::new();
    for (i, n) in names.iter().enumerate().rev() {
        assert!(QueriesBuilder::<usize>::new().build().is_none());
        builder.set(*n, i);
    }
    let table = builder.build().ok_or(()).unwrap();
    for (i, n) in names.iter().enumerate() {
        assert_eq!(*table.get(*n), i);
    }
    let mut partial: QueriesBuilder<usize> = QueriesBuilder::new();
    for n in names.iter().skip(1) {
        partial.set(*n, 0);
    }
    assert!(partial.build().is_none());
    let mut seen: Vec<&str> = names.iter().map(|n| n.name()).collect();
    seen.sort();
    seen.dedup();
    assert_eq!(seen.len(), 9);
    assert_eq!(StatementName::CreateLoadout.param_types(), vec![SqlType::Int4, SqlType::Varchar, SqlType::Varchar]);
    assert_eq!(StatementName::GetUserById.param_types(), vec![SqlType::Int8]);
    assert!(StatementName::PostLoginInsertUser.sql().contains("ON CONFLICT DO NOTHING"));
    assert!(StatementName::GetImageById.sql().contains("ORDER BY position ASC"));
}

#[test]
fn broken_connection_stays_broken() {
    let table = {
        let mut b: QueriesBuilder<u8> = QueriesBuilder::new();
        for n in statement_catalogue() {
            b.set(n, 1);
        }
        b.build().ok_or(()).unwrap()
    };
    let mut conn = Connection::new("client", table, ());
    assert!(!conn.has_broken(TerminationSignal::Pending));
    assert!(conn.has_broken(TerminationSignal::Fired));
    assert!(conn.has_broken(TerminationSignal::Pending));
    let mut other = Connection::new("client", {
        let mut b: QueriesBuilder<u8> = QueriesBuilder::new();
        for n in statement_catalogue() {
            b.set(n, 2);
        }
        b.build().ok_or(()).unwrap()
    }, ());
    other.mark_broken();
    assert!(other.has_broken(TerminationSignal::Pending));
}

#[test]
fn pool_errors_map_to_kinds() {
    assert!(matches!(Error::from_pool(mordhub::timed_out()), Error::DatabaseTimedOut));
    assert!(matches!(Error::from_pool(PoolError::Internal), Error::Internal));
    assert!(matches!(
        Error::from_pool(PoolError::External(DbError::Other("down".to_string()))),
        Error::Database(ref m) if m == "down"
    ));
    assert!(matches!(Error::db_or_404(DbError::NotFound), Error::NotFound));
    assert!(matches!(Error::db_or_404(DbError::Other("x".to_string())), Error::Database(ref m) if m == "x"));
    assert!(matches!(Error::from_db(DbError::NotFound), Error::Database(ref m) if m == "no rows returned"));
}
