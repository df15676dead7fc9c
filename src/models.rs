use vstd::prelude::*;
use crate::error::Error;
use crate::queries::StatementName;
use crate::row::{
    bool_at, get_bool, get_int4, get_int8, get_text, get_text_or_empty, get_timestamp, int4_at,
    int8_at, is_column_error, text_at, text_or_empty_at, timestamp_at, Row, Timestamp, Value,
};
use crate::steam_id::{parse_u64, u64_bits_of, SteamId};

verus! {

/// A statement to run and the values to bind to its parameters, in order.
#[derive(Clone, Debug)]
pub struct QueryPlan {
    pub statement: StatementName,
    pub params: Vec<Value>,
}

/// The plan runs `s` with the single parameter `Int4(a)`.
pub open spec fn plan_int4(p: QueryPlan, s: StatementName, a: i32) -> bool {
    &&& p.statement == s
    &&& p.params@.len() == 1
    &&& p.params@[0] matches Value::Int4(x) && x == a
}

/// The plan runs `s` with no parameter.
pub open spec fn plan_none(p: QueryPlan, s: StatementName) -> bool {
    p.statement == s && p.params@.len() == 0
}

/// A user: an internal id and the provider's external identifier.
#[derive(Clone, Copy, Debug, PartialEq, Eq, Structural)]
pub struct User {
    pub id: i32,
    pub steam_id: SteamId,
}

/// A user's endorsement of a loadout.
#[derive(Clone, Copy, Debug, PartialEq, Eq, Structural)]
pub struct Like {
    pub id: i32,
    pub user_id: i32,
    pub loadout_id: i32,
}

/// A like before it is stored.
#[derive(Clone, Copy, Debug, PartialEq, Eq, Structural)]
pub struct NewLike {
    pub user_id: i32,
    pub loadout_id: i32,
}

/// An uploaded image of a loadout; position 0 is the cover.
#[derive(Clone, Debug)]
pub struct Image {
    pub id: i32,
    pub url: String,
    pub loadout_id: i32,
    pub position: i32,
    pub created_at: Timestamp,
}

/// One loadout as its own page shows it.
#[derive(Clone, Debug)]
pub struct LoadoutSingle {
    pub id: i32,
    pub user_id: i32,
    pub name: String,
    pub data: String,
    pub created_at: Timestamp,
    pub like_count: i64,
    pub has_liked: bool,
}

/// One loadout as the list page shows it.
#[derive(Clone, Debug)]
pub struct LoadoutMultiple {
    pub id: i32,
    pub user_id: i32,
    pub name: String,
    pub data: String,
    pub created_at: Timestamp,
    pub like_count: i64,
    pub has_liked: bool,
    pub main_image_url: String,
    pub user_steam_id: SteamId,
}

/// `u` is the user that `row` describes: `id`, then the identifier as its
/// signed 64-bit database value.
pub open spec fn user_from(row: Seq<Value>, u: User) -> bool {
    &&& int4_at(row, 0) == Some(u.id)
    &&& int8_at(row, 1) matches Some(s) && u.steam_id.0 == u64_bits_of(s)
}

pub open spec fn user_row(row: Seq<Value>) -> bool {
    int4_at(row, 0) is Some && int8_at(row, 1) is Some
}

/// `img` is the image that `row` describes: `id, url, loadout_id,
/// position, created_at`.
pub open spec fn image_from(row: Seq<Value>, img: Image) -> bool {
    &&& int4_at(row, 0) == Some(img.id)
    &&& text_at(row, 1) == Some(img.url@)
    &&& int4_at(row, 2) == Some(img.loadout_id)
    &&& int4_at(row, 3) == Some(img.position)
    &&& timestamp_at(row, 4) == Some(img.created_at)
}

pub open spec fn image_row(row: Seq<Value>) -> bool {
    &&& int4_at(row, 0) is Some
    &&& text_at(row, 1) is Some
    &&& int4_at(row, 2) is Some
    &&& int4_at(row, 3) is Some
    &&& timestamp_at(row, 4) is Some
}

/// The columns every loadout row starts with: `id, user_id, name, data,
/// created_at, like_count`.
pub open spec fn loadout_head_row(row: Seq<Value>) -> bool {
    &&& int4_at(row, 0) is Some
    &&& int4_at(row, 1) is Some
    &&& text_at(row, 2) is Some
    &&& text_at(row, 3) is Some
    &&& timestamp_at(row, 4) is Some
    &&& int8_at(row, 5) is Some
}

/// `l` is the loadout that `row` describes; with a viewer the liked flag
/// is column 6, without one it is false.
pub open spec fn single_from(row: Seq<Value>, with_viewer: bool, l: LoadoutSingle) -> bool {
    &&& int4_at(row, 0) == Some(l.id)
    &&& int4_at(row, 1) == Some(l.user_id)
    &&& text_at(row, 2) == Some(l.name@)
    &&& text_at(row, 3) == Some(l.data@)
    &&& timestamp_at(row, 4) == Some(l.created_at)
    &&& int8_at(row, 5) == Some(l.like_count)
    &&& if with_viewer {
        bool_at(row, 6) == Some(l.has_liked)
    } else {
        !l.has_liked
    }
}

pub open spec fn single_row(row: Seq<Value>, with_viewer: bool) -> bool {
    loadout_head_row(row) && (with_viewer ==> bool_at(row, 6) is Some)
}

/// `l` is the listed loadout that `row` describes: the head columns, the
/// owner's identifier (column 6), the cover image URL (column 7, empty
/// where the loadout has no cover) and, with a viewer, the liked flag
/// (column 8; false without a viewer).
pub open spec fn multiple_from(row: Seq<Value>, with_viewer: bool, l: LoadoutMultiple) -> bool {
    &&& int4_at(row, 0) == Some(l.id)
    &&& int4_at(row, 1) == Some(l.user_id)
    &&& text_at(row, 2) == Some(l.name@)
    &&& text_at(row, 3) == Some(l.data@)
    &&& timestamp_at(row, 4) == Some(l.created_at)
    &&& int8_at(row, 5) == Some(l.like_count)
    &&& int8_at(row, 6) matches Some(s) && l.user_steam_id.0 == u64_bits_of(s)
    &&& text_or_empty_at(row, 7) == Some(l.main_image_url@)
    &&& if with_viewer {
        bool_at(row, 8) == Some(l.has_liked)
    } else {
        !l.has_liked
    }
}

pub open spec fn multiple_row(row: Seq<Value>, with_viewer: bool) -> bool {
    &&& loadout_head_row(row)
    &&& int8_at(row, 6) is Some
    &&& text_or_empty_at(row, 7) is Some
    &&& with_viewer ==> bool_at(row, 8) is Some
}

/// Every row satisfies `ok`.
pub open spec fn all_rows(rows: Seq<Row>, ok: spec_fn(Seq<Value>) -> bool) -> bool {
    forall|i: int| 0 <= i < rows.len() ==> ok(#[trigger] rows[i].values@)
}

impl User {
    /// Looks a user up by external identifier, bound as its signed
    /// 64-bit database value.
    pub fn get_by_steam_id(steam_id: SteamId) -> (r: QueryPlan)
        ensures
            r.statement == StatementName::GetUserById,
            r.params@.len() == 1,
            r.params@[0] matches Value::Int8(x) && u64_bits_of(x) == steam_id.0,
    {
        let v = steam_id.as_i64();
        QueryPlan { statement: StatementName::GetUserById, params: vec![Value::Int8(v)] }
    }

    /// The user of the first row of a lookup, if any.
    pub fn decode(rows: &Vec<Row>) -> (r: Result<Option<User>, Error>)
        ensures
            rows@.len() == 0 ==> r matches Ok(None),
            rows@.len() > 0 ==> match r {
                Ok(Some(u)) => user_from(rows@[0].values@, u),
                Ok(None) => false,
                Err(e) => !user_row(rows@[0].values@) && is_column_error(e),
            },
    {
        if rows.len() == 0 {
            return Ok(None);
        }
        let row = &rows[0];
        let id = match get_int4(row, 0) {
            Ok(v) => v,
            Err(e) => return Err(e),
        };
        let raw = match get_int8(row, 1) {
            Ok(v) => v,
            Err(e) => return Err(e),
        };
        Ok(Some(User { id, steam_id: SteamId::from_i64(raw) }))
    }

    /// The signed-in user that a lookup found; an unknown identifier is
    /// refused.
    pub fn signed_in(found: Option<User>) -> (r: Result<User, Error>)
        ensures
            match found {
                Some(u) => r == Ok::<User, Error>(u),
                None => r matches Err(Error::Unauthorized),
            },
    {
        match found {
            Some(u) => Ok(u),
            None => Err(Error::Unauthorized),
        }
    }

    /// The user whose profile was asked for; an unknown identifier is a
    /// missing page.
    pub fn profile(found: Option<User>) -> (r: Result<User, Error>)
        ensures
            match found {
                Some(u) => r == Ok::<User, Error>(u),
                None => r matches Err(Error::NotFound),
            },
    {
        match found {
            Some(u) => Ok(u),
            None => Err(Error::NotFound),
        }
    }
}

impl SteamId {
    /// The identifier remembered in a session, read from its decimal text.
    /// No session, or text that is not an identifier, is a missing page.
    pub fn from_identity(identity: Option<String>) -> (r: Result<SteamId, Error>)
        ensures
            match identity {
                Some(s) => match parse_u64(s@) {
                    Some(v) => r == Ok::<SteamId, Error>(SteamId(v)),
                    None => r matches Err(Error::NotFound),
                },
                None => r matches Err(Error::NotFound),
            },
    {
        match identity {
            Some(s) => match SteamId::parse(s.as_str()) {
                Some(id) => Ok(id),
                None => Err(Error::NotFound),
            },
            None => Err(Error::NotFound),
        }
    }
}

impl Image {
    /// The images of loadout `loadout_id`, cover first and then by
    /// ascending position.
    pub fn query(loadout_id: i32) -> (r: QueryPlan)
        ensures
            plan_int4(r, StatementName::GetImageById, loadout_id),
    {
        QueryPlan { statement: StatementName::GetImageById, params: vec![Value::Int4(loadout_id)] }
    }

    pub fn from_row(row: &Row) -> (r: Result<Image, Error>)
        ensures
            match r {
                Ok(img) => image_from(row.values@, img),
                Err(e) => !image_row(row.values@) && is_column_error(e),
            },
    {
        let id = match get_int4(row, 0) {
            Ok(v) => v,
            Err(e) => return Err(e),
        };
        let url = match get_text(row, 1) {
            Ok(v) => v,
            Err(e) => return Err(e),
        };
        let loadout_id = match get_int4(row, 2) {
            Ok(v) => v,
            Err(e) => return Err(e),
        };
        let position = match get_int4(row, 3) {
            Ok(v) => v,
            Err(e) => return Err(e),
        };
        let created_at = match get_timestamp(row, 4) {
            Ok(v) => v,
            Err(e) => return Err(e),
        };
        Ok(Image { id, url, loadout_id, position, created_at })
    }

    /// The images of the rows, in the rows' order.
    pub fn decode(rows: &Vec<Row>) -> (r: Result<Vec<Image>, Error>)
        ensures
            r is Ok <==> all_rows(rows@, |row: Seq<Value>| image_row(row)),
            r matches Ok(v) ==> v@.len() == rows@.len() && forall|i: int|
                0 <= i < v@.len() ==> image_from(rows@[i].values@, #[trigger] v@[i]),
            r matches Err(e) ==> is_column_error(e),
    {
        let mut out: Vec<Image> = Vec::new();
        let mut i: usize = 0;
        while i < rows.len()
            invariant
                i <= rows@.len(),
                out@.len() == i,
                forall|j: int| 0 <= j < i ==> image_from(rows@[j].values@, #[trigger] out@[j]),
                forall|j: int| 0 <= j < i ==> image_row(#[trigger] rows@[j].values@),
            decreases rows@.len() - i,
        {
            match Image::from_row(&rows[i]) {
                Ok(img) => out.push(img),
                Err(e) => return Err(e),
            }
            i = i + 1;
        }
        Ok(out)
    }
}

impl LoadoutSingle {
    /// Loadout `loadout_id` with its like count; with a viewer, also
    /// whether the viewer likes it (the viewer's id is bound first).
    pub fn query(loadout_id: i32, user: &Option<User>) -> (r: QueryPlan)
        ensures
            match user {
                Some(u) => {
                    &&& r.statement == StatementName::LoadoutSingleWithUser
                    &&& r.params@.len() == 2
                    &&& r.params@[0] matches Value::Int4(x) && x == u.id
                    &&& r.params@[1] matches Value::Int4(y) && y == loadout_id
                },
                None => plan_int4(r, StatementName::LoadoutSingleWithoutUser, loadout_id),
            },
    {
        match user {
            Some(u) => QueryPlan {
                statement: StatementName::LoadoutSingleWithUser,
                params: vec![Value::Int4(u.id), Value::Int4(loadout_id)],
            },
            None => QueryPlan {
                statement: StatementName::LoadoutSingleWithoutUser,
                params: vec![Value::Int4(loadout_id)],
            },
        }
    }

    pub fn from_row(row: &Row, with_viewer: bool) -> (r: Result<LoadoutSingle, Error>)
        ensures
            match r {
                Ok(l) => single_from(row.values@, with_viewer, l),
                Err(e) => !single_row(row.values@, with_viewer) && is_column_error(e),
            },
    {
        let id = match get_int4(row, 0) {
            Ok(v) => v,
            Err(e) => return Err(e),
        };
        let user_id = match get_int4(row, 1) {
            Ok(v) => v,
            Err(e) => return Err(e),
        };
        let name = match get_text(row, 2) {
            Ok(v) => v,
            Err(e) => return Err(e),
        };
        let data = match get_text(row, 3) {
            Ok(v) => v,
            Err(e) => return Err(e),
        };
        let created_at = match get_timestamp(row, 4) {
            Ok(v) => v,
            Err(e) => return Err(e),
        };
        let like_count = match get_int8(row, 5) {
            Ok(v) => v,
            Err(e) => return Err(e),
        };
        let has_liked = if with_viewer {
            match get_bool(row, 6) {
                Ok(v) => v,
                Err(e) => return Err(e),
            }
        } else {
            false
        };
        Ok(LoadoutSingle { id, user_id, name, data, created_at, like_count, has_liked })
    }

    /// The loadout of the first row, if the lookup found one. Without a
    /// viewer it is never marked as liked; with viewer `U` it is marked as
    /// liked exactly when the row says that `U` likes it.
    pub fn decode(rows: &Vec<Row>, user: &Option<User>) -> (r: Result<Option<LoadoutSingle>, Error>)
        ensures
            rows@.len() == 0 ==> r matches Ok(None),
            rows@.len() > 0 ==> match r {
                Ok(Some(l)) => single_from(rows@[0].values@, user is Some, l),
                Ok(None) => false,
                Err(e) => !single_row(rows@[0].values@, user is Some) && is_column_error(e),
            },
            user is None ==> (r matches Ok(Some(l)) ==> !l.has_liked),
    {
        if rows.len() == 0 {
            return Ok(None);
        }
        match LoadoutSingle::from_row(&rows[0], user.is_some()) {
            Ok(l) => Ok(Some(l)),
            Err(e) => Err(e),
        }
    }
}

impl LoadoutMultiple {
    /// Every loadout with its like count, owner and cover image; with a
    /// viewer, also whether the viewer likes each.
    pub fn query(user: &Option<User>) -> (r: QueryPlan)
        ensures
            match user {
                Some(u) => plan_int4(r, StatementName::LoadoutMultipleWithUser, u.id),
                None => plan_none(r, StatementName::LoadoutMultipleWithoutUser),
            },
    {
        match user {
            Some(u) => QueryPlan {
                statement: StatementName::LoadoutMultipleWithUser,
                params: vec![Value::Int4(u.id)],
            },
            None => QueryPlan {
                statement: StatementName::LoadoutMultipleWithoutUser,
                params: Vec::new(),
            },
        }
    }

    pub fn from_row(row: &Row, with_viewer: bool) -> (r: Result<LoadoutMultiple, Error>)
        ensures
            match r {
                Ok(l) => multiple_from(row.values@, with_viewer, l),
                Err(e) => !multiple_row(row.values@, with_viewer) && is_column_error(e),
            },
    {
        let id = match get_int4(row, 0) {
            Ok(v) => v,
            Err(e) => return Err(e),
        };
        let user_id = match get_int4(row, 1) {
            Ok(v) => v,
            Err(e) => return Err(e),
        };
        let name = match get_text(row, 2) {
            Ok(v) => v,
            Err(e) => return Err(e),
        };
        let data = match get_text(row, 3) {
            Ok(v) => v,
            Err(e) => return Err(e),
        };
        let created_at = match get_timestamp(row, 4) {
            Ok(v) => v,
            Err(e) => return Err(e),
        };
        let like_count = match get_int8(row, 5) {
            Ok(v) => v,
            Err(e) => return Err(e),
        };
        let owner = match get_int8(row, 6) {
            Ok(v) => v,
            Err(e) => return Err(e),
        };
        let main_image_url = match get_text_or_empty(row, 7) {
            Ok(v) => v,
            Err(e) => return Err(e),
        };
        let has_liked = if with_viewer {
            match get_bool(row, 8) {
                Ok(v) => v,
                Err(e) => return Err(e),
            }
        } else {
            false
        };
        Ok(
            LoadoutMultiple {
                id,
                user_id,
                name,
                data,
                created_at,
                like_count,
                has_liked,
                main_image_url,
                user_steam_id: SteamId::from_i64(owner),
            },
        )
    }

    /// The listed loadouts, in the rows' order. Without a viewer none is
    /// marked as liked.
    pub fn decode(rows: &Vec<Row>, user: &Option<User>) -> (r: Result<Vec<LoadoutMultiple>, Error>)
        ensures
            r is Ok <==> all_rows(rows@, |row: Seq<Value>| multiple_row(row, user is Some)),
            r matches Ok(v) ==> v@.len() == rows@.len() && forall|i: int|
                0 <= i < v@.len() ==> multiple_from(rows@[i].values@, user is Some, #[trigger] v@[i]),
            user is None ==> (r matches Ok(v) ==> forall|i: int|
                0 <= i < v@.len() ==> !(#[trigger] v@[i]).has_liked),
            r matches Err(e) ==> is_column_error(e),
    {
        let with_viewer = user.is_some();
        let mut out: Vec<LoadoutMultiple> = Vec::new();
        let mut i: usize = 0;
        while i < rows.len()
            invariant
                i <= rows@.len(),
                with_viewer == user is Some,
                out@.len() == i,
                forall|j: int|
                    0 <= j < i ==> multiple_from(rows@[j].values@, with_viewer, #[trigger] out@[j]),
                forall|j: int| 0 <= j < i ==> multiple_row(#[trigger] rows@[j].values@, with_viewer),
            decreases rows@.len() - i,
        {
            match LoadoutMultiple::from_row(&rows[i], with_viewer) {
                Ok(l) => out.push(l),
                Err(e) => return Err(e),
            }
            i = i + 1;
        }
        Ok(out)
    }
}

/// Records a user on first sign-in; a user already recorded is left as is.
pub fn insert_user(steam_id: SteamId) -> (r: QueryPlan)
    ensures
        r.statement == StatementName::PostLoginInsertUser,
        r.params@.len() == 1,
        r.params@[0] matches Value::Int8(x) && u64_bits_of(x) == steam_id.0,
{
    let v = steam_id.as_i64();
    QueryPlan { statement: StatementName::PostLoginInsertUser, params: vec![Value::Int8(v)] }
}

/// Stores a new loadout of user `user_id`; the statement returns its id.
pub fn create_loadout(user_id: i32, name: String, data: String) -> (r: QueryPlan)
    ensures
        r.statement == StatementName::CreateLoadout,
        r.params@.len() == 3,
        r.params@[0] matches Value::Int4(x) && x == user_id,
        r.params@[1] matches Value::Text(n) && n@ == name@,
        r.params@[2] matches Value::Text(d) && d@ == data@,
{
    QueryPlan {
        statement: StatementName::CreateLoadout,
        params: vec![Value::Int4(user_id), Value::Text(name), Value::Text(data)],
    }
}

/// Stores an image of loadout `loadout_id` at `position`.
pub fn create_image(url: String, loadout_id: i32, position: i32) -> (r: QueryPlan)
    ensures
        r.statement == StatementName::CreateImage,
        r.params@.len() == 3,
        r.params@[0] matches Value::Text(u) && u@ == url@,
        r.params@[1] matches Value::Int4(x) && x == loadout_id,
        r.params@[2] matches Value::Int4(p) && p == position,
{
    QueryPlan {
        statement: StatementName::CreateImage,
        params: vec![Value::Text(url), Value::Int4(loadout_id), Value::Int4(position)],
    }
}

/// Decoding keeps the order of the rows: where the rows of an image lookup
/// come in strictly ascending position, as the statement orders them, so
/// do the images.
pub proof fn images_keep_row_order(rows: Seq<Row>, images: Seq<Image>)
    requires
        images.len() == rows.len(),
        forall|i: int| 0 <= i < images.len() ==> image_from(rows[i].values@, #[trigger] images[i]),
        forall|i: int, j: int|
            0 <= i < j < rows.len() ==> int4_at(#[trigger] rows[i].values@, 3)->0 < int4_at(
                #[trigger] rows[j].values@,
                3,
            )->0,
    ensures
        forall|i: int, j: int|
            0 <= i < j < images.len() ==> (#[trigger] images[i]).position < (
            #[trigger] images[j]).position,
{
    assert forall|i: int, j: int| 0 <= i < j < images.len() implies (
        #[trigger] images[i]).position < (#[trigger] images[j]).position by {
        assert(image_from(rows[i].values@, images[i]));
        assert(image_from(rows[j].values@, images[j]));
    }
}

} // verus!
