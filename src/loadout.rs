use vstd::prelude::*;
use crate::error::{db_error_message, DbError, Error};
use crate::models::{create_image, create_loadout, Image, LoadoutSingle, QueryPlan, User};
use crate::queries::StatementName;
use crate::row::{get_int4, int4_at, is_column_error, Row, Value};
use crate::steam_id::{decimal, decimal_string};

verus! {

/// The fields of the form that creates a loadout.
#[derive(Clone, Debug)]
pub struct CreateLoadout {
    pub name: String,
    pub data: String,
    pub cloudinary_id: String,
    pub cloudinary_format: String,
}

/// Where uploaded images are served from.
pub open spec fn image_host() -> Seq<char> {
    "https://res.cloudinary.com/zeta64/image/upload/"@
}

/// The URL of the uploaded image `id` in format `format`.
pub open spec fn spec_image_url(id: Seq<char>, format: Seq<char>) -> Seq<char> {
    image_host() + id + "."@ + format
}

/// The decimal text of a signed integer.
pub open spec fn signed_decimal(i: int) -> Seq<char> {
    if i < 0 {
        "-"@ + decimal((-i) as nat)
    } else {
        decimal(i as nat)
    }
}

/// The path of loadout `id`'s page.
pub open spec fn spec_loadout_path(id: int) -> Seq<char> {
    "/loadouts/"@ + signed_decimal(id)
}

pub fn image_url(id: &str, format: &str) -> (r: String)
    ensures
        r@ == spec_image_url(id@, format@),
{
    let host = String::from_str("https://res.cloudinary.com/zeta64/image/upload/");
    host.concat(id).concat(".").concat(format)
}

pub fn loadout_path(id: i32) -> (r: String)
    ensures
        r@ == spec_loadout_path(id as int),
{
    let mut out = String::from_str("/loadouts/");
    if id < 0 {
        out.append("-");
        let magnitude: u64 = (0 - (id as i64)) as u64;
        out.append(decimal_string(magnitude).as_str());
    } else {
        out.append(decimal_string(id as u64).as_str());
    }
    assert(out@ =~= spec_loadout_path(id as int));
    out
}

/// The loadout id that a page path names; a number too large for a
/// loadout id names no loadout, so the page is missing.
pub fn path_loadout_id(id: u32) -> (r: Result<i32, Error>)
    ensures
        id <= i32::MAX ==> r == Ok::<i32, Error>(id as i32),
        id > i32::MAX ==> r matches Err(Error::NotFound),
{
    if id <= 0x7fff_ffff {
        Ok(id as i32)
    } else {
        Err(Error::NotFound)
    }
}

/// A loadout's page needs the loadout; without one it is a missing page.
pub fn single_page(loadout: Option<LoadoutSingle>, images: Vec<Image>) -> (r: Result<
    (LoadoutSingle, Vec<Image>),
    Error,
>)
    ensures
        match loadout {
            Some(l) => r matches Ok((m, v)) && m == l && v == images,
            None => r matches Err(Error::NotFound),
        },
{
    match loadout {
        Some(l) => Ok((l, images)),
        None => Err(Error::NotFound),
    }
}

/// What the caller does next while creating a loadout.
#[derive(Debug)]
pub enum CreateStep {
    /// Run this statement and report the rows it returned with `on_loadout`.
    InsertLoadout(QueryPlan),
    /// Run this statement and report with `on_image`.
    InsertImage(QueryPlan),
    /// Answer with a redirect.
    Redirect { status: u16, location: String },
    /// Answer with this error.
    Fail(Error),
}

/// Where a loadout creation stands.
pub enum CreateStage {
    AwaitingLoadout(String),
    AwaitingImage(i32),
    Finished,
}

/// The creation of one loadout with its uploaded cover image.
pub struct CreateFlow {
    stage: CreateStage,
}

/// The step after the loadout's insert: its returned id gets the cover
/// image `url` at position 0.
pub open spec fn loadout_step(
    url: Seq<char>,
    result: Result<Vec<Row>, DbError>,
    next: CreateFlow,
    step: CreateStep,
) -> bool {
    match result {
        Err(e) => {
            &&& next.stage() is Finished
            &&& step matches CreateStep::Fail(Error::Database(m)) && m@ == db_error_message(e)
        },
        Ok(rows) => if rows@.len() == 0 {
            next.stage() is Finished && step matches CreateStep::Fail(Error::DbNothingReturned)
        } else {
            match int4_at(rows@[0].values@, 0) {
                Some(id) => {
                    &&& next.stage() == CreateStage::AwaitingImage(id)
                    &&& step matches CreateStep::InsertImage(plan)
                    &&& plan.statement == StatementName::CreateImage
                    &&& plan.params@.len() == 3
                    &&& plan.params@[0] matches Value::Text(u) && u@ == url
                    &&& plan.params@[1] matches Value::Int4(x) && x == id
                    &&& plan.params@[2] matches Value::Int4(p) && p == 0
                },
                None => {
                    &&& next.stage() is Finished
                    &&& step matches CreateStep::Fail(e) && is_column_error(e)
                },
            }
        },
    }
}

/// The step after the image's insert: the browser is sent to the new
/// loadout's page with a 303.
pub open spec fn image_step(id: i32, result: Result<(), DbError>, step: CreateStep) -> bool {
    match result {
        Ok(_) => step matches CreateStep::Redirect { status, location } && status == 303 && location@
            == spec_loadout_path(id as int),
        Err(e) => step matches CreateStep::Fail(Error::Database(m)) && m@ == db_error_message(e),
    }
}

impl CreateFlow {
    pub closed spec fn stage(&self) -> CreateStage {
        self.stage
    }

    /// Whether the creation waits for the loadout's insert.
    pub fn awaiting_loadout(&self) -> (r: bool)
        ensures
            r == self.stage() is AwaitingLoadout,
    {
        match self.stage {
            CreateStage::AwaitingLoadout(_) => true,
            _ => false,
        }
    }

    /// Whether the creation waits for the image's insert.
    pub fn awaiting_image(&self) -> (r: bool)
        ensures
            r == self.stage() is AwaitingImage,
    {
        match self.stage {
            CreateStage::AwaitingImage(_) => true,
            _ => false,
        }
    }

    /// Begins creating a loadout of `user` from the form: the loadout is
    /// inserted first, and its cover image is to be served from the
    /// uploaded image's URL.
    pub fn start(user: &User, form: CreateLoadout) -> (r: (CreateFlow, CreateStep))
        ensures
            r.0.stage() matches CreateStage::AwaitingLoadout(url) && url@ == spec_image_url(
                form.cloudinary_id@,
                form.cloudinary_format@,
            ),
            r.1 matches CreateStep::InsertLoadout(plan) && plan.statement == StatementName::CreateLoadout
                && plan.params@.len() == 3 && (plan.params@[0] matches Value::Int4(x) && x == user.id)
                && (plan.params@[1] matches Value::Text(n) && n@ == form.name@) && (
            plan.params@[2] matches Value::Text(d) && d@ == form.data@),
    {
        let url = image_url(form.cloudinary_id.as_str(), form.cloudinary_format.as_str());
        let plan = create_loadout(user.id, form.name, form.data);
        (CreateFlow { stage: CreateStage::AwaitingLoadout(url) }, CreateStep::InsertLoadout(plan))
    }

    /// Takes the rows that the loadout's insert returned.
    pub fn on_loadout(self, result: Result<Vec<Row>, DbError>) -> (r: (CreateFlow, CreateStep))
        requires
            self.stage() is AwaitingLoadout,
        ensures
            loadout_step(self.stage()->AwaitingLoadout_0@, result, r.0, r.1),
    {
        let url = match self.stage {
            CreateStage::AwaitingLoadout(url) => url,
            _ => {
                assert(false);
                return (CreateFlow { stage: CreateStage::Finished }, CreateStep::Fail(Error::Internal));
            },
        };
        let rows = match result {
            Ok(rows) => rows,
            Err(e) => {
                return (CreateFlow { stage: CreateStage::Finished }, CreateStep::Fail(Error::from_db(e)));
            },
        };
        if rows.len() == 0 {
            return (
                CreateFlow { stage: CreateStage::Finished },
                CreateStep::Fail(Error::DbNothingReturned),
            );
        }
        match get_int4(&rows[0], 0) {
            Ok(id) => (
                CreateFlow { stage: CreateStage::AwaitingImage(id) },
                CreateStep::InsertImage(create_image(url, id, 0)),
            ),
            Err(e) => (CreateFlow { stage: CreateStage::Finished }, CreateStep::Fail(e)),
        }
    }

    /// Takes the outcome of the image's insert.
    pub fn on_image(self, result: Result<(), DbError>) -> (r: (CreateFlow, CreateStep))
        requires
            self.stage() is AwaitingImage,
        ensures
            r.0.stage() is Finished,
            image_step(self.stage()->AwaitingImage_0, result, r.1),
    {
        let id = match self.stage {
            CreateStage::AwaitingImage(id) => id,
            _ => {
                assert(false);
                return (CreateFlow { stage: CreateStage::Finished }, CreateStep::Fail(Error::Internal));
            },
        };
        let step = match result {
            Ok(_) => CreateStep::Redirect { status: 303, location: loadout_path(id) },
            Err(e) => CreateStep::Fail(Error::from_db(e)),
        };
        (CreateFlow { stage: CreateStage::Finished }, step)
    }
}

} // verus!
