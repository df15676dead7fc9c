//! Core of a small community site for sharing loadouts: identifiers,
//! entities and their row decoders, the prepared-statement catalogue,
//! connection health, the sign-in flow, the loadout creation flow and the
//! page and error decisions around them.

pub mod auth;
pub mod connection;
pub mod error;
pub mod files;
pub mod loadout;
pub mod models;
pub mod page;
pub mod queries;
pub mod row;
pub mod steam_id;

pub use auth::{AuthError, CallbackFlow, CallbackStep, CheckReply, CheckRequest};
pub use connection::{timed_out, Connection, PoolError, TerminationSignal};
pub use error::{DbError, Error, ErrorResponse};
pub use files::{read, FileCache};
pub use loadout::{CreateFlow, CreateLoadout, CreateStep};
pub use models::{
    create_image, create_loadout, insert_user, Image, Like, LoadoutMultiple, LoadoutSingle, NewLike,
    QueryPlan, User,
};
pub use page::{create_form, ActiveLink, TestResponse, TmplBase};
pub use queries::{statement_catalogue, Queries, QueriesBuilder, SqlType, StatementName};
pub use row::{Row, Timestamp, Value};
pub use steam_id::{ParseSteamIdError, SteamId};
