use vstd::prelude::*;

verus! {

/// The column types that statement parameters are declared with.
#[derive(Copy, Clone, Debug, PartialEq, Eq, Structural)]
pub enum SqlType {
    Int4,
    Int8,
    Varchar,
}

/// The parameterized statements prepared on every connection.
#[derive(Copy, Clone, Debug, PartialEq, Eq, Structural)]
pub enum StatementName {
    GetImageById,
    LoadoutSingleWithUser,
    LoadoutSingleWithoutUser,
    LoadoutMultipleWithUser,
    LoadoutMultipleWithoutUser,
    GetUserById,
    PostLoginInsertUser,
    CreateLoadout,
    CreateImage,
}

/// Every statement, once each.
pub open spec fn all_statements() -> Seq<StatementName> {
    seq![StatementName::GetImageById,
        StatementName::LoadoutSingleWithUser,
        StatementName::LoadoutSingleWithoutUser,
        StatementName::LoadoutMultipleWithUser,
        StatementName::LoadoutMultipleWithoutUser,
        StatementName::GetUserById,
        StatementName::PostLoginInsertUser,
        StatementName::CreateLoadout,
        StatementName::CreateImage]
}

impl StatementName {
    /// The types the statement's parameters are declared with, in order.
    pub open spec fn spec_param_types(self) -> Seq<SqlType> {
        match self {
            StatementName::GetImageById => seq![SqlType::Int4],
            StatementName::LoadoutSingleWithUser => seq![SqlType::Int4, SqlType::Int4],
            StatementName::LoadoutSingleWithoutUser => seq![SqlType::Int4],
            StatementName::LoadoutMultipleWithUser => seq![SqlType::Int4],
            StatementName::LoadoutMultipleWithoutUser => seq![],
            StatementName::GetUserById => seq![SqlType::Int8],
            StatementName::PostLoginInsertUser => seq![SqlType::Int8],
            StatementName::CreateLoadout => seq![SqlType::Int4, SqlType::Varchar, SqlType::Varchar],
            StatementName::CreateImage => seq![SqlType::Varchar, SqlType::Int4, SqlType::Int4],
        }
    }

    pub open spec fn spec_sql(self) -> Seq<char> {
        match self {
            StatementName::GetImageById => "SELECT id, url, loadout_id, position, created_at FROM images WHERE loadout_id = $1 ORDER BY position ASC"@,
            StatementName::LoadoutSingleWithUser => "SELECT id, user_id, name, data, created_at, (SELECT COUNT(*) FROM likes WHERE likes.loadout_id = loadouts.id) AS like_count, EXISTS (SELECT 1 FROM likes WHERE likes.user_id = $1 AND likes.loadout_id = loadouts.id) AS has_liked FROM loadouts WHERE loadouts.id = $2"@,
            StatementName::LoadoutSingleWithoutUser => "SELECT id, user_id, name, data, created_at, (SELECT COUNT(*) FROM likes WHERE likes.loadout_id = loadouts.id) AS like_count FROM loadouts WHERE loadouts.id = $1"@,
            StatementName::LoadoutMultipleWithUser => "SELECT id, user_id, name, data, created_at, (SELECT COUNT(*) FROM likes WHERE likes.loadout_id = loadouts.id) AS like_count, (SELECT steam_id FROM users WHERE users.id = loadouts.user_id) AS user_steam_id, (SELECT url FROM images WHERE images.loadout_id = loadouts.id AND images.position = 0 LIMIT 1) AS main_image_url, EXISTS (SELECT 1 FROM likes WHERE likes.user_id = $1 AND likes.loadout_id = loadouts.id) AS has_liked FROM loadouts"@,
            StatementName::LoadoutMultipleWithoutUser => "SELECT id, user_id, name, data, created_at, (SELECT COUNT(*) FROM likes WHERE likes.loadout_id = loadouts.id) AS like_count, (SELECT steam_id FROM users WHERE users.id = loadouts.user_id) AS user_steam_id, (SELECT url FROM images WHERE images.loadout_id = loadouts.id AND images.position = 0 LIMIT 1) AS main_image_url FROM loadouts"@,
            StatementName::GetUserById => "SELECT id, steam_id FROM users WHERE steam_id = $1"@,
            StatementName::PostLoginInsertUser => "INSERT INTO users (steam_id) VALUES ($1) ON CONFLICT DO NOTHING"@,
            StatementName::CreateLoadout => "INSERT INTO loadouts (user_id, name, data, created_at) VALUES ($1, $2, $3, DEFAULT) RETURNING id"@,
            StatementName::CreateImage => "INSERT INTO images (url, loadout_id, position) VALUES ($1, $2, $3)"@,
        }
    }

    pub open spec fn spec_name(self) -> Seq<char> {
        match self {
            StatementName::GetImageById => "get_image_by_id"@,
            StatementName::LoadoutSingleWithUser => "loadout_single_with_user"@,
            StatementName::LoadoutSingleWithoutUser => "loadout_single_without_user"@,
            StatementName::LoadoutMultipleWithUser => "loadout_multiple_with_user"@,
            StatementName::LoadoutMultipleWithoutUser => "loadout_multiple_without_user"@,
            StatementName::GetUserById => "get_user_by_id"@,
            StatementName::PostLoginInsertUser => "post_login_insert_user"@,
            StatementName::CreateLoadout => "create_loadout"@,
            StatementName::CreateImage => "create_image"@,
        }
    }

    /// The statement's name in the catalogue.
    pub fn name(&self) -> (r: &'static str)
        ensures
            r@ == self.spec_name(),
    {
        match self {
            StatementName::GetImageById => "get_image_by_id",
            StatementName::LoadoutSingleWithUser => "loadout_single_with_user",
            StatementName::LoadoutSingleWithoutUser => "loadout_single_without_user",
            StatementName::LoadoutMultipleWithUser => "loadout_multiple_with_user",
            StatementName::LoadoutMultipleWithoutUser => "loadout_multiple_without_user",
            StatementName::GetUserById => "get_user_by_id",
            StatementName::PostLoginInsertUser => "post_login_insert_user",
            StatementName::CreateLoadout => "create_loadout",
            StatementName::CreateImage => "create_image",
        }
    }

    /// The statement's SQL text.
    pub fn sql(&self) -> (r: &'static str)
        ensures
            r@ == self.spec_sql(),
    {
        match self {
            StatementName::GetImageById => "SELECT id, url, loadout_id, position, created_at FROM images WHERE loadout_id = $1 ORDER BY position ASC",
            StatementName::LoadoutSingleWithUser => "SELECT id, user_id, name, data, created_at, (SELECT COUNT(*) FROM likes WHERE likes.loadout_id = loadouts.id) AS like_count, EXISTS (SELECT 1 FROM likes WHERE likes.user_id = $1 AND likes.loadout_id = loadouts.id) AS has_liked FROM loadouts WHERE loadouts.id = $2",
            StatementName::LoadoutSingleWithoutUser => "SELECT id, user_id, name, data, created_at, (SELECT COUNT(*) FROM likes WHERE likes.loadout_id = loadouts.id) AS like_count FROM loadouts WHERE loadouts.id = $1",
            StatementName::LoadoutMultipleWithUser => "SELECT id, user_id, name, data, created_at, (SELECT COUNT(*) FROM likes WHERE likes.loadout_id = loadouts.id) AS like_count, (SELECT steam_id FROM users WHERE users.id = loadouts.user_id) AS user_steam_id, (SELECT url FROM images WHERE images.loadout_id = loadouts.id AND images.position = 0 LIMIT 1) AS main_image_url, EXISTS (SELECT 1 FROM likes WHERE likes.user_id = $1 AND likes.loadout_id = loadouts.id) AS has_liked FROM loadouts",
            StatementName::LoadoutMultipleWithoutUser => "SELECT id, user_id, name, data, created_at, (SELECT COUNT(*) FROM likes WHERE likes.loadout_id = loadouts.id) AS like_count, (SELECT steam_id FROM users WHERE users.id = loadouts.user_id) AS user_steam_id, (SELECT url FROM images WHERE images.loadout_id = loadouts.id AND images.position = 0 LIMIT 1) AS main_image_url FROM loadouts",
            StatementName::GetUserById => "SELECT id, steam_id FROM users WHERE steam_id = $1",
            StatementName::PostLoginInsertUser => "INSERT INTO users (steam_id) VALUES ($1) ON CONFLICT DO NOTHING",
            StatementName::CreateLoadout => "INSERT INTO loadouts (user_id, name, data, created_at) VALUES ($1, $2, $3, DEFAULT) RETURNING id",
            StatementName::CreateImage => "INSERT INTO images (url, loadout_id, position) VALUES ($1, $2, $3)",
        }
    }

    pub fn param_types(&self) -> (r: Vec<SqlType>)
        ensures
            r@ == self.spec_param_types(),
    {
        match self {
            StatementName::GetImageById => vec![SqlType::Int4],
            StatementName::LoadoutSingleWithUser => vec![SqlType::Int4, SqlType::Int4],
            StatementName::LoadoutSingleWithoutUser => vec![SqlType::Int4],
            StatementName::LoadoutMultipleWithUser => vec![SqlType::Int4],
            StatementName::LoadoutMultipleWithoutUser => vec![],
            StatementName::GetUserById => vec![SqlType::Int8],
            StatementName::PostLoginInsertUser => vec![SqlType::Int8],
            StatementName::CreateLoadout => vec![SqlType::Int4, SqlType::Varchar, SqlType::Varchar],
            StatementName::CreateImage => vec![SqlType::Varchar, SqlType::Int4, SqlType::Int4],
        }
    }
}

/// The catalogue of statements to prepare on a new connection.
pub fn statement_catalogue() -> (r: Vec<StatementName>)
    ensures
        r@ == all_statements(),
{
    vec![
        StatementName::GetImageById,
        StatementName::LoadoutSingleWithUser,
        StatementName::LoadoutSingleWithoutUser,
        StatementName::LoadoutMultipleWithUser,
        StatementName::LoadoutMultipleWithoutUser,
        StatementName::GetUserById,
        StatementName::PostLoginInsertUser,
        StatementName::CreateLoadout,
        StatementName::CreateImage]
}

/// One connection's prepared statements, a handle for each statement of
/// the catalogue.
pub struct Queries<S> {
    pub get_image_by_id: S,
    pub loadout_single_with_user: S,
    pub loadout_single_without_user: S,
    pub loadout_multiple_with_user: S,
    pub loadout_multiple_without_user: S,
    pub get_user_by_id: S,
    pub post_login_insert_user: S,
    pub create_loadout: S,
    pub create_image: S,
}

impl<S> Queries<S> {
    pub open spec fn spec_get(&self, name: StatementName) -> S {
        match name {
            StatementName::GetImageById => self.get_image_by_id,
            StatementName::LoadoutSingleWithUser => self.loadout_single_with_user,
            StatementName::LoadoutSingleWithoutUser => self.loadout_single_without_user,
            StatementName::LoadoutMultipleWithUser => self.loadout_multiple_with_user,
            StatementName::LoadoutMultipleWithoutUser => self.loadout_multiple_without_user,
            StatementName::GetUserById => self.get_user_by_id,
            StatementName::PostLoginInsertUser => self.post_login_insert_user,
            StatementName::CreateLoadout => self.create_loadout,
            StatementName::CreateImage => self.create_image,
        }
    }

    /// The handle prepared for `name`.
    pub fn get(&self, name: StatementName) -> (r: &S)
        ensures
            *r == self.spec_get(name),
    {
        match name {
            StatementName::GetImageById => &self.get_image_by_id,
            StatementName::LoadoutSingleWithUser => &self.loadout_single_with_user,
            StatementName::LoadoutSingleWithoutUser => &self.loadout_single_without_user,
            StatementName::LoadoutMultipleWithUser => &self.loadout_multiple_with_user,
            StatementName::LoadoutMultipleWithoutUser => &self.loadout_multiple_without_user,
            StatementName::GetUserById => &self.get_user_by_id,
            StatementName::PostLoginInsertUser => &self.post_login_insert_user,
            StatementName::CreateLoadout => &self.create_loadout,
            StatementName::CreateImage => &self.create_image,
        }
    }
}

/// A table being filled as statements finish preparing, in any order.
pub struct QueriesBuilder<S> {
    get_image_by_id: Option<S>,
    loadout_single_with_user: Option<S>,
    loadout_single_without_user: Option<S>,
    loadout_multiple_with_user: Option<S>,
    loadout_multiple_without_user: Option<S>,
    get_user_by_id: Option<S>,
    post_login_insert_user: Option<S>,
    create_loadout: Option<S>,
    create_image: Option<S>,
}

impl<S> QueriesBuilder<S> {
    /// The handle recorded so far for `name`.
    pub closed spec fn slot(&self, name: StatementName) -> Option<S> {
        match name {
            StatementName::GetImageById => self.get_image_by_id,
            StatementName::LoadoutSingleWithUser => self.loadout_single_with_user,
            StatementName::LoadoutSingleWithoutUser => self.loadout_single_without_user,
            StatementName::LoadoutMultipleWithUser => self.loadout_multiple_with_user,
            StatementName::LoadoutMultipleWithoutUser => self.loadout_multiple_without_user,
            StatementName::GetUserById => self.get_user_by_id,
            StatementName::PostLoginInsertUser => self.post_login_insert_user,
            StatementName::CreateLoadout => self.create_loadout,
            StatementName::CreateImage => self.create_image,
        }
    }

    /// The builder with `handle` recorded for `name`.
    pub closed spec fn with_slot(self, name: StatementName, handle: S) -> QueriesBuilder<S> {
        match name {
            StatementName::GetImageById => QueriesBuilder {
                get_image_by_id: Some(handle),
                ..self
            },
            StatementName::LoadoutSingleWithUser => QueriesBuilder {
                loadout_single_with_user: Some(handle),
                ..self
            },
            StatementName::LoadoutSingleWithoutUser => QueriesBuilder {
                loadout_single_without_user: Some(handle),
                ..self
            },
            StatementName::LoadoutMultipleWithUser => QueriesBuilder {
                loadout_multiple_with_user: Some(handle),
                ..self
            },
            StatementName::LoadoutMultipleWithoutUser => QueriesBuilder {
                loadout_multiple_without_user: Some(handle),
                ..self
            },
            StatementName::GetUserById => QueriesBuilder {
                get_user_by_id: Some(handle),
                ..self
            },
            StatementName::PostLoginInsertUser => QueriesBuilder {
                post_login_insert_user: Some(handle),
                ..self
            },
            StatementName::CreateLoadout => QueriesBuilder {
                create_loadout: Some(handle),
                ..self
            },
            StatementName::CreateImage => QueriesBuilder {
                create_image: Some(handle),
                ..self
            },
        }
    }

    pub closed spec fn spec_empty() -> QueriesBuilder<S> {
        QueriesBuilder {
            get_image_by_id: None,
            loadout_single_with_user: None,
            loadout_single_without_user: None,
            loadout_multiple_with_user: None,
            loadout_multiple_without_user: None,
            get_user_by_id: None,
            post_login_insert_user: None,
            create_loadout: None,
            create_image: None,
        }
    }

    /// Whether every statement has a handle.
    pub open spec fn complete(&self) -> bool {
        forall|n: StatementName| (#[trigger] self.slot(n)) is Some
    }

    pub fn new() -> (r: QueriesBuilder<S>)
        ensures
            r == Self::spec_empty(),
            forall|n: StatementName| (#[trigger] r.slot(n)) is None,
    {
        QueriesBuilder {
            get_image_by_id: None,
            loadout_single_with_user: None,
            loadout_single_without_user: None,
            loadout_multiple_with_user: None,
            loadout_multiple_without_user: None,
            get_user_by_id: None,
            post_login_insert_user: None,
            create_loadout: None,
            create_image: None,
        }
    }

    /// Records the handle prepared for `name`.
    pub fn set(&mut self, name: StatementName, handle: S)
        ensures
            *final(self) == old(self).with_slot(name, handle),
            final(self).slot(name) == Some(handle),
            forall|n: StatementName| n != name ==> final(self).slot(n) == old(self).slot(n),
    {
        match name {
            StatementName::GetImageById => self.get_image_by_id = Some(handle),
            StatementName::LoadoutSingleWithUser => self.loadout_single_with_user = Some(handle),
            StatementName::LoadoutSingleWithoutUser => self.loadout_single_without_user = Some(handle),
            StatementName::LoadoutMultipleWithUser => self.loadout_multiple_with_user = Some(handle),
            StatementName::LoadoutMultipleWithoutUser => self.loadout_multiple_without_user = Some(handle),
            StatementName::GetUserById => self.get_user_by_id = Some(handle),
            StatementName::PostLoginInsertUser => self.post_login_insert_user = Some(handle),
            StatementName::CreateLoadout => self.create_loadout = Some(handle),
            StatementName::CreateImage => self.create_image = Some(handle),
        }
    }

    /// The finished table, once every statement has a handle.
    pub fn build(self) -> (r: Option<Queries<S>>)
        ensures
            r is Some <==> self.complete(),
            r matches Some(q) ==> forall|n: StatementName| self.slot(n) == Some(#[trigger] q.spec_get(n)),
    {
        match (
            self.get_image_by_id,
            self.loadout_single_with_user,
            self.loadout_single_without_user,
            self.loadout_multiple_with_user,
            self.loadout_multiple_without_user,
            self.get_user_by_id,
            self.post_login_insert_user,
            self.create_loadout,
            self.create_image,
        ) {
            (
                Some(get_image_by_id),
                Some(loadout_single_with_user),
                Some(loadout_single_without_user),
                Some(loadout_multiple_with_user),
                Some(loadout_multiple_without_user),
                Some(get_user_by_id),
                Some(post_login_insert_user),
                Some(create_loadout),
                Some(create_image),
            ) => Some(
                Queries {
                    get_image_by_id,
                    loadout_single_with_user,
                    loadout_single_without_user,
                    loadout_multiple_with_user,
                    loadout_multiple_without_user,
                    get_user_by_id,
                    post_login_insert_user,
                    create_loadout,
                    create_image,
                },
            ),
            _ => {
                assert(!self.complete()) by {
                    if self.get_image_by_id is None {
                        assert(self.slot(StatementName::GetImageById) is None);
                    }
                    if self.loadout_single_with_user is None {
                        assert(self.slot(StatementName::LoadoutSingleWithUser) is None);
                    }
                    if self.loadout_single_without_user is None {
                        assert(self.slot(StatementName::LoadoutSingleWithoutUser) is None);
                    }
                    if self.loadout_multiple_with_user is None {
                        assert(self.slot(StatementName::LoadoutMultipleWithUser) is None);
                    }
                    if self.loadout_multiple_without_user is None {
                        assert(self.slot(StatementName::LoadoutMultipleWithoutUser) is None);
                    }
                    if self.get_user_by_id is None {
                        assert(self.slot(StatementName::GetUserById) is None);
                    }
                    if self.post_login_insert_user is None {
                        assert(self.slot(StatementName::PostLoginInsertUser) is None);
                    }
                    if self.create_loadout is None {
                        assert(self.slot(StatementName::CreateLoadout) is None);
                    }
                    if self.create_image is None {
                        assert(self.slot(StatementName::CreateImage) is None);
                    }
                }
                None
            },
        }
    }
}

impl<S> QueriesBuilder<S> {
    /// The builder after recording each (statement, handle) pair in turn.
    pub open spec fn with_all(self, prepared: Seq<(StatementName, S)>) -> QueriesBuilder<S>
        decreases prepared.len(),
    {
        if prepared.len() == 0 {
            self
        } else {
            self.with_all(prepared.drop_last()).with_slot(prepared.last().0, prepared.last().1)
        }
    }
}

proof fn lemma_with_slot<S>(b: QueriesBuilder<S>, m: StatementName, h: S, n: StatementName)
    ensures
        b.with_slot(m, h).slot(n) == if n == m {
            Some(h)
        } else {
            b.slot(n)
        },
{
}

proof fn lemma_with_all_has<S>(
    b: QueriesBuilder<S>,
    prepared: Seq<(StatementName, S)>,
    n: StatementName,
    i: int,
)
    requires
        0 <= i < prepared.len(),
        prepared[i].0 == n,
    ensures
        b.with_all(prepared).slot(n) is Some,
    decreases prepared.len(),
{
    let last = prepared.last();
    lemma_with_slot(b.with_all(prepared.drop_last()), last.0, last.1, n);
    if i < prepared.len() - 1 {
        lemma_with_all_has(b, prepared.drop_last(), n, i);
    }
}

/// Preparing every statement of the catalogue, whatever the order in which
/// the preparations finish, leaves a handle for every statement, so the
/// table can be built.
pub proof fn preparing_every_statement_completes<S>(prepared: Seq<(StatementName, S)>)
    requires
        forall|k: int| 0 <= k < all_statements().len() ==>
            exists|i: int| 0 <= i < prepared.len() && prepared[i].0 == #[trigger] all_statements()[k],
    ensures
        QueriesBuilder::<S>::spec_empty().with_all(prepared).complete(),
{
    let b = QueriesBuilder::<S>::spec_empty().with_all(prepared);
    assert forall|n: StatementName| (#[trigger] b.slot(n)) is Some by {
        let k: int = match n {
            StatementName::GetImageById => 0,
            StatementName::LoadoutSingleWithUser => 1,
            StatementName::LoadoutSingleWithoutUser => 2,
            StatementName::LoadoutMultipleWithUser => 3,
            StatementName::LoadoutMultipleWithoutUser => 4,
            StatementName::GetUserById => 5,
            StatementName::PostLoginInsertUser => 6,
            StatementName::CreateLoadout => 7,
            StatementName::CreateImage => 8,
        };
        assert(all_statements()[k] == n);
        let i = choose|i: int| 0 <= i < prepared.len() && prepared[i].0 == all_statements()[k];
        lemma_with_all_has(QueriesBuilder::<S>::spec_empty(), prepared, n, i);
    }
}

} // verus!
