//! Data access: the parameterized statements issued against the `users`
//! table, what a lookup makes of the rows it gets back, and a model of the
//! table that those statements act on.
use vstd::prelude::*;
use crate::user::{CreateUserParams, User, UserView, users_view};

verus! {

/// Why a data-access operation produced no user.
#[derive(Clone, Copy, Debug, PartialEq, Eq, Structural)]
pub enum StoreError {
    /// No row has the requested id.
    NotFound,
    /// More than one row has the requested id.
    Ambiguous,
    /// The database reported a failure.
    Database,
}

/// A value bound to a statement placeholder.
pub enum Param {
    Int(i32),
    Text(String),
}

/// The model of a bound value.
pub enum ParamView {
    Int(i32),
    Text(Seq<char>),
}

impl View for Param {
    type V = ParamView;

    open spec fn view(&self) -> ParamView {
        match self {
            Param::Int(i) => ParamView::Int(*i),
            Param::Text(s) => ParamView::Text(s@),
        }
    }
}

/// One statement against the `users` table. Its SQL text is fixed by its
/// kind; the values it carries are only ever bound to placeholders.
pub enum Statement {
    SelectAll,
    SelectById(i32),
    Insert(CreateUserParams),
    DeleteById(i32),
}

/// The SQL text of a statement: it depends on the statement's kind alone.
pub open spec fn statement_sql(s: &Statement) -> Seq<char> {
    match s {
        Statement::SelectAll => "SELECT * FROM users"@,
        Statement::SelectById(_) => "SELECT * FROM users WHERE id = $1"@,
        Statement::Insert(_) =>
            "INSERT INTO users (username, password, email) VALUES ($1, $2, $3) RETURNING *"@,
        Statement::DeleteById(_) => "DELETE FROM users WHERE id = $1"@,
    }
}

/// The values bound to `$1`, `$2`, ... of a statement, in order.
pub open spec fn statement_params(s: &Statement) -> Seq<ParamView> {
    match s {
        Statement::SelectAll => seq![],
        Statement::SelectById(id) => seq![ParamView::Int(*id)],
        Statement::Insert(p) => seq![
            ParamView::Text(p.username@),
            ParamView::Text(p.password@),
            ParamView::Text(p.email@),
        ],
        Statement::DeleteById(id) => seq![ParamView::Int(*id)],
    }
}

impl Statement {
    /// The SQL text to send, with `$n` placeholders.
    pub fn sql(&self) -> (r: &'static str)
        ensures
            r@ == statement_sql(self),
    {
        match self {
            Statement::SelectAll => "SELECT * FROM users",
            Statement::SelectById(_) => "SELECT * FROM users WHERE id = $1",
            Statement::Insert(_) =>
                "INSERT INTO users (username, password, email) VALUES ($1, $2, $3) RETURNING *",
            Statement::DeleteById(_) => "DELETE FROM users WHERE id = $1",
        }
    }

    /// The values to bind, in placeholder order.
    pub fn params(&self) -> (r: Vec<Param>)
        ensures
            r@.map_values(|p: Param| p@) == statement_params(self),
    {
        let mut r: Vec<Param> = Vec::new();
        match self {
            Statement::SelectAll => {},
            Statement::SelectById(id) => {
                r.push(Param::Int(*id));
            },
            Statement::Insert(p) => {
                r.push(Param::Text(p.username.clone()));
                r.push(Param::Text(p.password.clone()));
                r.push(Param::Text(p.email.clone()));
            },
            Statement::DeleteById(id) => {
                r.push(Param::Int(*id));
            },
        }
        assert(r@.map_values(|p: Param| p@) =~= statement_params(self));
        r
    }
}

/// What a lookup by id makes of the rows that match: the one row, or why
/// there is not exactly one.
pub open spec fn single_user(rows: Seq<UserView>) -> Result<UserView, StoreError> {
    if rows.len() == 0 {
        Err(StoreError::NotFound)
    } else if rows.len() == 1 {
        Ok(rows[0])
    } else {
        Err(StoreError::Ambiguous)
    }
}

/// The model of a lookup's result.
pub open spec fn found_view(r: Result<User, StoreError>) -> Result<UserView, StoreError> {
    match r {
        Ok(u) => Ok(u@),
        Err(e) => Err(e),
    }
}

/// The model of a statement's returned rows, or its failure.
pub open spec fn fetched_view(r: Result<Vec<User>, StoreError>) -> Result<Seq<UserView>, StoreError> {
    match r {
        Ok(rows) => Ok(users_view(rows@)),
        Err(e) => Err(e),
    }
}

/// The single user among the rows a lookup by id returned.
pub fn user_from_rows(rows: Vec<User>) -> (r: Result<User, StoreError>)
    ensures
        found_view(r) == single_user(users_view(rows@)),
{
    let mut rows = rows;
    if rows.len() == 0 {
        Err(StoreError::NotFound)
    } else if rows.len() == 1 {
        match rows.pop() {
            Some(u) => Ok(u),
            None => Err(StoreError::NotFound),
        }
    } else {
        Err(StoreError::Ambiguous)
    }
}

/// What a lookup by id makes of its outcome: the single matching row, or
/// why there is none.
pub open spec fn looked_up(fetched: Result<Seq<UserView>, StoreError>) -> Result<UserView, StoreError> {
    match fetched {
        Ok(rows) => single_user(rows),
        Err(e) => Err(e),
    }
}

/// The single user among the rows of a lookup, or the lookup's failure.
pub fn lookup(fetched: Result<Vec<User>, StoreError>) -> (r: Result<User, StoreError>)
    ensures
        found_view(r) == looked_up(fetched_view(fetched)),
{
    match fetched {
        Ok(rows) => user_from_rows(rows),
        Err(e) => Err(e),
    }
}

/// The rows of table `t` whose id is `id`, in table order.
pub open spec fn rows_with_id(t: Seq<UserView>, id: i32) -> Seq<UserView>
    decreases t.len(),
{
    if t.len() == 0 {
        seq![]
    } else if t.last().id == id {
        rows_with_id(t.drop_last(), id).push(t.last())
    } else {
        rows_with_id(t.drop_last(), id)
    }
}

/// Table `t` after `DELETE FROM users WHERE id = id`.
pub open spec fn delete_rows(t: Seq<UserView>, id: i32) -> Seq<UserView>
    decreases t.len(),
{
    if t.len() == 0 {
        seq![]
    } else if t.last().id == id {
        delete_rows(t.drop_last(), id)
    } else {
        delete_rows(t.drop_last(), id).push(t.last())
    }
}

/// Whether some row of `t` has id `id`.
pub open spec fn has_id(t: Seq<UserView>, id: i32) -> bool {
    exists|i: int| 0 <= i < t.len() && #[trigger] t[i].id == id
}

/// No two rows of `t` share an id: the table's invariant.
pub open spec fn ids_unique(t: Seq<UserView>) -> bool {
    forall|i: int, j: int| 0 <= i < j < t.len() ==> #[trigger] t[i].id != #[trigger] t[j].id
}

} // verus!
