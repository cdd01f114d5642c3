//! Laws of the service, stated over the model of the `users` table and the
//! specifications of routing, statements and responses.
use vstd::prelude::*;
use crate::handlers::{
    BodyKind, create_response, delete_response, get_response, list_response, not_found_response,
    ok_json,
};
use crate::json::{digits_of, users_json};
use crate::router::{Method, Route, parse_i32, route_of};
use crate::store::{
    ParamView, Statement, delete_rows, has_id, ids_unique, rows_with_id,
    statement_params, statement_sql,
};
use crate::user::{CreateUserParams, UserView};

verus! {

proof fn lemma_no_rows_without_id(t: Seq<UserView>, id: i32)
    requires
        !has_id(t, id),
    ensures
        rows_with_id(t, id) == Seq::<UserView>::empty(),
    decreases t.len(),
{
    if t.len() > 0 {
        assert(t.last().id == t[t.len() - 1].id);
        assert(!has_id(t.drop_last(), id)) by {
            if has_id(t.drop_last(), id) {
                let i = choose|i: int| 0 <= i < t.drop_last().len() && #[trigger] t.drop_last()[i].id == id;
                assert(t[i].id == id);
            }
        }
        lemma_no_rows_without_id(t.drop_last(), id);
    }
}

proof fn lemma_one_row_with_id(t: Seq<UserView>, id: i32)
    requires
        ids_unique(t),
        has_id(t, id),
    ensures
        rows_with_id(t, id).len() == 1,
        delete_rows(t, id).len() == t.len() - 1,
    decreases t.len(),
{
    let d = t.drop_last();
    let last = t.len() - 1;
    assert(ids_unique(d));
    if t[last].id == id {
        assert(!has_id(d, id)) by {
            if has_id(d, id) {
                let i = choose|i: int| 0 <= i < d.len() && #[trigger] d[i].id == id;
                assert(t[i].id != t[last].id);
            }
        }
        lemma_no_rows_without_id(d, id);
        lemma_nothing_deleted_without_id(d, id);
    } else {
        let i = choose|i: int| 0 <= i < t.len() && #[trigger] t[i].id == id;
        assert(d[i].id == id);
        lemma_one_row_with_id(d, id);
    }
}

proof fn lemma_nothing_deleted_without_id(t: Seq<UserView>, id: i32)
    requires
        !has_id(t, id),
    ensures
        delete_rows(t, id) == t,
    decreases t.len(),
{
    if t.len() > 0 {
        let d = t.drop_last();
        assert(t[t.len() - 1].id != id);
        assert(!has_id(d, id)) by {
            if has_id(d, id) {
                let i = choose|i: int| 0 <= i < d.len() && #[trigger] d[i].id == id;
                assert(t[i].id == id);
            }
        }
        lemma_nothing_deleted_without_id(d, id);
        assert(d.push(t.last()) =~= t);
    }
}

proof fn lemma_deleted_id_is_gone(t: Seq<UserView>, id: i32)
    ensures
        rows_with_id(delete_rows(t, id), id) == Seq::<UserView>::empty(),
    decreases t.len(),
{
    if t.len() > 0 {
        lemma_deleted_id_is_gone(t.drop_last(), id);
        if t.last().id != id {
            let d = delete_rows(t.drop_last(), id);
            assert(d.push(t.last()).drop_last() =~= d);
        }
    }
}

/// Creating a user and then looking it up by the id it was given finds a
/// user equal in every field to the one the creation returned: in a table
/// whose ids stay unique, the lookup matches exactly that row, and `GET
/// /users/{id}` answers with the very body that `POST /users` answered with.
pub proof fn lemma_create_then_get(t: Seq<UserView>, created: UserView)
    requires
        ids_unique(t.push(created)),
    ensures
        rows_with_id(t.push(created), created.id) == seq![created],
        get_response(Ok(rows_with_id(t.push(created), created.id))) == create_response(
            Ok(seq![created]),
        ),
        create_response(Ok(seq![created])).status == 200,
{
    let t2 = t.push(created);
    assert(!has_id(t, created.id)) by {
        if has_id(t, created.id) {
            let i = choose|i: int| 0 <= i < t.len() && #[trigger] t[i].id == created.id;
            assert(t2[i].id != t2[t.len() as int].id);
        }
    }
    lemma_no_rows_without_id(t, created.id);
    assert(t2.drop_last() =~= t);
    assert(rows_with_id(t2, created.id) =~= seq![created]);
}

/// `GET /users` answers with exactly the rows of the table, in table order,
/// each as a JSON object.
pub proof fn lemma_list_reflects_table(t: Seq<UserView>)
    ensures
        list_response(Ok(t)) == ok_json(users_json(t)),
{
}

/// Deleting the id of an existing row removes exactly that row and answers
/// "Successfully deleted 1 user(s)"; looking the id up afterwards answers 400.
pub proof fn lemma_delete_existing(t: Seq<UserView>, id: i32)
    requires
        ids_unique(t),
        has_id(t, id),
    ensures
        delete_rows(t, id).len() == t.len() - 1,
        delete_response(Ok((t.len() - delete_rows(t, id).len()) as u64)).status == 200,
        delete_response(Ok((t.len() - delete_rows(t, id).len()) as u64)).body
            == "Successfully deleted 1 user(s)"@,
        get_response(Ok(rows_with_id(delete_rows(t, id), id))).status == 400,
{
    lemma_one_row_with_id(t, id);
    lemma_deleted_id_is_gone(t, id);
    reveal_strlit("Successfully deleted 1 user(s)");
    reveal_strlit("Successfully deleted ");
    reveal_strlit(" user(s)");
    assert(digits_of(1) == seq!['1']);
    assert(delete_response(Ok(1u64)).body =~= "Successfully deleted 1 user(s)"@);
}

/// `GET /users` on an empty table answers 200 with the JSON text `[]`.
pub proof fn lemma_empty_table_lists_as_empty_array(t: Seq<UserView>)
    requires
        t.len() == 0,
    ensures
        list_response(Ok(t)).status == 200,
        list_response(Ok(t)).kind == BodyKind::Json,
        list_response(Ok(t)).body == "[]"@,
{
    reveal_strlit("[]");
    assert(users_json(t) =~= "[]"@);
}

/// Whether `path` is `/users` or `/users/{id}` with an integer id.
pub open spec fn is_users_path(path: Seq<char>) -> bool {
    ||| path == "/users"@
    ||| path.len() >= "/users/"@.len() && path.take("/users/"@.len() as int) == "/users/"@
        && parse_i32(path.skip("/users/"@.len() as int)) is Some
}

/// A request to any path other than `/users` or `/users/{id}` selects no
/// action, whatever its method, and is answered 404 with an empty body.
pub proof fn lemma_unknown_path_not_found(m: Method, path: Seq<char>)
    requires
        !is_users_path(path),
    ensures
        route_of(m, path) == Route::Unknown,
        not_found_response().status == 404,
        not_found_response().body.len() == 0,
{
}

/// Every statement's SQL text is fixed by its kind, so no value a caller
/// supplies is ever spliced into it; each value travels as a bound
/// parameter, character for character.
pub proof fn lemma_values_are_bound(p: CreateUserParams, q: CreateUserParams, a: i32, b: i32)
    ensures
        statement_sql(&Statement::Insert(p)) == statement_sql(&Statement::Insert(q)),
        statement_params(&Statement::Insert(p)) == seq![
            ParamView::Text(p.username@),
            ParamView::Text(p.password@),
            ParamView::Text(p.email@),
        ],
        statement_sql(&Statement::SelectById(a)) == statement_sql(&Statement::SelectById(b)),
        statement_params(&Statement::SelectById(a)) == seq![ParamView::Int(a)],
        statement_sql(&Statement::DeleteById(a)) == statement_sql(&Statement::DeleteById(b)),
        statement_params(&Statement::DeleteById(a)) == seq![ParamView::Int(a)],
{
}

} // verus!
