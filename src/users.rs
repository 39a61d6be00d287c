use vstd::prelude::*;

use crate::models::{NewUser, NewUserModel, User, UserModel};

verus! {

/// Why a persistence operation failed.
#[derive(Debug, Clone, Copy, PartialEq, Eq, Structural)]
pub enum StoreError {
    /// No row matches the lookup.
    NotFound,
    /// Another row already holds the email, which must be unique.
    UniqueViolation,
    /// Every primary key the column can hold has been handed out.
    KeysExhausted,
}

/// The mathematical value of the `users` relation: its rows in insertion
/// order, and the primary key the next insert will receive.
pub struct RepoModel {
    pub rows: Seq<UserModel>,
    pub next_id: int,
}

/// The `users` relation. Keys are generated in increasing order starting at
/// one, emails are unique, and no stored row carries a token.
pub struct Repo {
    rows: Vec<User>,
    next_id: i32,
}

pub open spec fn rows_wf(rows: Seq<UserModel>, next_id: int) -> bool {
    &&& 1 <= next_id <= i32::MAX
    &&& forall|i: int| 0 <= i < rows.len() ==> 1 <= #[trigger] rows[i].id < next_id
    &&& forall|i: int, j: int| 0 <= i < j < rows.len() ==> #[trigger] rows[i].id < #[trigger] rows[j].id
    &&& forall|i: int, j: int|
        0 <= i < rows.len() && 0 <= j < rows.len() && i != j ==> #[trigger] rows[i].email
            != #[trigger] rows[j].email
    &&& forall|i: int| 0 <= i < rows.len() ==> (#[trigger] rows[i]).token is None
}

/// Whether some row holds the email.
pub open spec fn email_taken(rows: Seq<UserModel>, email: Seq<char>) -> bool {
    exists|i: int| 0 <= i < rows.len() && (#[trigger] rows[i]).email == email
}

/// Whether some row has the primary key.
pub open spec fn has_id(rows: Seq<UserModel>, id: int) -> bool {
    exists|i: int| 0 <= i < rows.len() && (#[trigger] rows[i]).id == id
}

/// Whether some row has both the email and the password.
pub open spec fn has_credentials(rows: Seq<UserModel>, email: Seq<char>, password: Seq<char>) -> bool {
    exists|i: int| 0 <= i < rows.len() && (#[trigger] rows[i]).email == email && rows[i].password == password
}

/// The row a point lookup by primary key yields.
pub open spec fn find_spec(rows: Seq<UserModel>, id: int) -> Result<UserModel, StoreError> {
    if has_id(rows, id) {
        Ok(rows[choose|i: int| 0 <= i < rows.len() && (#[trigger] rows[i]).id == id])
    } else {
        Err(StoreError::NotFound)
    }
}

/// The row a lookup by exact email and password yields.
pub open spec fn credentials_spec(rows: Seq<UserModel>, email: Seq<char>, password: Seq<char>) -> Result<
    UserModel,
    StoreError,
> {
    if has_credentials(rows, email, password) {
        Ok(
            rows[choose|i: int|
                0 <= i < rows.len() && (#[trigger] rows[i]).email == email && rows[i].password
                    == password],
        )
    } else {
        Err(StoreError::NotFound)
    }
}

/// The row an insert stores: the payload under the next key, with no token.
pub open spec fn stored_row(user: NewUserModel, id: int) -> UserModel {
    UserModel {
        id,
        email: user.email,
        username: user.username,
        password: user.password,
        token: None,
    }
}

/// What an insert does: the relation afterwards and the result.
pub open spec fn insert_spec(repo: RepoModel, user: NewUserModel) -> (RepoModel, Result<UserModel, StoreError>) {
    if email_taken(repo.rows, user.email) {
        (repo, Err(StoreError::UniqueViolation))
    } else if repo.next_id == i32::MAX {
        (repo, Err(StoreError::KeysExhausted))
    } else {
        let row = stored_row(user, repo.next_id);
        (RepoModel { rows: repo.rows.push(row), next_id: repo.next_id + 1 }, Ok(row))
    }
}

/// The mathematical value of an operation's result.
pub open spec fn result_view(r: Result<User, StoreError>) -> Result<UserModel, StoreError> {
    match r {
        Ok(u) => Ok(u@),
        Err(e) => Err(e),
    }
}

impl View for Repo {
    type V = RepoModel;

    closed spec fn view(&self) -> RepoModel {
        RepoModel { rows: self.rows@.map_values(|u: User| u@), next_id: self.next_id as int }
    }
}

impl Repo {
    /// The invariant of the relation.
    pub open spec fn wf(&self) -> bool {
        rows_wf(self@.rows, self@.next_id)
    }

    /// An empty relation whose first key will be one.
    pub fn new() -> (r: Repo)
        ensures
            r.wf(),
            r@.rows.len() == 0,
            r@.next_id == 1,
    {
        let r = Repo { rows: Vec::new(), next_id: 1 };
        assert(r@.rows =~= Seq::<UserModel>::empty());
        r
    }

    /// The number of stored rows.
    pub fn len(&self) -> (n: usize)
        ensures
            n == self@.rows.len(),
    {
        self.rows.len()
    }
}

/// Stores the payload as a new row under the next key and returns the stored
/// row. Fails with `UniqueViolation`, leaving the relation as it was, when the
/// email is already held, and with `KeysExhausted` when no key is left.
pub fn insert(repo: &mut Repo, user: NewUser) -> (r: Result<User, StoreError>)
    requires
        old(repo).wf(),
    ensures
        final(repo).wf(),
        (final(repo)@, result_view(r)) == insert_spec(old(repo)@, user@),
{
    let ghost rows = repo@.rows;
    let mut i: usize = 0;
    while i < repo.rows.len()
        invariant
            repo.wf(),
            repo@.rows == rows,
            0 <= i <= rows.len(),
            forall|j: int| 0 <= j < i ==> (#[trigger] rows[j]).email != user.email@,
        decreases rows.len() - i,
    {
        if repo.rows[i].email == user.email {
            assert(rows[i as int].email == user.email@);
            return Err(StoreError::UniqueViolation);
        }
        i = i + 1;
    }
    if repo.next_id == i32::MAX {
        return Err(StoreError::KeysExhausted);
    }
    let id = repo.next_id;
    let row = User {
        id,
        email: user.email,
        username: user.username,
        password: user.password,
        token: None,
    };
    let stored = row.copy();
    repo.rows.push(row);
    repo.next_id = id + 1;
    assert(repo@.rows =~= rows.push(stored_row(user@, id as int)));
    Ok(stored)
}

/// Looks a row up by primary key; `NotFound` when no row has it.
pub fn find(repo: &Repo, user_id: i32) -> (r: Result<User, StoreError>)
    requires
        repo.wf(),
    ensures
        result_view(r) == find_spec(repo@.rows, user_id as int),
{
    let ghost rows = repo@.rows;
    let mut i: usize = 0;
    while i < repo.rows.len()
        invariant
            repo.wf(),
            repo@.rows == rows,
            0 <= i <= rows.len(),
            forall|j: int| 0 <= j < i ==> (#[trigger] rows[j]).id != user_id,
        decreases rows.len() - i,
    {
        if repo.rows[i].id == user_id {
            let found = repo.rows[i].copy();
            assert(rows[i as int].id == user_id);
            assert(has_id(rows, user_id as int));
            let ghost k = choose|k: int| 0 <= k < rows.len() && (#[trigger] rows[k]).id == user_id;
            assert(k == i) by {
                if k < i { assert(rows[k].id < rows[i as int].id); }
                if k > i { assert(rows[i as int].id < rows[k].id); }
            }
            return Ok(found);
        }
        i = i + 1;
    }
    Err(StoreError::NotFound)
}

/// Looks a row up by exact equality of both email and password; `NotFound`
/// when no row matches both.
pub fn find_by_email_password(repo: &Repo, user_email: String, user_password: String) -> (r: Result<
    User,
    StoreError,
>)
    requires
        repo.wf(),
    ensures
        result_view(r) == credentials_spec(repo@.rows, user_email@, user_password@),
{
    let ghost rows = repo@.rows;
    let mut i: usize = 0;
    while i < repo.rows.len()
        invariant
            repo.wf(),
            repo@.rows == rows,
            0 <= i <= rows.len(),
            forall|j: int|
                0 <= j < i ==> !((#[trigger] rows[j]).email == user_email@ && rows[j].password
                    == user_password@),
        decreases rows.len() - i,
    {
        if repo.rows[i].email == user_email && repo.rows[i].password == user_password {
            let found = repo.rows[i].copy();
            assert(rows[i as int].email == user_email@);
            assert(has_credentials(rows, user_email@, user_password@));
            let ghost k = choose|k: int|
                0 <= k < rows.len() && (#[trigger] rows[k]).email == user_email@ && rows[k].password
                    == user_password@;
            assert(k == i) by {
                if k != i { assert(rows[k].email != rows[i as int].email); }
            }
            return Ok(found);
        }
        i = i + 1;
    }
    Err(StoreError::NotFound)
}

/// A user that was inserted is found again by the key it was given, with the
/// email, username and password it was inserted with, and that key was held by
/// no row before.
pub proof fn lemma_insert_then_find(repo: Repo, user: NewUser)
    requires
        repo.wf(),
        insert_spec(repo@, user@).1 is Ok,
    ensures
        ({
            let (after, res) = insert_spec(repo@, user@);
            let u = res->Ok_0;
            &&& find_spec(after.rows, u.id) == Ok::<UserModel, StoreError>(u)
            &&& u.email == user@.email
            &&& u.username == user@.username
            &&& u.password == user@.password
            &&& !has_id(repo@.rows, u.id)
        }),
{
    let (after, res) = insert_spec(repo@, user@);
    let u = res->Ok_0;
    let n = repo@.rows.len() as int;
    assert(after.rows[n] == u);
    assert(has_id(after.rows, u.id));
    let k = choose|k: int| 0 <= k < after.rows.len() && (#[trigger] after.rows[k]).id == u.id;
    if k < n {
        assert(repo@.rows[k].id < repo@.next_id);
    }
    if has_id(repo@.rows, u.id) {
        let j = choose|j: int| 0 <= j < repo@.rows.len() && (#[trigger] repo@.rows[j]).id == u.id;
        assert(repo@.rows[j].id < repo@.next_id);
    }
}

/// A user that was inserted is found by its exact email and password; with
/// the same email and any other password, the lookup fails with `NotFound`.
pub proof fn lemma_insert_then_authenticate(repo: Repo, user: NewUser, other_password: Seq<char>)
    requires
        repo.wf(),
        insert_spec(repo@, user@).1 is Ok,
        other_password != user@.password,
    ensures
        ({
            let (after, res) = insert_spec(repo@, user@);
            &&& credentials_spec(after.rows, user@.email, user@.password) == res
            &&& credentials_spec(after.rows, user@.email, other_password) == Err::<UserModel, StoreError>(
                StoreError::NotFound,
            )
        }),
{
    let (after, res) = insert_spec(repo@, user@);
    let u = res->Ok_0;
    let n = repo@.rows.len() as int;
    assert(after.rows[n] == u);
    assert(has_credentials(after.rows, user@.email, user@.password));
    let k = choose|k: int|
        0 <= k < after.rows.len() && (#[trigger] after.rows[k]).email == user@.email
            && after.rows[k].password == user@.password;
    if k < n {
        assert(email_taken(repo@.rows, user@.email));
    }
    if has_credentials(after.rows, user@.email, other_password) {
        let j = choose|j: int|
            0 <= j < after.rows.len() && (#[trigger] after.rows[j]).email == user@.email
                && after.rows[j].password == other_password;
        if j < n {
            assert(email_taken(repo@.rows, user@.email));
        }
    }
}

/// Reading does not change what is read: two lookups of one key in an
/// unchanged relation yield identical users.
pub proof fn lemma_find_is_repeatable(
    repo: Repo,
    user_id: i32,
    first: Result<User, StoreError>,
    second: Result<User, StoreError>,
)
    requires
        repo.wf(),
        result_view(first) == find_spec(repo@.rows, user_id as int),
        result_view(second) == find_spec(repo@.rows, user_id as int),
    ensures
        result_view(first) == result_view(second),
{
}

} // verus!
