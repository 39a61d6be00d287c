use vstd::prelude::*;

use crate::models::{NewUser, NewUserModel, User, UserModel};
use crate::users::{
    credentials_spec, email_taken, find, find_by_email_password, find_spec, has_credentials,
    has_id, insert, insert_spec, lemma_insert_then_authenticate, Repo, RepoModel, StoreError,
};

verus! {

/// The HTTP statuses the handlers answer with.
#[derive(Debug, Clone, Copy, PartialEq, Eq, Structural)]
pub enum Status {
    Success,
    BadRequest,
    Unauthorized,
    InternalServerError,
}

/// The kinds of failure a request can meet.
#[derive(Debug, Clone, Copy, PartialEq, Eq, Structural)]
pub enum ErrorKind {
    /// The body could not be read, decoded as UTF-8 or parsed into the
    /// expected shape.
    ClientInput,
    /// A lookup matched no row.
    NotFound,
    /// Any other persistence fault.
    Storage,
}

pub open spec fn spec_code(s: Status) -> u16 {
    match s {
        Status::Success => 200,
        Status::BadRequest => 400,
        Status::Unauthorized => 401,
        Status::InternalServerError => 500,
    }
}

impl Status {
    /// The numeric HTTP status code.
    pub fn code(&self) -> (r: u16)
        ensures
            r == spec_code(*self),
    {
        match self {
            Status::Success => 200,
            Status::BadRequest => 400,
            Status::Unauthorized => 401,
            Status::InternalServerError => 500,
        }
    }
}

pub open spec fn spec_kind_of(e: StoreError) -> ErrorKind {
    match e {
        StoreError::NotFound => ErrorKind::NotFound,
        _ => ErrorKind::Storage,
    }
}

pub open spec fn spec_status_for(kind: ErrorKind) -> Status {
    match kind {
        ErrorKind::ClientInput => Status::BadRequest,
        ErrorKind::NotFound => Status::Unauthorized,
        ErrorKind::Storage => Status::InternalServerError,
    }
}

/// The kind of a persistence failure: a missing row, or a storage fault.
pub fn kind_of(e: StoreError) -> (r: ErrorKind)
    ensures
        r == spec_kind_of(e),
{
    match e {
        StoreError::NotFound => ErrorKind::NotFound,
        _ => ErrorKind::Storage,
    }
}

/// The status a failure is answered with. A missing row always means the
/// caller is not authenticated.
pub fn status_for(kind: ErrorKind) -> (r: Status)
    ensures
        r == spec_status_for(kind),
{
    match kind {
        ErrorKind::ClientInput => Status::BadRequest,
        ErrorKind::NotFound => Status::Unauthorized,
        ErrorKind::Storage => Status::InternalServerError,
    }
}

/// The decoded body of a registration request.
pub struct Registration {
    pub user: NewUser,
}

/// The body of a successful response.
pub struct UserResponse {
    pub user: User,
}

/// The decoded body of a login request.
pub struct AuthRequest {
    pub user: AuthUser,
}

/// The credentials of a login request.
pub struct AuthUser {
    pub email: String,
    pub password: String,
}

/// A handler's answer: a status and, on success, the user to send back.
pub struct Reply {
    pub status: Status,
    pub body: Option<UserResponse>,
}

/// The mathematical value of a reply.
pub struct ReplyModel {
    pub status: Status,
    pub user: Option<UserModel>,
}

impl View for Reply {
    type V = ReplyModel;

    open spec fn view(&self) -> ReplyModel {
        ReplyModel {
            status: self.status,
            user: match self.body {
                Some(b) => Some(b.user@),
                None => None,
            },
        }
    }
}

pub open spec fn failure(status: Status) -> ReplyModel {
    ReplyModel { status, user: None }
}

pub open spec fn success(user: UserModel) -> ReplyModel {
    ReplyModel { status: Status::Success, user: Some(user) }
}

/// What registration does to the relation, and its reply; `None` stands for
/// a body that could not be decoded.
pub open spec fn register_spec(repo: RepoModel, body: Option<NewUserModel>) -> (RepoModel, ReplyModel) {
    match body {
        None => (repo, failure(Status::BadRequest)),
        Some(user) => {
            let (after, res) = insert_spec(repo, user);
            match res {
                Ok(u) => (after, success(u)),
                Err(e) => (after, failure(spec_status_for(spec_kind_of(e)))),
            }
        },
    }
}

/// The outcome of checking login credentials: the user to issue a token
/// for, or the final reply.
pub open spec fn login_spec(repo: RepoModel, body: Option<(Seq<char>, Seq<char>)>) -> Result<
    UserModel,
    ReplyModel,
> {
    match body {
        None => Err(failure(Status::BadRequest)),
        Some((email, password)) => match credentials_spec(repo.rows, email, password) {
            Ok(u) => Ok(u),
            Err(e) => Err(failure(spec_status_for(spec_kind_of(e)))),
        },
    }
}

/// The reply to an authenticated login: the user with the token set.
pub open spec fn login_reply_spec(user: UserModel, token: Seq<char>) -> ReplyModel {
    success(UserModel { token: Some(token), ..user })
}

/// The reply to a request for the current user; `None` stands for a request
/// that carries no verified token.
pub open spec fn get_user_spec(repo: RepoModel, user_id: Option<int>) -> ReplyModel {
    match user_id {
        None => failure(Status::Unauthorized),
        Some(id) => match find_spec(repo.rows, id) {
            Ok(u) => success(u),
            Err(e) => failure(spec_status_for(spec_kind_of(e))),
        },
    }
}

pub open spec fn registration_view(body: Option<Registration>) -> Option<NewUserModel> {
    match body {
        Some(r) => Some(r.user@),
        None => None,
    }
}

pub open spec fn auth_view(body: Option<AuthRequest>) -> Option<(Seq<char>, Seq<char>)> {
    match body {
        Some(a) => Some((a.user.email@, a.user.password@)),
        None => None,
    }
}

pub open spec fn login_view(r: Result<User, Reply>) -> Result<UserModel, ReplyModel> {
    match r {
        Ok(u) => Ok(u@),
        Err(reply) => Err(reply@),
    }
}

pub open spec fn claim_view(user_id: Option<i32>) -> Option<int> {
    match user_id {
        Some(id) => Some(id as int),
        None => None,
    }
}

fn fail(status: Status) -> (r: Reply)
    ensures
        r@ == failure(status),
{
    Reply { status, body: None }
}

fn respond(user: User) -> (r: Reply)
    ensures
        r@ == success(user@),
{
    Reply { status: Status::Success, body: Some(UserResponse { user }) }
}

/// Handles `POST /api/users`: stores the new user and answers with it, or
/// with 400 for an undecodable body and the status of the storage failure
/// otherwise.
pub fn register(repo: &mut Repo, body: Option<Registration>) -> (r: Reply)
    requires
        old(repo).wf(),
    ensures
        final(repo).wf(),
        (final(repo)@, r@) == register_spec(old(repo)@, registration_view(body)),
{
    match body {
        None => fail(Status::BadRequest),
        Some(registration) => match insert(repo, registration.user) {
            Ok(user) => respond(user),
            Err(e) => fail(status_for(kind_of(e))),
        },
    }
}

/// Handles the credential check of `POST /api/users/login`: the user whose
/// email and password both match, to whom a token is then issued, or the
/// reply that ends the request (400 for an undecodable body, 401 when no user
/// matches).
pub fn login(repo: &Repo, body: Option<AuthRequest>) -> (r: Result<User, Reply>)
    requires
        repo.wf(),
    ensures
        login_view(r) == login_spec(repo@, auth_view(body)),
{
    match body {
        None => Err(fail(Status::BadRequest)),
        Some(request) => match find_by_email_password(repo, request.user.email, request.user.password) {
            Ok(user) => Ok(user),
            Err(e) => Err(fail(status_for(kind_of(e)))),
        },
    }
}

/// Completes a login: answers 200 with the user and the token issued for it.
pub fn login_response(user: User, token: String) -> (r: Reply)
    ensures
        r@ == login_reply_spec(user@, token@),
{
    respond(User { token: Some(token), ..user })
}

/// Handles `GET /api/user` for the user id carried by a verified token:
/// answers with that user, or 401 when there is no token or no such user.
pub fn get_user(repo: &Repo, user_id: Option<i32>) -> (r: Reply)
    requires
        repo.wf(),
    ensures
        r@ == get_user_spec(repo@, claim_view(user_id)),
        r@.status != Status::Success ==> r@.user is None,
{
    match user_id {
        None => fail(Status::Unauthorized),
        Some(id) => match find(repo, id) {
            Ok(user) => respond(user),
            Err(e) => fail(status_for(kind_of(e))),
        },
    }
}

/// Registering a new user and then logging in with the same email and
/// password authenticates exactly that user, and completing the login with a
/// non-empty token answers 200 with that token set.
pub proof fn lemma_register_then_login(repo: Repo, user: NewUser, token: Seq<char>)
    requires
        repo.wf(),
        !email_taken(repo@.rows, user@.email),
        repo@.next_id < i32::MAX,
        token.len() > 0,
    ensures
        ({
            let (after, reply) = register_spec(repo@, Some(user@));
            let outcome = login_spec(after, Some((user@.email, user@.password)));
            &&& reply.status == Status::Success
            &&& outcome is Ok
            &&& Some(outcome->Ok_0) == reply.user
            &&& login_reply_spec(outcome->Ok_0, token).status == Status::Success
            &&& login_reply_spec(outcome->Ok_0, token).user->Some_0.token == Some(token)
        }),
{
    let other = user@.password.push('x');
    assert(other.len() != user@.password.len());
    lemma_insert_then_authenticate(repo, user, other);
}

/// Logging in with an email that no user holds answers 401 and issues no
/// token.
pub proof fn lemma_login_unknown_email(repo: Repo, email: Seq<char>, password: Seq<char>)
    requires
        repo.wf(),
        !email_taken(repo@.rows, email),
    ensures
        login_spec(repo@, Some((email, password))) == Err::<UserModel, ReplyModel>(
            failure(Status::Unauthorized),
        ),
{
    if has_credentials(repo@.rows, email, password) {
        let i = choose|i: int|
            0 <= i < repo@.rows.len() && (#[trigger] repo@.rows[i]).email == email
                && repo@.rows[i].password == password;
        assert(email_taken(repo@.rows, email));
    }
}

/// Without a verified token the current user is never sent: the answer is
/// 401 with no body, whatever the relation holds.
pub proof fn lemma_get_user_needs_token(repo: Repo)
    requires
        repo.wf(),
    ensures
        get_user_spec(repo@, None) == failure(Status::Unauthorized),
        get_user_spec(repo@, None).status != Status::Success,
{
}

/// For a token whose user no longer exists the answer is 401 with no body.
pub proof fn lemma_get_user_unknown_id(repo: Repo, user_id: int)
    requires
        repo.wf(),
        !has_id(repo@.rows, user_id),
    ensures
        get_user_spec(repo@, Some(user_id)) == failure(Status::Unauthorized),
{
}

} // verus!
