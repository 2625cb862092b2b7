//! The decisions of the user API. Each request either needs one answer of
//! the store (`*_reply`), or runs as a small state machine (`*Flow`): the
//! caller performs each action, hands back what the store answered as an
//! event, and stops at the reply.
use vstd::prelude::*;
use crate::runtime::{is_hyphenated_uuid, new_uuid, now, Timestamp};
use crate::user::{BaseModel, UserModel, UserPagingResult};

verus! {

/// The answer to an API request.
pub enum ApiResult<T> {
    /// The requested or created data.
    Data(T),
    /// Done, with nothing to send back.
    NoContent,
    /// Nothing was found.
    NotFound,
    /// The request failed with this HTTP status, code and message.
    Error { status: u16, code: String, message: String },
}

/// `r` is the error with this status, code and message.
pub open spec fn is_error<T>(r: ApiResult<T>, status: u16, code: Seq<char>, message: Seq<char>) -> bool {
    r matches ApiResult::Error { status: s, code: c, message: m } && s == status && c@ == code
        && m@ == message
}

impl<T> ApiResult<T> {
    pub fn from_error(status: u16, code: &str, message: &str) -> (r: Self)
        ensures
            is_error(r, status, code@, message@),
    {
        ApiResult::Error { status, code: code.to_owned(), message: message.to_owned() }
    }

    pub fn no_content() -> (r: Self)
        ensures
            r is NoContent,
    {
        ApiResult::NoContent
    }

    pub fn from_data(data: T) -> (r: Self)
        ensures
            r == ApiResult::Data(data),
    {
        ApiResult::Data(data)
    }

    /// The data if there is some, else not found.
    pub fn from_option(data: Option<T>) -> (r: Self)
        ensures
            match data {
                Some(d) => r == ApiResult::Data(d),
                None => r is NotFound,
            },
    {
        match data {
            Some(d) => ApiResult::Data(d),
            None => ApiResult::NotFound,
        }
    }
}

/// The action sends the error with this status, code and message.
pub open spec fn replies_error<T>(
    action: UserAction<T>,
    status: u16,
    code: Seq<char>,
    message: Seq<char>,
) -> bool {
    action matches UserAction::Reply(a) && is_error(a, status, code, message)
}

/// The action asks whether this email is taken.
pub open spec fn checks_email<T>(action: UserAction<T>, email: Seq<char>) -> bool {
    action matches UserAction::CheckEmail(e) && e@ == email
}

/// The flow is left pending the storing of a user prepared from `u`.
pub open spec fn stores_new_user(flow: CreateUserFlow, u: UserModel) -> bool {
    flow matches CreateUserFlow::Storing(n) && prepared_for_creation(u, n)
}

/// The flow is left pending the writing back of `existing` merged with `req`.
pub open spec fn stores_update(flow: UpdateUserFlow, existing: UserModel, req: UserModel) -> bool {
    flow matches UpdateUserFlow::Storing(m) && merged_for_update(existing, req, m)
}

/// What the store answered.
pub enum UserEvent {
    /// Whether a user with the checked name or email exists.
    Exists(Result<bool, String>),
    /// The user that was loaded, if any.
    Loaded(Result<Option<UserModel>, String>),
    /// Whether the write went through.
    Saved(Result<(), String>),
}

/// What the caller is to do next.
pub enum UserAction<T> {
    /// Ask whether a user with this username exists.
    CheckUsername(String),
    /// Ask whether a user with this email exists.
    CheckEmail(String),
    /// Load the user with this identifier.
    LoadUser(String),
    /// Insert the pending user of the flow.
    StoreNewUser,
    /// Update the stored user with the pending user of the flow.
    StoreUpdatedUser,
    /// Send this answer; the flow is over.
    Reply(ApiResult<T>),
    /// The event does not belong to this state: nothing to do.
    Ignore,
}

/// Whoever the API acts as when it stamps a record.
pub open spec fn acting_user() -> Seq<char> {
    "michel"@
}

/// `n` is `u` with a fresh identifier and creation metadata stamped now.
pub open spec fn prepared_for_creation(u: UserModel, n: UserModel) -> bool {
    &&& is_hyphenated_uuid(n.user_id@)
    &&& n.username == u.username
    &&& n.first_name == u.first_name
    &&& n.last_name == u.last_name
    &&& n.function == u.function
    &&& n.email == u.email
    &&& n.attributes == u.attributes
    &&& n.metadata.created_by matches Some(c) && c@ == acting_user()
    &&& n.metadata.created_at is Some
    &&& n.metadata.updated_by is None
    &&& n.metadata.updated_at is None
    &&& n.metadata.version == 1
}

/// `m` is the stored user `existing` with the profile of the request `req`
/// and update metadata stamped now.
pub open spec fn merged_for_update(existing: UserModel, req: UserModel, m: UserModel) -> bool {
    &&& m.user_id == existing.user_id
    &&& m.username == req.username
    &&& m.first_name == req.first_name
    &&& m.last_name == req.last_name
    &&& m.function == req.function
    &&& m.email == req.email
    &&& m.attributes == req.attributes
    &&& m.metadata.created_by is None
    &&& m.metadata.created_at is None
    &&& m.metadata.updated_by matches Some(c) && c@ == acting_user()
    &&& m.metadata.updated_at is Some
    &&& m.metadata.version == 1
}

/// Creating a user: the username, then the email, must be free; then the
/// user is stored with a fresh identifier.
pub enum CreateUserFlow {
    CheckingUsername(UserModel),
    CheckingEmail(UserModel),
    Storing(UserModel),
    Finished,
}

impl CreateUserFlow {
    pub fn start(user: UserModel) -> (r: (CreateUserFlow, UserAction<UserModel>))
        ensures
            r.1 matches UserAction::CheckUsername(n) && n@ == user.username@,
            r.0 == CreateUserFlow::CheckingUsername(user),
    {
        let name = user.username.clone();
        (CreateUserFlow::CheckingUsername(user), UserAction::CheckUsername(name))
    }

    /// The user to store, while one is pending.
    pub fn pending_user(&self) -> (u: Option<&UserModel>)
        ensures
            match self {
                CreateUserFlow::Storing(p) => u == Some(p),
                _ => u is None,
            },
    {
        match self {
            CreateUserFlow::Storing(p) => Some(p),
            _ => None,
        }
    }

    /// A taken username or email is refused with a conflict. Once stored,
    /// the new user is sent back, whatever the store answered.
    pub fn step(self, event: UserEvent) -> (r: (CreateUserFlow, UserAction<UserModel>))
        ensures
            match (self, event) {
                (CreateUserFlow::CheckingUsername(u), UserEvent::Exists(Ok(true))) => r.0
                    is Finished && replies_error(r.1, 409, "409"@, "username already exists"@),
                (CreateUserFlow::CheckingUsername(u), UserEvent::Exists(_)) => r.0
                    == CreateUserFlow::CheckingEmail(u) && checks_email(r.1, u.email@),
                (CreateUserFlow::CheckingEmail(u), UserEvent::Exists(Ok(true))) => r.0
                    is Finished && replies_error(r.1, 409, "409"@, "email already exists"@),
                (CreateUserFlow::CheckingEmail(u), UserEvent::Exists(_)) => stores_new_user(
                    r.0,
                    u,
                ) && r.1 is StoreNewUser,
                (CreateUserFlow::Storing(u), UserEvent::Saved(_)) => r.0 is Finished && r.1
                    == UserAction::Reply(ApiResult::Data(u)),
                _ => r.0 == self && r.1 is Ignore,
            },
    {
        match (self, event) {
            (CreateUserFlow::CheckingUsername(u), UserEvent::Exists(answer)) => {
                if let Ok(true) = answer {
                    (
                        CreateUserFlow::Finished,
                        UserAction::Reply(
                            ApiResult::from_error(409, "409", "username already exists"),
                        ),
                    )
                } else {
                    let email = u.email.clone();
                    (CreateUserFlow::CheckingEmail(u), UserAction::CheckEmail(email))
                }
            },
            (CreateUserFlow::CheckingEmail(u), UserEvent::Exists(answer)) => {
                if let Ok(true) = answer {
                    (
                        CreateUserFlow::Finished,
                        UserAction::Reply(ApiResult::from_error(409, "409", "email already exists")),
                    )
                } else {
                    let n = UserApi::prepare_new_user(u, new_uuid(), now());
                    (CreateUserFlow::Storing(n), UserAction::StoreNewUser)
                }
            },
            (CreateUserFlow::Storing(u), UserEvent::Saved(_)) => {
                (CreateUserFlow::Finished, UserAction::Reply(ApiResult::Data(u)))
            },
            (state, _) => (state, UserAction::Ignore),
        }
    }
}

/// Updating a user: the stored user is loaded, its profile replaced by the
/// request's, and written back.
pub enum UpdateUserFlow {
    Loading(UserModel),
    Storing(UserModel),
    Finished,
}

impl UpdateUserFlow {
    pub fn start(user: UserModel) -> (r: (UpdateUserFlow, UserAction<()>))
        ensures
            r.1 matches UserAction::LoadUser(id) && id@ == user.user_id@,
            r.0 == UpdateUserFlow::Loading(user),
    {
        let id = user.user_id.clone();
        (UpdateUserFlow::Loading(user), UserAction::LoadUser(id))
    }

    /// The user to write back, while one is pending.
    pub fn pending_user(&self) -> (u: Option<&UserModel>)
        ensures
            match self {
                UpdateUserFlow::Storing(p) => u == Some(p),
                _ => u is None,
            },
    {
        match self {
            UpdateUserFlow::Storing(p) => Some(p),
            _ => None,
        }
    }

    /// A missing user is answered with 404, a failure of the store with 500
    /// and its message, a done update with no content.
    pub fn step(self, event: UserEvent) -> (r: (UpdateUserFlow, UserAction<()>))
        ensures
            match (self, event) {
                (UpdateUserFlow::Loading(req), UserEvent::Loaded(Ok(Some(existing)))) => stores_update(
                    r.0,
                    existing,
                    req,
                ) && r.1 is StoreUpdatedUser,
                (UpdateUserFlow::Loading(req), UserEvent::Loaded(Ok(None))) => r.0 is Finished
                    && replies_error(r.1, 404, "404"@, "user not found"@),
                (UpdateUserFlow::Loading(req), UserEvent::Loaded(Err(e))) => r.0 is Finished
                    && replies_error(r.1, 500, "500"@, e@),
                (UpdateUserFlow::Storing(m), UserEvent::Saved(Err(e))) => r.0 is Finished
                    && replies_error(r.1, 500, "500"@, e@),
                (UpdateUserFlow::Storing(m), UserEvent::Saved(Ok(_))) => r.0 is Finished
                    && r.1 == UserAction::<()>::Reply(ApiResult::NoContent),
                _ => r.0 == self && r.1 is Ignore,
            },
    {
        match (self, event) {
            (UpdateUserFlow::Loading(req), UserEvent::Loaded(loaded)) => match loaded {
                Ok(Some(existing)) => {
                    let m = UserApi::merge_update(existing, req, now());
                    (UpdateUserFlow::Storing(m), UserAction::StoreUpdatedUser)
                },
                Ok(None) => (
                    UpdateUserFlow::Finished,
                    UserAction::Reply(ApiResult::from_error(404, "404", "user not found")),
                ),
                Err(e) => (
                    UpdateUserFlow::Finished,
                    UserAction::Reply(ApiResult::from_error(500, "500", e.as_str())),
                ),
            },
            (UpdateUserFlow::Storing(m), UserEvent::Saved(saved)) => match saved {
                Err(e) => (
                    UpdateUserFlow::Finished,
                    UserAction::Reply(ApiResult::from_error(500, "500", e.as_str())),
                ),
                Ok(_) => (UpdateUserFlow::Finished, UserAction::Reply(ApiResult::no_content())),
            },
            (state, _) => (state, UserAction::Ignore),
        }
    }
}

/// The user API.
pub struct UserApi;

impl UserApi {
    /// The user to insert: the request with the identifier `user_id` and
    /// creation metadata stamped at `created_at`.
    pub fn prepare_new_user(user: UserModel, user_id: String, created_at: Timestamp) -> (n: UserModel)
        ensures
            n.user_id == user_id,
            n.username == user.username,
            n.first_name == user.first_name,
            n.last_name == user.last_name,
            n.function == user.function,
            n.email == user.email,
            n.attributes == user.attributes,
            n.metadata.created_by matches Some(c) && c@ == acting_user(),
            n.metadata.created_at == Some(created_at),
            n.metadata.updated_by is None,
            n.metadata.updated_at is None,
            n.metadata.version == 1,
    {
        let mut n = user;
        n.user_id = user_id;
        n.metadata = BaseModel::created("michel".to_owned(), created_at);
        n
    }

    /// The user to write back: `existing` with the profile of `changes` and
    /// update metadata stamped at `updated_at`.
    pub fn merge_update(existing: UserModel, changes: UserModel, updated_at: Timestamp) -> (m: UserModel)
        ensures
            m.user_id == existing.user_id,
            m.username == changes.username,
            m.first_name == changes.first_name,
            m.last_name == changes.last_name,
            m.function == changes.function,
            m.email == changes.email,
            m.attributes == changes.attributes,
            m.metadata.created_by is None,
            m.metadata.created_at is None,
            m.metadata.updated_by matches Some(c) && c@ == acting_user(),
            m.metadata.updated_at == Some(updated_at),
            m.metadata.version == 1,
    {
        let mut m = existing;
        m.username = changes.username;
        m.first_name = changes.first_name;
        m.last_name = changes.last_name;
        m.function = changes.function;
        m.email = changes.email;
        m.attributes = changes.attributes;
        m.metadata = BaseModel::updated("michel".to_owned(), updated_at);
        m
    }

    pub fn delete_user_reply(deleted: Result<(), String>) -> (r: ApiResult<()>)
        ensures
            match deleted {
                Ok(_) => r is NoContent,
                Err(e) => is_error(r, 500, "500"@, e@),
            },
    {
        match deleted {
            Err(e) => ApiResult::from_error(500, "500", e.as_str()),
            Ok(_) => ApiResult::no_content(),
        }
    }

    pub fn load_user_by_id_reply(loaded: Result<Option<UserModel>, String>) -> (r: ApiResult<
        UserModel,
    >)
        ensures
            match loaded {
                Ok(Some(u)) => r == ApiResult::Data(u),
                Ok(None) => r is NotFound,
                Err(e) => is_error(r, 500, "500"@, e@),
            },
    {
        match loaded {
            Ok(user) => ApiResult::from_option(user),
            Err(e) => ApiResult::from_error(500, "500", e.as_str()),
        }
    }

    /// An empty page is answered with no content.
    pub fn load_users_reply(loaded: Result<UserPagingResult, String>) -> (r: ApiResult<
        UserPagingResult,
    >)
        ensures
            match loaded {
                Ok(page) => if page.users@.len() == 0 {
                    r is NoContent
                } else {
                    r == ApiResult::Data(page)
                },
                Err(e) => is_error(r, 500, "500"@, e@),
            },
    {
        match loaded {
            Ok(users) => {
                if users.users.len() == 0 {
                    ApiResult::no_content()
                } else {
                    ApiResult::from_data(users)
                }
            },
            Err(e) => ApiResult::from_error(500, "500", e.as_str()),
        }
    }

    pub fn count_users_reply(counted: Result<u64, String>) -> (r: ApiResult<u64>)
        ensures
            match counted {
                Ok(c) => r == ApiResult::Data(c),
                Err(e) => is_error(r, 500, "500"@, e@),
            },
    {
        match counted {
            Ok(count) => ApiResult::from_data(count),
            Err(e) => ApiResult::from_error(500, "500", e.as_str()),
        }
    }
}

} // verus!
