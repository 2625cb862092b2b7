//! The user entity, its audit metadata, and the shapes in which users are
//! created, updated and listed.
use vstd::prelude::*;
use crate::attributes::AttributesMap;
use crate::runtime::{now, Timestamp};

verus! {

pub open spec fn opt_text(o: Option<String>) -> Option<Seq<char>> {
    match o {
        Some(s) => Some(s@),
        None => None,
    }
}

/// Who created and last updated a record, when, and its version.
pub struct BaseModel {
    pub created_by: Option<String>,
    pub created_at: Option<Timestamp>,
    pub updated_by: Option<String>,
    pub updated_at: Option<Timestamp>,
    pub version: i32,
}

fn clone_text(o: &Option<String>) -> (c: Option<String>)
    ensures
        c == *o,
{
    match o {
        Some(s) => Some(s.clone()),
        None => None,
    }
}

impl Clone for BaseModel {
    fn clone(&self) -> (c: Self)
        ensures
            c == *self,
    {
        BaseModel {
            created_by: clone_text(&self.created_by),
            created_at: self.created_at,
            updated_by: clone_text(&self.updated_by),
            updated_at: self.updated_at,
            version: self.version,
        }
    }
}

impl Default for BaseModel {
    fn default() -> (m: Self)
        ensures
            m.created_by is None,
            m.created_at is None,
            m.updated_by is None,
            m.updated_at is None,
            m.version == 0,
    {
        BaseModel {
            created_by: None,
            created_at: None,
            updated_by: None,
            updated_at: None,
            version: 0,
        }
    }
}

impl BaseModel {
    /// The metadata of a record created by `created_by` at `created_at`.
    pub fn created(created_by: String, created_at: Timestamp) -> (m: Self)
        ensures
            m.created_by == Some(created_by),
            m.created_at == Some(created_at),
            m.updated_by is None,
            m.updated_at is None,
            m.version == 1,
    {
        BaseModel {
            created_by: Some(created_by),
            updated_by: None,
            created_at: Some(created_at),
            updated_at: None,
            version: 1,
        }
    }

    /// The metadata of a change by `updated_by` at `updated_at`.
    pub fn updated(updated_by: String, updated_at: Timestamp) -> (m: Self)
        ensures
            m.created_by is None,
            m.created_at is None,
            m.updated_by == Some(updated_by),
            m.updated_at == Some(updated_at),
            m.version == 1,
    {
        BaseModel {
            created_by: None,
            updated_by: Some(updated_by),
            created_at: None,
            updated_at: Some(updated_at),
            version: 1,
        }
    }

    /// The metadata of a record created by `created_by` now.
    pub fn from_creator(created_by: String) -> (m: Self)
        ensures
            m.created_by == Some(created_by),
            m.created_at is Some,
            m.updated_by is None,
            m.updated_at is None,
            m.version == 1,
    {
        BaseModel::created(created_by, now())
    }

    /// The metadata of a change by `updated_by` now.
    pub fn from_updater(updated_by: String) -> (m: Self)
        ensures
            m.created_by is None,
            m.created_at is None,
            m.updated_by == Some(updated_by),
            m.updated_at is Some,
            m.version == 1,
    {
        BaseModel::updated(updated_by, now())
    }
}

/// A user of the service.
pub struct UserModel {
    pub user_id: String,
    pub username: String,
    pub first_name: String,
    pub last_name: String,
    pub function: String,
    pub email: String,
    pub attributes: Option<AttributesMap>,
    pub metadata: BaseModel,
}

impl Default for UserModel {
    fn default() -> (u: Self)
        ensures
            u.user_id@.len() == 0,
            u.username@.len() == 0,
            u.first_name@.len() == 0,
            u.last_name@.len() == 0,
            u.function@.len() == 0,
            u.email@.len() == 0,
            u.attributes is None,
            u.metadata.created_by is None,
            u.metadata.created_at is None,
            u.metadata.updated_by is None,
            u.metadata.updated_at is None,
            u.metadata.version == 0,
    {
        UserModel {
            user_id: String::new(),
            username: String::new(),
            first_name: String::new(),
            last_name: String::new(),
            function: String::new(),
            email: String::new(),
            attributes: None,
            metadata: BaseModel::default(),
        }
    }
}

/// A request to create a user.
pub struct UserCreateModel {
    pub username: String,
    pub first_name: String,
    pub last_name: String,
    pub function: String,
    pub email: String,
    pub attributes: Option<AttributesMap>,
}

impl UserCreateModel {
    /// The user that the request describes, with no identifier and empty
    /// metadata yet.
    pub fn into(self) -> (u: UserModel)
        ensures
            u.user_id@.len() == 0,
            u.username == self.username,
            u.first_name == self.first_name,
            u.last_name == self.last_name,
            u.function == self.function,
            u.email == self.email,
            u.attributes == self.attributes,
            u.metadata.created_by is None,
            u.metadata.created_at is None,
            u.metadata.updated_by is None,
            u.metadata.updated_at is None,
            u.metadata.version == 0,
    {
        UserModel {
            user_id: String::new(),
            username: self.username,
            first_name: self.first_name,
            last_name: self.last_name,
            function: self.function,
            email: self.email,
            attributes: self.attributes,
            metadata: BaseModel::default(),
        }
    }
}

/// A request to update a user. Its identifier and username are not carried
/// over: the identifier comes from the route, and the username is left empty.
pub struct UserUpdateModel {
    pub user_id: String,
    pub username: String,
    pub first_name: String,
    pub last_name: String,
    pub function: String,
    pub email: String,
    pub attributes: Option<AttributesMap>,
}

impl UserUpdateModel {
    /// The changes that the request describes.
    pub fn into(self) -> (u: UserModel)
        ensures
            u.user_id@.len() == 0,
            u.username@.len() == 0,
            u.first_name == self.first_name,
            u.last_name == self.last_name,
            u.function == self.function,
            u.email == self.email,
            u.attributes == self.attributes,
            u.metadata.created_by is None,
            u.metadata.created_at is None,
            u.metadata.updated_by is None,
            u.metadata.updated_at is None,
            u.metadata.version == 0,
    {
        UserModel {
            user_id: String::new(),
            username: String::new(),
            first_name: self.first_name,
            last_name: self.last_name,
            function: self.function,
            email: self.email,
            attributes: self.attributes,
            metadata: BaseModel::default(),
        }
    }
}

/// A page of users.
pub struct UserPagingResult {
    pub page_size: Option<u64>,
    pub page_index: Option<u64>,
    pub total_count: Option<u64>,
    pub users: Vec<UserModel>,
}

/// Which page of users is asked for.
pub struct PagingParams {
    pub page_index: Option<u64>,
    pub page_size: Option<u64>,
}

} // verus!
