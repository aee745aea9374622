//! The records that the service reads from and writes to its store.
//! Timestamps are microseconds since the Unix epoch; soil moisture and the
//! bounds of a profile are bit patterns of `f32` values (see `reading`).

use vstd::prelude::*;

verus! {

/// The name and password that a client sends to log in or to register.
pub struct UserLoginDto {
    pub username: String,
    pub password: String,
}

/// A user as stored, with the password's hash.
pub struct FullUserInfoDto {
    pub id: i32,
    pub username: String,
    pub password: String,
}

/// What a user may see of a user.
pub struct UserInfoDto {
    pub id: i32,
    pub username: String,
}

/// A stored login session: its key is what the client keeps in its cookie.
pub struct LoginDTO {
    pub id: i32,
    /// Microseconds since the Unix epoch.
    pub at: i64,
    pub user_id: i32,
    pub key: String,
}

/// What a client sends to create or to change a plant.
pub struct NewPlantDto {
    pub name: String,
    pub profile_id: i32,
}

/// A plant as stored.
pub struct PlantDto {
    pub id: i32,
    pub name: String,
    pub profile_id: i32,
    /// Microseconds since the Unix epoch.
    pub last_watered: Option<i64>,
    pub uuid: String,
    pub belongs_to_user_id: i32,
    /// The `f32` bit pattern of the last soil moisture reported.
    pub soil_moisture: u32,
}

/// A plant profile as stored: the range in which the soil moisture is kept.
pub struct PlantProfileDto {
    pub id: i32,
    pub name: String,
    /// The `f32` bit pattern of the upper bound.
    pub max_moisture: u32,
    /// The `f32` bit pattern of the lower bound.
    pub min_moisture: u32,
}

/// What a client sends to create a plant profile.
pub struct NewPlantProfileDto {
    pub name: String,
    /// The `f32` bit pattern of the upper bound.
    pub max_moisture: u32,
    /// The `f32` bit pattern of the lower bound.
    pub min_moisture: u32,
}

/// The user that a request is made by, with the key of its session.
pub struct LoggedInUserDTO {
    pub id: i32,
    pub key: String,
}

/// A session as a request guard sees it: the user and the session's key.
pub struct Login {
    pub id: i32,
    pub key: String,
}

/// A failed query or transaction of the store; what failed is reported at the edge.
#[derive(Debug, Clone, Copy, PartialEq, Eq)]
pub struct DbFailure;

} // verus!
