//! The decisions of the user operations: logging in, registering, and reading
//! a user's own record. Each operation that waits on the store in between its
//! decisions is a state machine: a value of the flow names the query to run
//! next, and the matching method takes the query's result and gives the next
//! value, until the flow is `Finished` with the reply.

use vstd::prelude::*;

use crate::entity::{DbFailure, FullUserInfoDto, LoginDTO, UserInfoDto, UserLoginDto};
use crate::error::{is_bad_request, is_internal, ErrorResponse};
use crate::password::{bcrypt_hash, bcrypt_shape, bcrypt_verify, fresh_salt, hash_password, verify_password, HASH_COST};

verus! {

/// The login of a user.
pub enum LoginFlow {
    /// Look the user up by `username`, then call `on_user`.
    FindUser { username: String, password: String },
    /// Store a new session for `user_id`, then call `on_stored`.
    StoreLogin { user_id: i32 },
    /// The reply.
    Finished(Result<LoginDTO, ErrorResponse>),
}

/// How a login starts: a caller that holds a session already is refused.
pub open spec fn login_start_post(login_dto: UserLoginDto, auth_key: Option<String>, r: LoginFlow) -> bool {
    match auth_key {
        Some(_) => r matches LoginFlow::Finished(Err(e)) && is_bad_request(e, "You are already logged in"@),
        None => r == (LoginFlow::FindUser { username: login_dto.username, password: login_dto.password }),
    }
}

/// What follows the lookup of the user: a session is stored only for a known
/// user whose stored hash bcrypt accepts for `password`.
pub open spec fn login_on_user_post(
    password: Seq<char>,
    found: Result<Option<FullUserInfoDto>, DbFailure>,
    r: LoginFlow,
) -> bool {
    match found {
        Err(_) => r matches LoginFlow::Finished(Err(e)) && is_internal(e),
        Ok(None) => r matches LoginFlow::Finished(Err(e)) && is_bad_request(e, "Invalid credentials"@),
        Ok(Some(user)) => if bcrypt_verify(password, user.password@) == Some(true) {
            r == (LoginFlow::StoreLogin { user_id: user.id })
        } else {
            r matches LoginFlow::Finished(Err(e)) && is_bad_request(e, "Invalid credentials"@)
        },
    }
}

/// What follows storing the session: the stored session is the reply.
pub open spec fn login_on_stored_post(stored: Result<LoginDTO, DbFailure>, r: LoginFlow) -> bool {
    match stored {
        Ok(login) => r == LoginFlow::Finished(Ok(login)),
        Err(_) => r matches LoginFlow::Finished(Err(e)) && is_internal(e),
    }
}

impl LoginFlow {
    /// Starts a login with the credentials sent and the session key that the
    /// caller's cookie holds, if any.
    pub fn start(login_dto: UserLoginDto, auth_key: Option<String>) -> (r: LoginFlow)
        ensures
            login_start_post(login_dto, auth_key, r),
    {
        if auth_key.is_some() {
            return LoginFlow::Finished(Err(ErrorResponse::bad_request("You are already logged in")));
        }
        LoginFlow::FindUser { username: login_dto.username, password: login_dto.password }
    }

    /// Takes the user found under the name (or the failure of the lookup).
    pub fn on_user(self, found: Result<Option<FullUserInfoDto>, DbFailure>) -> (r: LoginFlow)
        requires
            self is FindUser,
        ensures
            login_on_user_post(self->password@, found, r),
    {
        match self {
            LoginFlow::FindUser { password, .. } => match found {
                Err(f) => LoginFlow::Finished(Err(ErrorResponse::from_db_failure(f))),
                Ok(None) => LoginFlow::Finished(Err(ErrorResponse::bad_request("Invalid credentials"))),
                Ok(Some(user)) => match verify_password(password.as_str(), user.password.as_str()) {
                    Some(true) => LoginFlow::StoreLogin { user_id: user.id },
                    _ => LoginFlow::Finished(Err(ErrorResponse::bad_request("Invalid credentials"))),
                },
            },
            other => other,
        }
    }

    /// Takes the session stored (or the failure to store it).
    pub fn on_stored(self, stored: Result<LoginDTO, DbFailure>) -> (r: LoginFlow)
        requires
            self is StoreLogin,
        ensures
            login_on_stored_post(stored, r),
    {
        match stored {
            Ok(login) => LoginFlow::Finished(Ok(login)),
            Err(f) => LoginFlow::Finished(Err(ErrorResponse::from_db_failure(f))),
        }
    }
}

/// A login that ends in a session went through all of these: the caller held
/// no session, the store knew the name, bcrypt accepted the password against
/// the stored hash, the session was stored for that very user, and the reply
/// is that session.
pub proof fn lemma_login_success_requires_valid_credentials(
    login_dto: UserLoginDto,
    auth_key: Option<String>,
    first: LoginFlow,
    found: Result<Option<FullUserInfoDto>, DbFailure>,
    second: LoginFlow,
    stored: Result<LoginDTO, DbFailure>,
    last: LoginFlow,
)
    requires
        login_start_post(login_dto, auth_key, first),
        first is FindUser,
        login_on_user_post(first->password@, found, second),
        second is StoreLogin,
        login_on_stored_post(stored, last),
        last matches LoginFlow::Finished(Ok(_)),
    ensures
        auth_key is None,
        found matches Ok(Some(user)) && bcrypt_verify(login_dto.password@, user.password@) == Some(true)
            && second->user_id == user.id,
        stored matches Ok(login) && last == LoginFlow::Finished(Ok(login)),
{
}

/// The registration of a user.
pub enum RegisterFlow {
    /// Look a user up by `request.username`, then call `on_existing`.
    FindUser { request: UserLoginDto },
    /// Store `new_user` (its password is a hash by now), then call `on_created`.
    CreateUser { new_user: UserLoginDto },
    /// The reply.
    Finished(Result<UserInfoDto, ErrorResponse>),
}

/// What follows the lookup of the name, given the salt drawn for the hash:
/// a taken name is refused, and a new user's password is stored as its bcrypt
/// hash.
pub open spec fn register_on_existing_post(
    login_dto: UserLoginDto,
    found: Result<Option<FullUserInfoDto>, DbFailure>,
    salt: Seq<u8>,
    r: RegisterFlow,
) -> bool {
    match found {
        Err(_) => r matches RegisterFlow::Finished(Err(e)) && is_internal(e),
        Ok(Some(_)) => r matches RegisterFlow::Finished(Err(e)) && is_bad_request(e, "User already exists"@),
        Ok(None) => match bcrypt_hash(login_dto.password@, HASH_COST, salt) {
            None => r matches RegisterFlow::Finished(Err(e)) && is_internal(e),
            Some(hash) => r matches RegisterFlow::CreateUser { new_user: stored }
                && stored.username == login_dto.username && stored.password@ == hash
                && bcrypt_verify(login_dto.password@, hash) == Some(true)
                && bcrypt_shape(hash, HASH_COST),
        },
    }
}

/// What follows storing the user: its id and name are the reply.
pub open spec fn register_on_created_post(created: Result<FullUserInfoDto, DbFailure>, r: RegisterFlow) -> bool {
    match created {
        Ok(user) => r == RegisterFlow::Finished(Ok(UserInfoDto { id: user.id, username: user.username })),
        Err(_) => r matches RegisterFlow::Finished(Err(e)) && is_internal(e),
    }
}

impl RegisterFlow {
    /// Starts the registration of the credentials sent.
    pub fn start(login_dto: UserLoginDto) -> (r: RegisterFlow)
        ensures
            r == (RegisterFlow::FindUser { request: login_dto }),
    {
        RegisterFlow::FindUser { request: login_dto }
    }

    /// Takes the user found under the name, and hashes the password with `salt`.
    pub fn on_existing_with_salt(
        self,
        found: Result<Option<FullUserInfoDto>, DbFailure>,
        salt: [u8; 16],
    ) -> (r: RegisterFlow)
        requires
            self is FindUser,
        ensures
            register_on_existing_post(self->request, found, salt@, r),
            found == Ok::<Option<FullUserInfoDto>, DbFailure>(None) ==> r is CreateUser,
    {
        match self {
            RegisterFlow::FindUser { request: login_dto } => match found {
                Err(f) => RegisterFlow::Finished(Err(ErrorResponse::from_db_failure(f))),
                Ok(Some(_)) => RegisterFlow::Finished(Err(ErrorResponse::bad_request("User already exists"))),
                Ok(None) => match hash_password(login_dto.password.as_str(), HASH_COST, salt) {
                    None => RegisterFlow::Finished(Err(ErrorResponse::InternalServerError(()))),
                    Some(hash) => RegisterFlow::CreateUser {
                        new_user: UserLoginDto { username: login_dto.username, password: hash },
                    },
                },
            },
            other => other,
        }
    }

    /// Takes the user found under the name, and hashes the password with a
    /// random salt.
    pub fn on_existing(self, found: Result<Option<FullUserInfoDto>, DbFailure>) -> (r: RegisterFlow)
        requires
            self is FindUser,
        ensures
            exists|salt: Seq<u8>|
                salt.len() == 16 && #[trigger] register_on_existing_post(self->request, found, salt, r),
            found == Ok::<Option<FullUserInfoDto>, DbFailure>(None) ==> r is CreateUser,
    {
        let ghost login_dto = self->request;
        let salt = fresh_salt();
        let r = self.on_existing_with_salt(found, salt);
        assert(register_on_existing_post(login_dto, found, salt@, r));
        r
    }

    /// Takes the user stored (or the failure to store it).
    pub fn on_created(self, created: Result<FullUserInfoDto, DbFailure>) -> (r: RegisterFlow)
        requires
            self is CreateUser,
        ensures
            register_on_created_post(created, r),
    {
        match created {
            Ok(user) => RegisterFlow::Finished(Ok(UserInfoDto { id: user.id, username: user.username })),
            Err(f) => RegisterFlow::Finished(Err(ErrorResponse::from_db_failure(f))),
        }
    }
}

/// A registration stores a user only where the store knew no user of that
/// name, under the name sent, and with the bcrypt hash (at `HASH_COST`) of the
/// password sent in place of the password.
pub proof fn lemma_register_stores_only_new_hashed_users(
    login_dto: UserLoginDto,
    found: Result<Option<FullUserInfoDto>, DbFailure>,
    salt: Seq<u8>,
    next: RegisterFlow,
)
    requires
        register_on_existing_post(login_dto, found, salt, next),
        next is CreateUser,
    ensures
        found == Ok::<Option<FullUserInfoDto>, DbFailure>(None),
        next->new_user.username == login_dto.username,
        bcrypt_hash(login_dto.password@, HASH_COST, salt) == Some(next->new_user.password@),
{
}

/// A registration never stores a password as it was sent, unless the password
/// itself has the form of a bcrypt hash at `HASH_COST`: what it stores has that
/// form.
pub proof fn lemma_register_stores_no_plaintext(
    login_dto: UserLoginDto,
    found: Result<Option<FullUserInfoDto>, DbFailure>,
    salt: Seq<u8>,
    next: RegisterFlow,
)
    requires
        register_on_existing_post(login_dto, found, salt, next),
        next is CreateUser,
    ensures
        bcrypt_shape(next->new_user.password@, HASH_COST),
        !bcrypt_shape(login_dto.password@, HASH_COST) ==> next->new_user.password@ != login_dto.password@,
{
}

/// A user that registered can log in with the password it registered: where
/// the store gives back the user as registered, the login goes on to store a
/// session for it.
pub proof fn lemma_registered_password_logs_in(
    login_dto: UserLoginDto,
    found: Result<Option<FullUserInfoDto>, DbFailure>,
    salt: Seq<u8>,
    registered: RegisterFlow,
    user: FullUserInfoDto,
    login_next: LoginFlow,
)
    requires
        register_on_existing_post(login_dto, found, salt, registered),
        registered is CreateUser,
        user.password@ == registered->new_user.password@,
        login_on_user_post(login_dto.password@, Ok(Some(user)), login_next),
    ensures
        login_next == (LoginFlow::StoreLogin { user_id: user.id }),
{
}

/// The reply to a request for the caller's own record, given what the store
/// found under the caller's id: a user that the store no longer knows is a
/// bad request.
pub fn user_info_outcome(found: Result<Option<UserInfoDto>, DbFailure>) -> (r: Result<UserInfoDto, ErrorResponse>)
    ensures
        match found {
            Err(_) => r matches Err(e) && is_internal(e),
            Ok(None) => r matches Err(e) && is_bad_request(e, "No such user"@),
            Ok(Some(info)) => r == Ok::<UserInfoDto, ErrorResponse>(info),
        },
{
    match found {
        Err(f) => Err(ErrorResponse::from_db_failure(f)),
        Ok(None) => Err(ErrorResponse::bad_request("No such user")),
        Ok(Some(info)) => Ok(info),
    }
}

} // verus!
