//! Account flows: creating, updating and deleting a user. A user may update
//! and delete no account but their own. The user store is the caller's.

use vstd::prelude::*;
use crate::identity::CurrentUser;
use crate::models::{CreateUser, UpdateUser};
use crate::password::{hash_password, hashed, HashError};
use crate::response::{lemma_plain_message, without_emoji_prefix, ApiResult, Status};
use crate::response::{conflict, created, internal_server_error, not_found, ok, to_500, unauthorized};
use crate::text::text_of;
use crate::token::UserId;

verus! {

/// A user as the store is to insert it: with the credential in place of the
/// password.
pub struct NewUser {
    pub username: String,
    pub email: Option<String>,
    pub credential: String,
}

/// What the user store answered to the insertion of a user.
pub enum Inserted {
    Done,
    /// The name or the address is taken.
    Duplicate,
    /// The store could not insert, and said why.
    Failed(String),
}

/// One write to the record of a user.
pub enum UserWrite {
    Password(String),
    Username(String),
    Email(String),
}

/// What a write says.
pub enum WriteView {
    Password(Seq<char>),
    Username(Seq<char>),
    Email(Seq<char>),
}

impl View for UserWrite {
    type V = WriteView;

    open spec fn view(&self) -> WriteView {
        match *self {
            UserWrite::Password(credential) => WriteView::Password(credential@),
            UserWrite::Username(username) => WriteView::Username(username@),
            UserWrite::Email(email) => WriteView::Email(email@),
        }
    }
}

/// The views of a sequence of writes.
pub open spec fn writes_of(writes: Seq<UserWrite>) -> Seq<WriteView> {
    writes.map_values(|w: UserWrite| w@)
}

/// The writes that an update asks for, in the order in which they are to be
/// made: credential, then name, then address, each where it is given.
pub open spec fn planned_writes(
    credential: Option<Seq<char>>,
    username: Option<Seq<char>>,
    email: Option<Seq<char>>,
) -> Seq<WriteView> {
    (match credential {
        Some(c) => seq![WriteView::Password(c)],
        None => Seq::empty(),
    }) + (match username {
        Some(u) => seq![WriteView::Username(u)],
        None => Seq::empty(),
    }) + (match email {
        Some(e) => seq![WriteView::Email(e)],
        None => Seq::empty(),
    })
}

/// What the rule that a user touches no account but their own gives.
pub open spec fn own_account(current: CurrentUser, user_id: UserId, r: Result<(), (Status, String)>)
    -> bool {
    if current.0 == user_id {
        r is Ok
    } else {
        r is Err && r->Err_0.0 == Status::Unauthorized && r->Err_0.1@ == "ACCESS DENIED"@
    }
}

/// What creating a user may ask the store to insert.
pub open spec fn create_outcome(payload: CreateUser, r: Result<NewUser, (Status, String)>) -> bool {
    exists|credential: Result<String, HashError>|
        #![trigger hashed(payload.password@, credential)]
        hashed(payload.password@, credential) && match credential {
            Ok(c) => r is Ok && r->Ok_0.username@ == payload.username@ && text_of(r->Ok_0.email)
                == text_of(payload.email) && r->Ok_0.credential@ == c@,
            Err(_) => r is Err && r->Err_0.0 == Status::InternalServerError && r->Err_0.1@
                == "Hash failed"@,
        }
}

/// What updating a user may ask the store to write.
pub open spec fn update_outcome(
    current: CurrentUser,
    user_id: UserId,
    payload: UpdateUser,
    r: Result<Vec<UserWrite>, (Status, String)>,
) -> bool {
    if current.0 != user_id {
        r is Err && r->Err_0.0 == Status::Unauthorized && r->Err_0.1@ == "ACCESS DENIED"@
    } else {
        match payload.password {
            None => r is Ok && writes_of(r->Ok_0@) == planned_writes(
                None,
                text_of(payload.username),
                text_of(payload.email),
            ),
            Some(password) => exists|credential: Result<String, HashError>|
                #![trigger hashed(password@, credential)]
                hashed(password@, credential) && match credential {
                    Ok(c) => r is Ok && writes_of(r->Ok_0@) == planned_writes(
                        Some(c@),
                        text_of(payload.username),
                        text_of(payload.email),
                    ),
                    Err(_) => r is Err && r->Err_0.0 == Status::InternalServerError
                        && r->Err_0.1@ == "Hash failed."@,
                },
        }
    }
}

/// Refuses whoever reaches for an account that is not their own.
pub fn same_user(current: CurrentUser, user_id: UserId) -> (r: Result<(), (Status, String)>)
    ensures
        own_account(current, user_id, r),
{
    if current.0.value != user_id.value {
        proof {
            reveal_strlit("ACCESS DENIED");
            lemma_plain_message("ACCESS DENIED"@);
        }
        return Err(unauthorized("ACCESS DENIED"));
    }
    Ok(())
}

/// Prepares the creation of a user: the password is hashed, and what comes
/// back is what the store is to insert.
pub fn create_user(payload: CreateUser) -> (r: Result<NewUser, (Status, String)>)
    ensures
        create_outcome(payload, r),
{
    let credential = hash_password(payload.password.as_str());
    let ghost witness = credential;
    let r = match credential {
        Ok(c) => Ok(NewUser { username: payload.username, email: payload.email, credential: c }),
        Err(_) => {
            proof {
                reveal_strlit("Hash failed");
                lemma_plain_message("Hash failed"@);
            }
            Err(internal_server_error("Hash failed"))
        },
    };
    assert(hashed(payload.password@, witness));
    r
}

/// Answers the creation of a user once the store has answered to the
/// insertion.
pub fn user_created(outcome: Inserted) -> (r: ApiResult<(Status, String)>)
    ensures
        match outcome {
            Inserted::Done => r is Ok && r->Ok_0.0 == Status::Created && r->Ok_0.1@
                == "User created."@,
            Inserted::Duplicate => r is Err && r->Err_0.0 == Status::Conflict && r->Err_0.1@
                == "User already exists."@,
            Inserted::Failed(message) => r is Err && r->Err_0.0 == Status::InternalServerError
                && r->Err_0.1@ == without_emoji_prefix(message@),
        },
{
    match outcome {
        Inserted::Done => created("User created."),
        Inserted::Duplicate => {
            proof {
                reveal_strlit("User already exists.");
                lemma_plain_message("User already exists."@);
            }
            Err(conflict("User already exists."))
        },
        Inserted::Failed(message) => Err(to_500(message)),
    }
}

/// Plans the update of the account `user_id` on behalf of `current`: the
/// writes that the store is to make, in order. A new password is hashed
/// before anything is written.
pub fn update_user(current: CurrentUser, user_id: UserId, payload: UpdateUser) -> (r: Result<
    Vec<UserWrite>,
    (Status, String),
>)
    ensures
        update_outcome(current, user_id, payload, r),
{
    match same_user(current, user_id) {
        Ok(_) => {},
        Err(refusal) => {
            return Err(refusal);
        },
    }
    let mut writes: Vec<UserWrite> = Vec::new();
    let ghost mut credential_text: Option<Seq<char>> = None;
    match payload.password {
        Some(password) => {
            let credential = hash_password(password.as_str());
            let ghost witness = credential;
            match credential {
                Ok(c) => {
                    proof {
                        credential_text = Some(c@);
                    }
                    writes.push(UserWrite::Password(c));
                },
                Err(_) => {
                    proof {
                        reveal_strlit("Hash failed.");
                        lemma_plain_message("Hash failed."@);
                    }
                    let r = Err(internal_server_error("Hash failed."));
                    assert(hashed(password@, witness));
                    return r;
                },
            }
            assert(hashed(password@, witness));
        },
        None => {},
    }
    assert(writes_of(writes@) =~= planned_writes(credential_text, None, None));
    match payload.username {
        Some(username) => {
            writes.push(UserWrite::Username(username));
        },
        None => {},
    }
    assert(writes_of(writes@) =~= planned_writes(
        credential_text,
        text_of(payload.username),
        None,
    ));
    match payload.email {
        Some(email) => {
            writes.push(UserWrite::Email(email));
        },
        None => {},
    }
    assert(writes_of(writes@) =~= planned_writes(
        credential_text,
        text_of(payload.username),
        text_of(payload.email),
    ));
    Ok(writes)
}

/// Answers the update of a user once the store has made every write.
pub fn user_updated() -> (r: ApiResult<(Status, String)>)
    ensures
        r is Ok,
        r->Ok_0.0 == Status::Success,
        r->Ok_0.1@ == "User updated."@,
{
    ok("User updated.")
}

/// Decides whether `current` may delete the account `user_id`.
pub fn delete_user(current: CurrentUser, user_id: UserId) -> (r: Result<(), (Status, String)>)
    ensures
        own_account(current, user_id, r),
{
    same_user(current, user_id)
}

/// Answers the deletion of a user, given how many records the store
/// deleted.
pub fn user_deleted(rows_affected: u64) -> (r: ApiResult<(Status, String)>)
    ensures
        rows_affected == 0 ==> r is Err && r->Err_0.0 == Status::NotFound && r->Err_0.1@
            == "User not found"@,
        rows_affected != 0 ==> r is Ok && r->Ok_0.0 == Status::Success && r->Ok_0.1@
            == "User deleted."@,
{
    if rows_affected == 0 {
        proof {
            reveal_strlit("User not found");
            lemma_plain_message("User not found"@);
        }
        return Err(not_found("User not found"));
    }
    ok("User deleted.")
}

} // verus!
