//! The profile store's update logic: validating a partial patch and
//! merging it over the stored record.
//!
//! A field present in the patch replaces the stored one; an absent
//! field leaves it untouched. A full name that is blank after trimming
//! is rejected before anything is merged, so a rejected patch never
//! produces a record to write back.

use vstd::prelude::*;

use crate::errors::AppError;
use crate::models::UpdateUserProfile;
use crate::models::User;
use crate::text::blank_text;
use crate::text::is_blank;

verus! {

pub open spec fn validation_message() -> Seq<char> {
    "Full name cannot be empty"@
}

/// A patch is accepted unless it carries a full name that is blank
/// after trimming.
pub open spec fn update_accepted(payload: UpdateUserProfile) -> bool {
    match payload.full_name {
        Option::Some(n) => !blank_text(n@),
        Option::None => true,
    }
}

/// The merged record: the patched name, bio and employee id replace
/// the stored ones; identifier, username, picture and role are never
/// patched.
pub open spec fn merged_user(user: User, payload: UpdateUserProfile) -> User {
    User {
        id: user.id,
        full_name: match payload.full_name {
            Option::Some(n) => n,
            Option::None => user.full_name,
        },
        username: user.username,
        bio: match payload.bio {
            Option::Some(b) => b,
            Option::None => user.bio,
        },
        employee_id: match payload.employee_id {
            Option::Some(e) => Option::Some(e),
            Option::None => user.employee_id,
        },
        profile_picture_url: user.profile_picture_url,
        role: user.role,
    }
}

/// Applies a partial update to the stored profile record: a rejected
/// patch yields the validation error and no record, an accepted one
/// the merged record, ready to be written back whole.
pub fn update_user_profile(user: User, payload: UpdateUserProfile) -> (r: Result<User, AppError>)
    ensures
        update_accepted(payload) ==> r == Result::<User, AppError>::Ok(merged_user(user, payload)),
        !update_accepted(payload) ==> (r matches Result::Err(e) && e matches AppError::ValidationError(m)
            && m@ == validation_message()),
{
    let UpdateUserProfile { full_name, bio, employee_id } = payload;
    let mut updated = user;
    if let Option::Some(n) = full_name {
        if is_blank(n.as_str()) {
            return Result::Err(
                AppError::ValidationError(String::from_str("Full name cannot be empty")),
            );
        }
        updated.full_name = n;
    }
    if let Option::Some(b) = bio {
        updated.bio = b;
    }
    if let Option::Some(e) = employee_id {
        updated.employee_id = Option::Some(e);
    }
    Result::Ok(updated)
}

/// A patch whose full name is present but blank is never accepted,
/// whatever the stored record holds: the update yields the validation
/// failure, no merged record exists, and nothing is written back.
pub proof fn lemma_blank_full_name_rejected(payload: UpdateUserProfile)
    requires
        payload.full_name is Some,
        blank_text(payload.full_name->0@),
    ensures
        !update_accepted(payload),
{
}

/// A patch that carries only a bio changes the bio alone: the merged
/// record keeps every other field of the stored one.
pub proof fn lemma_bio_only_update(user: User, payload: UpdateUserProfile)
    requires
        payload.full_name is None,
        payload.employee_id is None,
        payload.bio is Some,
    ensures
        update_accepted(payload),
        merged_user(user, payload).bio == payload.bio->0,
        merged_user(user, payload).id == user.id,
        merged_user(user, payload).full_name == user.full_name,
        merged_user(user, payload).username == user.username,
        merged_user(user, payload).employee_id == user.employee_id,
        merged_user(user, payload).profile_picture_url == user.profile_picture_url,
        merged_user(user, payload).role == user.role,
{
}

} // verus!
