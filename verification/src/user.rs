//! The starter example seeded into new projects: a `UserData` record and a
//! `Result`-based age check, with the exact error messages pinned down.

use vstd::prelude::*;
use vstd::string::StringExecFns;
use crate::text::spec_decimal;

verus! {

/// A user record whose age can be validated.
#[derive(Debug)]
pub struct UserData {
    pub name: String,
    pub age: u8,
}

/// The message reported for a user younger than 18.
pub open spec fn spec_under_age_message(name: Seq<char>) -> Seq<char> {
    "User "@ + name + " is under 18."@
}

/// The message reported for an age above 120.
pub open spec fn spec_invalid_age_message(name: Seq<char>, age: int) -> Seq<char> {
    "User "@ + name + "'s age "@ + spec_decimal(age) + " is not valid."@
}

/// Validates the age of a user: ages from 18 through 120 are accepted, any
/// other age is rejected with a message naming the user.
pub fn validate_age(user: &UserData) -> (r: Result<&UserData, String>)
    ensures
        18 <= user.age <= 120 ==> r == Ok::<&UserData, String>(user),
        user.age < 18 ==> (r matches Err(m) && m@ == spec_under_age_message(user.name@)),
        user.age > 120 ==> (r matches Err(m) && m@ == spec_invalid_age_message(
            user.name@,
            user.age as int,
        )),
{
    if user.age < 18 {
        let mut m = "User ".to_owned();
        m.append(user.name.as_str());
        m.append(" is under 18.");
        proof {
            assert(m@ =~= spec_under_age_message(user.name@));
        }
        Err(m)
    } else if user.age > 120 {
        let mut m = "User ".to_owned();
        m.append(user.name.as_str());
        m.append("'s age ");
        let rendered = crate::text::decimal_string(user.age);
        m.append(rendered.as_str());
        m.append(" is not valid.");
        proof {
            assert(m@ =~= spec_invalid_age_message(user.name@, user.age as int));
        }
        Err(m)
    } else {
        Ok(user)
    }
}

} // verus!
