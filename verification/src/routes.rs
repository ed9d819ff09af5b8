//! The two requests that are served: what each asks of the store, and the
//! line or the failure that answers it.

use crate::code::{decode, decoded, encode, token};
use crate::db::{Defaults, GetId, Query, QueryView, Reply};
use crate::model::user::{find_in, found_as, insert_in, inserted_as, Model};
use crate::model::{Error, Identifier};
use crate::user::{fits, User, UserView};
use vstd::prelude::*;
use vstd::string::StringExecFns;

verus! {

/// The line that shows a persisted user: the token of its identifier, a
/// colon, a space, and its name.
pub open spec fn report_of(user: UserView) -> Seq<char> {
    token(user.saved->0.pub_id) + seq![':', ' '] + user.name
}

/// What a request gave, with the line as a mathematical value.
pub open spec fn answer(response: Result<String, Error>) -> Result<Seq<char>, Error> {
    match response {
        Ok(line) => Ok(line@),
        Err(e) => Err(e),
    }
}

/// The line of the user that an operation gave, or the failure that it gave.
pub open spec fn reported(result: Result<UserView, Error>) -> Result<Seq<char>, Error> {
    match result {
        Ok(user) => Ok(report_of(user)),
        Err(e) => Err(e),
    }
}

/// The status that tells a failure to the client: a token that is no token,
/// a record that is not there and a name that is too long all read as 404,
/// so that a client cannot tell them apart; a failure of the store is 500.
pub fn status(error: Error) -> (code: u16)
    ensures
        code == if error == Error::Storage {
            500u16
        } else {
            404u16
        },
{
    match error {
        Error::Storage => 500,
        Error::Validation | Error::NotFound => 404,
    }
}

/// The line that shows `user`.
pub fn report(user: &User) -> (line: String)
    requires
        user.is_saved(),
    ensures
        line@ == report_of(user@),
{
    let id = encode(user.pub_id());
    proof {
        reveal_strlit(": ");
    }
    let line = id.concat(": ").concat(user.name());
    assert(line@ =~= report_of(user@));
    line
}

/// The statement that looks for the user behind `text`, or not found where
/// `text` is no token.
pub fn find_request(text: &str) -> (query: Result<Query, Error>)
    ensures
        match decoded(text@) {
            Some(id) => query matches Ok(q) && q@ == QueryView::Select(GetId::PubId(id)),
            None => query matches Err(e) && e == Error::NotFound,
        },
{
    match decode(text) {
        Some(id) => Ok(Model::find_query(Identifier::PubId(id))),
        None => Err(Error::NotFound),
    }
}

/// The line of the user that was found, from the store's answer to the
/// select.
pub fn find_response(reply: Reply) -> (response: Result<String, Error>)
    ensures
        answer(response) == reported(found_as(reply@)),
{
    match Model::found(reply) {
        Ok(user) => Ok(report(&user)),
        Err(e) => Err(e),
    }
}

/// The transient user of `name` and `email` that is to be inserted, or a
/// validation failure where one of them is longer than a hundred characters.
pub fn insert_request(name: String, email: String) -> (user: Result<User, Error>)
    ensures
        user is Ok <==> fits(name@, email@),
        user matches Ok(u) ==> u@ == (UserView { saved: None, name: name@, email: email@ }),
        user matches Err(e) ==> e == Error::Validation,
{
    match User::new(name, email) {
        Some(user) => Ok(user),
        None => Err(Error::Validation),
    }
}

/// The line of `user` as the store has created it, from the store's answer
/// to the insert.
pub fn insert_response(user: User, reply: Reply) -> (response: Result<String, Error>)
    ensures
        answer(response) == reported(inserted_as(user@, reply@)),
{
    match Model::inserted(user, reply) {
        Ok(user) => Ok(report(&user)),
        Err(e) => Err(e),
    }
}

/// Serves a request for the user behind the token `text` from a table in
/// memory: the line of the enabled record whose identifier `text` is the
/// token of, and not found where `text` is no token or there is no such
/// record.
pub fn find(model: &Model, text: &str) -> (response: Result<String, Error>)
    ensures
        answer(response) == match decoded(text@) {
            Some(id) => reported(find_in(model@, Identifier::PubId(id))),
            None => Err(Error::NotFound),
        },
        response is Ok <==> decoded(text@) is Some && model@.shows(GetId::PubId(decoded(text@)->0)),
        response matches Err(e) ==> e == Error::NotFound,
{
    match decode(text) {
        None => Err(Error::NotFound),
        Some(id) => match model.find(Identifier::PubId(id)) {
            Ok(user) => Ok(report(&user)),
            Err(e) => Err(e),
        },
    }
}

/// Serves a request to insert a user of `name` and `email` into a table in
/// memory, and answers with the line of the new record. Nothing is written
/// where the name or the address is too long.
pub fn insert(model: &mut Model, name: String, email: String, defaults: Defaults) -> (response:
    Result<String, Error>)
    ensures
        !fits(name@, email@) ==> answer(response) == Err::<Seq<char>, Error>(Error::Validation)
            && final(model)@ == old(model)@,
        fits(name@, email@) ==> {
            let user = UserView { saved: None, name: name@, email: email@ };
            let (table, result) = insert_in(old(model)@, user, defaults);
            &&& final(model)@ == table
            &&& answer(response) == reported(result)
        },
        response matches Ok(line) ==> line@ == token(defaults.pub_id) + seq![':', ' '] + name@,
{
    match User::new(name, email) {
        None => Err(Error::Validation),
        Some(user) => match model.insert(user, defaults) {
            Ok(user) => Ok(report(&user)),
            Err(e) => Err(e),
        },
    }
}

} // verus!
