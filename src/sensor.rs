//! Request bodies, response records and the authenticated principal.

use vstd::prelude::*;

verus! {

/// A row of the sensor table.
#[derive(Debug, Clone)]
pub struct NoteModel {
    pub sensor_id: i32,
    pub value: String,
    pub count: i32,
    pub name: String,
}

/// A sensor row as it is sent back to the client.
#[derive(Debug, Clone)]
pub struct NoteModelResponse {
    pub sensor_id: i32,
    pub value: String,
    pub count: i32,
    pub name: String,
}

/// The three tokens that a successful sign-in hands to the client, verbatim.
#[derive(Debug, Clone)]
pub struct TokenInformation {
    pub id_token: String,
    pub access_token: String,
    pub refesh_token: String,
}

/// Body of a registration request.
#[derive(Debug, Clone)]
pub struct SignUpBody {
    pub username: String,
    pub email: String,
    pub password: String,
}

/// Body of a sign-in request.
#[derive(Debug, Clone)]
pub struct SignInBody {
    pub username: String,
    pub password: String,
}

/// Body of a confirmation request: the user and the one-time code.
#[derive(Debug, Clone)]
pub struct ConfirmSignUpBody {
    pub username: String,
    pub otp: String,
}

/// The principal of a request, built only from a token that passed
/// verification.
#[derive(Debug, Clone)]
pub struct CurrentUser {
    pub username: String,
}

/// Body of a lookup of one sensor by its id.
#[allow(non_camel_case_types)]
#[derive(Debug, Clone)]
pub struct Get_id_data {
    pub id: i32,
}

/// Copies a sensor row into its response shape, field by field.
pub fn filter_db_record(note: &NoteModel) -> (r: NoteModelResponse)
    ensures
        r.sensor_id == note.sensor_id,
        r.value@ == note.value@,
        r.count == note.count,
        r.name@ == note.name@,
{
    NoteModelResponse {
        sensor_id: note.sensor_id,
        value: note.value.clone(),
        count: note.count,
        name: note.name.clone(),
    }
}

} // verus!
