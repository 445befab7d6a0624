use vstd::prelude::*;

use crate::event::{Event, RepositoryError};
use crate::repository::EventRepository;

verus! {

/// Status of a successful listing.
pub const STATUS_OK: u16 = 200;

/// Status of a successful creation.
pub const STATUS_CREATED: u16 = 201;

/// Status of a creation that the backend could not complete.
pub const STATUS_NOT_FOUND: u16 = 404;

/// Status of a listing that the backend could not complete.
pub const STATUS_INTERNAL_SERVER_ERROR: u16 = 500;

/// The greeting that the root path answers with, whatever the store holds.
pub fn root() -> (r: &'static str)
    ensures
        r@ == "Hello World!!\n"@,
{
    "Hello World!!\n"
}

/// The response to a creation: `201` with the stored event, or `404` when the
/// backend failed.
pub fn create_response(result: Result<Event, RepositoryError>) -> (r: Result<(u16, Event), u16>)
    ensures
        result matches Ok(e) ==> r == Ok::<(u16, Event), u16>((STATUS_CREATED, e)),
        result is Err ==> r == Err::<(u16, Event), u16>(STATUS_NOT_FOUND),
{
    match result {
        Ok(e) => Ok((STATUS_CREATED, e)),
        Err(_) => Err(STATUS_NOT_FOUND),
    }
}

/// The response to a listing: `200` with every event, or `500` when the
/// backend failed.
pub fn all_response(result: Result<Vec<Event>, RepositoryError>) -> (r: Result<(u16, Vec<Event>), u16>)
    ensures
        result matches Ok(v) ==> r == Ok::<(u16, Vec<Event>), u16>((STATUS_OK, v)),
        result is Err ==> r == Err::<(u16, Vec<Event>), u16>(STATUS_INTERNAL_SERVER_ERROR),
{
    match result {
        Ok(v) => Ok((STATUS_OK, v)),
        Err(_) => Err(STATUS_INTERNAL_SERVER_ERROR),
    }
}

/// Registers the payload with the repository and answers with the stored
/// event under `201`, or with `404` when the backend failed.
pub fn create_event<T: EventRepository>(repository: &T, payload: Event) -> (r: Result<(u16, Event), u16>)
    ensures
        r matches Ok((code, e)) ==> code == STATUS_CREATED && e.event_name@ == payload.event_name@
            && e.event_detail@ == payload.event_detail@,
        r matches Err(code) ==> code == STATUS_NOT_FOUND,
{
    create_response(repository.create(payload))
}

/// Lists every stored event under `200`, or answers `500` when the backend
/// failed.
pub fn all_events<T: EventRepository>(repository: &T) -> (r: Result<(u16, Vec<Event>), u16>)
    ensures
        r matches Ok((code, _)) ==> code == STATUS_OK,
        r matches Err(code) ==> code == STATUS_INTERNAL_SERVER_ERROR,
{
    all_response(repository.all())
}

} // verus!
