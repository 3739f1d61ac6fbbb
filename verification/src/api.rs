//! The backend's REST surface: the four operations on door records, the
//! shape of each request, and what can come back.

use crate::models::door::{door_models, Door, DoorModel};
use crate::text::{decimal, push_decimal};
use vstd::prelude::*;

verus! {

/// HTTP method of a request.
#[derive(Clone, Copy, Debug, PartialEq, Eq)]
pub enum Method {
    Get,
    Put,
    Delete,
}

/// Why an operation yielded no usable result.
#[derive(Clone, Copy, Debug, PartialEq, Eq)]
pub enum FetchError {
    /// The request could not be sent, or no response was received.
    Transport,
    /// The response body did not have the shape of door records.
    Decode,
}

/// Mathematical value of a [`Request`].
pub enum RequestModel {
    FetchOne { id: int },
    FetchAll,
    Upsert { door: DoorModel },
    Remove { id: int },
}

/// One operation of the backend.
#[derive(Debug, PartialEq, Eq)]
pub enum Request {
    /// Fetch the door with this id; answered by a list of zero or one door.
    FetchOne { id: i32 },
    /// Fetch every door.
    FetchAll,
    /// Create or replace this door.
    Upsert { door: Door },
    /// Delete the door with this id.
    Remove { id: i32 },
}

impl View for Request {
    type V = RequestModel;

    open spec fn view(&self) -> RequestModel {
        match *self {
            Request::FetchOne { id } => RequestModel::FetchOne { id: id as int },
            Request::FetchAll => RequestModel::FetchAll,
            Request::Upsert { door } => RequestModel::Upsert { door: door@ },
            Request::Remove { id } => RequestModel::Remove { id: id as int },
        }
    }
}

/// Path of the door collection, below the fixed base path of the API.
pub open spec fn collection_path() -> Seq<char> {
    "/api/v1alpha1/door"@
}

/// Path of the door with identity `id`.
pub open spec fn member_path(id: int) -> Seq<char> {
    "/api/v1alpha1/door/"@ + decimal(id)
}

impl RequestModel {
    pub open spec fn method(self) -> Method {
        match self {
            RequestModel::FetchOne { .. } => Method::Get,
            RequestModel::FetchAll => Method::Get,
            RequestModel::Upsert { .. } => Method::Put,
            RequestModel::Remove { .. } => Method::Delete,
        }
    }

    pub open spec fn path(self) -> Seq<char> {
        match self {
            RequestModel::FetchOne { id } => member_path(id),
            RequestModel::FetchAll => collection_path(),
            RequestModel::Upsert { .. } => collection_path(),
            RequestModel::Remove { id } => member_path(id),
        }
    }

    /// The record that travels in the body, if the request has a body.
    pub open spec fn body(self) -> Option<DoorModel> {
        match self {
            RequestModel::Upsert { door } => Some(door),
            _ => None,
        }
    }
}

fn render_member_path(id: i32) -> (path: String)
    ensures
        path@ == member_path(id as int),
{
    let mut path = "/api/v1alpha1/door/".to_owned();
    push_decimal(&mut path, id);
    path
}

impl Request {
    pub fn method(&self) -> (method: Method)
        ensures
            method == self@.method(),
    {
        match self {
            Request::FetchOne { .. } => Method::Get,
            Request::FetchAll => Method::Get,
            Request::Upsert { .. } => Method::Put,
            Request::Remove { .. } => Method::Delete,
        }
    }

    /// The path to send the request to, starting at the server's root.
    pub fn path(&self) -> (path: String)
        ensures
            path@ == self@.path(),
    {
        match self {
            Request::FetchOne { id } => render_member_path(*id),
            Request::FetchAll => "/api/v1alpha1/door".to_owned(),
            Request::Upsert { .. } => "/api/v1alpha1/door".to_owned(),
            Request::Remove { id } => render_member_path(*id),
        }
    }

    /// The record to serialize into the body, if the request has a body.
    pub fn body(&self) -> (body: Option<&Door>)
        ensures
            match body {
                Some(door) => self@.body() == Some(door@),
                None => self@.body() is None,
            },
    {
        match self {
            Request::Upsert { door } => Some(door),
            _ => None,
        }
    }
}

/// Mathematical value of a [`Response`].
pub enum ResponseModel {
    Doors(Seq<DoorModel>),
    Done,
    Failed(FetchError),
}

/// What the runtime learned when an operation completed.
#[derive(Debug, PartialEq, Eq)]
pub enum Response {
    /// The body decoded to these doors, in the order the server sent them.
    Doors(Vec<Door>),
    /// The server answered with its opaque success marker.
    Done,
    /// The operation failed.
    Failed(FetchError),
}

impl View for Response {
    type V = ResponseModel;

    open spec fn view(&self) -> ResponseModel {
        match *self {
            Response::Doors(doors) => ResponseModel::Doors(door_models(doors@)),
            Response::Done => ResponseModel::Done,
            Response::Failed(error) => ResponseModel::Failed(error),
        }
    }
}

/// Mathematical value of the outcome of a fetch.
pub open spec fn fetched_model(outcome: Result<Vec<Door>, FetchError>) -> Result<
    Seq<DoorModel>,
    FetchError,
> {
    match outcome {
        Ok(doors) => Ok(door_models(doors@)),
        Err(error) => Err(error),
    }
}

impl ResponseModel {
    /// Reads the response as the outcome of a fetch.  A bare success marker
    /// carries no door list, so it counts as a body of the wrong shape.
    pub open spec fn fetched(self) -> Result<Seq<DoorModel>, FetchError> {
        match self {
            ResponseModel::Doors(doors) => Ok(doors),
            ResponseModel::Done => Err(FetchError::Decode),
            ResponseModel::Failed(error) => Err(error),
        }
    }
}

impl Response {
    /// Reads the response as the outcome of a fetch.
    pub fn into_fetched(self) -> (outcome: Result<Vec<Door>, FetchError>)
        ensures
            fetched_model(outcome) == self@.fetched(),
    {
        match self {
            Response::Doors(doors) => Ok(doors),
            Response::Done => Err(FetchError::Decode),
            Response::Failed(error) => Err(error),
        }
    }
}

} // verus!
