//! The uniform `{status, message, data}` envelope in which every operation
//! reports its outcome.

use vstd::prelude::*;

verus! {

/// How an operation ended, as the user interface sees it.
#[derive(Clone, Copy, Debug, PartialEq, Eq, Structural)]
pub enum Status {
    Success,
    Info,
    Warning,
    Error,
}

/// An outcome together with a human-readable message and a payload.
///
/// The payload is always present: a failed operation carries a degraded
/// payload of the same shape, so a consumer never has to special-case it.
/// An envelope with nothing to carry holds the unit value.
#[derive(Clone, Debug, PartialEq, Eq)]
pub struct Response<T = ()> {
    pub status: Status,
    pub message: String,
    pub data: T,
}

pub struct ResponseView<V> {
    pub status: Status,
    pub message: Seq<char>,
    pub data: V,
}

impl<T: View> View for Response<T> {
    type V = ResponseView<T::V>;

    open spec fn view(&self) -> ResponseView<T::V> {
        ResponseView { status: self.status, message: self.message@, data: self.data@ }
    }
}

impl<T> Response<T> {
    pub fn new(status: Status, message: String, data: T) -> (r: Self)
        ensures
            r.status == status,
            r.message == message,
            r.data == data,
    {
        Response { status, message, data }
    }

    pub fn success(message: String, data: T) -> (r: Self)
        ensures
            r.status == Status::Success,
            r.message == message,
            r.data == data,
    {
        Response::new(Status::Success, message, data)
    }

    pub fn info(message: String, data: T) -> (r: Self)
        ensures
            r.status == Status::Info,
            r.message == message,
            r.data == data,
    {
        Response::new(Status::Info, message, data)
    }

    pub fn warning(message: String, data: T) -> (r: Self)
        ensures
            r.status == Status::Warning,
            r.message == message,
            r.data == data,
    {
        Response::new(Status::Warning, message, data)
    }

    pub fn error_with_data(message: String, data: T) -> (r: Self)
        ensures
            r.status == Status::Error,
            r.message == message,
            r.data == data,
    {
        Response::new(Status::Error, message, data)
    }
}

impl Response<()> {
    /// An error that has nothing to carry but its message.
    pub fn error(message: String) -> (r: Self)
        ensures
            r.status == Status::Error,
            r.message == message,
    {
        Response::new(Status::Error, message, ())
    }
}

} // verus!
