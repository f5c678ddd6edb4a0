use vstd::prelude::*;

verus! {

/// Wire shape of every non-success response: a message and optional data.
/// The invariant of the envelope is that the message is never empty.
pub struct ErrorResponse<T> {
    pub message: String,
    pub data: Option<T>,
}

impl<T> ErrorResponse<T> {
    /// The envelope invariant: the message is never empty.
    pub open spec fn wf(&self) -> bool {
        self.message@.len() > 0
    }

    /// An envelope carrying a message alone.
    pub fn message(err_message: String) -> (r: ErrorResponse<T>)
        requires
            err_message@.len() > 0,
        ensures
            r.message@ == err_message@,
            r.data is None,
            r.wf(),
    {
        ErrorResponse { message: err_message, data: None }
    }

    /// An envelope carrying a message and a data payload.
    pub fn with_data(message: String, data: T) -> (r: ErrorResponse<T>)
        requires
            message@.len() > 0,
        ensures
            r.message@ == message@,
            r.data == Some(data),
            r.wf(),
    {
        ErrorResponse { message, data: Some(data) }
    }
}

/// Wire shape of every success response that carries a body.
pub struct DataResponse<T> {
    pub data: T,
}

impl<T> DataResponse<T> {
    pub fn new(data: T) -> (r: DataResponse<T>)
        ensures
            r.data == data,
    {
        DataResponse { data }
    }
}

} // verus!
