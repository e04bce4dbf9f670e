//! The envelope shared by every reply of the relay's request interface.
use vstd::prelude::*;

verus! {

/// A reply envelope: success and error replies share this one shape, and
/// `data` / `error` are left out of the wire form when absent.
#[derive(Debug)]
pub struct ApiResponse<T, E> {
    success: bool,
    message: String,
    data: Option<T>,
    error: Option<E>,
}

impl<T, E> ApiResponse<T, E> {
    pub closed spec fn spec_success(&self) -> bool {
        self.success
    }

    pub closed spec fn spec_message(&self) -> Seq<char> {
        self.message@
    }

    pub closed spec fn spec_data(&self) -> Option<T> {
        self.data
    }

    pub closed spec fn spec_error(&self) -> Option<E> {
        self.error
    }

    /// A successful reply carrying `message` and, optionally, a payload.
    pub fn success(message: &str, data: Option<T>) -> (r: Self)
        ensures
            r.spec_success(),
            r.spec_message() == message@,
            r.spec_data() == data,
            r.spec_error() is None,
    {
        ApiResponse { success: true, message: message.to_owned(), data, error: None }
    }

    /// A failed reply carrying `message` and the error detail.
    pub fn error(message: &str, error: E) -> (r: Self)
        ensures
            !r.spec_success(),
            r.spec_message() == message@,
            r.spec_data() is None,
            r.spec_error() == Some(error),
    {
        ApiResponse { success: false, message: message.to_owned(), data: None, error: Some(error) }
    }

    /// An envelope with the given fields, as read back from its wire form.
    pub fn from_parts(success: bool, message: String, data: Option<T>, error: Option<E>) -> (r: Self)
        ensures
            r.spec_success() == success,
            r.spec_message() == message@,
            r.spec_data() == data,
            r.spec_error() == error,
    {
        ApiResponse { success, message, data, error }
    }

    pub fn is_success(&self) -> (r: bool)
        ensures
            r == self.spec_success(),
    {
        self.success
    }

    pub fn message(&self) -> (r: &str)
        ensures
            r@ == self.spec_message(),
    {
        self.message.as_str()
    }

    /// Takes the envelope apart into its four fields, in declaration order.
    pub fn into_parts(self) -> (r: (bool, String, Option<T>, Option<E>))
        ensures
            r.0 == self.spec_success(),
            r.1@ == self.spec_message(),
            r.2 == self.spec_data(),
            r.3 == self.spec_error(),
    {
        (self.success, self.message, self.data, self.error)
    }
}

} // verus!
