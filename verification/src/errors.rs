//! Error kinds shared by the domain model and the API client.

use vstd::prelude::*;

verus! {

/// A failure to turn received data into a value of the domain model.
#[derive(Debug, PartialEq, Eq)]
pub enum ModelError {
    /// The token names no receiver; the payload is a message for the log.
    InvalidReceiver(String),
    /// A settings payload does not match the settings schema.
    InvalidSettings,
}

/// A failure that the backend reported through its status code.
#[derive(Debug, PartialEq, Eq, Clone, Copy, Structural)]
pub enum RequestError {
    /// The backend knows no setting of that name.
    NoSuchSetting,
    /// The backend knows no receiver of that name.
    NoSuchReceiver,
    /// The status code is not one that the operation documents.
    UnknownError,
}

/// A failure of one call to the backend.
#[derive(Debug, PartialEq, Eq)]
pub enum ApiError {
    /// No response arrived: the request could not be sent or was not answered.
    Transport,
    /// The backend answered with success, but the body is not the photo that
    /// the operation returns.
    Payload,
    /// The backend reported a failure through its status code.
    Request(RequestError),
    /// The backend answered with success, but the body is not the settings
    /// that the operation returns.
    Model(ModelError),
}

/// A picture that is not valid base64 text.
#[derive(Debug, PartialEq, Eq, Clone, Copy, Structural)]
pub enum ImageError {
    /// The text is not base64 in the standard alphabet with padding.
    InvalidBase64,
}

impl ModelError {
    /// Renders the message of this error, which is empty: what went wrong is
    /// told by the variant.
    pub fn to_string(&self) -> (out: String)
        ensures
            out@ == Seq::<char>::empty(),
    {
        String::new()
    }
}

impl RequestError {
    /// The message of this error, as a sequence of characters.
    pub open spec fn message(self) -> Seq<char> {
        match self {
            RequestError::NoSuchSetting => "No such setting"@,
            RequestError::NoSuchReceiver => "No such reciever"@,
            RequestError::UnknownError => "Unknown error"@,
        }
    }

    /// Renders the message of this error.
    pub fn to_string(&self) -> (out: String)
        ensures
            out@ == self.message(),
    {
        match self {
            RequestError::NoSuchSetting => "No such setting".to_owned(),
            RequestError::NoSuchReceiver => "No such reciever".to_owned(),
            RequestError::UnknownError => "Unknown error".to_owned(),
        }
    }
}

} // verus!
