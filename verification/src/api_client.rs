//! The client of the backend's HTTP interface.
//!
//! The client performs no I/O. For each operation it describes the request to
//! send and classifies the response that came back, by one table of status
//! codes for each operation.

use crate::errors::{ApiError, ModelError, RequestError};
use crate::models::{ObjectPhoto, PhotoView, Receiver, Settings, SettingsView};
use crate::schema::{settings_text, text_photo, text_settings};
use vstd::prelude::*;
use vstd::string::StringExecFns;

verus! {

/// The method of a request.
#[derive(Debug, Clone, Copy, PartialEq, Eq, Structural)]
pub enum Method {
    /// A request that reads.
    Get,
    /// A request that changes the backend's state.
    Post,
}

/// A request for the caller to send.
#[derive(Debug, PartialEq, Eq)]
pub struct Request {
    /// The method of the request.
    pub method: Method,
    /// The address to send the request to.
    pub url: String,
    /// The JSON text to send as the body, if the request has one.
    pub body: Option<String>,
    /// The number of seconds after which the caller gives the request up.
    pub timeout_secs: u64,
}

/// What came back for a request.
#[derive(Debug, PartialEq, Eq)]
pub enum Response {
    /// Nothing came back: the request could not be sent or was not answered.
    Unreachable,
    /// The backend answered.
    Answered {
        /// The status code of the response.
        status: u16,
        /// The body of the response, if the caller could read it as text.
        body: Option<String>,
    },
}

/// The number of seconds that the backend has to answer a request.
pub const REQUEST_TIMEOUT_SECS: u64 = 30;

/// The status code with which the backend reports success.
pub const STATUS_OK: u16 = 200;

/// The status code with which the backend rejects the name of a setting.
pub const STATUS_NO_SUCH_SETTING: u16 = 401;

/// The status code with which the backend rejects a receiver.
pub const STATUS_NO_SUCH_RECEIVER: u16 = 422;

/// The address of the operation that changes settings.
pub open spec fn settings_url(base: Seq<char>) -> Seq<char> {
    "http://"@ + base + "/settings"@
}

/// The address of the operation that reads the settings of a receiver.
pub open spec fn receiver_url(base: Seq<char>, receiver: Receiver) -> Seq<char> {
    "http://"@ + base + "/settings/"@ + receiver.token()
}

/// The address of the operation that reads the photo of a named object.
pub open spec fn object_url(base: Seq<char>, name: Seq<char>) -> Seq<char> {
    "http://"@ + base + "/object/"@ + name
}

/// The address of the operation that reads the current frame of the camera.
pub open spec fn objects_url(base: Seq<char>) -> Seq<char> {
    "http://"@ + base + "/objects"@
}

/// The outcome of changing settings, by the response: success on status 200,
/// an unknown setting on 401, an unknown receiver on 422, and an unknown error
/// on any other status.
pub open spec fn change_settings_outcome(response: Response) -> Result<(), ApiError> {
    match response {
        Response::Unreachable => Err(ApiError::Transport),
        Response::Answered { status, body } => {
            if status == STATUS_OK {
                Ok(())
            } else if status == STATUS_NO_SUCH_SETTING {
                Err(ApiError::Request(RequestError::NoSuchSetting))
            } else if status == STATUS_NO_SUCH_RECEIVER {
                Err(ApiError::Request(RequestError::NoSuchReceiver))
            } else {
                Err(ApiError::Request(RequestError::UnknownError))
            }
        },
    }
}

/// The outcome of reading settings, by the response: on status 200 the
/// settings that the body stands for, or invalid settings where it stands for
/// none; an unknown receiver on 422, and an unknown error on any other status.
pub open spec fn get_settings_outcome(response: Response) -> Result<SettingsView, ApiError> {
    match response {
        Response::Unreachable => Err(ApiError::Transport),
        Response::Answered { status, body } => {
            if status == STATUS_OK {
                match body {
                    Some(text) => match text_settings(text@) {
                        Some(settings) => Ok(settings),
                        None => Err(ApiError::Model(ModelError::InvalidSettings)),
                    },
                    None => Err(ApiError::Model(ModelError::InvalidSettings)),
                }
            } else if status == STATUS_NO_SUCH_RECEIVER {
                Err(ApiError::Request(RequestError::NoSuchReceiver))
            } else {
                Err(ApiError::Request(RequestError::UnknownError))
            }
        },
    }
}

/// The outcome of reading a photo, by the response: on status 200 the photo
/// that the body stands for, or a payload error where it stands for none; an
/// unknown error on any other status.
pub open spec fn get_photo_outcome(response: Response) -> Result<PhotoView, ApiError> {
    match response {
        Response::Unreachable => Err(ApiError::Transport),
        Response::Answered { status, body } => {
            if status == STATUS_OK {
                match body {
                    Some(text) => match text_photo(text@) {
                        Some(photo) => Ok(photo),
                        None => Err(ApiError::Payload),
                    },
                    None => Err(ApiError::Payload),
                }
            } else {
                Err(ApiError::Request(RequestError::UnknownError))
            }
        },
    }
}

/// Each operation classifies every status: the statuses that it lists give
/// the outcome that it lists for them, whatever the body, and every other
/// status gives an unknown error.
pub proof fn lemma_status_tables(status: u16, body: Option<String>)
    ensures
        change_settings_outcome(Response::Answered { status, body }) == (if status == 200 {
            Ok::<(), ApiError>(())
        } else if status == 401 {
            Err(ApiError::Request(RequestError::NoSuchSetting))
        } else if status == 422 {
            Err(ApiError::Request(RequestError::NoSuchReceiver))
        } else {
            Err(ApiError::Request(RequestError::UnknownError))
        }),
        status == 200 ==> (get_settings_outcome(Response::Answered { status, body }) is Ok || (
        get_settings_outcome(Response::Answered { status, body }) == Err::<SettingsView, ApiError>(
            ApiError::Model(ModelError::InvalidSettings),
        ))),
        status == 422 ==> get_settings_outcome(Response::Answered { status, body }) == Err::<
            SettingsView,
            ApiError,
        >(ApiError::Request(RequestError::NoSuchReceiver)),
        status != 200 && status != 422 ==> get_settings_outcome(
            Response::Answered { status, body },
        ) == Err::<SettingsView, ApiError>(ApiError::Request(RequestError::UnknownError)),
        status == 200 ==> (get_photo_outcome(Response::Answered { status, body }) is Ok || (
        get_photo_outcome(Response::Answered { status, body }) == Err::<PhotoView, ApiError>(
            ApiError::Payload,
        ))),
        status != 200 ==> get_photo_outcome(Response::Answered { status, body }) == Err::<
            PhotoView,
            ApiError,
        >(ApiError::Request(RequestError::UnknownError)),
{
}

/// Two responses are alike where both are missing, or both carry the same
/// status and the same body text.
pub open spec fn same_response(first: Response, second: Response) -> bool {
    match (first, second) {
        (Response::Unreachable, Response::Unreachable) => true,
        (
            Response::Answered { status: first_status, body: first_body },
            Response::Answered { status: second_status, body: second_body },
        ) => {
            &&& first_status == second_status
            &&& match (first_body, second_body) {
                (Some(first_text), Some(second_text)) => first_text@ == second_text@,
                (None, None) => true,
                _ => false,
            }
        },
        _ => false,
    }
}

/// The client of one backend, known by its address.
#[derive(Debug, Clone)]
pub struct ApiClient {
    /// The host and port of the backend.
    base_url: String,
}

impl ApiClient {
    /// The host and port of the backend.
    pub closed spec fn address(&self) -> Seq<char> {
        self.base_url@
    }

    /// Makes the client of the backend at a host and port.
    pub fn new(base_url: String) -> (client: ApiClient)
        ensures
            client.address() == base_url@,
    {
        ApiClient { base_url }
    }

    /// The host and port of the backend.
    pub fn base_url(&self) -> (base: &str)
        ensures
            base@ == self.address(),
    {
        self.base_url.as_str()
    }

    /// The address under the backend that a path names.
    fn url(&self, path: &str) -> (url: String)
        ensures
            url@ == "http://"@ + self.address() + path@,
    {
        let mut url = "http://".to_owned();
        url.append(self.base_url.as_str());
        url.append(path);
        url
    }

    /// The request that changes settings: a `POST` to `/settings` with the
    /// settings as JSON text.
    pub fn change_settings_request(&self, settings: &Settings) -> (request: Request)
        ensures
            request.method == Method::Post,
            request.url@ == settings_url(self.address()),
            request.body matches Some(text) && text@ == settings_text(settings@),
            request.timeout_secs == REQUEST_TIMEOUT_SECS,
    {
        Request {
            method: Method::Post,
            url: self.url("/settings"),
            body: Some(settings.to_json()),
            timeout_secs: REQUEST_TIMEOUT_SECS,
        }
    }

    /// The request that reads the settings of a receiver: a `GET` to
    /// `/settings/` and the receiver's token.
    pub fn get_settings_request(&self, receiver: Receiver) -> (request: Request)
        ensures
            request.method == Method::Get,
            request.url@ == receiver_url(self.address(), receiver),
            request.body is None,
            request.timeout_secs == REQUEST_TIMEOUT_SECS,
    {
        let mut url = self.url("/settings/");
        url.append(receiver.as_str());
        Request { method: Method::Get, url, body: None, timeout_secs: REQUEST_TIMEOUT_SECS }
    }

    /// The request that reads the photo of a named object: a `GET` to
    /// `/object/` and the name.
    pub fn get_object_request(&self, name: &str) -> (request: Request)
        ensures
            request.method == Method::Get,
            request.url@ == object_url(self.address(), name@),
            request.body is None,
            request.timeout_secs == REQUEST_TIMEOUT_SECS,
    {
        let mut url = self.url("/object/");
        url.append(name);
        Request { method: Method::Get, url, body: None, timeout_secs: REQUEST_TIMEOUT_SECS }
    }

    /// The request that reads the current frame of the camera: a `GET` to
    /// `/objects`.
    pub fn get_objects_request(&self) -> (request: Request)
        ensures
            request.method == Method::Get,
            request.url@ == objects_url(self.address()),
            request.body is None,
            request.timeout_secs == REQUEST_TIMEOUT_SECS,
    {
        Request {
            method: Method::Get,
            url: self.url("/objects"),
            body: None,
            timeout_secs: REQUEST_TIMEOUT_SECS,
        }
    }

    /// Classifies the response to a request that changes settings.
    pub fn change_settings(&self, response: &Response) -> (result: Result<(), ApiError>)
        ensures
            result == change_settings_outcome(*response),
    {
        match response {
            Response::Unreachable => Err(ApiError::Transport),
            Response::Answered { status, body: _ } => match *status {
                STATUS_OK => Ok(()),
                STATUS_NO_SUCH_SETTING => Err(ApiError::Request(RequestError::NoSuchSetting)),
                STATUS_NO_SUCH_RECEIVER => Err(ApiError::Request(RequestError::NoSuchReceiver)),
                _ => Err(ApiError::Request(RequestError::UnknownError)),
            },
        }
    }

    /// Classifies the response to a request that reads settings. The body is
    /// read only on status 200.
    pub fn get_settings(&self, response: &Response) -> (result: Result<Settings, ApiError>)
        ensures
            match result {
                Ok(settings) => get_settings_outcome(*response) == Ok::<SettingsView, ApiError>(
                    settings@,
                ),
                Err(error) => get_settings_outcome(*response) == Err::<SettingsView, ApiError>(
                    error,
                ),
            },
    {
        match response {
            Response::Unreachable => Err(ApiError::Transport),
            Response::Answered { status, body } => match *status {
                STATUS_OK => match body {
                    Some(text) => match Settings::from_json(text.as_str()) {
                        Ok(settings) => Ok(settings),
                        Err(_) => Err(ApiError::Model(ModelError::InvalidSettings)),
                    },
                    None => Err(ApiError::Model(ModelError::InvalidSettings)),
                },
                STATUS_NO_SUCH_RECEIVER => Err(ApiError::Request(RequestError::NoSuchReceiver)),
                _ => Err(ApiError::Request(RequestError::UnknownError)),
            },
        }
    }

    /// Classifies the response to a request that reads the photo of a named
    /// object. The body is read only on status 200.
    pub fn get_object(&self, response: &Response) -> (result: Result<ObjectPhoto, ApiError>)
        ensures
            match result {
                Ok(photo) => get_photo_outcome(*response) == Ok::<PhotoView, ApiError>(photo@),
                Err(error) => get_photo_outcome(*response) == Err::<PhotoView, ApiError>(error),
            },
    {
        match response {
            Response::Unreachable => Err(ApiError::Transport),
            Response::Answered { status, body } => match *status {
                STATUS_OK => match body {
                    Some(text) => match ObjectPhoto::from_json(text.as_str()) {
                        Some(photo) => Ok(photo),
                        None => Err(ApiError::Payload),
                    },
                    None => Err(ApiError::Payload),
                },
                _ => Err(ApiError::Request(RequestError::UnknownError)),
            },
        }
    }

    /// Classifies the response to a request that reads the current frame of
    /// the camera, as [`ApiClient::get_object`] does.
    pub fn get_objects(&self, response: &Response) -> (result: Result<ObjectPhoto, ApiError>)
        ensures
            match result {
                Ok(photo) => get_photo_outcome(*response) == Ok::<PhotoView, ApiError>(photo@),
                Err(error) => get_photo_outcome(*response) == Err::<PhotoView, ApiError>(error),
            },
    {
        self.get_object(response)
    }
}

} // verus!
