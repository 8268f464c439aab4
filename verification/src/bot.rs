//! The dispatcher: from one chat command to one reply.
//!
//! A command is answered in at most two steps. [`answer`] either gives the
//! reply at once or names the call to the backend that the reply depends on.
//! For a call, the caller sends [`ApiCall::request`] and hands the response to
//! [`ApiCall::reply`]. Whatever the command and the response, exactly one
//! reply comes out, and its text is one of a fixed set or shows settings.

use crate::api_client::{
    change_settings_outcome, get_photo_outcome, get_settings_outcome, object_url, objects_url,
    receiver_url, same_response, settings_url, ApiClient, Method, Request, Response,
    REQUEST_TIMEOUT_SECS,
};
use crate::errors::{ApiError, ImageError};
use crate::models::{ObjectPhoto, PhotoView, Receiver, Settings, SettingsView};
use crate::schema::settings_text;
use crate::text::{split_whitespace, words};
use base64::Engine;
use vstd::prelude::*;
use vstd::string::StringExecFns;

verus! {

/// A chat command with its argument as the user typed it.
#[derive(Debug, Clone)]
pub enum Command {
    /// Asks for the list of commands.
    Help,
    /// Asks for the current frame of the camera.
    CurrentState,
    /// Asks where the named object is.
    WhereIs(String),
    /// Asks for the settings of the named receiver.
    GetSettings(String),
    /// Asks to change a setting: a receiver, a name and a value.
    ChangeSettings(String),
}

/// A reply to the user.
#[derive(Debug, PartialEq, Eq)]
pub enum Reply {
    /// A text message.
    Text(String),
    /// A picture, as the bytes of its file.
    Photo(Vec<u8>),
}

/// What a [`Reply`] holds.
pub enum ReplyView {
    /// A text message.
    Text(Seq<char>),
    /// A picture, as the bytes of its file.
    Photo(Seq<u8>),
}

impl View for Reply {
    type V = ReplyView;

    open spec fn view(&self) -> ReplyView {
        match self {
            Reply::Text(text) => ReplyView::Text(text@),
            Reply::Photo(bytes) => ReplyView::Photo(bytes@),
        }
    }
}

/// A call to the backend that a reply depends on.
#[derive(Debug, PartialEq)]
pub enum ApiCall {
    /// Read the current frame of the camera.
    GetObjects,
    /// Read the photo of the named object.
    GetObject(String),
    /// Read the settings of a receiver.
    GetSettings(Receiver),
    /// Change settings.
    ChangeSettings(Settings),
}

/// What an [`ApiCall`] holds.
pub enum ApiCallView {
    /// Read the current frame of the camera.
    GetObjects,
    /// Read the photo of the named object.
    GetObject(Seq<char>),
    /// Read the settings of a receiver.
    GetSettings(Receiver),
    /// Change settings.
    ChangeSettings(SettingsView),
}

impl View for ApiCall {
    type V = ApiCallView;

    open spec fn view(&self) -> ApiCallView {
        match self {
            ApiCall::GetObjects => ApiCallView::GetObjects,
            ApiCall::GetObject(name) => ApiCallView::GetObject(name@),
            ApiCall::GetSettings(receiver) => ApiCallView::GetSettings(*receiver),
            ApiCall::ChangeSettings(settings) => ApiCallView::ChangeSettings(settings@),
        }
    }
}

/// What the dispatcher does first with a command.
#[derive(Debug, PartialEq)]
pub enum Step {
    /// The reply is known without the backend.
    Reply(Reply),
    /// The reply depends on this call to the backend.
    Call(ApiCall),
}

/// What a [`Step`] holds.
pub enum StepView {
    /// The reply is known without the backend.
    Reply(ReplyView),
    /// The reply depends on this call to the backend.
    Call(ApiCallView),
}

impl View for Step {
    type V = StepView;

    open spec fn view(&self) -> StepView {
        match self {
            Step::Reply(reply) => StepView::Reply(reply@),
            Step::Call(call) => StepView::Call(call@),
        }
    }
}

/// The bytes that `base64::Engine::decode` of the standard engine reads from a
/// text, if it accepts the text.
pub uninterp spec fn base64_decoded(text: Seq<char>) -> Option<Seq<u8>>;

/// The error with which `base64` rejects a text.
#[verifier::external_type_specification]
#[verifier::external_body]
pub struct ExDecodeError(base64::DecodeError);

/// Calls `base64::Engine::decode` on `base64::engine::general_purpose::STANDARD`.
/// The call reads the text as base64 in the standard alphabet with padding;
/// whether it accepts the text, and the bytes that it reads, depend on the
/// text alone.
#[verifier::external_body]
fn decode_standard(text: &str) -> (result: Result<Vec<u8>, base64::DecodeError>)
    ensures
        result is Ok <==> base64_decoded(text@) is Some,
        result matches Ok(bytes) ==> base64_decoded(text@) == Some(bytes@),
{
    base64::engine::general_purpose::STANDARD.decode(text)
}

/// The address of the backend where none is configured.
pub const DEFAULT_API_ADDRESS: &'static str = "127.0.0.1:19841";

/// The list of commands that answers `help`.
pub const HELP: &'static str = "These commands are supported:\n\n\
/help \u{2014} List all available commands\n\
/currentstate \u{2014} Display current objects\n\
/whereis \u{2014} Search for object\n\
/getsettings \u{2014} Get settings\n\
/changesettings \u{2014} Change settings";

/// The reply where the backend gave no photo.
pub const IMAGE_UNAVAILABLE: &'static str = "Error retrieving image";

/// The reply where the picture of a photo is not valid base64.
pub const IMAGE_INVALID: &'static str = "Incorrect base64 image string received";

/// The reply where the command names no receiver.
pub const RECEIVER_UNKNOWN: &'static str = "Incorrect receiver specified";

/// The reply where settings are malformed, in a command or in a response.
pub const SETTINGS_MALFORMED: &'static str = "Incorrectly formatted settings";

/// The reply where the backend gave no settings.
pub const SETTINGS_UNAVAILABLE: &'static str = "Error getting a response from an API server";

/// The reply where the backend changed the settings.
pub const SETTINGS_CHANGED: &'static str = "Settings changed successfully";

/// The reply where the backend did not change the settings.
pub const SETTINGS_UNCHANGED: &'static str = "Failed to change settings";

/// The start of the reply where a change of settings names no receiver.
pub const RECEIVER_CHOICES: &'static str = "Reciever formatted incorrectly, should be one of: ";

/// The tokens of a sequence of receivers, separated by a comma and a space.
pub open spec fn token_list(receivers: Seq<Receiver>) -> Seq<char>
    decreases receivers.len(),
{
    if receivers.len() == 0 {
        Seq::empty()
    } else if receivers.len() == 1 {
        receivers[0].token()
    } else {
        token_list(receivers.drop_last()) + ", "@ + receivers.last().token()
    }
}

/// The reply where a change of settings names no receiver: it lists the
/// tokens of all receivers.
pub open spec fn receiver_choices() -> Seq<char> {
    RECEIVER_CHOICES@ + token_list(
        seq![Receiver::Camera, Receiver::Model, Receiver::Db, Receiver::Fs],
    )
}

/// The first step for a request to change settings. The argument must hold
/// exactly three words: the token of a receiver, a name and a value.
pub open spec fn change_step(argument: Seq<char>) -> StepView {
    let parts = words(argument);
    if parts.len() != 3 {
        StepView::Reply(ReplyView::Text(SETTINGS_MALFORMED@))
    } else {
        match Receiver::parse(parts[0]) {
            Some(receiver) => StepView::Call(
                ApiCallView::ChangeSettings(
                    SettingsView { receiver, entries: seq![(parts[1], parts[2])] },
                ),
            ),
            None => StepView::Reply(ReplyView::Text(receiver_choices())),
        }
    }
}

/// The first step for a command: what is wrong with the command is replied at
/// once, and the backend is called only for a command that is well formed.
pub open spec fn first_step(command: Command) -> StepView {
    match command {
        Command::Help => StepView::Reply(ReplyView::Text(HELP@)),
        Command::CurrentState => StepView::Call(ApiCallView::GetObjects),
        Command::WhereIs(name) => StepView::Call(ApiCallView::GetObject(name@)),
        Command::GetSettings(token) => match Receiver::parse(token@) {
            Some(receiver) => StepView::Call(ApiCallView::GetSettings(receiver)),
            None => StepView::Reply(ReplyView::Text(RECEIVER_UNKNOWN@)),
        },
        Command::ChangeSettings(argument) => change_step(argument@),
    }
}

/// The reply for a picture, by the bytes decoded from it.
pub open spec fn image_reply_of(decoded: Option<Seq<u8>>) -> ReplyView {
    match decoded {
        Some(bytes) => ReplyView::Photo(bytes),
        None => ReplyView::Text(IMAGE_INVALID@),
    }
}

/// The reply for the outcome of reading a photo.
pub open spec fn photo_reply_of(outcome: Result<PhotoView, ApiError>) -> ReplyView {
    match outcome {
        Ok(photo) => image_reply_of(base64_decoded(photo.image)),
        Err(_) => ReplyView::Text(IMAGE_UNAVAILABLE@),
    }
}

/// The reply for the outcome of reading settings.
pub open spec fn settings_reply_of(outcome: Result<SettingsView, ApiError>) -> ReplyView {
    match outcome {
        Ok(settings) => ReplyView::Text(settings.rendered()),
        Err(ApiError::Model(_)) => ReplyView::Text(SETTINGS_MALFORMED@),
        Err(_) => ReplyView::Text(SETTINGS_UNAVAILABLE@),
    }
}

/// The reply for the outcome of changing settings.
pub open spec fn change_reply_of(outcome: Result<(), ApiError>) -> ReplyView {
    match outcome {
        Ok(_) => ReplyView::Text(SETTINGS_CHANGED@),
        Err(_) => ReplyView::Text(SETTINGS_UNCHANGED@),
    }
}

/// The reply to a command whose first step is a call, by the response to the
/// call.
pub open spec fn final_reply(call: ApiCallView, response: Response) -> ReplyView {
    match call {
        ApiCallView::GetObjects => photo_reply_of(get_photo_outcome(response)),
        ApiCallView::GetObject(_) => photo_reply_of(get_photo_outcome(response)),
        ApiCallView::GetSettings(_) => settings_reply_of(get_settings_outcome(response)),
        ApiCallView::ChangeSettings(_) => change_reply_of(change_settings_outcome(response)),
    }
}

/// The reply depends on the call and on what came back alone: responses that
/// are alike give the same reply.
pub proof fn lemma_reply_determined(call: ApiCallView, first: Response, second: Response)
    requires
        same_response(first, second),
    ensures
        final_reply(call, first) == final_reply(call, second),
{
}

/// What the backend and the decoders report as failures never reaches the
/// user as such: the reply to a call is a picture, the settings that the
/// backend sent, or one of six fixed texts.
pub proof fn lemma_replies_are_fixed(call: ApiCallView, response: Response)
    ensures
        match final_reply(call, response) {
            ReplyView::Photo(bytes) => {
                &&& (call is GetObjects || call is GetObject)
                &&& get_photo_outcome(response) matches Ok(photo)
                &&& base64_decoded(photo.image) == Some(bytes)
            },
            ReplyView::Text(text) => {
                ||| text == IMAGE_UNAVAILABLE@
                ||| text == IMAGE_INVALID@
                ||| text == SETTINGS_MALFORMED@
                ||| text == SETTINGS_UNAVAILABLE@
                ||| text == SETTINGS_CHANGED@
                ||| text == SETTINGS_UNCHANGED@
                ||| {
                    &&& call is GetSettings
                    &&& get_settings_outcome(response) matches Ok(settings)
                    &&& text == settings.rendered()
                }
            },
        },
{
}

/// A command that is malformed is answered without a call to the backend:
/// a request for the settings of an unknown receiver, and a change of settings
/// that does not hold three words or names an unknown receiver.
pub proof fn lemma_malformed_command_makes_no_call(command: Command)
    ensures
        command matches Command::GetSettings(token) && Receiver::parse(token@) is None
            ==> first_step(command) == StepView::Reply(ReplyView::Text(RECEIVER_UNKNOWN@)),
        command matches Command::ChangeSettings(argument) && words(argument@).len() != 3
            ==> first_step(command) == StepView::Reply(ReplyView::Text(SETTINGS_MALFORMED@)),
        command matches Command::ChangeSettings(argument) && words(argument@).len() == 3
            && Receiver::parse(words(argument@)[0]) is None ==> first_step(command)
            == StepView::Reply(ReplyView::Text(receiver_choices())),
{
}

/// The address of the backend: the configured one, or the default where none
/// is configured.
pub fn get_api_address(configured: Option<String>) -> (address: String)
    ensures
        address@ == match configured {
            Some(given) => given@,
            None => DEFAULT_API_ADDRESS@,
        },
{
    match configured {
        Some(given) => given,
        None => DEFAULT_API_ADDRESS.to_owned(),
    }
}

/// Decodes a picture from base64 in the standard alphabet with padding.
pub fn convert_to_image(base64_image: &str) -> (result: Result<Vec<u8>, ImageError>)
    ensures
        match result {
            Ok(bytes) => base64_decoded(base64_image@) == Some(bytes@),
            Err(error) => base64_decoded(base64_image@) is None,
        },
{
    match decode_standard(base64_image) {
        Ok(bytes) => Ok(bytes),
        Err(_) => Err(ImageError::InvalidBase64),
    }
}

/// The reply for a picture, by the outcome of decoding it: the picture where
/// it was decoded, and a fixed text where it was not.
pub fn image_reply(decoded: Result<Vec<u8>, ImageError>) -> (reply: Reply)
    ensures
        reply@ == image_reply_of(
            match decoded {
                Ok(bytes) => Some(bytes@),
                Err(_) => None,
            },
        ),
{
    match decoded {
        Ok(bytes) => Reply::Photo(bytes),
        Err(_) => Reply::Text(IMAGE_INVALID.to_owned()),
    }
}

/// The reply for the outcome of reading a photo: the decoded picture, or a
/// fixed text where the backend gave no photo or the picture is not base64.
pub fn photo_reply(outcome: Result<ObjectPhoto, ApiError>) -> (reply: Reply)
    ensures
        reply@ == photo_reply_of(
            match outcome {
                Ok(photo) => Ok(photo@),
                Err(error) => Err(error),
            },
        ),
{
    match outcome {
        Ok(photo) => image_reply(convert_to_image(photo.image())),
        Err(_) => Reply::Text(IMAGE_UNAVAILABLE.to_owned()),
    }
}

/// The reply for the outcome of reading settings: the settings as text, or a
/// fixed text by the kind of the failure.
pub fn settings_reply(outcome: Result<Settings, ApiError>) -> (reply: Reply)
    ensures
        reply@ == settings_reply_of(
            match outcome {
                Ok(settings) => Ok(settings@),
                Err(error) => Err(error),
            },
        ),
{
    match outcome {
        Ok(settings) => Reply::Text(settings.to_string()),
        Err(ApiError::Model(_)) => Reply::Text(SETTINGS_MALFORMED.to_owned()),
        Err(_) => Reply::Text(SETTINGS_UNAVAILABLE.to_owned()),
    }
}

/// The reply for the outcome of changing settings.
pub fn change_reply(outcome: Result<(), ApiError>) -> (reply: Reply)
    ensures
        reply@ == change_reply_of(outcome),
{
    match outcome {
        Ok(_) => Reply::Text(SETTINGS_CHANGED.to_owned()),
        Err(_) => Reply::Text(SETTINGS_UNCHANGED.to_owned()),
    }
}

/// The reply where a change of settings names no receiver.
fn receiver_choices_text() -> (out: String)
    ensures
        out@ == receiver_choices(),
{
    let table = Receiver::all();
    let mut out = RECEIVER_CHOICES.to_owned();
    let mut i: usize = 0;
    while i < table.len()
        invariant
            i <= 4,
            table@ == seq![Receiver::Camera, Receiver::Model, Receiver::Db, Receiver::Fs],
            out@ == RECEIVER_CHOICES@ + token_list(table@.take(i as int)),
        decreases 4 - i,
    {
        let ghost shown = table@.take(i as int);
        let ghost next = table@.take(i + 1);
        if i > 0 {
            out.append(", ");
        }
        out.append(table[i].as_str());
        proof {
            assert(next.drop_last() =~= shown);
            assert(next.last() == table@[i as int]);
            assert(out@ =~= RECEIVER_CHOICES@ + token_list(next));
        }
        i += 1;
    }
    assert(table@.take(4) =~= table@);
    out
}

/// The first step for a request to change settings.
fn change_settings_step(argument: &str) -> (step: Step)
    ensures
        step@ == change_step(argument@),
{
    let parts = split_whitespace(argument);
    if parts.len() != 3 {
        return Step::Reply(Reply::Text(SETTINGS_MALFORMED.to_owned()));
    }
    match Receiver::try_from(parts[0].clone()) {
        Ok(receiver) => {
            let mut entries: Vec<(String, String)> = Vec::new();
            entries.push((parts[1].clone(), parts[2].clone()));
            let settings = Settings::new(receiver, entries);
            assert(settings@.entries =~= seq![(words(argument@)[1], words(argument@)[2])]);
            Step::Call(ApiCall::ChangeSettings(settings))
        },
        Err(_) => Step::Reply(Reply::Text(receiver_choices_text())),
    }
}

/// Takes the first step for a command: the reply, where it does not depend on
/// the backend, or else the call that it depends on.
pub fn answer(command: Command) -> (step: Step)
    ensures
        step@ == first_step(command),
{
    match command {
        Command::Help => Step::Reply(Reply::Text(HELP.to_owned())),
        Command::CurrentState => Step::Call(ApiCall::GetObjects),
        Command::WhereIs(name) => Step::Call(ApiCall::GetObject(name)),
        Command::GetSettings(token) => match Receiver::try_from(token) {
            Ok(receiver) => Step::Call(ApiCall::GetSettings(receiver)),
            Err(_) => Step::Reply(Reply::Text(RECEIVER_UNKNOWN.to_owned())),
        },
        Command::ChangeSettings(argument) => change_settings_step(argument.as_str()),
    }
}

impl ApiCall {
    /// The request that makes this call on the backend of a client.
    pub fn request(&self, api: &ApiClient) -> (request: Request)
        ensures
            request.timeout_secs == REQUEST_TIMEOUT_SECS,
            match self@ {
                ApiCallView::GetObjects => {
                    &&& request.method == Method::Get
                    &&& request.url@ == objects_url(api.address())
                    &&& request.body is None
                },
                ApiCallView::GetObject(name) => {
                    &&& request.method == Method::Get
                    &&& request.url@ == object_url(api.address(), name)
                    &&& request.body is None
                },
                ApiCallView::GetSettings(receiver) => {
                    &&& request.method == Method::Get
                    &&& request.url@ == receiver_url(api.address(), receiver)
                    &&& request.body is None
                },
                ApiCallView::ChangeSettings(settings) => {
                    &&& request.method == Method::Post
                    &&& request.url@ == settings_url(api.address())
                    &&& request.body matches Some(text) && text@ == settings_text(settings)
                },
            },
    {
        match self {
            ApiCall::GetObjects => api.get_objects_request(),
            ApiCall::GetObject(name) => api.get_object_request(name.as_str()),
            ApiCall::GetSettings(receiver) => api.get_settings_request(*receiver),
            ApiCall::ChangeSettings(settings) => api.change_settings_request(settings),
        }
    }

    /// The reply to the command that led to this call, by the response to the
    /// call.
    pub fn reply(&self, api: &ApiClient, response: &Response) -> (reply: Reply)
        ensures
            reply@ == final_reply(self@, *response),
    {
        match self {
            ApiCall::GetObjects => photo_reply(api.get_objects(response)),
            ApiCall::GetObject(_) => photo_reply(api.get_object(response)),
            ApiCall::GetSettings(_) => settings_reply(api.get_settings(response)),
            ApiCall::ChangeSettings(_) => change_reply(api.change_settings(response)),
        }
    }
}

} // verus!
