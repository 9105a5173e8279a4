//! Responses to clients and their wire form.

use crate::json::{
    entry_models, holds_integers, key_sorted, nests_within, object_of, object_text, opt_json,
    parsed_json, render_object, sort_json_value, Json, JsonValue,
};
use crate::output_device::{copy_opt_text, opt_text};
use crate::text::join2;
use vstd::prelude::*;

verus! {

/// The answer to a command.
#[derive(Debug)]
pub struct Response {
    pub success: bool,
    pub data: Option<JsonValue>,
    pub error: Option<String>,
}

/// What a `Response` stands for.
#[verifier::ext_equal]
pub struct ResponseModel {
    pub success: bool,
    pub data: Option<Json>,
    pub error: Option<Seq<char>>,
}

impl View for Response {
    type V = ResponseModel;

    open spec fn view(&self) -> ResponseModel {
        ResponseModel {
            success: self.success,
            data: opt_json(self.data),
            error: opt_text(self.error),
        }
    }
}

/// A success that carries `data`.
pub open spec fn ok_response(data: Json) -> ResponseModel {
    ResponseModel { success: true, data: Some(data), error: None }
}

/// A success without data.
pub open spec fn done_response() -> ResponseModel {
    ResponseModel { success: true, data: None, error: None }
}

/// A failure.
pub open spec fn err_response(error: Seq<char>) -> ResponseModel {
    ResponseModel { success: false, data: None, error: Some(error) }
}

impl Response {
    /// A success that carries data, with the members of every object in the order of their names.
    pub fn ok(data: JsonValue) -> (r: Response)
        ensures
            r@ == ok_response(data@),
            r.data matches Some(d) && key_sorted(d),
    {
        let sorted = sort_json_value(&data);
        Response { success: true, data: Some(sorted), error: None }
    }

    /// A success without data.
    pub fn ok_empty() -> (r: Response)
        ensures
            r@ == done_response(),
    {
        Response { success: true, data: None, error: None }
    }

    /// A failure.
    pub fn err(error: String) -> (r: Response)
        ensures
            r@ == err_response(error@),
    {
        Response { success: false, data: None, error: Some(error) }
    }
}

impl Clone for Response {
    fn clone(&self) -> (r: Response)
        ensures
            r@ == self@,
    {
        Response {
            success: self.success,
            data: match &self.data {
                Some(data) => Some(data.clone()),
                None => None,
            },
            error: copy_opt_text(&self.error),
        }
    }
}

/// The entries of a response on the wire: absent ones are left out.
pub open spec fn response_entries(r: ResponseModel) -> Seq<(Seq<char>, Json)> {
    let head = seq![("success"@, Json::Bool(r.success))];
    let body = match r.data {
        Some(data) => head.push(("data"@, data)),
        None => head,
    };
    match r.error {
        Some(error) => body.push(("error"@, Json::Text(error))),
        None => body,
    }
}

/// The wire text of a response.
pub open spec fn response_text(r: ResponseModel) -> Seq<char> {
    object_text(response_entries(r))
}

/// Whether what was read from a line is a response: an object that holds its success, its error if
/// it has one, and its data if it has some. Data comes back as it is where it holds integers only.
pub open spec fn response_comes_back(r: ResponseModel, read: Option<Json>) -> bool {
    match read {
        Some(Json::Object(found)) => {
            &&& found.contains_key("success"@) && found["success"@] == Json::Bool(r.success)
            &&& found.contains_key("data"@) == (r.data is Some)
            &&& r.data is Some && holds_integers(r.data->0) ==> found["data"@] == r.data->0
            &&& found.contains_key("error"@) == (r.error is Some)
            &&& r.error is Some ==> found["error"@] == Json::Text(r.error->0)
            &&& forall|k: Seq<char>| #[trigger]
                found.contains_key(k) ==> k == "success"@ || k == "data"@ || k == "error"@
        },
        _ => false,
    }
}

proof fn lemma_response_names()
    ensures
        "success"@ != "data"@,
        "success"@ != "error"@,
        "data"@ != "error"@,
{
    reveal_strlit("success");
    reveal_strlit("data");
    reveal_strlit("error");
    assert("success"@.len() == 7 && "data"@.len() == 4 && "error"@.len() == 5);
}

proof fn lemma_response_object(r: ResponseModel)
    ensures
        ({
            let object = object_of(response_entries(r));
            &&& object.contains_key("success"@) && object["success"@] == Json::Bool(r.success)
            &&& object.contains_key("data"@) == (r.data is Some)
            &&& r.data is Some ==> object["data"@] == r.data->0
            &&& object.contains_key("error"@) == (r.error is Some)
            &&& r.error is Some ==> object["error"@] == Json::Text(r.error->0)
            &&& forall|k: Seq<char>| #[trigger]
                object.contains_key(k) ==> k == "success"@ || k == "data"@ || k == "error"@
        }),
{
    lemma_response_names();
    reveal_with_fuel(object_of, 4);
    let head = seq![("success"@, Json::Bool(r.success))];
    assert(head.drop_last() =~= Seq::empty());
    let body = match r.data {
        Some(data) => head.push(("data"@, data)),
        None => head,
    };
    if r.data is Some {
        assert(body.drop_last() =~= head);
    }
    if r.error is Some {
        assert(response_entries(r).drop_last() =~= body);
    }
}

/// The answer that stands in where a response cannot be written.
pub open spec fn fallback_text() -> Seq<char> {
    "{\"success\":false,\"error\":\"internal error: response serialization failed\"}"@
}

/// What goes on the wire, given what was written: a fixed answer stands in for nothing.
pub fn written_or_fallback(written: Option<String>) -> (r: String)
    ensures
        r@ == match written {
            Some(text) => text@,
            None => fallback_text(),
        },
{
    match written {
        Some(text) => text,
        None => {
            "{\"success\":false,\"error\":\"internal error: response serialization failed\"}".to_owned()
        },
    }
}

/// The wire text of a response, which is one line that holds one JSON object. The object comes back
/// when the line is read, unless the data is nested too deep to be read.
pub fn serialize_response_safely(response: &Response) -> (r: String)
    ensures
        r@ == response_text(response@),
        !r@.contains('\n'),
        (response@.data is Some ==> nests_within(response@.data->0, 126)) ==> response_comes_back(
            response@,
            parsed_json(r@),
        ),
{
    let success = JsonValue::Bool(response.success);
    let error = match &response.error {
        Some(error) => JsonValue::Text(error.clone()),
        None => JsonValue::Null,
    };
    let mut entries: Vec<(&str, &JsonValue)> = Vec::new();
    entries.push(("success", &success));
    if let Some(data) = &response.data {
        entries.push(("data", data));
    }
    if response.error.is_some() {
        entries.push(("error", &error));
    }
    proof {
        assert(entry_models(entries@) =~= response_entries(response@));
        lemma_response_object(response@);
    }
    written_or_fallback(render_object(&entries))
}

/// Whether a text is one line: it ends with a line break and holds no other.
pub open spec fn is_one_line(text: Seq<char>) -> bool {
    text.len() > 0 && text.last() == '\n' && !text.drop_last().contains('\n')
}

/// What follows a command on the wire: the response and a line break. Without the break the line
/// reads back as the response, unless the data is nested too deep to be read.
pub fn response_line(response: &Response) -> (r: String)
    ensures
        r@ == response_text(response@).push('\n'),
        is_one_line(r@),
        (response@.data is Some ==> nests_within(response@.data->0, 126)) ==> response_comes_back(
            response@,
            parsed_json(r@.drop_last()),
        ),
{
    let text = serialize_response_safely(response);
    let line = join2(text.as_str(), "\n");
    proof {
        reveal_strlit("\n");
        assert(line@ =~= text@.push('\n'));
        assert(line@.drop_last() =~= text@);
    }
    line
}

/// A response is either a success or a failure with its message, never both.
pub proof fn responses_succeed_or_say_why(data: Json, error: Seq<char>)
    ensures
        ok_response(data).success && ok_response(data).data == Some(data) && ok_response(data).error
            is None,
        done_response().success && done_response().data is None && done_response().error is None,
        !err_response(error).success && err_response(error).error == Some(error) && err_response(
            error,
        ).data is None,
{
}

/// A response is written with its outcome first, then its data, then its error, leaving out what it
/// does not have.
pub proof fn responses_are_written_in_order(r: ResponseModel)
    ensures
        ({
            let entries = response_entries(r);
            &&& entries[0] == ("success"@, Json::Bool(r.success))
            &&& r.data is None && r.error is None ==> entries.len() == 1
            &&& r.data matches Some(data) ==> entries.len() >= 2 && entries[1] == ("data"@, data)
            &&& r.data is Some && r.error is None ==> entries.len() == 2
            &&& r.error matches Some(error) ==> entries.last() == ("error"@, Json::Text(error))
            &&& r.error is Some ==> entries.len() == if r.data is Some { 3int } else { 2int }
        }),
{
}

} // verus!
