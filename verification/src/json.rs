//! Request bodies as JSON documents.
use vstd::prelude::*;

verus! {

/// A JSON document, as far as requests are read: objects by their members, strings by their
/// characters.
pub enum Json {
    Object(Map<Seq<char>, Json>),
    Text(Seq<char>),
    Other,
}

impl Json {
    /// The member `key`, where this is an object that has one.
    pub open spec fn member(self, key: Seq<char>) -> Option<Json> {
        match self {
            Json::Object(members) => if members.contains_key(key) {
                Some(members[key])
            } else {
                None
            },
            _ => None,
        }
    }

    /// The characters, where this is a string.
    pub open spec fn text(self) -> Option<Seq<char>> {
        match self {
            Json::Text(s) => Some(s),
            _ => None,
        }
    }

    /// What stands at the end of `path`, which is read from this document down.
    pub open spec fn at(self, path: Seq<Seq<char>>) -> Option<Json>
        decreases path.len(),
    {
        if path.len() == 0 {
            Some(self)
        } else {
            match self.member(path[0]) {
                Some(inner) => inner.at(path.drop_first()),
                None => None,
            }
        }
    }
}

/// Where a request names its model.
pub open spec fn model_path() -> Seq<Seq<char>> {
    seq!["conversationState"@, "currentMessage"@, "userInputMessage"@, "modelId"@]
}

/// The model that the document `json` names.
pub open spec fn model_of(json: Json) -> Option<Seq<char>> {
    match json.at(model_path()) {
        Some(model) => model.text(),
        None => None,
    }
}

/// The model that the request body `body` names; none where it is no JSON document.
pub open spec fn model_of_request(body: Seq<char>) -> Option<Seq<char>> {
    match json_document(body) {
        Some(json) => model_of(json),
        None => None,
    }
}

/// `serde_json::Value`; [`json_view`] names what it holds.
#[verifier::external_type_specification]
#[verifier::external_body]
pub struct ExJsonValue(serde_json::Value);

/// `serde_json::Error`, of which nothing is read.
#[verifier::external_type_specification]
#[verifier::external_body]
pub struct ExJsonError(serde_json::Error);

/// The document that a `serde_json::Value` holds.
pub uninterp spec fn json_view(value: serde_json::Value) -> Json;

/// The document that `serde_json::from_str` reads from a text; none where it reports an error.
pub uninterp spec fn json_document(text: Seq<char>) -> Option<Json>;

/// Calls `serde_json::from_str` for a `serde_json::Value`. Claims that whether it succeeds, and
/// the document it yields, depend on the characters of the text alone.
#[verifier::external_body]
fn parse_json(text: &str) -> (parsed: Result<serde_json::Value, serde_json::Error>)
    ensures
        json_document(text@) == (match parsed {
            Ok(value) => Some(json_view(value)),
            Err(_) => None,
        }),
{
    serde_json::from_str(text)
}

/// Calls `serde_json::Value::get` with a string. Claims that it yields the member of that name
/// of an object, and nothing where there is no such member or the value is no object.
#[verifier::external_body]
fn json_get<'a>(value: &'a serde_json::Value, key: &str) -> (member: Option<&'a serde_json::Value>)
    ensures
        json_view(*value).member(key@) == (match member {
            Some(inner) => Some(json_view(*inner)),
            None => None,
        }),
{
    value.get(key)
}

/// Calls `serde_json::Value::as_str`. Claims that it yields the characters of a string, and
/// nothing for any other value.
#[verifier::external_body]
fn json_as_str(value: &serde_json::Value) -> (text: Option<&str>)
    ensures
        json_view(*value).text() == (match text {
            Some(s) => Some(s@),
            None => None,
        }),
{
    value.as_str()
}

/// The model that `json` names at `conversationState.currentMessage.userInputMessage.modelId`.
pub fn model_from_json(json: &serde_json::Value) -> (model: Option<String>)
    ensures
        model_of(json_view(*json)) == (match model {
            Some(m) => Some(m@),
            None => None,
        }),
{
    proof {
        let p = model_path();
        assert(p.drop_first() =~= seq!["currentMessage"@, "userInputMessage"@, "modelId"@]);
        assert(p.drop_first().drop_first() =~= seq!["userInputMessage"@, "modelId"@]);
        assert(p.drop_first().drop_first().drop_first() =~= seq!["modelId"@]);
        assert(p.drop_first().drop_first().drop_first().drop_first() =~= Seq::<
            Seq<char>,
        >::empty());
        reveal_with_fuel(Json::at, 5);
    }
    let state = match json_get(json, "conversationState") {
        Some(inner) => inner,
        None => return None,
    };
    let message = match json_get(state, "currentMessage") {
        Some(inner) => inner,
        None => return None,
    };
    let input = match json_get(message, "userInputMessage") {
        Some(inner) => inner,
        None => return None,
    };
    let model = match json_get(input, "modelId") {
        Some(inner) => inner,
        None => return None,
    };
    match json_as_str(model) {
        Some(text) => Some(text.to_owned()),
        None => None,
    }
}

/// The model that the request body names, if it is a JSON document that names one.
pub(crate) fn model_from_request(request_body: &str) -> (model: Option<String>)
    ensures
        model_of_request(request_body@) == (match model {
            Some(m) => Some(m@),
            None => None,
        }),
{
    match parse_json(request_body) {
        Ok(json) => model_from_json(&json),
        Err(_) => None,
    }
}

/// A document names a model exactly if the text stands in four nested objects, under
/// `conversationState`, `currentMessage`, `userInputMessage` and `modelId`.
pub proof fn models_stand_in_nested_objects(json: Json, model: Seq<char>)
    ensures
        model_of(json) == Some(model) <==> (json matches Json::Object(top) && top.contains_key(
            "conversationState"@,
        ) && (top["conversationState"@] matches Json::Object(state) && state.contains_key(
            "currentMessage"@,
        ) && (state["currentMessage"@] matches Json::Object(message) && message.contains_key(
            "userInputMessage"@,
        ) && (message["userInputMessage"@] matches Json::Object(input) && input.contains_key(
            "modelId"@,
        ) && input["modelId"@] == Json::Text(model))))),
{
    let p = model_path();
    assert(p.drop_first() =~= seq!["currentMessage"@, "userInputMessage"@, "modelId"@]);
    assert(p.drop_first().drop_first() =~= seq!["userInputMessage"@, "modelId"@]);
    assert(p.drop_first().drop_first().drop_first() =~= seq!["modelId"@]);
    assert(p.drop_first().drop_first().drop_first().drop_first() =~= Seq::<Seq<char>>::empty());
    reveal_with_fuel(Json::at, 5);
}

/// A request names the model that its document names, and none where it is no document.
pub proof fn requests_name_the_model_of_their_document(body: Seq<char>, model: Seq<char>)
    ensures
        model_of_request(body) == Some(model) <==> (json_document(body) matches Some(json)
            && model_of(json) == Some(model)),
{
}

} // verus!
