//! The request that asks the service to score a comment.

use vstd::prelude::*;
use crate::json::{
    array_value, bool_value, document_of, empty_object, json_text, render, set_member,
    string_value, Json,
};
use crate::model::{lemma_token_injective, lemma_token_round_trip, ValueType};

verus! {

/// How requests are sent.
pub const METHOD: &'static str = "POST";

/// Where requests are posted.
pub const ENDPOINT: &'static str =
    "https://commentanalyzer.googleapis.com/v1alpha1/comments:analyze";

/// The query parameter that carries the API key.
pub const KEY_PARAMETER: &'static str = "key";

/// The content type of a request's body.
pub const CONTENT_TYPE: &'static str = "application/json";

/// The language that every comment is declared to be in.
pub const LANGUAGE: &'static str = "en";

/// The object that asks for `types`: one member for each attribute that
/// occurs in `types`, under the attribute's token, and each an empty object.
pub open spec fn requested_attributes(types: Seq<ValueType>) -> Map<Seq<char>, Json> {
    Map::new(
        |name: Seq<char>|
            exists|i: int| 0 <= i < types.len() && (#[trigger] types[i]).token_view() == name,
        |name: Seq<char>| Json::Object(Map::empty()),
    )
}

/// The document that asks for the attributes `types` of the comment `text`.
pub open spec fn request_document(text: Seq<char>, types: Seq<ValueType>, do_not_store: bool) -> Json {
    Json::Object(
        Map::empty().insert(
            "comment"@,
            Json::Object(Map::empty().insert("text"@, Json::String(text))),
        ).insert("languages"@, Json::Array(seq![Json::String(LANGUAGE@)])).insert(
            "requestedAttributes"@,
            Json::Object(requested_attributes(types)),
        ).insert("doNotStore"@, Json::Bool(do_not_store)),
    )
}

/// The text of the comment that a document asks about: its member `text`
/// inside its member `comment`.
pub open spec fn comment_text(document: Json) -> Option<Json> {
    match document.member("comment"@) {
        Some(comment) => comment.member("text"@),
        None => None,
    }
}

/// A request document has the four members `comment`, `languages`,
/// `requestedAttributes` and `doNotStore` and no others: the comment is an
/// object with the text as its one member, the languages are the one-element
/// list of `en`, the requested attributes are those of
/// `requested_attributes`, and the flag is the one given.
pub proof fn lemma_request_members(text: Seq<char>, types: Seq<ValueType>, do_not_store: bool)
    ensures
        request_document(text, types, do_not_store) is Object,
        forall|name: Seq<char>|
            request_document(text, types, do_not_store)->Object_0.contains_key(name) <==> (name
                == "comment"@ || name == "languages"@ || name == "requestedAttributes"@ || name
                == "doNotStore"@),
        request_document(text, types, do_not_store).member("comment"@) == Some(
            Json::Object(Map::empty().insert("text"@, Json::String(text))),
        ),
        request_document(text, types, do_not_store).member("languages"@) == Some(
            Json::Array(seq![Json::String("en"@)]),
        ),
        request_document(text, types, do_not_store).member("requestedAttributes"@) == Some(
            Json::Object(requested_attributes(types)),
        ),
        request_document(text, types, do_not_store).member("doNotStore"@) == Some(
            Json::Bool(do_not_store),
        ),
{
    reveal_strlit("comment");
    reveal_strlit("languages");
    reveal_strlit("requestedAttributes");
    reveal_strlit("doNotStore");
    assert("comment"@.len() == 7);
    assert("languages"@.len() == 9);
    assert("requestedAttributes"@.len() == 19);
    assert("doNotStore"@.len() == 10);
}

/// Whatever the text holds, the request document carries it unchanged: its
/// `comment.text` is the JSON string of exactly these characters.
pub proof fn lemma_comment_text_kept(text: Seq<char>, types: Seq<ValueType>, do_not_store: bool)
    ensures
        comment_text(request_document(text, types, do_not_store)) == Some(Json::String(text)),
{
    lemma_request_members(text, types, do_not_store);
}

/// The requested attributes are exactly the attributes asked for: an
/// attribute's token names a member if and only if the attribute occurs in
/// `types`, every member is named by an attribute's token, and every member
/// is the empty object.
pub proof fn lemma_requested_exactly(types: Seq<ValueType>)
    ensures
        forall|attribute: ValueType|
            requested_attributes(types).contains_key(attribute.token_view()) <==> types.contains(
                attribute,
            ),
        forall|name: Seq<char>|
            requested_attributes(types).contains_key(name) ==> ValueType::with_token(name)
                is Some && requested_attributes(types)[name] == Json::Object(Map::empty()),
{
    assert forall|attribute: ValueType|
        requested_attributes(types).contains_key(attribute.token_view()) <==> types.contains(
            attribute,
        ) by {
        if requested_attributes(types).contains_key(attribute.token_view()) {
            let i = choose|i: int|
                0 <= i < types.len() && (#[trigger] types[i]).token_view()
                    == attribute.token_view();
            lemma_token_injective(types[i], attribute);
        }
        if types.contains(attribute) {
            let i = choose|i: int| 0 <= i < types.len() && types[i] == attribute;
            assert(types[i].token_view() == attribute.token_view());
        }
    }
    assert forall|name: Seq<char>| requested_attributes(types).contains_key(name) implies
        ValueType::with_token(name) is Some by {
        let i = choose|i: int| 0 <= i < types.len() && (#[trigger] types[i]).token_view() == name;
        lemma_token_round_trip(types[i]);
    }
}

/// Asking for one attribute more adds its member to the object, or changes
/// nothing if it was asked for already.
proof fn lemma_requested_attributes_push(types: Seq<ValueType>, next: ValueType)
    ensures
        requested_attributes(types.push(next)) == requested_attributes(types).insert(
            next.token_view(),
            Json::Object(Map::empty()),
        ),
{
    let longer = types.push(next);
    let left = requested_attributes(longer);
    let right = requested_attributes(types).insert(
        next.token_view(),
        Json::Object(Map::empty()),
    );
    assert forall|name: Seq<char>| left.contains_key(name) <==> right.contains_key(name) by {
        if left.contains_key(name) {
            let i = choose|i: int| 0 <= i < longer.len() && (#[trigger] longer[i]).token_view() == name;
            if i < types.len() {
                assert(types[i].token_view() == name);
            }
        }
        if right.contains_key(name) {
            if name == next.token_view() {
                assert(longer[types.len() as int].token_view() == name);
            } else {
                let i = choose|i: int| 0 <= i < types.len() && (#[trigger] types[i]).token_view() == name;
                assert(longer[i].token_view() == name);
            }
        }
    }
    assert(left =~= right);
}

/// Builds the document that asks for the attributes `types` of the comment
/// `text`.
pub fn build_document(text: &str, types: &Vec<ValueType>, do_not_store: bool) -> (document:
    serde_json::Value)
    ensures
        document_of(document) == request_document(text@, types@, do_not_store),
{
    let mut comment = empty_object();
    set_member(&mut comment, "text", string_value(text));

    let mut languages: Vec<serde_json::Value> = Vec::new();
    languages.push(string_value(LANGUAGE));
    let languages = array_value(languages);
    assert(document_of(languages)->Array_0 =~= seq![Json::String(LANGUAGE@)]);

    let mut attributes = empty_object();
    let mut i: usize = 0;
    assert(requested_attributes(types@.take(0)) =~= Map::empty());
    while i < types.len()
        invariant
            i <= types.len(),
            document_of(attributes) == Json::Object(requested_attributes(types@.take(i as int))),
        decreases types.len() - i,
    {
        proof {
            lemma_requested_attributes_push(types@.take(i as int), types@[i as int]);
            assert(types@.take(i as int).push(types@[i as int]) =~= types@.take(i + 1));
        }
        set_member(&mut attributes, types[i].token(), empty_object());
        i = i + 1;
    }
    assert(types@.take(types.len() as int) =~= types@);

    let mut document = empty_object();
    set_member(&mut document, "comment", comment);
    set_member(&mut document, "languages", languages);
    set_member(&mut document, "requestedAttributes", attributes);
    set_member(&mut document, "doNotStore", bool_value(do_not_store));
    document
}

/// The body of the request that asks for the attributes `types` of the
/// comment `text`: the JSON text of `request_document`.
pub fn request_body(text: &str, types: &Vec<ValueType>, do_not_store: bool) -> (body: String)
    ensures
        body@ == json_text(request_document(text@, types@, do_not_store)),
{
    let document = build_document(text, types, do_not_store);
    render(&document)
}

} // verus!
