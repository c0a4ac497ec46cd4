//! The service's answer: a JSON document that gives, for each attribute
//! asked for, a summary score.
//!
//! ```text
//! { "attributeScores": { "<TOKEN>": { "summaryScore": { "value": <number>, "type": "PROBABILITY" } } } }
//! ```

use vstd::prelude::*;
use crate::json::{document_of, lists, member, member_names, number_of, text_of, Json};
use crate::model::{
    lemma_index_round_trip, NumberType, Response, Score, Scores, ValueType, ATTRIBUTE_COUNT,
};

verus! {

/// What can be wrong with an answer that is JSON, from the outside in.
#[derive(Debug, Clone, Copy, PartialEq, Eq, Hash, Structural)]
pub enum Defect {
    /// The answer is not a JSON object.
    NotAnObject,
    /// The answer has no member `attributeScores`.
    MissingScores,
    /// `attributeScores` is not a JSON object.
    ScoresNotAnObject,
    /// A member of `attributeScores` has a name that is no attribute's token.
    UnknownAttribute,
    /// An attribute's entry has no member `summaryScore`.
    MissingSummary,
    /// A summary score has no member `value`.
    MissingValue,
    /// A summary score's `value` is not a number.
    ValueNotANumber,
    /// A summary score has no member `type`.
    MissingType,
    /// A summary score's `type` is not the token of a kind of number.
    UnknownNumberType,
}

impl Defect {
    /// The words that describe the defect.
    pub open spec fn message_view(self) -> Seq<char> {
        match self {
            Defect::NotAnObject => "invalid type: expected a JSON object"@,
            Defect::MissingScores => "missing field `attributeScores`"@,
            Defect::ScoresNotAnObject => "invalid type: `attributeScores` is not a JSON object"@,
            Defect::UnknownAttribute => "unknown attribute type in `attributeScores`"@,
            Defect::MissingSummary => "missing field `summaryScore`"@,
            Defect::MissingValue => "missing field `value`"@,
            Defect::ValueNotANumber => "invalid type: `value` is not a number"@,
            Defect::MissingType => "missing field `type`"@,
            Defect::UnknownNumberType => "unknown number type: expected `PROBABILITY`"@,
        }
    }

    /// The words that describe the defect.
    pub fn message(self) -> (s: &'static str)
        ensures
            s@ == self.message_view(),
    {
        match self {
            Defect::NotAnObject => "invalid type: expected a JSON object",
            Defect::MissingScores => "missing field `attributeScores`",
            Defect::ScoresNotAnObject => "invalid type: `attributeScores` is not a JSON object",
            Defect::UnknownAttribute => "unknown attribute type in `attributeScores`",
            Defect::MissingSummary => "missing field `summaryScore`",
            Defect::MissingValue => "missing field `value`",
            Defect::ValueNotANumber => "invalid type: `value` is not a number",
            Defect::MissingType => "missing field `type`",
            Defect::UnknownNumberType => "unknown number type: expected `PROBABILITY`",
        }
    }
}

/// Every defect has words that describe it.
pub proof fn lemma_message_not_empty(defect: Defect)
    ensures
        defect.message_view().len() > 0,
{
    reveal_strlit("invalid type: expected a JSON object");
    reveal_strlit("missing field `attributeScores`");
    reveal_strlit("invalid type: `attributeScores` is not a JSON object");
    reveal_strlit("unknown attribute type in `attributeScores`");
    reveal_strlit("missing field `summaryScore`");
    reveal_strlit("missing field `value`");
    reveal_strlit("invalid type: `value` is not a number");
    reveal_strlit("missing field `type`");
    reveal_strlit("unknown number type: expected `PROBABILITY`");
}

/// The kind of number that a summary score's `type` names.
pub open spec fn number_type_of(summary: Json) -> Result<NumberType, Defect> {
    match summary.member("type"@) {
        None => Err(Defect::MissingType),
        Some(Json::String(token)) => match NumberType::with_token(token) {
            Some(kind) => Ok(kind),
            None => Err(Defect::UnknownNumberType),
        },
        Some(_) => Err(Defect::UnknownNumberType),
    }
}

/// The scores that an attribute's entry gives: its `summaryScore` with a
/// number as `value` and a kind of number as `type`. Where several things are
/// wrong, the defect is that of `value` before that of `type`.
pub open spec fn scores_of(entry: Json) -> Result<Scores, Defect> {
    match entry.member("summaryScore"@) {
        None => Err(Defect::MissingSummary),
        Some(summary) => match summary.member("value"@) {
            None => Err(Defect::MissingValue),
            Some(Json::Number { bits, .. }) => match number_type_of(summary) {
                Ok(kind) => Ok(Scores { summary: Score { value_bits: bits, type_: kind } }),
                Err(defect) => Err(defect),
            },
            Some(_) => Err(Defect::ValueNotANumber),
        },
    }
}

/// The defect of the first attribute, from position `from` on in the order of
/// declaration, whose entry in `entries` gives no scores.
pub open spec fn first_defect(entries: Map<Seq<char>, Json>, from: int) -> Option<Defect>
    decreases ATTRIBUTE_COUNT - from,
{
    if from < 0 || from >= ATTRIBUTE_COUNT {
        None
    } else {
        let name = ValueType::at(from).token_view();
        if entries.contains_key(name) && scores_of(entries[name]) is Err {
            Some(scores_of(entries[name])->Err_0)
        } else {
            first_defect(entries, from + 1)
        }
    }
}

/// Whether every member of `entries` is named by an attribute's token.
pub open spec fn all_known(entries: Map<Seq<char>, Json>) -> bool {
    forall|name: Seq<char>| entries.contains_key(name) ==> ValueType::with_token(name) is Some
}

/// What an answer says: for each attribute that `attributeScores` has an
/// entry for, the scores of that entry; or what is wrong with the answer.
/// A defect further out comes before one further in, an unknown name before a
/// defect of an entry, and among the entries that of the attribute declared
/// first.
pub open spec fn decoded(answer: Json) -> Result<Map<ValueType, Scores>, Defect> {
    if !(answer is Object) {
        Err(Defect::NotAnObject)
    } else {
        match answer.member("attributeScores"@) {
            None => Err(Defect::MissingScores),
            Some(Json::Object(entries)) => if !all_known(entries) {
                Err(Defect::UnknownAttribute)
            } else if first_defect(entries, 0) is Some {
                Err(first_defect(entries, 0)->0)
            } else {
                Ok(
                    Map::new(
                        |attribute: ValueType| entries.contains_key(attribute.token_view()),
                        |attribute: ValueType| scores_of(entries[attribute.token_view()])->Ok_0,
                    ),
                )
            },
            Some(_) => Err(Defect::ScoresNotAnObject),
        }
    }
}

/// Reads the kind of number that a summary score's `type` names.
fn read_number_type(summary: &serde_json::Value) -> (r: Result<NumberType, Defect>)
    ensures
        r == number_type_of(document_of(*summary)),
{
    match member(summary, "type") {
        None => Err(Defect::MissingType),
        Some(kind) => match text_of(kind) {
            None => Err(Defect::UnknownNumberType),
            Some(token) => match NumberType::from_token(token) {
                Some(kind) => Ok(kind),
                None => Err(Defect::UnknownNumberType),
            },
        },
    }
}

/// Reads the scores that an attribute's entry gives.
pub fn read_scores(entry: &serde_json::Value) -> (r: Result<Scores, Defect>)
    ensures
        r == scores_of(document_of(*entry)),
{
    match member(entry, "summaryScore") {
        None => Err(Defect::MissingSummary),
        Some(summary) => match member(summary, "value") {
            None => Err(Defect::MissingValue),
            Some(value) => match number_of(value) {
                None => Err(Defect::ValueNotANumber),
                Some(bits) => match read_number_type(summary) {
                    Ok(kind) => Ok(Scores { summary: Score { value_bits: bits, type_: kind } }),
                    Err(defect) => Err(defect),
                },
            },
        },
    }
}

/// Reads an answer: the scores that it gives, or what is wrong with it.
pub fn decode(answer: &serde_json::Value) -> (r: Result<Response, Defect>)
    ensures
        match r {
            Ok(response) => decoded(document_of(*answer)) == Ok::<Map<ValueType, Scores>, Defect>(
                response@,
            ),
            Err(defect) => decoded(document_of(*answer)) == Err::<Map<ValueType, Scores>, Defect>(
                defect,
            ),
        },
{
    if member_names(answer).is_none() {
        return Err(Defect::NotAnObject);
    }
    let scores = match member(answer, "attributeScores") {
        None => { return Err(Defect::MissingScores); },
        Some(scores) => scores,
    };
    let names = match member_names(scores) {
        None => { return Err(Defect::ScoresNotAnObject); },
        Some(names) => names,
    };
    let ghost entries = document_of(*scores)->Object_0;

    let mut i: usize = 0;
    while i < names.len()
        invariant
            i <= names.len(),
            document_of(*answer) is Object,
            document_of(*answer).member("attributeScores"@) == Some(Json::Object(entries)),
            forall|j: int| 0 <= j < i ==> ValueType::with_token(names[j]@) is Some,
            forall|name: Seq<char>| entries.contains_key(name) <==> lists(names@, name),
        decreases names.len() - i,
    {
        if ValueType::from_token(names[i].as_str()).is_none() {
            proof {
                assert(lists(names@, names[i as int]@));
                assert(!all_known(entries));
            }
            return Err(Defect::UnknownAttribute);
        }
        i = i + 1;
    }
    assert(all_known(entries)) by {
        assert forall|name: Seq<char>| entries.contains_key(name) implies ValueType::with_token(
            name,
        ) is Some by {
            assert(lists(names@, name));
        }
    }

    let mut response = Response::new();
    let mut index: usize = 0;
    while index < ATTRIBUTE_COUNT
        invariant
            index <= ATTRIBUTE_COUNT,
            document_of(*answer) is Object,
            document_of(*answer).member("attributeScores"@) == Some(Json::Object(entries)),
            document_of(*scores) == Json::Object(entries),
            all_known(entries),
            first_defect(entries, 0) == first_defect(entries, index as int),
            response@ =~= Map::new(
                |attribute: ValueType|
                    attribute.index_view() < index && entries.contains_key(attribute.token_view()),
                |attribute: ValueType| scores_of(entries[attribute.token_view()])->Ok_0,
            ),
        decreases ATTRIBUTE_COUNT - index,
    {
        let ghost before = response@;
        match ValueType::from_index(index) {
            None => {},
            Some(attribute) => {
                match member(scores, attribute.token()) {
                    None => {},
                    Some(entry) => {
                        match read_scores(entry) {
                            Err(defect) => {
                                return Err(defect);
                            },
                            Ok(found) => {
                                response.insert(attribute, found);
                            },
                        }
                    },
                }
                proof {
                    assert forall|other: ValueType| other.index_view() == index implies other
                        == attribute by {
                        lemma_index_round_trip(other);
                    }
                }
            },
        }
        index = index + 1;
    }
    proof {
        assert forall|attribute: ValueType| attribute.index_view() < ATTRIBUTE_COUNT by {
            lemma_index_round_trip(attribute);
        }
        assert(first_defect(entries, ATTRIBUTE_COUNT as int) is None);
        assert(response@ =~= Map::new(
            |attribute: ValueType| entries.contains_key(attribute.token_view()),
            |attribute: ValueType| scores_of(entries[attribute.token_view()])->Ok_0,
        ));
    }
    Ok(response)
}

} // verus!
