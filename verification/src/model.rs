//! The data exchanged with the comment-analysis service.

use vstd::prelude::*;
use vstd::std_specs::convert::FromSpecImpl;

verus! {

/// Why an analysis did not produce scores.
#[derive(Debug, PartialEq, Eq, Hash)]
pub enum PerspectiveError {
    /// The comment text was empty.
    EmptyInput,
    /// No attribute was asked for.
    EmptyTypes,
    /// The request never got an answer.
    RequestFailed,
    /// The answer was not of the expected shape; the text says what was wrong.
    ParsingFailed(String),
}

/// A `PerspectiveError` as a mathematical value: the diagnostic is the
/// sequence of its characters.
pub enum Failure {
    EmptyInput,
    EmptyTypes,
    RequestFailed,
    ParsingFailed(Seq<char>),
}

impl View for PerspectiveError {
    type V = Failure;

    open spec fn view(&self) -> Failure {
        match self {
            PerspectiveError::EmptyInput => Failure::EmptyInput,
            PerspectiveError::EmptyTypes => Failure::EmptyTypes,
            PerspectiveError::RequestFailed => Failure::RequestFailed,
            PerspectiveError::ParsingFailed(diagnostic) => Failure::ParsingFailed(diagnostic@),
        }
    }
}

/// An attribute of a comment that the service can score.
#[derive(Debug, Clone, Copy, PartialEq, Eq, Hash, Structural)]
pub enum ValueType {
    AttackOnAuthor,
    AttackOnCommenter,
    Incoherent,
    Inflammatory,
    LikelyToReject,
    Obscene,
    SevereToxicity,
    Spam,
    Toxicity,
    Unsubstantial,
}

/// How many attributes there are.
pub const ATTRIBUTE_COUNT: usize = 10;

impl ValueType {
    /// The name under which the service knows this attribute.
    pub open spec fn token_view(self) -> Seq<char> {
        match self {
            ValueType::AttackOnAuthor => "ATTACK_ON_AUTHOR"@,
            ValueType::AttackOnCommenter => "ATTACK_ON_COMMENTER"@,
            ValueType::Incoherent => "INCOHERENT"@,
            ValueType::Inflammatory => "INFLAMMATORY"@,
            ValueType::LikelyToReject => "LIKELY_TO_REJECT"@,
            ValueType::Obscene => "OBSCENE"@,
            ValueType::SevereToxicity => "SEVERE_TOXICITY"@,
            ValueType::Spam => "SPAM"@,
            ValueType::Toxicity => "TOXICITY"@,
            ValueType::Unsubstantial => "UNSUBSTANTIAL"@,
        }
    }

    /// The attribute's position in the declaration order.
    pub open spec fn index_view(self) -> int {
        match self {
            ValueType::AttackOnAuthor => 0,
            ValueType::AttackOnCommenter => 1,
            ValueType::Incoherent => 2,
            ValueType::Inflammatory => 3,
            ValueType::LikelyToReject => 4,
            ValueType::Obscene => 5,
            ValueType::SevereToxicity => 6,
            ValueType::Spam => 7,
            ValueType::Toxicity => 8,
            ValueType::Unsubstantial => 9,
        }
    }

    /// The attribute at a position of the declaration order; past the last
    /// position, the last attribute.
    pub open spec fn at(index: int) -> ValueType {
        if index == 0 {
            ValueType::AttackOnAuthor
        } else if index == 1 {
            ValueType::AttackOnCommenter
        } else if index == 2 {
            ValueType::Incoherent
        } else if index == 3 {
            ValueType::Inflammatory
        } else if index == 4 {
            ValueType::LikelyToReject
        } else if index == 5 {
            ValueType::Obscene
        } else if index == 6 {
            ValueType::SevereToxicity
        } else if index == 7 {
            ValueType::Spam
        } else if index == 8 {
            ValueType::Toxicity
        } else {
            ValueType::Unsubstantial
        }
    }

    /// The name under which the service knows this attribute.
    pub fn token(self) -> (s: &'static str)
        ensures
            s@ == self.token_view(),
    {
        match self {
            ValueType::AttackOnAuthor => "ATTACK_ON_AUTHOR",
            ValueType::AttackOnCommenter => "ATTACK_ON_COMMENTER",
            ValueType::Incoherent => "INCOHERENT",
            ValueType::Inflammatory => "INFLAMMATORY",
            ValueType::LikelyToReject => "LIKELY_TO_REJECT",
            ValueType::Obscene => "OBSCENE",
            ValueType::SevereToxicity => "SEVERE_TOXICITY",
            ValueType::Spam => "SPAM",
            ValueType::Toxicity => "TOXICITY",
            ValueType::Unsubstantial => "UNSUBSTANTIAL",
        }
    }

    /// The attribute's position in the declaration order.
    pub fn index(self) -> (i: usize)
        ensures
            i == self.index_view(),
            i < ATTRIBUTE_COUNT,
    {
        match self {
            ValueType::AttackOnAuthor => 0,
            ValueType::AttackOnCommenter => 1,
            ValueType::Incoherent => 2,
            ValueType::Inflammatory => 3,
            ValueType::LikelyToReject => 4,
            ValueType::Obscene => 5,
            ValueType::SevereToxicity => 6,
            ValueType::Spam => 7,
            ValueType::Toxicity => 8,
            ValueType::Unsubstantial => 9,
        }
    }

    /// The attribute at a position of the declaration order, if the position
    /// is one.
    pub fn from_index(index: usize) -> (r: Option<ValueType>)
        ensures
            r == (if index < ATTRIBUTE_COUNT {
                Some(ValueType::at(index as int))
            } else {
                None
            }),
            r is Some ==> r->0.index_view() == index,
    {
        if index == 0 {
            Some(ValueType::AttackOnAuthor)
        } else if index == 1 {
            Some(ValueType::AttackOnCommenter)
        } else if index == 2 {
            Some(ValueType::Incoherent)
        } else if index == 3 {
            Some(ValueType::Inflammatory)
        } else if index == 4 {
            Some(ValueType::LikelyToReject)
        } else if index == 5 {
            Some(ValueType::Obscene)
        } else if index == 6 {
            Some(ValueType::SevereToxicity)
        } else if index == 7 {
            Some(ValueType::Spam)
        } else if index == 8 {
            Some(ValueType::Toxicity)
        } else if index == 9 {
            Some(ValueType::Unsubstantial)
        } else {
            None
        }
    }

    /// The attribute that the service knows under `token`, if there is one.
    pub open spec fn with_token(token: Seq<char>) -> Option<ValueType> {
        if exists|v: ValueType| v.token_view() == token {
            Some(choose|v: ValueType| v.token_view() == token)
        } else {
            None
        }
    }

    /// The attribute that the service knows under `token`, if there is one.
    pub fn from_token(token: &str) -> (r: Option<ValueType>)
        ensures
            r == ValueType::with_token(token@),
    {
        let mut index: usize = 0;
        while index < ATTRIBUTE_COUNT
            invariant
                index <= ATTRIBUTE_COUNT,
                forall|v: ValueType| v.index_view() < index ==> v.token_view() != token@,
            decreases ATTRIBUTE_COUNT - index,
        {
            match ValueType::from_index(index) {
                Some(candidate) => {
                    if same_text(candidate.token(), token) {
                        proof {
                            lemma_token_round_trip(candidate);
                        }
                        return Some(candidate);
                    }
                    assert forall|v: ValueType| v.index_view() < index + 1 implies v.token_view()
                        != token@ by {
                        if v.index_view() == index {
                            assert(v == candidate);
                        }
                    }
                },
                None => {},
            }
            index = index + 1;
        }
        None
    }
}

/// No two attributes share a token.
pub proof fn lemma_token_injective(a: ValueType, b: ValueType)
    requires
        a.token_view() == b.token_view(),
    ensures
        a == b,
{
    reveal_strlit("ATTACK_ON_AUTHOR");
    reveal_strlit("ATTACK_ON_COMMENTER");
    reveal_strlit("INCOHERENT");
    reveal_strlit("INFLAMMATORY");
    reveal_strlit("LIKELY_TO_REJECT");
    reveal_strlit("OBSCENE");
    reveal_strlit("SEVERE_TOXICITY");
    reveal_strlit("SPAM");
    reveal_strlit("TOXICITY");
    reveal_strlit("UNSUBSTANTIAL");
    assert("ATTACK_ON_AUTHOR"@.len() == 16 && "ATTACK_ON_AUTHOR"@[0] == 'A');
    assert("ATTACK_ON_COMMENTER"@.len() == 19);
    assert("INCOHERENT"@.len() == 10);
    assert("INFLAMMATORY"@.len() == 12);
    assert("LIKELY_TO_REJECT"@.len() == 16 && "LIKELY_TO_REJECT"@[0] == 'L');
    assert("OBSCENE"@.len() == 7);
    assert("SEVERE_TOXICITY"@.len() == 15);
    assert("SPAM"@.len() == 4);
    assert("TOXICITY"@.len() == 8);
    assert("UNSUBSTANTIAL"@.len() == 13);
}

/// Turning an attribute into its token and the token back into an attribute
/// gives the attribute that one started with.
pub proof fn lemma_token_round_trip(v: ValueType)
    ensures
        ValueType::with_token(v.token_view()) == Some(v),
{
    let found = choose|w: ValueType| w.token_view() == v.token_view();
    lemma_token_injective(found, v);
}

/// A text that names an attribute is that attribute's token: nothing but the
/// ten tokens is understood, and each is understood as itself.
pub proof fn lemma_token_of_parsed(token: Seq<char>, v: ValueType)
    requires
        ValueType::with_token(token) == Some(v),
    ensures
        v.token_view() == token,
{
}

/// Every attribute has its own position below `ATTRIBUTE_COUNT`, and the
/// position leads back to the attribute.
pub proof fn lemma_index_round_trip(v: ValueType)
    ensures
        0 <= v.index_view() < ATTRIBUTE_COUNT,
        ValueType::at(v.index_view()) == v,
{
}

/// What kind of number a score is.
#[derive(Debug, Clone, Copy, PartialEq, Eq, Hash, Structural)]
pub enum NumberType {
    /// A probability between 0 and 1.
    Probability,
}

impl NumberType {
    /// The name under which the service knows this kind of number.
    pub open spec fn token_view(self) -> Seq<char> {
        match self {
            NumberType::Probability => "PROBABILITY"@,
        }
    }

    /// The name under which the service knows this kind of number.
    pub fn token(self) -> (s: &'static str)
        ensures
            s@ == self.token_view(),
    {
        match self {
            NumberType::Probability => "PROBABILITY",
        }
    }

    /// The kind of number that the service knows under `token`, if there is
    /// one.
    pub open spec fn with_token(token: Seq<char>) -> Option<NumberType> {
        if token == NumberType::Probability.token_view() {
            Some(NumberType::Probability)
        } else {
            None
        }
    }

    /// The kind of number that the service knows under `token`, if there is
    /// one.
    pub fn from_token(token: &str) -> (r: Option<NumberType>)
        ensures
            r == NumberType::with_token(token@),
    {
        if same_text(NumberType::Probability.token(), token) {
            Some(NumberType::Probability)
        } else {
            None
        }
    }
}

/// One number that the service computed.
#[derive(Debug, Clone, Copy, PartialEq, Eq, Hash, Structural)]
pub struct Score {
    /// The number, a double-precision value, as its bit pattern.
    pub value_bits: u64,
    pub type_: NumberType,
}

/// What the service says of one attribute of a comment.
#[derive(Debug, Clone, Copy, PartialEq, Eq, Hash, Structural)]
pub struct Scores {
    /// The score of the comment as a whole.
    pub summary: Score,
}

/// The scores of a comment: for each attribute at most one entry.
#[derive(Debug, Clone, Copy, PartialEq, Eq)]
pub struct Response {
    slots: [Option<Scores>; ATTRIBUTE_COUNT],
}

impl View for Response {
    type V = Map<ValueType, Scores>;

    closed spec fn view(&self) -> Map<ValueType, Scores> {
        Map::new(
            |attribute: ValueType| self.slots[attribute.index_view()] is Some,
            |attribute: ValueType| self.slots[attribute.index_view()]->0,
        )
    }
}

impl Response {
    /// The response without scores.
    pub fn new() -> (response: Response)
        ensures
            response@ == Map::<ValueType, Scores>::empty(),
    {
        let response = Response { slots: [None; ATTRIBUTE_COUNT] };
        assert(response@ =~= Map::<ValueType, Scores>::empty());
        response
    }

    /// Sets the scores of `attribute`, in place of earlier ones.
    pub fn insert(&mut self, attribute: ValueType, scores: Scores)
        ensures
            final(self)@ == old(self)@.insert(attribute, scores),
    {
        self.slots[attribute.index()] = Some(scores);
        assert(self@ =~= old(self)@.insert(attribute, scores));
    }

    /// The scores of `attribute`, if the response has them.
    pub fn get(&self, attribute: ValueType) -> (scores: Option<Scores>)
        ensures
            scores == (if self@.contains_key(attribute) {
                Some(self@[attribute])
            } else {
                None
            }),
    {
        self.slots[attribute.index()]
    }

    /// The attributes that the response has scores for, each once, in the
    /// order of their declaration.
    pub fn attributes(&self) -> (attributes: Vec<ValueType>)
        ensures
            forall|attribute: ValueType|
                self@.contains_key(attribute) <==> attributes@.contains(attribute),
            forall|i: int, j: int|
                0 <= i < j < attributes.len() ==> attributes[i].index_view()
                    < attributes[j].index_view(),
    {
        let mut attributes: Vec<ValueType> = Vec::new();
        let mut index: usize = 0;
        while index < ATTRIBUTE_COUNT
            invariant
                index <= ATTRIBUTE_COUNT,
                forall|attribute: ValueType|
                    (self@.contains_key(attribute) && attribute.index_view() < index)
                        <==> attributes@.contains(attribute),
                forall|i: int, j: int|
                    0 <= i < j < attributes.len() ==> attributes[i].index_view()
                        < attributes[j].index_view(),
            decreases ATTRIBUTE_COUNT - index,
        {
            let ghost before = attributes@;
            match ValueType::from_index(index) {
                Some(attribute) => {
                    if self.slots[index].is_some() {
                        attributes.push(attribute);
                    }
                },
                None => {},
            }
            proof {
                let here = ValueType::at(index as int);
                assert forall|i: int, j: int| 0 <= i < j < attributes.len() implies attributes[i].index_view()
                    < attributes[j].index_view() by {
                    if j == before.len() {
                        assert(before.contains(before[i]));
                    }
                }
                assert forall|attribute: ValueType|
                    (self@.contains_key(attribute) && attribute.index_view() < index + 1)
                        <==> attributes@.contains(attribute) by {
                    if attribute.index_view() == index {
                        assert(attribute == here);
                    }
                    if self@.contains_key(here) {
                        assert(attributes@ == before.push(here));
                        assert(attributes@[before.len() as int] == here);
                        if before.contains(attribute) {
                            let k = choose|k: int| 0 <= k < before.len() && before[k] == attribute;
                            assert(attributes@[k] == attribute);
                        }
                    }
                }
            }
            index = index + 1;
        }
        attributes
    }
}

/// Whether two strings hold the same characters.
fn same_text(a: &str, b: &str) -> (r: bool)
    ensures
        r == (a@ == b@),
{
    a.to_owned() == b.to_owned()
}

impl From<ValueType> for String {
    /// The attribute's token, as an owned string.
    fn from(v: ValueType) -> (s: String)
        ensures
            s@ == v.token_view(),
    {
        v.token().to_owned()
    }
}

/// `from` itself says which characters the `String` has, and a `String` is
/// known by nothing else, so `from_spec` names none.
impl FromSpecImpl<ValueType> for String {
    open spec fn obeys_from_spec() -> bool {
        false
    }

    open spec fn from_spec(v: ValueType) -> String {
        arbitrary()
    }
}

} // verus!
