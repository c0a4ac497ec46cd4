use perspective::model::{NumberType, Response, Score, Scores, ValueType, ATTRIBUTE_COUNT};

fn all_attributes() -> Vec<(ValueType, &'static str)> {
    vec![
        (ValueType::AttackOnAuthor, "ATTACK_ON_AUTHOR"),
        (ValueType::AttackOnCommenter, "ATTACK_ON_COMMENTER"),
        (ValueType::Incoherent, "INCOHERENT"),
        (ValueType::Inflammatory, "INFLAMMATORY"),
        (ValueType::LikelyToReject, "LIKELY_TO_REJECT"),
        (ValueType::Obscene, "OBSCENE"),
        (ValueType::SevereToxicity, "SEVERE_TOXICITY"),
        (ValueType::Spam, "SPAM"),
        (ValueType::Toxicity, "TOXICITY"),
        (ValueType::Unsubstantial, "UNSUBSTANTIAL"),
    ]
}

fn scores(value: f64) -> Scores {
    Scores { summary: Score { value_bits: value.to_bits(), type_: NumberType::Probability } }
}

#[test]
fn every_attribute_has_its_token() {
    for (attribute, token) in all_attributes() {
        assert_eq!(attribute.token(), token);
        assert_eq!(String::from(attribute), token.to_string());
    }
}

#[test]
fn tokens_round_trip_through_every_attribute() {
    let all = all_attributes();
    assert_eq!(all.len(), ATTRIBUTE_COUNT);
    for (attribute, token) in all {
        assert_eq!(ValueType::from_token(token), Some(attribute));
        assert_eq!(ValueType::from_token(attribute.token()), Some(attribute));
        assert_eq!(ValueType::from_token(&String::from(attribute)), Some(attribute));
    }
}

#[test]
fn tokens_are_pairwise_different() {
    let all = all_attributes();
    for (i, (_, a)) in all.iter().enumerate() {
        for (j, (_, b)) in all.iter().enumerate() {
            assert_eq!(a == b, i == j);
        }
    }
}

#[test]
fn only_the_ten_tokens_name_an_attribute() {
    assert_eq!(ValueType::from_token(""), None);
    assert_eq!(ValueType::from_token("toxicity"), None);
    assert_eq!(ValueType::from_token("Toxicity"), None);
    assert_eq!(ValueType::from_token("TOXICITY "), None);
    assert_eq!(ValueType::from_token(" TOXICITY"), None);
    assert_eq!(ValueType::from_token("TOXIC"), None);
    assert_eq!(ValueType::from_token("SEVERE TOXICITY"), None);
    assert_eq!(ValueType::from_token("PROBABILITY"), None);
    assert_eq!(ValueType::from_token("FLIRTATION"), None);
}

#[test]
fn positions_follow_the_declaration() {
    for (position, (attribute, _)) in all_attributes().into_iter().enumerate() {
        assert_eq!(attribute.index(), position);
        assert_eq!(ValueType::from_index(position), Some(attribute));
    }
    assert_eq!(ValueType::from_index(ATTRIBUTE_COUNT), None);
    assert_eq!(ValueType::from_index(usize::MAX), None);
}

#[test]
fn probability_is_the_one_number_type() {
    assert_eq!(NumberType::Probability.token(), "PROBABILITY");
    assert_eq!(NumberType::from_token("PROBABILITY"), Some(NumberType::Probability));
    assert_eq!(NumberType::from_token("probability"), None);
    assert_eq!(NumberType::from_token(""), None);
    assert_eq!(NumberType::from_token("TOXICITY"), None);
}

#[test]
fn a_new_response_has_no_scores() {
    let response = Response::new();
    assert_eq!(response.attributes(), Vec::<ValueType>::new());
    for (attribute, _) in all_attributes() {
        assert_eq!(response.get(attribute), None);
    }
}

#[test]
fn a_response_keeps_what_was_inserted() {
    let mut response = Response::new();
    response.insert(ValueType::Toxicity, scores(0.25));
    response.insert(ValueType::AttackOnAuthor, scores(0.5));
    assert_eq!(response.get(ValueType::Toxicity), Some(scores(0.25)));
    assert_eq!(response.get(ValueType::AttackOnAuthor), Some(scores(0.5)));
    assert_eq!(response.get(ValueType::Spam), None);
    assert_eq!(response.attributes(), vec![ValueType::AttackOnAuthor, ValueType::Toxicity]);
}

#[test]
fn a_later_insert_replaces_an_earlier_one() {
    let mut response = Response::new();
    response.insert(ValueType::Spam, scores(0.125));
    response.insert(ValueType::Spam, scores(0.75));
    assert_eq!(response.get(ValueType::Spam), Some(scores(0.75)));
    assert_eq!(response.attributes(), vec![ValueType::Spam]);
}

#[test]
fn a_full_response_lists_every_attribute_in_order() {
    let mut response = Response::new();
    for (attribute, _) in all_attributes().into_iter().rev() {
        response.insert(attribute, scores(attribute.index() as f64 / 10.0));
    }
    let expected: Vec<ValueType> = all_attributes().into_iter().map(|(a, _)| a).collect();
    assert_eq!(response.attributes(), expected);
    assert_eq!(response.get(ValueType::Obscene), Some(scores(0.5)));
}
