//! Taking the members out of a record that is known to have its shape.

use vstd::prelude::*;
use vstd::pervasive::unreached;
use crate::address::parsed_url;
use crate::date::date_in;
use crate::document::{count_in, json_node, pairs_of, read_count, read_node, texts_of, Member, Node, NodeModel};
use crate::shape::{
    fault_in, fields_fault, find_member, items_fault, lemma_listed, member_from, ShapeModel,
};

verus! {

/// The members of the object that a JSON text writes.
pub open spec fn members_in(body: Seq<char>) -> Option<Seq<(Seq<char>, Seq<char>)>> {
    match json_node(body) {
        Ok(NodeModel::Object(members)) => Some(members),
        _ => None,
    }
}

/// The items of the array that a JSON text writes.
pub open spec fn items_in(text: Seq<char>) -> Option<Seq<Seq<char>>> {
    match json_node(text) {
        Ok(NodeModel::Array(items)) => Some(items),
        _ => None,
    }
}

/// The text that a JSON text writes as a string.
pub open spec fn text_in(text: Seq<char>) -> Option<Seq<char>> {
    match json_node(text) {
        Ok(NodeModel::Text(s)) => Some(s),
        _ => None,
    }
}

/// The count that a JSON text writes as a number.
pub open spec fn count_of(text: Seq<char>) -> Option<u64> {
    match json_node(text) {
        Ok(NodeModel::Number(digits)) => count_in(digits),
        _ => None,
    }
}

/// The number that a JSON text writes, in the digits in which JSON writes
/// it again.
pub open spec fn number_in(text: Seq<char>) -> Option<Seq<char>> {
    match json_node(text) {
        Ok(NodeModel::Number(digits)) => Some(digits),
        _ => None,
    }
}

/// The flag that a JSON text writes.
pub open spec fn flag_in(text: Seq<char>) -> Option<bool> {
    match json_node(text) {
        Ok(NodeModel::Flag(flag)) => Some(flag),
        _ => None,
    }
}

/// Whether a JSON text writes `null`.
pub open spec fn is_null(text: Seq<char>) -> bool {
    json_node(text) == Ok::<NodeModel, Seq<char>>(NodeModel::Null)
}

/// The JSON text of the member of this name in the object that a body
/// writes.
pub open spec fn member_in(body: Seq<char>, name: Seq<char>) -> Option<Seq<char>> {
    match members_in(body) {
        Some(members) => member_from(members, name, 0),
        None => None,
    }
}

/// The text of the member of this name, where it is a string.
pub open spec fn text_member(body: Seq<char>, name: Seq<char>) -> Option<Seq<char>> {
    match member_in(body, name) {
        Some(text) => text_in(text),
        None => None,
    }
}

/// The count of the member of this name, where it is one.
pub open spec fn count_member(body: Seq<char>, name: Seq<char>) -> Option<u64> {
    match member_in(body, name) {
        Some(text) => count_of(text),
        None => None,
    }
}

/// The number of the member of this name, where it is one.
pub open spec fn number_member(body: Seq<char>, name: Seq<char>) -> Option<Seq<char>> {
    match member_in(body, name) {
        Some(text) => number_in(text),
        None => None,
    }
}

/// The flag of the member of this name, where it is one.
pub open spec fn flag_member(body: Seq<char>, name: Seq<char>) -> Option<bool> {
    match member_in(body, name) {
        Some(text) => flag_in(text),
        None => None,
    }
}

/// The items of the member of this name, where it is an array.
pub open spec fn items_member(body: Seq<char>, name: Seq<char>) -> Option<Seq<Seq<char>>> {
    match member_in(body, name) {
        Some(text) => items_in(text),
        None => None,
    }
}

/// In a record without a fault every member that the shape names is without
/// a fault: it is there, unless it may be left out, and has its shape.
pub proof fn lemma_fields_sound(
    members: Seq<(Seq<char>, Seq<char>)>,
    fields: Seq<(Seq<char>, ShapeModel)>,
    from: int,
    i: int,
)
    requires
        0 <= from <= i < fields.len(),
        fields_fault(members, fields, from) is None,
    ensures
        match member_from(members, fields[i].0, 0) {
            Some(text) => fault_in(text, fields[i].1) is None,
            None => fields[i].1 is Maybe,
        },
    decreases i - from,
{
    if from < i {
        lemma_fields_sound(members, fields, from + 1, i);
    }
}

/// In an array without a fault every item has the shape.
pub proof fn lemma_items_sound(items: Seq<Seq<char>>, inner: ShapeModel, from: int, i: int)
    requires
        0 <= from <= i < items.len(),
        items_fault(items, inner, from) is None,
    ensures
        fault_in(items[i], inner) is None,
    decreases i - from,
{
    if from < i {
        lemma_items_sound(items, inner, from + 1, i);
    }
}

/// A body that has the shape of a record is an object, and each member that
/// the record must have is there with its shape.
pub proof fn lemma_record_sound(body: Seq<char>, fields: Seq<(Seq<char>, ShapeModel)>, i: int)
    requires
        fault_in(body, ShapeModel::Record(fields)) is None,
        0 <= i < fields.len(),
        !(fields[i].1 is Maybe),
    ensures
        member_in(body, fields[i].0) is Some,
        fault_in(member_in(body, fields[i].0).unwrap(), fields[i].1) is None,
{
    lemma_fields_sound(members_in(body).unwrap(), fields, 0, i);
}

/// A member that must be a string is one, in a body that has the shape.
pub proof fn lemma_text_member(body: Seq<char>, fields: Seq<(Seq<char>, ShapeModel)>, i: int)
    requires
        fault_in(body, ShapeModel::Record(fields)) is None,
        0 <= i < fields.len(),
        fields[i].1 == ShapeModel::Text || fields[i].1 == ShapeModel::Day || fields[i].1
            == ShapeModel::Link,
    ensures
        members_in(body) is Some,
        member_in(body, fields[i].0) is Some,
        text_member(body, fields[i].0) is Some,
        fields[i].1 == ShapeModel::Day ==> date_in(text_member(body, fields[i].0).unwrap()) is Some,
        fields[i].1 == ShapeModel::Link ==> parsed_url(text_member(body, fields[i].0).unwrap())
            is Ok,
{
    lemma_record_sound(body, fields, i);
}

/// A member that must be a count is one, in a body that has the shape.
pub proof fn lemma_count_member(body: Seq<char>, fields: Seq<(Seq<char>, ShapeModel)>, i: int)
    requires
        fault_in(body, ShapeModel::Record(fields)) is None,
        0 <= i < fields.len(),
        fields[i].1 == ShapeModel::Count,
    ensures
        members_in(body) is Some,
        member_in(body, fields[i].0) is Some,
        count_member(body, fields[i].0) is Some,
{
    lemma_record_sound(body, fields, i);
}

/// A member that must be a number or a flag is one, in a body that has the
/// shape.
pub proof fn lemma_plain_member(body: Seq<char>, fields: Seq<(Seq<char>, ShapeModel)>, i: int)
    requires
        fault_in(body, ShapeModel::Record(fields)) is None,
        0 <= i < fields.len(),
        fields[i].1 == ShapeModel::Number || fields[i].1 == ShapeModel::Flag,
    ensures
        members_in(body) is Some,
        member_in(body, fields[i].0) is Some,
        fields[i].1 == ShapeModel::Number ==> number_member(body, fields[i].0) is Some,
        fields[i].1 == ShapeModel::Flag ==> flag_member(body, fields[i].0) is Some,
{
    lemma_record_sound(body, fields, i);
}

/// A member that must be one of some words is one of them, in a body that
/// has the shape.
pub proof fn lemma_word_member(
    body: Seq<char>,
    fields: Seq<(Seq<char>, ShapeModel)>,
    i: int,
    words: Seq<Seq<char>>,
)
    requires
        fault_in(body, ShapeModel::Record(fields)) is None,
        0 <= i < fields.len(),
        fields[i].1 == ShapeModel::OneOf(words),
    ensures
        members_in(body) is Some,
        member_in(body, fields[i].0) is Some,
        text_member(body, fields[i].0) is Some,
        words.contains(text_member(body, fields[i].0).unwrap()),
{
    lemma_record_sound(body, fields, i);
    let word = text_member(body, fields[i].0).unwrap();
    lemma_listed(words, word, 0);
    let k = choose|k: int| 0 <= k < words.len() && #[trigger] words[k] == word;
    assert(words[k] == word);
}

/// A member that may be left out is not there, or is `null`, or has its
/// shape, in a body that has the shape.
pub proof fn lemma_optional_member(
    body: Seq<char>,
    fields: Seq<(Seq<char>, ShapeModel)>,
    i: int,
    inner: ShapeModel,
)
    requires
        fault_in(body, ShapeModel::Record(fields)) is None,
        0 <= i < fields.len(),
        fields[i].1 == ShapeModel::Maybe(Box::new(inner)),
    ensures
        members_in(body) is Some,
        member_in(body, fields[i].0) is Some ==> is_null(member_in(body, fields[i].0).unwrap())
            || fault_in(member_in(body, fields[i].0).unwrap(), inner) is None,
        member_in(body, fields[i].0) is Some ==> json_node(member_in(body, fields[i].0).unwrap())
            is Ok,
{
    lemma_fields_sound(members_in(body).unwrap(), fields, 0, i);
}

/// A member that must be a list is one, in a body that has the shape, and
/// each of its items has the shape of the items.
pub proof fn lemma_list_member(
    body: Seq<char>,
    fields: Seq<(Seq<char>, ShapeModel)>,
    i: int,
    inner: ShapeModel,
)
    requires
        fault_in(body, ShapeModel::Record(fields)) is None,
        0 <= i < fields.len(),
        fields[i].1 == ShapeModel::List(Box::new(inner)),
    ensures
        members_in(body) is Some,
        member_in(body, fields[i].0) is Some,
        items_member(body, fields[i].0) is Some,
        forall|j: int|
            0 <= j < items_member(body, fields[i].0).unwrap().len() ==> fault_in(
                #[trigger] items_member(body, fields[i].0).unwrap()[j],
                inner,
            ) is None,
{
    lemma_record_sound(body, fields, i);
    let items = items_member(body, fields[i].0).unwrap();
    assert forall|j: int| 0 <= j < items.len() implies fault_in(#[trigger] items[j], inner)
        is None by {
        lemma_items_sound(items, inner, 0, j);
    }
}

/// The members of the object that a body writes.
pub(crate) fn take_members(body: &str) -> (members: Vec<Member>)
    requires
        members_in(body@) is Some,
    ensures
        members_in(body@) == Some(pairs_of(members@)),
{
    match read_node(body) {
        Ok(Node::Object(members)) => members,
        _ => unreached(),
    }
}

/// The text of a member that is known to be a string.
pub(crate) fn take_text(members: &Vec<Member>, name: &str) -> (text: String)
    requires
        member_from(pairs_of(members@), name@, 0) is Some,
        text_in(member_from(pairs_of(members@), name@, 0).unwrap()) is Some,
    ensures
        text_in(member_from(pairs_of(members@), name@, 0).unwrap()) == Some(text@),
{
    let wanted: String = name.to_owned();
    match find_member(members, &wanted) {
        Some(text) => match read_node(text.as_str()) {
            Ok(Node::Text(s)) => s,
            _ => unreached(),
        },
        None => unreached(),
    }
}

/// The count of a member that is known to be one.
pub(crate) fn take_count(members: &Vec<Member>, name: &str) -> (count: u64)
    requires
        member_from(pairs_of(members@), name@, 0) is Some,
        count_of(member_from(pairs_of(members@), name@, 0).unwrap()) is Some,
    ensures
        count_of(member_from(pairs_of(members@), name@, 0).unwrap()) == Some(count),
{
    let wanted: String = name.to_owned();
    match find_member(members, &wanted) {
        Some(text) => match read_node(text.as_str()) {
            Ok(Node::Number(digits)) => match read_count(digits.as_str()) {
                Some(count) => count,
                None => unreached(),
            },
            _ => unreached(),
        },
        None => unreached(),
    }
}

/// The items of a member that is known to be an array.
pub(crate) fn take_items(members: &Vec<Member>, name: &str) -> (items: Vec<String>)
    requires
        member_from(pairs_of(members@), name@, 0) is Some,
        items_in(member_from(pairs_of(members@), name@, 0).unwrap()) is Some,
    ensures
        items_in(member_from(pairs_of(members@), name@, 0).unwrap()) == Some(texts_of(items@)),
{
    let wanted: String = name.to_owned();
    match find_member(members, &wanted) {
        Some(text) => match read_node(text.as_str()) {
            Ok(Node::Array(items)) => items,
            _ => unreached(),
        },
        None => unreached(),
    }
}

/// The text of a member that may be left out: none where the member is
/// not there or is no string.
pub(crate) fn take_optional_text(members: &Vec<Member>, name: &str) -> (text: Option<String>)
    ensures
        match text {
            Some(s) => member_from(pairs_of(members@), name@, 0) is Some && text_in(
                member_from(pairs_of(members@), name@, 0).unwrap(),
            ) == Some(s@),
            None => member_from(pairs_of(members@), name@, 0) is None || text_in(
                member_from(pairs_of(members@), name@, 0).unwrap(),
            ) is None,
        },
{
    let wanted: String = name.to_owned();
    match find_member(members, &wanted) {
        Some(text) => match read_node(text.as_str()) {
            Ok(Node::Text(s)) => Some(s),
            _ => None,
        },
        None => None,
    }
}

/// The number of a member that is known to be one, in JSON's digits.
pub(crate) fn take_number(members: &Vec<Member>, name: &str) -> (digits: String)
    requires
        member_from(pairs_of(members@), name@, 0) is Some,
        number_in(member_from(pairs_of(members@), name@, 0).unwrap()) is Some,
    ensures
        number_in(member_from(pairs_of(members@), name@, 0).unwrap()) == Some(digits@),
{
    let wanted: String = name.to_owned();
    match find_member(members, &wanted) {
        Some(text) => match read_node(text.as_str()) {
            Ok(Node::Number(digits)) => digits,
            _ => unreached(),
        },
        None => unreached(),
    }
}

/// The flag of a member that is known to be one.
pub(crate) fn take_flag(members: &Vec<Member>, name: &str) -> (flag: bool)
    requires
        member_from(pairs_of(members@), name@, 0) is Some,
        flag_in(member_from(pairs_of(members@), name@, 0).unwrap()) is Some,
    ensures
        flag_in(member_from(pairs_of(members@), name@, 0).unwrap()) == Some(flag),
{
    let wanted: String = name.to_owned();
    match find_member(members, &wanted) {
        Some(text) => match read_node(text.as_str()) {
            Ok(Node::Flag(flag)) => flag,
            _ => unreached(),
        },
        None => unreached(),
    }
}

/// The JSON text of a member, where it is there and not `null`.
pub(crate) fn take_present(members: &Vec<Member>, name: &str) -> (text: Option<String>)
    requires
        member_from(pairs_of(members@), name@, 0) is Some ==> json_node(
            member_from(pairs_of(members@), name@, 0).unwrap(),
        ) is Ok,
    ensures
        match text {
            Some(t) => member_from(pairs_of(members@), name@, 0) == Some(t@) && !is_null(t@),
            None => member_from(pairs_of(members@), name@, 0) is None || is_null(
                member_from(pairs_of(members@), name@, 0).unwrap(),
            ),
        },
{
    let wanted: String = name.to_owned();
    match find_member(members, &wanted) {
        Some(text) => match read_node(text.as_str()) {
            Ok(Node::Null) => None,
            Ok(_) => Some(text.clone()),
            Err(_) => unreached(),
        },
        None => None,
    }
}

/// The JSON text of a member that is known to be there.
pub(crate) fn take_member(members: &Vec<Member>, name: &str) -> (text: String)
    requires
        member_from(pairs_of(members@), name@, 0) is Some,
    ensures
        member_from(pairs_of(members@), name@, 0) == Some(text@),
{
    let wanted: String = name.to_owned();
    match find_member(members, &wanted) {
        Some(text) => text.clone(),
        None => unreached(),
    }
}

} // verus!
