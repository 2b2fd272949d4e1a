//! The shape that a response is expected to have, and the search for the
//! first place at which a JSON text departs from it.

use vstd::prelude::*;
use crate::address::{parsed_url, validate};
use crate::date::{date_in, Date};
use vstd::string::*;
use crate::document::{
    decimal, format_decimal, count_in, json_node, pairs_of, read_count, read_node, texts_of, Member, Node, NodeModel,
};

verus! {

/// What a place in a document may be expected to be.
#[derive(Debug, Clone, Copy, PartialEq, Eq, Structural)]
pub enum Kind {
    Text,
    Flag,
    Number,
    Count,
    Day,
    Link,
    OneOf,
    List,
    Record,
}

/// The expected shape of a JSON value.
#[derive(Debug)]
pub enum Shape {
    /// Any text.
    Text,
    /// `true` or `false`.
    Flag,
    /// Any number.
    Number,
    /// A whole number, not negative, that fits in 64 bits.
    Count,
    /// A text that is a date in its canonical form.
    Day,
    /// A text that is an absolute URL.
    Link,
    /// A text that is one of these words.
    OneOf(Vec<String>),
    /// Nothing at all, `null`, or a value of the inner shape.
    Maybe(Box<Shape>),
    /// An array whose items all have the inner shape.
    List(Box<Shape>),
    /// An object with these members; others are passed over.
    Record(Vec<Field>),
}

/// A member that a record is expected to have.
#[derive(Debug)]
pub struct Field {
    pub name: String,
    pub shape: Shape,
}

/// A shape as plain values.
pub enum ShapeModel {
    Text,
    Flag,
    Number,
    Count,
    Day,
    Link,
    OneOf(Seq<Seq<char>>),
    Maybe(Box<ShapeModel>),
    List(Box<ShapeModel>),
    Record(Seq<(Seq<char>, ShapeModel)>),
}

impl Shape {
    /// This shape as plain values.
    pub open spec fn model(self) -> ShapeModel
        decreases self,
    {
        match self {
            Shape::Text => ShapeModel::Text,
            Shape::Flag => ShapeModel::Flag,
            Shape::Number => ShapeModel::Number,
            Shape::Count => ShapeModel::Count,
            Shape::Day => ShapeModel::Day,
            Shape::Link => ShapeModel::Link,
            Shape::OneOf(words) => ShapeModel::OneOf(texts_of(words@)),
            Shape::Maybe(inner) => ShapeModel::Maybe(Box::new(inner.model())),
            Shape::List(inner) => ShapeModel::List(Box::new(inner.model())),
            Shape::Record(fields) => ShapeModel::Record(
                Seq::new(
                    fields.len() as nat,
                    |i: int|
                        (
                            fields[i].name@,
                            if 0 <= i < fields.len() {
                                fields[i].shape.model()
                            } else {
                                ShapeModel::Text
                            },
                        ),
                ),
            ),
        }
    }
}

/// The members that a record is expected to have, as plain values.
pub open spec fn fields_model(fields: Vec<Field>) -> Seq<(Seq<char>, ShapeModel)> {
    Seq::new(fields.len() as nat, |i: int| (fields[i].name@, fields[i].shape.model()))
}

proof fn lemma_record_model(fields: Vec<Field>)
    ensures
        Shape::Record(fields).model() == ShapeModel::Record(fields_model(fields)),
{
    assert(Shape::Record(fields).model()->Record_0 =~= fields_model(fields));
}

/// One step of the way from the root of a document to a place inside it.
#[derive(Debug, Clone)]
pub enum Segment {
    /// The member of an object with this name.
    Field(String),
    /// The item of an array at this position.
    Index(usize),
}

/// A step as plain values.
pub enum Step {
    Field(Seq<char>),
    Index(int),
}

impl View for Segment {
    type V = Step;

    open spec fn view(&self) -> Step {
        match self {
            Segment::Field(name) => Step::Field(name@),
            Segment::Index(i) => Step::Index(*i as int),
        }
    }
}

/// What is wrong at a place.
#[derive(Debug, Clone)]
pub enum Problem {
    /// The text is not JSON; the words say why.
    NotJson(String),
    /// A member that the record must have is not there.
    Missing,
    /// The value is of another kind, or not of the form that this kind asks.
    Expected(Kind),
}

/// A problem as plain values.
pub enum ProblemModel {
    NotJson(Seq<char>),
    Missing,
    Expected(Kind),
}

impl View for Problem {
    type V = ProblemModel;

    open spec fn view(&self) -> ProblemModel {
        match self {
            Problem::NotJson(words) => ProblemModel::NotJson(words@),
            Problem::Missing => ProblemModel::Missing,
            Problem::Expected(kind) => ProblemModel::Expected(*kind),
        }
    }
}

/// The first place at which a body departs from the expected shape: the way
/// to it from the root, and what is wrong there.
#[derive(Debug, Clone)]
pub struct DecodeFailure {
    pub path: Vec<Segment>,
    pub problem: Problem,
}

/// A failure as plain values.
pub struct Fault {
    pub path: Seq<Step>,
    pub problem: ProblemModel,
}

impl View for DecodeFailure {
    type V = Fault;

    open spec fn view(&self) -> Fault {
        Fault { path: Seq::new(self.path@.len(), |i: int| self.path@[i]@), problem: self.problem@ }
    }
}

/// The outcome of a search as plain values.
pub open spec fn outcome(r: Option<DecodeFailure>) -> Option<Fault> {
    match r {
        Some(f) => Some(f@),
        None => None,
    }
}

/// A fault at the very place that is looked at.
pub open spec fn here(problem: ProblemModel) -> Option<Fault> {
    Some(Fault { path: Seq::empty(), problem })
}

/// A fault found below a step is a fault of the whole, one step further from
/// the root.
pub open spec fn below(step: Step, fault: Option<Fault>) -> Option<Fault> {
    match fault {
        Some(f) => Some(Fault { path: seq![step] + f.path, problem: f.problem }),
        None => None,
    }
}

/// The text of the first member with this name, looking from a position on.
pub open spec fn member_from(members: Seq<(Seq<char>, Seq<char>)>, name: Seq<char>, from: int) -> Option<
    Seq<char>,
>
    decreases members.len() - from,
{
    if from < 0 || from >= members.len() {
        None
    } else if members[from].0 == name {
        Some(members[from].1)
    } else {
        member_from(members, name, from + 1)
    }
}

/// Whether a word is among these words, looking from a position on.
pub open spec fn listed_from(words: Seq<Seq<char>>, word: Seq<char>, from: int) -> bool
    decreases words.len() - from,
{
    if from < 0 || from >= words.len() {
        false
    } else {
        words[from] == word || listed_from(words, word, from + 1)
    }
}

/// The first fault of a JSON text against a shape, or none where the text
/// has that shape. The parts of an array are looked at in their order, the
/// members of a record in the order in which the shape names them, and a
/// fault inside a part is reported with the way to it.
pub open spec fn fault_in(text: Seq<char>, shape: ShapeModel) -> Option<Fault>
    decreases shape, 0nat,
{
    match json_node(text) {
        Err(words) => here(ProblemModel::NotJson(words)),
        Ok(node) => match shape {
            ShapeModel::Text => if node is Text {
                None
            } else {
                here(ProblemModel::Expected(Kind::Text))
            },
            ShapeModel::Flag => if node is Flag {
                None
            } else {
                here(ProblemModel::Expected(Kind::Flag))
            },
            ShapeModel::Number => if node is Number {
                None
            } else {
                here(ProblemModel::Expected(Kind::Number))
            },
            ShapeModel::Count => if node is Number && count_in(node->Number_0) is Some {
                None
            } else {
                here(ProblemModel::Expected(Kind::Count))
            },
            ShapeModel::Day => if node is Text && date_in(node->Text_0) is Some {
                None
            } else {
                here(ProblemModel::Expected(Kind::Day))
            },
            ShapeModel::Link => if node is Text && parsed_url(node->Text_0) is Ok {
                None
            } else {
                here(ProblemModel::Expected(Kind::Link))
            },
            ShapeModel::OneOf(words) => if node is Text && listed_from(words, node->Text_0, 0) {
                None
            } else {
                here(ProblemModel::Expected(Kind::OneOf))
            },
            ShapeModel::Maybe(inner) => if node is Null {
                None
            } else {
                fault_in(text, *inner)
            },
            ShapeModel::List(inner) => match node {
                NodeModel::Array(items) => items_fault(items, *inner, 0),
                _ => here(ProblemModel::Expected(Kind::List)),
            },
            ShapeModel::Record(fields) => match node {
                NodeModel::Object(members) => fields_fault(members, fields, 0),
                _ => here(ProblemModel::Expected(Kind::Record)),
            },
        },
    }
}

/// The first fault among the items of an array from a position on.
pub open spec fn items_fault(items: Seq<Seq<char>>, inner: ShapeModel, from: int) -> Option<Fault>
    decreases inner, 1 + items.len() - from,
{
    if from < 0 || from >= items.len() {
        None
    } else {
        match fault_in(items[from], inner) {
            Some(f) => below(Step::Index(from), Some(f)),
            None => items_fault(items, inner, from + 1),
        }
    }
}

/// The first fault among the members that a record is expected to have,
/// from a position in that list on. A member that is not there is a fault
/// unless its shape allows that.
pub open spec fn fields_fault(
    members: Seq<(Seq<char>, Seq<char>)>,
    fields: Seq<(Seq<char>, ShapeModel)>,
    from: int,
) -> Option<Fault>
    decreases fields, fields.len() - from,
{
    if from < 0 || from >= fields.len() {
        None
    } else {
        let found = match member_from(members, fields[from].0, 0) {
            Some(text) => below(Step::Field(fields[from].0), fault_in(text, fields[from].1)),
            None => if fields[from].1 is Maybe {
                None
            } else {
                below(Step::Field(fields[from].0), here(ProblemModel::Missing))
            },
        };
        match found {
            Some(f) => Some(f),
            None => fields_fault(members, fields, from + 1),
        }
    }
}

/// Whether a member that a record is expected to have is in order: there
/// with its shape, or not there where it may be left out.
pub open spec fn member_in_order(
    members: Seq<(Seq<char>, Seq<char>)>,
    field: (Seq<char>, ShapeModel),
) -> bool
    decreases field.1, 1nat,
{
    match member_from(members, field.0, 0) {
        Some(text) => has_shape(text, field.1),
        None => field.1 is Maybe,
    }
}

/// What it is for a JSON text to have a shape, said without any search: the
/// text is JSON, its outermost value is of the expected kind and form, every
/// item of a list has the shape of the items, and every member that a record
/// is expected to have is in order.
pub open spec fn has_shape(text: Seq<char>, shape: ShapeModel) -> bool
    decreases shape, 0nat,
{
    match json_node(text) {
        Err(_) => false,
        Ok(node) => match shape {
            ShapeModel::Text => node is Text,
            ShapeModel::Flag => node is Flag,
            ShapeModel::Number => node is Number,
            ShapeModel::Count => node is Number && count_in(node->Number_0) is Some,
            ShapeModel::Day => node is Text && date_in(node->Text_0) is Some,
            ShapeModel::Link => node is Text && parsed_url(node->Text_0) is Ok,
            ShapeModel::OneOf(words) => node is Text && words.contains(node->Text_0),
            ShapeModel::Maybe(inner) => node is Null || has_shape(text, *inner),
            ShapeModel::List(inner) => {
                &&& node is Array
                &&& forall|i: int|
                    0 <= i < node->Array_0.len() ==> has_shape(#[trigger] node->Array_0[i], *inner)
            },
            ShapeModel::Record(fields) => {
                &&& node is Object
                &&& forall|k: int|
                    0 <= k < fields.len() ==> member_in_order(node->Object_0, #[trigger] fields[k])
            },
        },
    }
}

/// A word is found among words exactly where it is one of them.
pub proof fn lemma_listed(words: Seq<Seq<char>>, word: Seq<char>, from: int)
    requires
        0 <= from,
    ensures
        listed_from(words, word, from) <==> exists|i: int|
            from <= i < words.len() && #[trigger] words[i] == word,
    decreases words.len() - from,
{
    if from < words.len() {
        lemma_listed(words, word, from + 1);
        if words[from] == word {
        } else if listed_from(words, word, from + 1) {
            let i = choose|i: int| from + 1 <= i < words.len() && #[trigger] words[i] == word;
            assert(from <= i < words.len() && words[i] == word);
        }
    }
}

/// The search finds no fault exactly in the texts that have the shape.
pub proof fn lemma_no_fault_iff_shape(text: Seq<char>, shape: ShapeModel)
    ensures
        fault_in(text, shape) is None <==> has_shape(text, shape),
    decreases shape, 0nat,
{
    match json_node(text) {
        Err(words) => {},
        Ok(node) => match shape {
            ShapeModel::OneOf(words) => {
                if node is Text {
                    lemma_listed(words, node->Text_0, 0);
                    if words.contains(node->Text_0) {
                        let i = choose|i: int| 0 <= i < words.len() && words[i] == node->Text_0;
                        assert(words[i] == node->Text_0);
                    }
                }
            },
            ShapeModel::Maybe(inner) => {
                lemma_no_fault_iff_shape(text, *inner);
            },
            ShapeModel::List(inner) => match node {
                NodeModel::Array(items) => {
                    lemma_items_iff_shape(items, *inner, 0);
                },
                _ => {},
            },
            ShapeModel::Record(fields) => match node {
                NodeModel::Object(members) => {
                    lemma_fields_iff_shape(members, fields, 0);
                },
                _ => {},
            },
            _ => {},
        },
    }
}

proof fn lemma_items_iff_shape(items: Seq<Seq<char>>, inner: ShapeModel, from: int)
    requires
        0 <= from,
    ensures
        items_fault(items, inner, from) is None <==> forall|i: int|
            from <= i < items.len() ==> has_shape(#[trigger] items[i], inner),
    decreases inner, 1 + items.len() - from,
{
    if from < items.len() {
        lemma_no_fault_iff_shape(items[from], inner);
        lemma_items_iff_shape(items, inner, from + 1);
        if items_fault(items, inner, from) is None {
            assert forall|i: int| from <= i < items.len() implies has_shape(
                #[trigger] items[i],
                inner,
            ) by {
                if i > from {
                }
            }
        }
    }
}

proof fn lemma_fields_iff_shape(
    members: Seq<(Seq<char>, Seq<char>)>,
    fields: Seq<(Seq<char>, ShapeModel)>,
    from: int,
)
    requires
        0 <= from,
    ensures
        fields_fault(members, fields, from) is None <==> forall|k: int|
            from <= k < fields.len() ==> member_in_order(members, #[trigger] fields[k]),
    decreases fields, fields.len() - from,
{
    if from < fields.len() {
        match member_from(members, fields[from].0, 0) {
            Some(text) => {
                lemma_no_fault_iff_shape(text, fields[from].1);
            },
            None => {},
        }
        lemma_fields_iff_shape(members, fields, from + 1);
        if fields_fault(members, fields, from) is None {
            assert forall|k: int| from <= k < fields.len() implies member_in_order(
                members,
                #[trigger] fields[k],
            ) by {
                if k > from {
                }
            }
        }
    }
}

/// A shape without the leave to be left out.
pub open spec fn bare(shape: ShapeModel) -> ShapeModel
    decreases shape,
{
    match shape {
        ShapeModel::Maybe(inner) => bare(*inner),
        _ => shape,
    }
}

/// Whether a path, walked from a text with its shape, ends at a place where
/// exactly this is wrong. Each step must be possible: an index must meet an
/// item of an array where a list is expected, a name a member that a record
/// is expected to have. At the end of the path the problem must be that of
/// the place itself, not of anything inside it; a member that is not there
/// can only be missing.
pub open spec fn fault_at(
    text: Seq<char>,
    shape: ShapeModel,
    path: Seq<Step>,
    problem: ProblemModel,
) -> bool
    decreases path.len(),
{
    if path.len() == 0 {
        fault_in(text, shape) == here(problem)
    } else {
        match (json_node(text), path[0], bare(shape)) {
            (Ok(NodeModel::Array(items)), Step::Index(i), ShapeModel::List(inner)) => {
                &&& 0 <= i < items.len()
                &&& fault_at(items[i], *inner, path.drop_first(), problem)
            },
            (Ok(NodeModel::Object(members)), Step::Field(name), ShapeModel::Record(fields)) => {
                exists|k: int|
                    0 <= k < fields.len() && (#[trigger] fields[k]).0 == name && match member_from(
                        members,
                        name,
                        0,
                    ) {
                        Some(member) => fault_at(member, fields[k].1, path.drop_first(), problem),
                        None => path.len() == 1 && problem == ProblemModel::Missing && !(fields[k].1
                            is Maybe),
                    }
            },
            _ => false,
        }
    }
}

/// The path of a fault leads to the very place that is at fault: every step
/// of it can be walked in the text, and what is wrong at its end is wrong
/// with that place itself and not with something further inside.
pub proof fn lemma_fault_at_its_path(text: Seq<char>, shape: ShapeModel)
    requires
        fault_in(text, shape) is Some,
    ensures
        fault_at(
            text,
            shape,
            fault_in(text, shape).unwrap().path,
            fault_in(text, shape).unwrap().problem,
        ),
    decreases shape, 0nat,
{
    let f = fault_in(text, shape).unwrap();
    match json_node(text) {
        Err(words) => {},
        Ok(node) => match shape {
            ShapeModel::Maybe(inner) => {
                if !(node is Null) {
                    lemma_fault_at_its_path(text, *inner);
                    assert(bare(shape) == bare(*inner));
                    if f.path.len() > 0 {
                        assert(fault_at(text, shape, f.path, f.problem));
                    }
                }
            },
            ShapeModel::List(inner) => match node {
                NodeModel::Array(items) => {
                    lemma_items_fault_at(items, *inner, 0);
                },
                _ => {},
            },
            ShapeModel::Record(fields) => match node {
                NodeModel::Object(members) => {
                    let k = lemma_fields_fault_at(members, fields, 0);
                    assert(fields[k].0 == f.path[0]->Field_0);
                },
                _ => {},
            },
            _ => {},
        },
    }
}

proof fn lemma_items_fault_at(items: Seq<Seq<char>>, inner: ShapeModel, from: int)
    requires
        0 <= from,
        items_fault(items, inner, from) is Some,
    ensures
        ({
            let f = items_fault(items, inner, from).unwrap();
            &&& f.path.len() > 0
            &&& f.path[0] is Index
            &&& from <= f.path[0]->Index_0 < items.len()
            &&& fault_at(items[f.path[0]->Index_0], inner, f.path.drop_first(), f.problem)
        }),
    decreases inner, 1 + items.len() - from,
{
    let f = items_fault(items, inner, from).unwrap();
    match fault_in(items[from], inner) {
        Some(g) => {
            lemma_fault_at_its_path(items[from], inner);
            assert(f.path.drop_first() =~= g.path);
        },
        None => {
            lemma_items_fault_at(items, inner, from + 1);
        },
    }
}

proof fn lemma_fields_fault_at(
    members: Seq<(Seq<char>, Seq<char>)>,
    fields: Seq<(Seq<char>, ShapeModel)>,
    from: int,
) -> (k: int)
    requires
        0 <= from,
        fields_fault(members, fields, from) is Some,
    ensures
        ({
            let f = fields_fault(members, fields, from).unwrap();
            &&& f.path.len() > 0
            &&& f.path[0] == Step::Field(fields[k].0)
            &&& from <= k < fields.len()
            &&& match member_from(members, fields[k].0, 0) {
                Some(member) => fault_at(member, fields[k].1, f.path.drop_first(), f.problem),
                None => f.path.len() == 1 && f.problem == ProblemModel::Missing && !(fields[k].1
                    is Maybe),
            }
        }),
    decreases fields, fields.len() - from,
{
    let f = fields_fault(members, fields, from).unwrap();
    let name = fields[from].0;
    match member_from(members, name, 0) {
        Some(text) => match fault_in(text, fields[from].1) {
            Some(g) => {
                lemma_fault_at_its_path(text, fields[from].1);
                assert(f.path.drop_first() =~= g.path);
                from
            },
            None => lemma_fields_fault_at(members, fields, from + 1),
        },
        None => {
            if fields[from].1 is Maybe {
                lemma_fields_fault_at(members, fields, from + 1)
            } else {
                assert(f.path =~= seq![Step::Field(name)]);
                from
            }
        },
    }
}

fn fault(problem: Problem) -> (r: DecodeFailure)
    ensures
        Some(r@) == here(problem@),
{
    let r = DecodeFailure { path: Vec::new(), problem };
    assert(r@.path =~= Seq::<Step>::empty());
    r
}

fn nest(segment: Segment, failure: DecodeFailure) -> (r: DecodeFailure)
    ensures
        Some(r@) == below(segment@, Some(failure@)),
{
    let ghost inner = failure@;
    let ghost step = segment@;
    let mut path = failure.path;
    path.insert(0, segment);
    let r = DecodeFailure { path, problem: failure.problem };
    assert(r@.path =~= seq![step] + inner.path);
    r
}

pub(crate) fn find_member<'a>(members: &'a Vec<Member>, name: &String) -> (r: Option<&'a String>)
    ensures
        match r {
            Some(text) => member_from(pairs_of(members@), name@, 0) == Some(text@),
            None => member_from(pairs_of(members@), name@, 0) is None,
        },
{
    let mut i: usize = 0;
    while i < members.len()
        invariant
            i <= members@.len(),
            member_from(pairs_of(members@), name@, 0) == member_from(
                pairs_of(members@),
                name@,
                i as int,
            ),
        decreases members@.len() - i,
    {
        if members[i].name == *name {
            return Some(&members[i].text);
        }
        i = i + 1;
    }
    None
}

fn is_listed(words: &Vec<String>, word: &String) -> (r: bool)
    ensures
        r == listed_from(texts_of(words@), word@, 0),
{
    let mut i: usize = 0;
    while i < words.len()
        invariant
            i <= words@.len(),
            listed_from(texts_of(words@), word@, 0) == listed_from(
                texts_of(words@),
                word@,
                i as int,
            ),
        decreases words@.len() - i,
    {
        if words[i] == *word {
            return true;
        }
        i = i + 1;
    }
    false
}

fn check_items(items: &Vec<String>, inner: &Shape) -> (r: Option<DecodeFailure>)
    ensures
        outcome(r) == items_fault(texts_of(items@), inner.model(), 0),
    decreases *inner, 1nat,
{
    let mut i: usize = 0;
    while i < items.len()
        invariant
            i <= items@.len(),
            items_fault(texts_of(items@), inner.model(), 0) == items_fault(
                texts_of(items@),
                inner.model(),
                i as int,
            ),
        decreases items@.len() - i,
    {
        match check(items[i].as_str(), inner) {
            Some(f) => {
                return Some(nest(Segment::Index(i), f));
            },
            None => {},
        }
        i = i + 1;
    }
    None
}

fn check_fields(members: &Vec<Member>, fields: &Vec<Field>) -> (r: Option<DecodeFailure>)
    ensures
        outcome(r) == fields_fault(pairs_of(members@), fields_model(*fields), 0),
    decreases *fields, 1nat,
{
    let mut i: usize = 0;
    while i < fields.len()
        invariant
            i <= fields@.len(),
            fields_fault(pairs_of(members@), fields_model(*fields), 0) == fields_fault(
                pairs_of(members@),
                fields_model(*fields),
                i as int,
            ),
        decreases fields@.len() - i,
    {
        let field = &fields[i];
        match find_member(members, &field.name) {
            Some(text) => {
                match check(text.as_str(), &field.shape) {
                    Some(f) => {
                        return Some(nest(Segment::Field(field.name.clone()), f));
                    },
                    None => {},
                }
            },
            None => {
                match &field.shape {
                    Shape::Maybe(_) => {},
                    _ => {
                        let f = fault(Problem::Missing);
                        return Some(nest(Segment::Field(field.name.clone()), f));
                    },
                }
            },
        }
        i = i + 1;
    }
    None
}

/// Looks for the first place at which a JSON text departs from a shape.
/// `None` says that the text has the shape.
pub fn check(text: &str, shape: &Shape) -> (r: Option<DecodeFailure>)
    ensures
        outcome(r) == fault_in(text@, shape.model()),
        r is None <==> has_shape(text@, shape.model()),
    decreases *shape, 0nat,
{
    proof {
        lemma_no_fault_iff_shape(text@, shape.model());
    }
    let node = match read_node(text) {
        Err(words) => {
            return Some(fault(Problem::NotJson(words)));
        },
        Ok(node) => node,
    };
    match shape {
        Shape::Text => match node {
            Node::Text(_) => None,
            _ => Some(fault(Problem::Expected(Kind::Text))),
        },
        Shape::Flag => match node {
            Node::Flag(_) => None,
            _ => Some(fault(Problem::Expected(Kind::Flag))),
        },
        Shape::Number => match node {
            Node::Number(_) => None,
            _ => Some(fault(Problem::Expected(Kind::Number))),
        },
        Shape::Count => match node {
            Node::Number(t) => if read_count(t.as_str()).is_some() {
                None
            } else {
                Some(fault(Problem::Expected(Kind::Count)))
            },
            _ => Some(fault(Problem::Expected(Kind::Count))),
        },
        Shape::Day => match node {
            Node::Text(t) => if Date::parse(t.as_str()).is_some() {
                None
            } else {
                Some(fault(Problem::Expected(Kind::Day)))
            },
            _ => Some(fault(Problem::Expected(Kind::Day))),
        },
        Shape::Link => match node {
            Node::Text(t) => if validate(t.as_str()) {
                None
            } else {
                Some(fault(Problem::Expected(Kind::Link)))
            },
            _ => Some(fault(Problem::Expected(Kind::Link))),
        },
        Shape::OneOf(words) => match node {
            Node::Text(t) => if is_listed(words, &t) {
                None
            } else {
                Some(fault(Problem::Expected(Kind::OneOf)))
            },
            _ => Some(fault(Problem::Expected(Kind::OneOf))),
        },
        Shape::Maybe(inner) => match node {
            Node::Null => None,
            _ => check(text, inner),
        },
        Shape::List(inner) => match node {
            Node::Array(items) => check_items(&items, inner),
            _ => Some(fault(Problem::Expected(Kind::List))),
        },
        Shape::Record(fields) => match node {
            Node::Object(members) => {
                proof {
                    lemma_record_model(*fields);
                }
                check_fields(&members, fields)
            },
            _ => Some(fault(Problem::Expected(Kind::Record))),
        },
    }
}

/// A member that a record is expected to have.
pub fn field(name: &str, shape: Shape) -> (r: Field)
    ensures
        r.name@ == name@,
        r.shape == shape,
{
    Field { name: name.to_owned(), shape }
}

/// The shape of a value that may be left out or `null`.
pub fn maybe(inner: Shape) -> (r: Shape)
    ensures
        r == Shape::Maybe(Box::new(inner)),
        r.model() == ShapeModel::Maybe(Box::new(inner.model())),
{
    Shape::Maybe(Box::new(inner))
}

/// The shape of an array of values of one shape.
pub fn list(inner: Shape) -> (r: Shape)
    ensures
        r == Shape::List(Box::new(inner)),
        r.model() == ShapeModel::List(Box::new(inner.model())),
{
    Shape::List(Box::new(inner))
}

/// The shape of an object with these members.
pub fn record(fields: Vec<Field>) -> (r: Shape)
    ensures
        r == Shape::Record(fields),
        r.model() == ShapeModel::Record(fields_model(fields)),
{
    proof {
        lemma_record_model(fields);
    }
    Shape::Record(fields)
}

/// The shape of a text that is one of these words.
pub fn one_of(words: Vec<String>) -> (r: Shape)
    ensures
        r == Shape::OneOf(words),
        r.model() == ShapeModel::OneOf(texts_of(words@)),
{
    Shape::OneOf(words)
}

/// One step as it is written in a path: a name after a dot, unless it is
/// the first step, or a position in square brackets.
pub open spec fn step_text(step: Step, first: bool) -> Seq<char> {
    match step {
        Step::Field(name) => if first {
            name
        } else {
            "."@ + name
        },
        Step::Index(i) => "["@ + decimal(i as nat) + "]"@,
    }
}

/// The steps of a path written one after the other.
pub open spec fn steps_text(path: Seq<Step>) -> Seq<char>
    decreases path.len(),
{
    if path.len() == 0 {
        Seq::empty()
    } else {
        steps_text(path.drop_last()) + step_text(path.last(), path.len() == 1)
    }
}

/// A path as text, such as `close_approach_data[2].miss_distance.kilometers`;
/// the root itself is written as a dot.
pub open spec fn path_text(path: Seq<Step>) -> Seq<char> {
    if path.len() == 0 {
        "."@
    } else {
        steps_text(path)
    }
}

impl DecodeFailure {
    /// The way to the place of the failure, as text.
    pub fn path_text(&self) -> (r: String)
        ensures
            r@ == path_text(self@.path),
    {
        if self.path.len() == 0 {
            return ".".to_owned();
        }
        let ghost path = self@.path;
        let mut out = String::new();
        let mut i: usize = 0;
        while i < self.path.len()
            invariant
                i <= self.path@.len(),
                path == self@.path,
                path.len() == self.path@.len(),
                out@ == steps_text(path.take(i as int)),
            decreases self.path@.len() - i,
        {
            proof {
                assert(path.take(i + 1).drop_last() =~= path.take(i as int));
                assert(path.take(i + 1).last() == self.path@[i as int]@);
            }
            match &self.path[i] {
                Segment::Field(name) => {
                    if i > 0 {
                        out.append(".");
                    }
                    out.append(name.as_str());
                },
                Segment::Index(n) => {
                    out.append("[");
                    let digits: String = format_decimal(*n as u64);
                    out.append(digits.as_str());
                    out.append("]");
                },
            }
            assert(out@ =~= steps_text(path.take(i + 1)));
            i = i + 1;
        }
        proof {
            assert(path.take(i as int) =~= path);
        }
        out
    }
}

/// What a kind of value is called where one was expected.
pub open spec fn kind_words(kind: Kind) -> Seq<char> {
    match kind {
        Kind::Text => "expected a string"@,
        Kind::Flag => "expected a boolean"@,
        Kind::Number => "expected a number"@,
        Kind::Count => "expected a whole number that is not negative"@,
        Kind::Day => "expected a date as YYYY-MM-DD"@,
        Kind::Link => "expected an absolute URL"@,
        Kind::OneOf => "expected one of the known words"@,
        Kind::List => "expected an array"@,
        Kind::Record => "expected an object"@,
    }
}

/// A problem in words.
pub open spec fn problem_words(problem: ProblemModel) -> Seq<char> {
    match problem {
        ProblemModel::NotJson(words) => words,
        ProblemModel::Missing => "missing field"@,
        ProblemModel::Expected(kind) => kind_words(kind),
    }
}

impl Problem {
    /// This problem in words.
    pub fn words(&self) -> (r: String)
        ensures
            r@ == problem_words(self@),
    {
        match self {
            Problem::NotJson(words) => words.clone(),
            Problem::Missing => "missing field".to_owned(),
            Problem::Expected(kind) => match kind {
                Kind::Text => "expected a string".to_owned(),
                Kind::Flag => "expected a boolean".to_owned(),
                Kind::Number => "expected a number".to_owned(),
                Kind::Count => "expected a whole number that is not negative".to_owned(),
                Kind::Day => "expected a date as YYYY-MM-DD".to_owned(),
                Kind::Link => "expected an absolute URL".to_owned(),
                Kind::OneOf => "expected one of the known words".to_owned(),
                Kind::List => "expected an array".to_owned(),
                Kind::Record => "expected an object".to_owned(),
            },
        }
    }
}

} // verus!
