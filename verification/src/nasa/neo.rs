//! Near-earth objects: asteroids and comets whose orbits come close to the
//! earth.

use vstd::pervasive::unreached;
use vstd::prelude::*;
use vstd::string::*;
use crate::address::{parsed_url, sendable};
use crate::date::{date_in, Date};
use crate::document::{decimal, format_decimal, texts_of};
use crate::exchange::{begin, opens, Action, Stage};
use crate::extract::{
    count_member, flag_member, is_null, items_member, lemma_count_member, lemma_list_member, lemma_optional_member,
    lemma_plain_member, lemma_record_sound, lemma_text_member, lemma_word_member, member_in,
    number_member, take_count, take_flag, take_items, take_member, take_members, take_number, take_present,
    take_text, text_member,
};
use crate::query::QueryParameterSet;
use crate::shape::{
    check, fault_in, field, has_shape, list, maybe, one_of, record, DecodeFailure, Shape,
    ShapeModel,
};

verus! {

/// The body that an object passes.
#[derive(Debug, Clone, Copy, PartialEq, Eq, Structural)]
pub enum OrbitingBody {
    Merc,
    Venus,
    Earth,
    Mars,
    Jupiter,
    Saturn,
    Uranus,
    Neptune,
}

impl OrbitingBody {
    /// The word by which the service names this body.
    pub open spec fn word(self) -> Seq<char> {
        match self {
            OrbitingBody::Merc => "Merc"@,
            OrbitingBody::Venus => "Venus"@,
            OrbitingBody::Earth => "Earth"@,
            OrbitingBody::Mars => "Mars"@,
            OrbitingBody::Jupiter => "Jupiter"@,
            OrbitingBody::Saturn => "Saturn"@,
            OrbitingBody::Uranus => "Uranus"@,
            OrbitingBody::Neptune => "Neptune"@,
        }
    }

    /// The word by which the service names this body.
    pub fn name(&self) -> (r: &'static str)
        ensures
            r@ == self.word(),
    {
        match self {
            OrbitingBody::Merc => "Merc",
            OrbitingBody::Venus => "Venus",
            OrbitingBody::Earth => "Earth",
            OrbitingBody::Mars => "Mars",
            OrbitingBody::Jupiter => "Jupiter",
            OrbitingBody::Saturn => "Saturn",
            OrbitingBody::Uranus => "Uranus",
            OrbitingBody::Neptune => "Neptune",
        }
    }

    /// The body that a word names, if it names one.
    pub fn from_name(text: &str) -> (r: Option<OrbitingBody>)
        ensures
            match r {
                Some(body) => body.word() == text@,
                None => forall|body: OrbitingBody| body.word() != text@,
            },
    {
        let wanted: String = text.to_owned();
        if wanted == "Merc".to_owned() {
            Some(OrbitingBody::Merc)
        } else if wanted == "Venus".to_owned() {
            Some(OrbitingBody::Venus)
        } else if wanted == "Earth".to_owned() {
            Some(OrbitingBody::Earth)
        } else if wanted == "Mars".to_owned() {
            Some(OrbitingBody::Mars)
        } else if wanted == "Jupiter".to_owned() {
            Some(OrbitingBody::Jupiter)
        } else if wanted == "Saturn".to_owned() {
            Some(OrbitingBody::Saturn)
        } else if wanted == "Uranus".to_owned() {
            Some(OrbitingBody::Uranus)
        } else if wanted == "Neptune".to_owned() {
            Some(OrbitingBody::Neptune)
        } else {
            None
        }
    }
}

/// The words for the bodies, in the order of the planets.
pub open spec fn body_words() -> Seq<Seq<char>> {
    seq![
        "Merc"@,
        "Venus"@,
        "Earth"@,
        "Mars"@,
        "Jupiter"@,
        "Saturn"@,
        "Uranus"@,
        "Neptune"@,
    ]
}

/// A smallest and a largest estimate of a diameter, in one unit.
pub open spec fn range_model() -> ShapeModel {
    ShapeModel::Record(
        seq![
            ("estimated_diameter_min"@, ShapeModel::Number),
            ("estimated_diameter_max"@, ShapeModel::Number),
        ],
    )
}

/// The estimates of a diameter in four units.
pub open spec fn diameter_model() -> ShapeModel {
    ShapeModel::Record(
        seq![
            ("kilometers"@, range_model()),
            ("meters"@, range_model()),
            ("miles"@, range_model()),
            ("feet"@, range_model()),
        ],
    )
}

/// How far an object passed, in four units.
pub open spec fn miss_distance_model() -> ShapeModel {
    ShapeModel::Record(
        seq![
            ("astronomical"@, ShapeModel::Number),
            ("lunar"@, ShapeModel::Number),
            ("kilometers"@, ShapeModel::Number),
            ("miles"@, ShapeModel::Number),
        ],
    )
}

/// How fast an object passed, in three units.
pub open spec fn velocity_model() -> ShapeModel {
    ShapeModel::Record(
        seq![
            ("kilometers_per_second"@, ShapeModel::Number),
            ("kilometers_per_hour"@, ShapeModel::Number),
            ("miles_per_hour"@, ShapeModel::Number),
        ],
    )
}

/// One close approach.
pub open spec fn approach_model() -> ShapeModel {
    ShapeModel::Record(
        seq![
            ("close_approach_date"@, ShapeModel::Day),
            ("close_approach_date_full"@, ShapeModel::Text),
            ("epoch_date_close_approach"@, ShapeModel::Number),
            ("relative_velocity"@, velocity_model()),
            ("miss_distance"@, miss_distance_model()),
            ("orbiting_body"@, ShapeModel::OneOf(body_words())),
        ],
    )
}

/// The class of an orbit.
pub open spec fn orbit_class_model() -> ShapeModel {
    ShapeModel::Record(
        seq![
            ("orbit_class_type"@, ShapeModel::Text),
            ("orbit_class_description"@, ShapeModel::Text),
            ("orbit_class_range"@, ShapeModel::Text),
        ],
    )
}

/// The record of a near-earth object.
pub open spec fn neo_model() -> ShapeModel {
    ShapeModel::Record(
        seq![
            ("id"@, ShapeModel::Text),
            ("neo_reference_id"@, ShapeModel::Text),
            ("name"@, ShapeModel::Text),
            ("designation"@, ShapeModel::Text),
            ("nasa_jpl_url"@, ShapeModel::Link),
            ("absolute_magnitude_h"@, ShapeModel::Number),
            ("estimated_diameter"@, diameter_model()),
            ("is_potentially_hazardous_asteroid"@, ShapeModel::Flag),
            ("close_approach_data"@, ShapeModel::List(Box::new(approach_model()))),
            ("orbital_date"@, ShapeModel::Maybe(Box::new(orbit_class_model()))),
            ("is_sentry_object"@, ShapeModel::Flag),
        ],
    )
}

fn range_shape() -> (shape: Shape)
    ensures
        shape.model() == range_model(),
{
    let mut fields = Vec::new();
    fields.push(field("estimated_diameter_min", Shape::Number));
    fields.push(field("estimated_diameter_max", Shape::Number));
    let shape = record(fields);
    assert(shape.model()->Record_0 =~= range_model()->Record_0);
    shape
}

fn diameter_shape() -> (shape: Shape)
    ensures
        shape.model() == diameter_model(),
{
    let mut fields = Vec::new();
    fields.push(field("kilometers", range_shape()));
    fields.push(field("meters", range_shape()));
    fields.push(field("miles", range_shape()));
    fields.push(field("feet", range_shape()));
    let shape = record(fields);
    assert(shape.model()->Record_0 =~= diameter_model()->Record_0);
    shape
}

fn miss_distance_shape() -> (shape: Shape)
    ensures
        shape.model() == miss_distance_model(),
{
    let mut fields = Vec::new();
    fields.push(field("astronomical", Shape::Number));
    fields.push(field("lunar", Shape::Number));
    fields.push(field("kilometers", Shape::Number));
    fields.push(field("miles", Shape::Number));
    let shape = record(fields);
    assert(shape.model()->Record_0 =~= miss_distance_model()->Record_0);
    shape
}

fn velocity_shape() -> (shape: Shape)
    ensures
        shape.model() == velocity_model(),
{
    let mut fields = Vec::new();
    fields.push(field("kilometers_per_second", Shape::Number));
    fields.push(field("kilometers_per_hour", Shape::Number));
    fields.push(field("miles_per_hour", Shape::Number));
    let shape = record(fields);
    assert(shape.model()->Record_0 =~= velocity_model()->Record_0);
    shape
}

fn body_shape() -> (shape: Shape)
    ensures
        shape.model() == ShapeModel::OneOf(body_words()),
{
    let mut words: Vec<String> = Vec::new();
    words.push(OrbitingBody::Merc.name().to_owned());
    words.push(OrbitingBody::Venus.name().to_owned());
    words.push(OrbitingBody::Earth.name().to_owned());
    words.push(OrbitingBody::Mars.name().to_owned());
    words.push(OrbitingBody::Jupiter.name().to_owned());
    words.push(OrbitingBody::Saturn.name().to_owned());
    words.push(OrbitingBody::Uranus.name().to_owned());
    words.push(OrbitingBody::Neptune.name().to_owned());
    assert(texts_of(words@) =~= body_words());
    one_of(words)
}

fn approach_shape() -> (shape: Shape)
    ensures
        shape.model() == approach_model(),
{
    let mut fields = Vec::new();
    fields.push(field("close_approach_date", Shape::Day));
    fields.push(field("close_approach_date_full", Shape::Text));
    fields.push(field("epoch_date_close_approach", Shape::Number));
    fields.push(field("relative_velocity", velocity_shape()));
    fields.push(field("miss_distance", miss_distance_shape()));
    fields.push(field("orbiting_body", body_shape()));
    let shape = record(fields);
    assert(shape.model()->Record_0 =~= approach_model()->Record_0);
    shape
}

/// The shape of the class of an orbit.
pub fn orbit_class_shape() -> (shape: Shape)
    ensures
        shape.model() == orbit_class_model(),
{
    let mut fields = Vec::new();
    fields.push(field("orbit_class_type", Shape::Text));
    fields.push(field("orbit_class_description", Shape::Text));
    fields.push(field("orbit_class_range", Shape::Text));
    let shape = record(fields);
    assert(shape.model()->Record_0 =~= orbit_class_model()->Record_0);
    shape
}

/// The shape of the record of a near-earth object.
pub fn neo_shape() -> (shape: Shape)
    ensures
        shape.model() == neo_model(),
{
    let mut fields = Vec::new();
    fields.push(field("id", Shape::Text));
    fields.push(field("neo_reference_id", Shape::Text));
    fields.push(field("name", Shape::Text));
    fields.push(field("designation", Shape::Text));
    fields.push(field("nasa_jpl_url", Shape::Link));
    fields.push(field("absolute_magnitude_h", Shape::Number));
    fields.push(field("estimated_diameter", diameter_shape()));
    fields.push(field("is_potentially_hazardous_asteroid", Shape::Flag));
    fields.push(field("close_approach_data", list(approach_shape())));
    fields.push(field("orbital_date", maybe(orbit_class_shape())));
    fields.push(field("is_sentry_object", Shape::Flag));
    let shape = record(fields);
    assert(shape.model()->Record_0 =~= neo_model()->Record_0);
    shape
}

/// The class of an orbit.
#[derive(Debug, Clone)]
pub struct OrbitClass {
    pub orbit_class_type: String,
    pub orbit_class_description: String,
    pub orbit_class_range: String,
}

impl OrbitClass {
    /// Whether this record holds what a body writes, member by member.
    pub open spec fn written_in(self, body: Seq<char>) -> bool {
        &&& text_member(body, "orbit_class_type"@) == Some(self.orbit_class_type@)
        &&& text_member(body, "orbit_class_description"@) == Some(self.orbit_class_description@)
        &&& text_member(body, "orbit_class_range"@) == Some(self.orbit_class_range@)
    }

    /// Reads the class of an orbit from a body, or says where the body first
    /// departs from its shape.
    pub fn decode(body: &str) -> (r: Result<OrbitClass, DecodeFailure>)
        ensures
            match r {
                Ok(class) => has_shape(body@, orbit_class_model()) && class.written_in(body@),
                Err(failure) => fault_in(body@, orbit_class_model()) == Some(failure@),
            },
    {
        match check(body, &orbit_class_shape()) {
            Some(failure) => {
                return Err(failure);
            },
            None => {},
        }
        proof {
            let fields = orbit_class_model()->Record_0;
            lemma_text_member(body@, fields, 0);
            lemma_text_member(body@, fields, 1);
            lemma_text_member(body@, fields, 2);
        }
        let members = take_members(body);
        Ok(
            OrbitClass {
                orbit_class_type: take_text(&members, "orbit_class_type"),
                orbit_class_description: take_text(&members, "orbit_class_description"),
                orbit_class_range: take_text(&members, "orbit_class_range"),
            },
        )
    }
}

/// An estimate of a diameter in kilometers.
#[derive(Debug, Clone)]
pub struct EstimatedKilometers {
    pub estimated_diameter_min: String,
    pub estimated_diameter_max: String,
}

impl EstimatedKilometers {
    /// Whether this record holds what a body writes: each number in the
    /// digits in which JSON writes it.
    pub open spec fn written_in(self, body: Seq<char>) -> bool {
        &&& number_member(body, "estimated_diameter_min"@) == Some(self.estimated_diameter_min@)
        &&& number_member(body, "estimated_diameter_max"@) == Some(self.estimated_diameter_max@)
    }

    /// Reads the record from a body, or says where the body first departs
    /// from its shape.
    pub fn decode(body: &str) -> (r: Result<EstimatedKilometers, DecodeFailure>)
        ensures
            match r {
                Ok(record) => has_shape(body@, range_model()) && record.written_in(body@),
                Err(failure) => fault_in(body@, range_model()) == Some(failure@),
            },
    {
        match check(body, &range_shape()) {
            Some(failure) => {
                return Err(failure);
            },
            None => {},
        }
        proof {
            let fields = range_model()->Record_0;
            lemma_plain_member(body@, fields, 0);
            lemma_plain_member(body@, fields, 1);
        }
        let members = take_members(body);
        Ok(
            EstimatedKilometers {
                estimated_diameter_min: take_number(&members, "estimated_diameter_min"),
                estimated_diameter_max: take_number(&members, "estimated_diameter_max"),
            },
        )
    }
}

/// An estimate of a diameter in meters.
#[derive(Debug, Clone)]
pub struct EstimatedMeters {
    pub estimated_diameter_min: String,
    pub estimated_diameter_max: String,
}

impl EstimatedMeters {
    /// Whether this record holds what a body writes: each number in the
    /// digits in which JSON writes it.
    pub open spec fn written_in(self, body: Seq<char>) -> bool {
        &&& number_member(body, "estimated_diameter_min"@) == Some(self.estimated_diameter_min@)
        &&& number_member(body, "estimated_diameter_max"@) == Some(self.estimated_diameter_max@)
    }

    /// Reads the record from a body, or says where the body first departs
    /// from its shape.
    pub fn decode(body: &str) -> (r: Result<EstimatedMeters, DecodeFailure>)
        ensures
            match r {
                Ok(record) => has_shape(body@, range_model()) && record.written_in(body@),
                Err(failure) => fault_in(body@, range_model()) == Some(failure@),
            },
    {
        match check(body, &range_shape()) {
            Some(failure) => {
                return Err(failure);
            },
            None => {},
        }
        proof {
            let fields = range_model()->Record_0;
            lemma_plain_member(body@, fields, 0);
            lemma_plain_member(body@, fields, 1);
        }
        let members = take_members(body);
        Ok(
            EstimatedMeters {
                estimated_diameter_min: take_number(&members, "estimated_diameter_min"),
                estimated_diameter_max: take_number(&members, "estimated_diameter_max"),
            },
        )
    }
}

/// An estimate of a diameter in miles.
#[derive(Debug, Clone)]
pub struct EstimatedMiles {
    pub estimated_diameter_min: String,
    pub estimated_diameter_max: String,
}

impl EstimatedMiles {
    /// Whether this record holds what a body writes: each number in the
    /// digits in which JSON writes it.
    pub open spec fn written_in(self, body: Seq<char>) -> bool {
        &&& number_member(body, "estimated_diameter_min"@) == Some(self.estimated_diameter_min@)
        &&& number_member(body, "estimated_diameter_max"@) == Some(self.estimated_diameter_max@)
    }

    /// Reads the record from a body, or says where the body first departs
    /// from its shape.
    pub fn decode(body: &str) -> (r: Result<EstimatedMiles, DecodeFailure>)
        ensures
            match r {
                Ok(record) => has_shape(body@, range_model()) && record.written_in(body@),
                Err(failure) => fault_in(body@, range_model()) == Some(failure@),
            },
    {
        match check(body, &range_shape()) {
            Some(failure) => {
                return Err(failure);
            },
            None => {},
        }
        proof {
            let fields = range_model()->Record_0;
            lemma_plain_member(body@, fields, 0);
            lemma_plain_member(body@, fields, 1);
        }
        let members = take_members(body);
        Ok(
            EstimatedMiles {
                estimated_diameter_min: take_number(&members, "estimated_diameter_min"),
                estimated_diameter_max: take_number(&members, "estimated_diameter_max"),
            },
        )
    }
}

/// An estimate of a diameter in feet.
#[derive(Debug, Clone)]
pub struct EstimatedFeet {
    pub estimated_diameter_min: String,
    pub estimated_diameter_max: String,
}

impl EstimatedFeet {
    /// Whether this record holds what a body writes: each number in the
    /// digits in which JSON writes it.
    pub open spec fn written_in(self, body: Seq<char>) -> bool {
        &&& number_member(body, "estimated_diameter_min"@) == Some(self.estimated_diameter_min@)
        &&& number_member(body, "estimated_diameter_max"@) == Some(self.estimated_diameter_max@)
    }

    /// Reads the record from a body, or says where the body first departs
    /// from its shape.
    pub fn decode(body: &str) -> (r: Result<EstimatedFeet, DecodeFailure>)
        ensures
            match r {
                Ok(record) => has_shape(body@, range_model()) && record.written_in(body@),
                Err(failure) => fault_in(body@, range_model()) == Some(failure@),
            },
    {
        match check(body, &range_shape()) {
            Some(failure) => {
                return Err(failure);
            },
            None => {},
        }
        proof {
            let fields = range_model()->Record_0;
            lemma_plain_member(body@, fields, 0);
            lemma_plain_member(body@, fields, 1);
        }
        let members = take_members(body);
        Ok(
            EstimatedFeet {
                estimated_diameter_min: take_number(&members, "estimated_diameter_min"),
                estimated_diameter_max: take_number(&members, "estimated_diameter_max"),
            },
        )
    }
}

/// How far an object passed, in four units.
#[derive(Debug, Clone)]
pub struct MissDistance {
    pub astronomical: String,
    pub lunar: String,
    pub kilometers: String,
    pub miles: String,
}

impl MissDistance {
    /// Whether this record holds what a body writes: each number in the
    /// digits in which JSON writes it.
    pub open spec fn written_in(self, body: Seq<char>) -> bool {
        &&& number_member(body, "astronomical"@) == Some(self.astronomical@)
        &&& number_member(body, "lunar"@) == Some(self.lunar@)
        &&& number_member(body, "kilometers"@) == Some(self.kilometers@)
        &&& number_member(body, "miles"@) == Some(self.miles@)
    }

    /// Reads the record from a body, or says where the body first departs
    /// from its shape.
    pub fn decode(body: &str) -> (r: Result<MissDistance, DecodeFailure>)
        ensures
            match r {
                Ok(record) => has_shape(body@, miss_distance_model()) && record.written_in(body@),
                Err(failure) => fault_in(body@, miss_distance_model()) == Some(failure@),
            },
    {
        match check(body, &miss_distance_shape()) {
            Some(failure) => {
                return Err(failure);
            },
            None => {},
        }
        proof {
            let fields = miss_distance_model()->Record_0;
            lemma_plain_member(body@, fields, 0);
            lemma_plain_member(body@, fields, 1);
            lemma_plain_member(body@, fields, 2);
            lemma_plain_member(body@, fields, 3);
        }
        let members = take_members(body);
        Ok(
            MissDistance {
                astronomical: take_number(&members, "astronomical"),
                lunar: take_number(&members, "lunar"),
                kilometers: take_number(&members, "kilometers"),
                miles: take_number(&members, "miles"),
            },
        )
    }
}

/// How fast an object passed, in three units.
#[derive(Debug, Clone)]
pub struct RelativeVelocity {
    pub kilometers_per_second: String,
    pub kilometers_per_hour: String,
    pub miles_per_hour: String,
}

impl RelativeVelocity {
    /// Whether this record holds what a body writes: each number in the
    /// digits in which JSON writes it.
    pub open spec fn written_in(self, body: Seq<char>) -> bool {
        &&& number_member(body, "kilometers_per_second"@) == Some(self.kilometers_per_second@)
        &&& number_member(body, "kilometers_per_hour"@) == Some(self.kilometers_per_hour@)
        &&& number_member(body, "miles_per_hour"@) == Some(self.miles_per_hour@)
    }

    /// Reads the record from a body, or says where the body first departs
    /// from its shape.
    pub fn decode(body: &str) -> (r: Result<RelativeVelocity, DecodeFailure>)
        ensures
            match r {
                Ok(record) => has_shape(body@, velocity_model()) && record.written_in(body@),
                Err(failure) => fault_in(body@, velocity_model()) == Some(failure@),
            },
    {
        match check(body, &velocity_shape()) {
            Some(failure) => {
                return Err(failure);
            },
            None => {},
        }
        proof {
            let fields = velocity_model()->Record_0;
            lemma_plain_member(body@, fields, 0);
            lemma_plain_member(body@, fields, 1);
            lemma_plain_member(body@, fields, 2);
        }
        let members = take_members(body);
        Ok(
            RelativeVelocity {
                kilometers_per_second: take_number(&members, "kilometers_per_second"),
                kilometers_per_hour: take_number(&members, "kilometers_per_hour"),
                miles_per_hour: take_number(&members, "miles_per_hour"),
            },
        )
    }
}

/// The estimates of a diameter in four units.
#[derive(Debug, Clone)]
pub struct EstimatedDiameter {
    pub kilometers: EstimatedKilometers,
    pub meters: EstimatedMeters,
    pub miles: EstimatedMiles,
    pub feet: EstimatedFeet,
}

impl EstimatedDiameter {
    /// Whether this record holds what a body writes: each member is there
    /// and holds what its own text writes.
    pub open spec fn written_in(self, body: Seq<char>) -> bool {
        &&& member_in(body, "kilometers"@) is Some
        &&& self.kilometers.written_in(member_in(body, "kilometers"@).unwrap())
        &&& member_in(body, "meters"@) is Some
        &&& self.meters.written_in(member_in(body, "meters"@).unwrap())
        &&& member_in(body, "miles"@) is Some
        &&& self.miles.written_in(member_in(body, "miles"@).unwrap())
        &&& member_in(body, "feet"@) is Some
        &&& self.feet.written_in(member_in(body, "feet"@).unwrap())
    }

    /// Reads the record from a body, or says where the body first departs
    /// from its shape.
    pub fn decode(body: &str) -> (r: Result<EstimatedDiameter, DecodeFailure>)
        ensures
            match r {
                Ok(record) => has_shape(body@, diameter_model()) && record.written_in(body@),
                Err(failure) => fault_in(body@, diameter_model()) == Some(failure@),
            },
    {
        match check(body, &diameter_shape()) {
            Some(failure) => {
                return Err(failure);
            },
            None => {},
        }
        proof {
            let fields = diameter_model()->Record_0;
            lemma_record_sound(body@, fields, 0);
            lemma_record_sound(body@, fields, 1);
            lemma_record_sound(body@, fields, 2);
            lemma_record_sound(body@, fields, 3);
        }
        let members = take_members(body);
        let kilometers_text: String = take_member(&members, "kilometers");
        let kilometers = match EstimatedKilometers::decode(kilometers_text.as_str()) {
            Ok(record) => record,
            Err(_) => unreached(),
        };
        let meters_text: String = take_member(&members, "meters");
        let meters = match EstimatedMeters::decode(meters_text.as_str()) {
            Ok(record) => record,
            Err(_) => unreached(),
        };
        let miles_text: String = take_member(&members, "miles");
        let miles = match EstimatedMiles::decode(miles_text.as_str()) {
            Ok(record) => record,
            Err(_) => unreached(),
        };
        let feet_text: String = take_member(&members, "feet");
        let feet = match EstimatedFeet::decode(feet_text.as_str()) {
            Ok(record) => record,
            Err(_) => unreached(),
        };
        Ok(EstimatedDiameter { kilometers, meters, miles, feet })
    }
}

/// One close approach of an object to a body.
#[derive(Debug, Clone)]
pub struct CloseApproachData {
    pub close_approach_date: Date,
    pub close_approach_date_full: String,
    /// The moment of the approach in milliseconds since 1970, in the
    /// digits in which JSON writes the number.
    pub epoch_date_close_approach: String,
    pub relative_velocity: RelativeVelocity,
    pub miss_distance: MissDistance,
    pub orbiting_body: OrbitingBody,
}

impl CloseApproachData {
    /// Whether this record holds what a body writes, member by member.
    pub open spec fn written_in(self, body: Seq<char>) -> bool {
        &&& text_member(body, "close_approach_date"@) is Some
        &&& date_in(text_member(body, "close_approach_date"@).unwrap()) == Some(
            self.close_approach_date,
        )
        &&& text_member(body, "close_approach_date_full"@) == Some(self.close_approach_date_full@)
        &&& number_member(body, "epoch_date_close_approach"@) == Some(
            self.epoch_date_close_approach@,
        )
        &&& member_in(body, "relative_velocity"@) is Some
        &&& self.relative_velocity.written_in(member_in(body, "relative_velocity"@).unwrap())
        &&& member_in(body, "miss_distance"@) is Some
        &&& self.miss_distance.written_in(member_in(body, "miss_distance"@).unwrap())
        &&& text_member(body, "orbiting_body"@) == Some(self.orbiting_body.word())
    }

    /// Reads the record from a body, or says where the body first departs
    /// from its shape.
    pub fn decode(body: &str) -> (r: Result<CloseApproachData, DecodeFailure>)
        ensures
            match r {
                Ok(record) => has_shape(body@, approach_model()) && record.written_in(body@),
                Err(failure) => fault_in(body@, approach_model()) == Some(failure@),
            },
    {
        match check(body, &approach_shape()) {
            Some(failure) => {
                return Err(failure);
            },
            None => {},
        }
        proof {
            let fields = approach_model()->Record_0;
            lemma_text_member(body@, fields, 0);
            lemma_text_member(body@, fields, 1);
            lemma_plain_member(body@, fields, 2);
            lemma_record_sound(body@, fields, 3);
            lemma_record_sound(body@, fields, 4);
            lemma_word_member(body@, fields, 5, body_words());
        }
        let members = take_members(body);
        let day: String = take_text(&members, "close_approach_date");
        let close_approach_date = match Date::parse(day.as_str()) {
            Some(date) => date,
            None => unreached(),
        };
        let relative_velocity_text: String = take_member(&members, "relative_velocity");
        let relative_velocity = match RelativeVelocity::decode(relative_velocity_text.as_str()) {
            Ok(record) => record,
            Err(_) => unreached(),
        };
        let miss_distance_text: String = take_member(&members, "miss_distance");
        let miss_distance = match MissDistance::decode(miss_distance_text.as_str()) {
            Ok(record) => record,
            Err(_) => unreached(),
        };
        let word: String = take_text(&members, "orbiting_body");
        let orbiting_body = match OrbitingBody::from_name(word.as_str()) {
            Some(found) => found,
            None => {
                proof {
                    lemma_word_names_a_body(word@);
                }
                unreached()
            },
        };
        Ok(
            CloseApproachData {
                close_approach_date,
                close_approach_date_full: take_text(&members, "close_approach_date_full"),
                epoch_date_close_approach: take_number(&members, "epoch_date_close_approach"),
                relative_velocity,
                miss_distance,
                orbiting_body,
            },
        )
    }
}

/// Each of the words for the bodies names a body.
pub proof fn lemma_word_names_a_body(word: Seq<char>)
    requires
        body_words().contains(word),
    ensures
        exists|body: OrbitingBody| #[trigger] body.word() == word,
{
    let k = choose|k: int| 0 <= k < body_words().len() && body_words()[k] == word;
    if k == 0 {
        assert(OrbitingBody::Merc.word() == word);
    } else if k == 1 {
        assert(OrbitingBody::Venus.word() == word);
    } else if k == 2 {
        assert(OrbitingBody::Earth.word() == word);
    } else if k == 3 {
        assert(OrbitingBody::Mars.word() == word);
    } else if k == 4 {
        assert(OrbitingBody::Jupiter.word() == word);
    } else if k == 5 {
        assert(OrbitingBody::Saturn.word() == word);
    } else if k == 6 {
        assert(OrbitingBody::Uranus.word() == word);
    } else {
        assert(OrbitingBody::Neptune.word() == word);
    }
}

/// The elements of an orbit and how they were found.
pub open spec fn orbital_data_model() -> ShapeModel {
    ShapeModel::Record(
        seq![
            ("orbit_id"@, ShapeModel::Count),
            ("orbit_determination_date"@, ShapeModel::Text),
            ("first_observation_date"@, ShapeModel::Day),
            ("last_observation_date"@, ShapeModel::Day),
            ("data_arc_in_days"@, ShapeModel::Count),
            ("observations_used"@, ShapeModel::Count),
            ("orbit_uncertainty"@, ShapeModel::Number),
            ("minimum_orbit_intersection"@, ShapeModel::Number),
            ("jupiter_tisserand_invariant"@, ShapeModel::Number),
            ("epoch_osculation"@, ShapeModel::Number),
            ("eccentricity"@, ShapeModel::Number),
            ("semi_major_axis"@, ShapeModel::Number),
            ("inclination"@, ShapeModel::Number),
            ("ascending_node_longitude"@, ShapeModel::Number),
            ("orbital_period"@, ShapeModel::Number),
            ("perihelion_distance"@, ShapeModel::Number),
            ("perihelion_argument"@, ShapeModel::Number),
            ("aphelion_distance"@, ShapeModel::Number),
            ("perihelion_time"@, ShapeModel::Number),
            ("mean_anomaly"@, ShapeModel::Number),
            ("mean_motion"@, ShapeModel::Number),
            ("equinox"@, ShapeModel::Text),
            ("orbit_class"@, orbit_class_model()),
        ],
    )
}

/// The shape of the elements of an orbit.
pub fn orbital_data_shape() -> (shape: Shape)
    ensures
        shape.model() == orbital_data_model(),
{
    let mut fields = Vec::new();
    fields.push(field("orbit_id", Shape::Count));
    fields.push(field("orbit_determination_date", Shape::Text));
    fields.push(field("first_observation_date", Shape::Day));
    fields.push(field("last_observation_date", Shape::Day));
    fields.push(field("data_arc_in_days", Shape::Count));
    fields.push(field("observations_used", Shape::Count));
    fields.push(field("orbit_uncertainty", Shape::Number));
    fields.push(field("minimum_orbit_intersection", Shape::Number));
    fields.push(field("jupiter_tisserand_invariant", Shape::Number));
    fields.push(field("epoch_osculation", Shape::Number));
    fields.push(field("eccentricity", Shape::Number));
    fields.push(field("semi_major_axis", Shape::Number));
    fields.push(field("inclination", Shape::Number));
    fields.push(field("ascending_node_longitude", Shape::Number));
    fields.push(field("orbital_period", Shape::Number));
    fields.push(field("perihelion_distance", Shape::Number));
    fields.push(field("perihelion_argument", Shape::Number));
    fields.push(field("aphelion_distance", Shape::Number));
    fields.push(field("perihelion_time", Shape::Number));
    fields.push(field("mean_anomaly", Shape::Number));
    fields.push(field("mean_motion", Shape::Number));
    fields.push(field("equinox", Shape::Text));
    fields.push(field("orbit_class", orbit_class_shape()));
    let shape = record(fields);
    assert(shape.model()->Record_0 =~= orbital_data_model()->Record_0);
    shape
}

/// The elements of an orbit and how they were found. Counts are held as
/// numbers, measurements in the digits in which JSON writes them.
#[derive(Debug, Clone)]
pub struct OrbitalData {
    pub orbit_id: u64,
    pub orbit_determination_date: String,
    pub first_observation_date: Date,
    pub last_observation_date: Date,
    pub data_arc_in_days: u64,
    pub observations_used: u64,
    pub orbit_uncertainty: String,
    pub minimum_orbit_intersection: String,
    pub jupiter_tisserand_invariant: String,
    pub epoch_osculation: String,
    pub eccentricity: String,
    pub semi_major_axis: String,
    pub inclination: String,
    pub ascending_node_longitude: String,
    pub orbital_period: String,
    pub perihelion_distance: String,
    pub perihelion_argument: String,
    pub aphelion_distance: String,
    pub perihelion_time: String,
    pub mean_anomaly: String,
    pub mean_motion: String,
    pub equinox: String,
    pub orbit_class: OrbitClass,
}

impl OrbitalData {
    /// Whether this record holds what a body writes, member by member.
    pub open spec fn written_in(self, body: Seq<char>) -> bool {
        &&& count_member(body, "orbit_id"@) == Some(self.orbit_id)
        &&& text_member(body, "orbit_determination_date"@) == Some(self.orbit_determination_date@)
        &&& text_member(body, "first_observation_date"@) is Some
        &&& date_in(text_member(body, "first_observation_date"@).unwrap()) == Some(self.first_observation_date)
        &&& text_member(body, "last_observation_date"@) is Some
        &&& date_in(text_member(body, "last_observation_date"@).unwrap()) == Some(self.last_observation_date)
        &&& count_member(body, "data_arc_in_days"@) == Some(self.data_arc_in_days)
        &&& count_member(body, "observations_used"@) == Some(self.observations_used)
        &&& number_member(body, "orbit_uncertainty"@) == Some(self.orbit_uncertainty@)
        &&& number_member(body, "minimum_orbit_intersection"@) == Some(self.minimum_orbit_intersection@)
        &&& number_member(body, "jupiter_tisserand_invariant"@) == Some(self.jupiter_tisserand_invariant@)
        &&& number_member(body, "epoch_osculation"@) == Some(self.epoch_osculation@)
        &&& number_member(body, "eccentricity"@) == Some(self.eccentricity@)
        &&& number_member(body, "semi_major_axis"@) == Some(self.semi_major_axis@)
        &&& number_member(body, "inclination"@) == Some(self.inclination@)
        &&& number_member(body, "ascending_node_longitude"@) == Some(self.ascending_node_longitude@)
        &&& number_member(body, "orbital_period"@) == Some(self.orbital_period@)
        &&& number_member(body, "perihelion_distance"@) == Some(self.perihelion_distance@)
        &&& number_member(body, "perihelion_argument"@) == Some(self.perihelion_argument@)
        &&& number_member(body, "aphelion_distance"@) == Some(self.aphelion_distance@)
        &&& number_member(body, "perihelion_time"@) == Some(self.perihelion_time@)
        &&& number_member(body, "mean_anomaly"@) == Some(self.mean_anomaly@)
        &&& number_member(body, "mean_motion"@) == Some(self.mean_motion@)
        &&& text_member(body, "equinox"@) == Some(self.equinox@)
        &&& member_in(body, "orbit_class"@) is Some
        &&& self.orbit_class.written_in(member_in(body, "orbit_class"@).unwrap())
    }

    /// Reads the elements of an orbit from a body, or says where the body
    /// first departs from their shape.
    pub fn decode(body: &str) -> (r: Result<OrbitalData, DecodeFailure>)
        ensures
            match r {
                Ok(record) => has_shape(body@, orbital_data_model()) && record.written_in(body@),
                Err(failure) => fault_in(body@, orbital_data_model()) == Some(failure@),
            },
    {
        match check(body, &orbital_data_shape()) {
            Some(failure) => {
                return Err(failure);
            },
            None => {},
        }
        proof {
            let fields = orbital_data_model()->Record_0;
            lemma_count_member(body@, fields, 0);
            lemma_text_member(body@, fields, 1);
            lemma_text_member(body@, fields, 2);
            lemma_text_member(body@, fields, 3);
            lemma_count_member(body@, fields, 4);
            lemma_count_member(body@, fields, 5);
            lemma_plain_member(body@, fields, 6);
            lemma_plain_member(body@, fields, 7);
            lemma_plain_member(body@, fields, 8);
            lemma_plain_member(body@, fields, 9);
            lemma_plain_member(body@, fields, 10);
            lemma_plain_member(body@, fields, 11);
            lemma_plain_member(body@, fields, 12);
            lemma_plain_member(body@, fields, 13);
            lemma_plain_member(body@, fields, 14);
            lemma_plain_member(body@, fields, 15);
            lemma_plain_member(body@, fields, 16);
            lemma_plain_member(body@, fields, 17);
            lemma_plain_member(body@, fields, 18);
            lemma_plain_member(body@, fields, 19);
            lemma_plain_member(body@, fields, 20);
            lemma_text_member(body@, fields, 21);
            lemma_record_sound(body@, fields, 22);
        }
        let members = take_members(body);
        let first_observation_date_text: String = take_text(&members, "first_observation_date");
        let first_observation_date = match Date::parse(first_observation_date_text.as_str()) {
            Some(date) => date,
            None => unreached(),
        };
        let last_observation_date_text: String = take_text(&members, "last_observation_date");
        let last_observation_date = match Date::parse(last_observation_date_text.as_str()) {
            Some(date) => date,
            None => unreached(),
        };
        let orbit_class_text: String = take_member(&members, "orbit_class");
        let orbit_class = match OrbitClass::decode(orbit_class_text.as_str()) {
            Ok(record) => record,
            Err(_) => unreached(),
        };
        Ok(
            OrbitalData {
                orbit_id: take_count(&members, "orbit_id"),
                orbit_determination_date: take_text(&members, "orbit_determination_date"),
                first_observation_date,
                last_observation_date,
                data_arc_in_days: take_count(&members, "data_arc_in_days"),
                observations_used: take_count(&members, "observations_used"),
                orbit_uncertainty: take_number(&members, "orbit_uncertainty"),
                minimum_orbit_intersection: take_number(&members, "minimum_orbit_intersection"),
                jupiter_tisserand_invariant: take_number(&members, "jupiter_tisserand_invariant"),
                epoch_osculation: take_number(&members, "epoch_osculation"),
                eccentricity: take_number(&members, "eccentricity"),
                semi_major_axis: take_number(&members, "semi_major_axis"),
                inclination: take_number(&members, "inclination"),
                ascending_node_longitude: take_number(&members, "ascending_node_longitude"),
                orbital_period: take_number(&members, "orbital_period"),
                perihelion_distance: take_number(&members, "perihelion_distance"),
                perihelion_argument: take_number(&members, "perihelion_argument"),
                aphelion_distance: take_number(&members, "aphelion_distance"),
                perihelion_time: take_number(&members, "perihelion_time"),
                mean_anomaly: take_number(&members, "mean_anomaly"),
                mean_motion: take_number(&members, "mean_motion"),
                equinox: take_text(&members, "equinox"),
                orbit_class,
            },
        )
    }
}

/// The record of a near-earth object.
#[derive(Debug, Clone)]
pub struct NearEarthObject {
    pub id: String,
    pub neo_reference_id: String,
    pub name: String,
    pub designation: String,
    pub nasa_jpl_url: String,
    /// The absolute magnitude, in the digits in which JSON writes it.
    pub absolute_magnitude_h: String,
    pub estimated_diameter: EstimatedDiameter,
    pub is_potentially_hazardous_asteroid: bool,
    pub close_approach_data: Vec<CloseApproachData>,
    pub orbital_date: Option<OrbitClass>,
    pub is_sentry_object: bool,
}

impl NearEarthObject {
    /// Whether this record holds what a body writes, member by member and
    /// approach by approach; the class of the orbit where the body has one.
    pub open spec fn written_in(self, body: Seq<char>) -> bool {
        &&& text_member(body, "id"@) == Some(self.id@)
        &&& text_member(body, "neo_reference_id"@) == Some(self.neo_reference_id@)
        &&& text_member(body, "name"@) == Some(self.name@)
        &&& text_member(body, "designation"@) == Some(self.designation@)
        &&& text_member(body, "nasa_jpl_url"@) == Some(self.nasa_jpl_url@)
        &&& parsed_url(self.nasa_jpl_url@) is Ok
        &&& number_member(body, "absolute_magnitude_h"@) == Some(self.absolute_magnitude_h@)
        &&& member_in(body, "estimated_diameter"@) is Some
        &&& self.estimated_diameter.written_in(member_in(body, "estimated_diameter"@).unwrap())
        &&& flag_member(body, "is_potentially_hazardous_asteroid"@) == Some(
            self.is_potentially_hazardous_asteroid,
        )
        &&& items_member(body, "close_approach_data"@) is Some
        &&& self.close_approach_data@.len() == items_member(
            body,
            "close_approach_data"@,
        ).unwrap().len()
        &&& forall|i: int|
            0 <= i < self.close_approach_data@.len() ==> (
            #[trigger] self.close_approach_data@[i]).written_in(
                items_member(body, "close_approach_data"@).unwrap()[i],
            )
        &&& match self.orbital_date {
            Some(class) => member_in(body, "orbital_date"@) is Some && class.written_in(
                member_in(body, "orbital_date"@).unwrap(),
            ),
            None => member_in(body, "orbital_date"@) is None || is_null(
                member_in(body, "orbital_date"@).unwrap(),
            ),
        }
        &&& flag_member(body, "is_sentry_object"@) == Some(self.is_sentry_object)
    }

    /// Reads the record of an object from a body, or says where the body
    /// first departs from its shape.
    pub fn decode(body: &str) -> (r: Result<NearEarthObject, DecodeFailure>)
        ensures
            match r {
                Ok(record) => has_shape(body@, neo_model()) && record.written_in(body@),
                Err(failure) => fault_in(body@, neo_model()) == Some(failure@),
            },
    {
        match check(body, &neo_shape()) {
            Some(failure) => {
                return Err(failure);
            },
            None => {},
        }
        proof {
            let fields = neo_model()->Record_0;
            lemma_text_member(body@, fields, 0);
            lemma_text_member(body@, fields, 1);
            lemma_text_member(body@, fields, 2);
            lemma_text_member(body@, fields, 3);
            lemma_text_member(body@, fields, 4);
            lemma_plain_member(body@, fields, 5);
            lemma_record_sound(body@, fields, 6);
            lemma_plain_member(body@, fields, 7);
            lemma_list_member(body@, fields, 8, approach_model());
            lemma_optional_member(body@, fields, 9, orbit_class_model());
            lemma_plain_member(body@, fields, 10);
        }
        let members = take_members(body);
        let estimated_diameter_text: String = take_member(&members, "estimated_diameter");
        let estimated_diameter = match EstimatedDiameter::decode(estimated_diameter_text.as_str()) {
            Ok(record) => record,
            Err(_) => unreached(),
        };
        let items = take_items(&members, "close_approach_data");
        let mut close_approach_data: Vec<CloseApproachData> = Vec::new();
        let mut i: usize = 0;
        while i < items.len()
            invariant
                i <= items@.len(),
                close_approach_data@.len() == i,
                forall|j: int|
                    0 <= j < items@.len() ==> fault_in(
                        #[trigger] texts_of(items@)[j],
                        approach_model(),
                    ) is None,
                forall|j: int|
                    0 <= j < i ==> (#[trigger] close_approach_data@[j]).written_in(
                        texts_of(items@)[j],
                    ),
            decreases items@.len() - i,
        {
            proof {
                assert(fault_in(texts_of(items@)[i as int], approach_model()) is None);
            }
            match CloseApproachData::decode(items[i].as_str()) {
                Ok(approach) => {
                    close_approach_data.push(approach);
                },
                Err(_) => {
                    unreached::<()>();
                },
            }
            i = i + 1;
        }
        let orbital_date = match take_present(&members, "orbital_date") {
            Some(text) => match OrbitClass::decode(text.as_str()) {
                Ok(class) => Some(class),
                Err(_) => unreached(),
            },
            None => None,
        };
        Ok(
            NearEarthObject {
                id: take_text(&members, "id"),
                neo_reference_id: take_text(&members, "neo_reference_id"),
                name: take_text(&members, "name"),
                designation: take_text(&members, "designation"),
                nasa_jpl_url: take_text(&members, "nasa_jpl_url"),
                absolute_magnitude_h: take_number(&members, "absolute_magnitude_h"),
                estimated_diameter,
                is_potentially_hazardous_asteroid: take_flag(
                    &members,
                    "is_potentially_hazardous_asteroid",
                ),
                close_approach_data,
                orbital_date,
                is_sentry_object: take_flag(&members, "is_sentry_object"),
            },
        )
    }
}

/// Where the record of one object is asked for.
pub open spec fn neo_address(asteroid_id: u64) -> Seq<char> {
    "https://api.nasa.gov/neo/rest/v1/neo/"@ + decimal(asteroid_id as nat)
}

/// The parameters of a lookup: the key.
pub open spec fn neo_query(key: Seq<char>) -> Seq<(Seq<char>, Seq<char>)> {
    seq![("api_key"@, key)]
}

/// Looks up near-earth objects.
#[derive(Debug, Clone)]
pub struct NeoHandler {
    pub api_key: String,
}

impl NeoHandler {
    /// The parameters of a lookup.
    pub fn finalize(&self) -> (set: QueryParameterSet)
        ensures
            set@ == neo_query(self.api_key@),
    {
        let set = QueryParameterSet::new().with("api_key", Some(self.api_key.clone()));
        assert(set@ =~= neo_query(self.api_key@));
        set
    }

    /// Opens the lookup of an object by its SPK-ID, the number under which
    /// JPL's database of small bodies knows it.
    pub fn lookup(&self, asteroid_id: u64) -> (r: (Stage, Action))
        ensures
            opens(neo_address(asteroid_id), neo_query(self.api_key@), neo_model(), r.0, r.1),
            r.1 is Get <==> sendable(neo_address(asteroid_id), neo_query(self.api_key@)),
    {
        let mut address: String = "https://api.nasa.gov/neo/rest/v1/neo/".to_owned();
        let id: String = format_decimal(asteroid_id);
        address.append(id.as_str());
        let set = self.finalize();
        begin(address.as_str(), &set, neo_shape())
    }
}

} // verus!
