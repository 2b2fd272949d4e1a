//! Two-line elements: the orbits of satellites at a point in time.

use vstd::prelude::*;
use vstd::string::*;
use vstd::pervasive::unreached;
use crate::document::texts_of;
use crate::address::parsed_url;
use crate::exchange::{begin, opens, Action, Stage};
use crate::extract::{
    count_member, items_member, lemma_count_member, lemma_list_member, lemma_text_member,
    take_count, take_items, take_members, take_text, text_member,
};
use crate::shape::{check, has_shape, fault_in, DecodeFailure};
use crate::query::QueryParameterSet;
use crate::shape::{field, list, record, Shape, ShapeModel};

verus! {

/// The record of one satellite.
pub open spec fn satellite_model() -> ShapeModel {
    ShapeModel::Record(
        seq![
            ("@id"@, ShapeModel::Text),
            ("@type"@, ShapeModel::Text),
            ("satelliteId"@, ShapeModel::Count),
            ("name"@, ShapeModel::Text),
            ("date"@, ShapeModel::Text),
            ("line1"@, ShapeModel::Text),
            ("line2"@, ShapeModel::Text),
        ],
    )
}

/// One page of the satellites that a search found.
pub open spec fn satellite_page_model() -> ShapeModel {
    ShapeModel::Record(
        seq![
            ("@context"@, ShapeModel::Text),
            ("@id"@, ShapeModel::Text),
            ("@type"@, ShapeModel::Text),
            ("totalItems"@, ShapeModel::Count),
            ("member"@, ShapeModel::List(Box::new(satellite_model()))),
        ],
    )
}

/// The shape of the record of one satellite.
pub fn satellite_shape() -> (shape: Shape)
    ensures
        shape.model() == satellite_model(),
{
    let mut fields = Vec::new();
    fields.push(field("@id", Shape::Text));
    fields.push(field("@type", Shape::Text));
    fields.push(field("satelliteId", Shape::Count));
    fields.push(field("name", Shape::Text));
    fields.push(field("date", Shape::Text));
    fields.push(field("line1", Shape::Text));
    fields.push(field("line2", Shape::Text));
    let shape = record(fields);
    assert(shape.model()->Record_0 =~= satellite_model()->Record_0);
    shape
}

/// The shape of one page of a search.
pub fn satellite_page_shape() -> (shape: Shape)
    ensures
        shape.model() == satellite_page_model(),
{
    let mut fields = Vec::new();
    fields.push(field("@context", Shape::Text));
    fields.push(field("@id", Shape::Text));
    fields.push(field("@type", Shape::Text));
    fields.push(field("totalItems", Shape::Count));
    fields.push(field("member", list(satellite_shape())));
    let shape = record(fields);
    assert(shape.model()->Record_0 =~= satellite_page_model()->Record_0);
    shape
}

/// Where satellites are searched by name.
pub open spec fn search_address(name: Seq<char>) -> Seq<char> {
    "https://tle.ivanstanojevic.me/api/tle?search="@ + name
}

/// Where one satellite is asked for.
pub open spec fn satellite_address(id: Seq<char>) -> Seq<char> {
    "https://tle.ivanstanojevic.me/api/tle/"@ + id
}

/// Gives out requests for two-line elements.
#[derive(Debug, Clone)]
pub struct TLEHandler {}

impl TLEHandler {
    /// A request.
    pub fn get(&self) -> (builder: TLERequestBuilder) {
        TLERequestBuilder {  }
    }
}

/// A request for two-line elements. The service asks for no key and no
/// parameters: what is looked for is part of the address.
#[derive(Debug, Clone)]
pub struct TLERequestBuilder {}

impl TLERequestBuilder {
    /// Opens a search for satellites by name. The name is put into the
    /// address as it is given.
    pub fn lookup_name(&self, name: &str) -> (r: (Stage, Action))
        ensures
            opens(
                search_address(name@),
                Seq::<(Seq<char>, Seq<char>)>::empty(),
                satellite_page_model(),
                r.0,
                r.1,
            ),
            r.1 is Get <==> parsed_url(search_address(name@)) is Ok,
    {
        let mut address: String = "https://tle.ivanstanojevic.me/api/tle?search=".to_owned();
        address.append(name);
        begin(address.as_str(), &QueryParameterSet::new(), satellite_page_shape())
    }

    /// Opens the lookup of one satellite by its number.
    pub fn lookup_id(&self, id: &str) -> (r: (Stage, Action))
        ensures
            opens(
                satellite_address(id@),
                Seq::<(Seq<char>, Seq<char>)>::empty(),
                satellite_model(),
                r.0,
                r.1,
            ),
            r.1 is Get <==> parsed_url(satellite_address(id@)) is Ok,
    {
        let mut address: String = "https://tle.ivanstanojevic.me/api/tle/".to_owned();
        address.append(id);
        begin(address.as_str(), &QueryParameterSet::new(), satellite_shape())
    }
}

/// The two-line elements of one satellite.
#[derive(Debug, Clone)]
pub struct Satellite {
    pub id: String,
    pub result_type: String,
    pub satellite_id: u64,
    pub name: String,
    pub date: String,
    pub line1: String,
    pub line2: String,
}

impl Satellite {
    /// Whether this record holds what a body writes, member by member.
    pub open spec fn written_in(self, body: Seq<char>) -> bool {
        &&& text_member(body, "@id"@) == Some(self.id@)
        &&& text_member(body, "@type"@) == Some(self.result_type@)
        &&& count_member(body, "satelliteId"@) == Some(self.satellite_id)
        &&& text_member(body, "name"@) == Some(self.name@)
        &&& text_member(body, "date"@) == Some(self.date@)
        &&& text_member(body, "line1"@) == Some(self.line1@)
        &&& text_member(body, "line2"@) == Some(self.line2@)
    }

    /// Reads the record of one satellite from a body, or says where the body
    /// first departs from the shape of such a record.
    pub fn decode(body: &str) -> (r: Result<Satellite, DecodeFailure>)
        ensures
            match r {
                Ok(satellite) => has_shape(body@, satellite_model()) && satellite.written_in(body@),
                Err(failure) => fault_in(body@, satellite_model()) == Some(failure@),
            },
    {
        match check(body, &satellite_shape()) {
            Some(failure) => {
                return Err(failure);
            },
            None => {},
        }
        proof {
            let fields = satellite_model()->Record_0;
            lemma_text_member(body@, fields, 0);
            lemma_text_member(body@, fields, 1);
            lemma_count_member(body@, fields, 2);
            lemma_text_member(body@, fields, 3);
            lemma_text_member(body@, fields, 4);
            lemma_text_member(body@, fields, 5);
            lemma_text_member(body@, fields, 6);
        }
        let members = take_members(body);
        Ok(
            Satellite {
                id: take_text(&members, "@id"),
                result_type: take_text(&members, "@type"),
                satellite_id: take_count(&members, "satelliteId"),
                name: take_text(&members, "name"),
                date: take_text(&members, "date"),
                line1: take_text(&members, "line1"),
                line2: take_text(&members, "line2"),
            },
        )
    }
}

/// One page of the satellites that a search by name found.
#[derive(Debug, Clone)]
pub struct TLESatelliteName {
    pub context: String,
    pub id: String,
    pub result_type: String,
    pub total_items: u64,
    pub member: Vec<Satellite>,
}

impl TLESatelliteName {
    /// Whether this page holds what a body writes, member by member and
    /// satellite by satellite.
    pub open spec fn written_in(self, body: Seq<char>) -> bool {
        &&& text_member(body, "@context"@) == Some(self.context@)
        &&& text_member(body, "@id"@) == Some(self.id@)
        &&& text_member(body, "@type"@) == Some(self.result_type@)
        &&& count_member(body, "totalItems"@) == Some(self.total_items)
        &&& items_member(body, "member"@) is Some
        &&& self.member@.len() == items_member(body, "member"@).unwrap().len()
        &&& forall|i: int|
            0 <= i < self.member@.len() ==> (#[trigger] self.member@[i]).written_in(
                items_member(body, "member"@).unwrap()[i],
            )
    }

    /// Reads one page of a search from a body, or says where the body first
    /// departs from the shape of such a page.
    pub fn decode(body: &str) -> (r: Result<TLESatelliteName, DecodeFailure>)
        ensures
            match r {
                Ok(page) => has_shape(body@, satellite_page_model()) && page.written_in(body@),
                Err(failure) => fault_in(body@, satellite_page_model()) == Some(failure@),
            },
    {
        match check(body, &satellite_page_shape()) {
            Some(failure) => {
                return Err(failure);
            },
            None => {},
        }
        proof {
            let fields = satellite_page_model()->Record_0;
            lemma_text_member(body@, fields, 0);
            lemma_text_member(body@, fields, 1);
            lemma_text_member(body@, fields, 2);
            lemma_count_member(body@, fields, 3);
            lemma_list_member(body@, fields, 4, satellite_model());
        }
        let members = take_members(body);
        let items = take_items(&members, "member");
        let mut member: Vec<Satellite> = Vec::new();
        let mut i: usize = 0;
        while i < items.len()
            invariant
                i <= items@.len(),
                member@.len() == i,
                items_member(body@, "member"@) == Some(texts_of(items@)),
                forall|j: int|
                    0 <= j < items@.len() ==> fault_in(
                        #[trigger] texts_of(items@)[j],
                        satellite_model(),
                    ) is None,
                forall|j: int|
                    0 <= j < i ==> (#[trigger] member@[j]).written_in(texts_of(items@)[j]),
            decreases items@.len() - i,
        {
            proof {
                assert(fault_in(texts_of(items@)[i as int], satellite_model()) is None);
            }
            match Satellite::decode(items[i].as_str()) {
                Ok(satellite) => {
                    member.push(satellite);
                },
                Err(_) => {
                    unreached::<()>();
                },
            }
            i = i + 1;
        }
        Ok(
            TLESatelliteName {
                context: take_text(&members, "@context"),
                id: take_text(&members, "@id"),
                result_type: take_text(&members, "@type"),
                total_items: take_count(&members, "totalItems"),
                member,
            },
        )
    }
}

} // verus!
