//! Astronomy Photo of the Day.

use vstd::prelude::*;
use vstd::pervasive::unreached;
use crate::address::{parsed_url, sendable};
use crate::date::{date_in, Date};
use crate::extract::{lemma_text_member, take_members, take_optional_text, take_text, text_member};
use crate::shape::{check, has_shape, fault_in, DecodeFailure};
use crate::exchange::{begin, opens, Action, Stage};
use crate::query::{flag_text, has_name, has_pair, offered, QueryParameterSet};
use crate::shape::{field, maybe, record, Shape, ShapeModel};

verus! {

/// Where the photo of the day is asked for.
pub open spec fn apod_address() -> Seq<char> {
    "https://api.nasa.gov/planetary/apod"@
}

/// The shape of the answer: a copyright where the image is not in the public
/// domain, and seven members that are always there.
pub open spec fn apod_model() -> ShapeModel {
    ShapeModel::Record(
        seq![
            ("copyright"@, ShapeModel::Maybe(Box::new(ShapeModel::Text))),
            ("date"@, ShapeModel::Day),
            ("explanation"@, ShapeModel::Text),
            ("hdurl"@, ShapeModel::Link),
            ("media_type"@, ShapeModel::Text),
            ("service_version"@, ShapeModel::Text),
            ("title"@, ShapeModel::Text),
            ("url"@, ShapeModel::Link),
        ],
    )
}

/// The shape of the answer.
pub fn apod_shape() -> (shape: Shape)
    ensures
        shape.model() == apod_model(),
{
    let mut fields = Vec::new();
    fields.push(field("copyright", maybe(Shape::Text)));
    fields.push(field("date", Shape::Day));
    fields.push(field("explanation", Shape::Text));
    fields.push(field("hdurl", Shape::Link));
    fields.push(field("media_type", Shape::Text));
    fields.push(field("service_version", Shape::Text));
    fields.push(field("title", Shape::Text));
    fields.push(field("url", Shape::Link));
    let shape = record(fields);
    assert(shape.model()->Record_0 =~= apod_model()->Record_0);
    shape
}

/// The photo of the day. A copyright is there where the image is not in the
/// public domain.
#[derive(Debug, Clone)]
pub struct Apod {
    pub copyright: Option<String>,
    pub date: Date,
    pub explanation: String,
    pub hdurl: String,
    pub media_type: String,
    pub service_version: String,
    pub title: String,
    pub url: String,
}

impl Apod {
    /// Whether this record holds what a body writes, member by member: the
    /// copyright where the body has one, the date that the body names, and
    /// two links that are absolute URLs.
    pub open spec fn written_in(self, body: Seq<char>) -> bool {
        &&& text_member(body, "copyright"@) == match self.copyright {
            Some(c) => Some(c@),
            None => None,
        }
        &&& text_member(body, "date"@) is Some
        &&& date_in(text_member(body, "date"@).unwrap()) == Some(self.date)
        &&& text_member(body, "explanation"@) == Some(self.explanation@)
        &&& text_member(body, "hdurl"@) == Some(self.hdurl@)
        &&& parsed_url(self.hdurl@) is Ok
        &&& text_member(body, "media_type"@) == Some(self.media_type@)
        &&& text_member(body, "service_version"@) == Some(self.service_version@)
        &&& text_member(body, "title"@) == Some(self.title@)
        &&& text_member(body, "url"@) == Some(self.url@)
        &&& parsed_url(self.url@) is Ok
    }

    /// Reads the photo of the day from a body, or says where the body first
    /// departs from its shape.
    pub fn decode(body: &str) -> (r: Result<Apod, DecodeFailure>)
        ensures
            match r {
                Ok(apod) => has_shape(body@, apod_model()) && apod.written_in(body@),
                Err(failure) => fault_in(body@, apod_model()) == Some(failure@),
            },
    {
        match check(body, &apod_shape()) {
            Some(failure) => {
                return Err(failure);
            },
            None => {},
        }
        proof {
            let fields = apod_model()->Record_0;
            lemma_text_member(body@, fields, 1);
            lemma_text_member(body@, fields, 2);
            lemma_text_member(body@, fields, 3);
            lemma_text_member(body@, fields, 4);
            lemma_text_member(body@, fields, 5);
            lemma_text_member(body@, fields, 6);
            lemma_text_member(body@, fields, 7);
        }
        let members = take_members(body);
        let day: String = take_text(&members, "date");
        let date = match Date::parse(day.as_str()) {
            Some(date) => date,
            None => unreached(),
        };
        Ok(
            Apod {
                copyright: take_optional_text(&members, "copyright"),
                date,
                explanation: take_text(&members, "explanation"),
                hdurl: take_text(&members, "hdurl"),
                media_type: take_text(&members, "media_type"),
                service_version: take_text(&members, "service_version"),
                title: take_text(&members, "title"),
                url: take_text(&members, "url"),
            },
        )
    }
}

/// The parameters of a request for the photo of the day: the date and the
/// resolution where they were chosen, and always the key.
pub open spec fn apod_query(date: Option<Seq<char>>, hd: Option<bool>, key: Seq<char>) -> Seq<
    (Seq<char>, Seq<char>),
> {
    let none = Seq::<(Seq<char>, Seq<char>)>::empty();
    let with_date = offered(none, "date"@, date);
    let with_hd = offered(
        with_date,
        "hd"@,
        match hd {
            Some(flag) => Some(flag_text(flag)),
            None => None,
        },
    );
    with_hd.push(("api_key"@, key))
}

/// Gives out requests for the photo of the day.
#[derive(Debug, Clone)]
pub struct ApodHandler {
    pub api_key: String,
}

impl ApodHandler {
    /// A request with nothing chosen yet.
    pub fn get(&self) -> (builder: ApodRequestBuilder)
        ensures
            builder.date is None,
            builder.hd is None,
            builder.api_key@ == self.api_key@,
    {
        ApodRequestBuilder { date: None, hd: None, api_key: self.api_key.clone() }
    }
}

/// A request for the photo of the day while it is put together. Each choice
/// gives a new value and leaves no other request changed.
#[derive(Debug, Clone)]
pub struct ApodRequestBuilder {
    pub date: Option<String>,
    pub hd: Option<bool>,
    pub api_key: String,
}

impl ApodRequestBuilder {
    /// The chosen date as text, if one was chosen.
    pub open spec fn date_text(self) -> Option<Seq<char>> {
        match self.date {
            Some(text) => Some(text@),
            None => None,
        }
    }

    /// The parameters that this request will carry.
    pub open spec fn query(self) -> Seq<(Seq<char>, Seq<char>)> {
        apod_query(self.date_text(), self.hd, self.api_key@)
    }

    /// Chooses the day, which is sent as `YYYY-MM-DD`.
    pub fn date(self, date: Date) -> (builder: ApodRequestBuilder)
        requires
            date.wf(),
        ensures
            builder.date_text() == Some(date.text()),
            builder.hd == self.hd,
            builder.api_key@ == self.api_key@,
    {
        ApodRequestBuilder { date: Some(date.format()), hd: self.hd, api_key: self.api_key }
    }

    /// Chooses whether the image is wanted in high resolution.
    pub fn hd(self, hd: bool) -> (builder: ApodRequestBuilder)
        ensures
            builder.hd == Some(hd),
            builder.date_text() == self.date_text(),
            builder.api_key@ == self.api_key@,
    {
        ApodRequestBuilder { date: self.date, hd: Some(hd), api_key: self.api_key }
    }

    /// The parameters of the request: what was chosen, and the key. What was
    /// not chosen is not among them.
    pub fn finalize(&self) -> (set: QueryParameterSet)
        ensures
            set@ == self.query(),
    {
        let set = QueryParameterSet::new();
        let set = set.with("date", self.date.clone());
        let set = set.with_flag("hd", self.hd);
        set.with("api_key", Some(self.api_key.clone()))
    }

    /// Opens the call: says what is to be sent, or why nothing can be.
    pub fn send(self) -> (r: (Stage, Action))
        ensures
            opens(apod_address(), self.query(), apod_model(), r.0, r.1),
            r.1 is Get <==> sendable(apod_address(), self.query()),
    {
        let set = self.finalize();
        begin("https://api.nasa.gov/planetary/apod", &set, apod_shape())
    }
}

/// What was not chosen is not sent, under any value; what was chosen is
/// sent with its canonical text; the key is always sent.
pub proof fn lemma_apod_query(date: Option<Seq<char>>, hd: Option<bool>, key: Seq<char>)
    ensures
        has_name(apod_query(date, hd, key), "date"@) <==> date is Some,
        has_name(apod_query(date, hd, key), "hd"@) <==> hd is Some,
        date is Some ==> has_pair(apod_query(date, hd, key), "date"@, date.unwrap()),
        hd is Some ==> has_pair(apod_query(date, hd, key), "hd"@, flag_text(hd.unwrap())),
        has_pair(apod_query(date, hd, key), "api_key"@, key),
        apod_query(date, hd, key).len() == 1 + (if date is Some { 1int } else { 0 }) + (if hd is Some {
            1int
        } else {
            0
        }),
{
    reveal_strlit("date");
    reveal_strlit("hd");
    reveal_strlit("api_key");
    let q = apod_query(date, hd, key);
    assert("date"@ != "hd"@) by {
        assert("date"@.len() != "hd"@.len());
    }
    assert("date"@ != "api_key"@) by {
        assert("date"@.len() != "api_key"@.len());
    }
    assert("hd"@ != "api_key"@) by {
        assert("hd"@.len() != "api_key"@.len());
    }
    assert(q[q.len() - 1] == ("api_key"@, key));
    if date is Some {
        assert(q[0] == ("date"@, date.unwrap()));
        if hd is Some {
            assert(q[1] == ("hd"@, flag_text(hd.unwrap())));
        }
    } else {
        if hd is Some {
            assert(q[0] == ("hd"@, flag_text(hd.unwrap())));
        }
    }
}

} // verus!
