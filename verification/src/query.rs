//! The parameters of one request: names with their values, in the order in
//! which they were given. A parameter without a value is never held.

use vstd::prelude::*;
use crate::date::Date;

verus! {

/// One parameter with its value as text.
#[derive(Debug, Clone)]
pub struct Parameter {
    pub name: String,
    pub value: String,
}

impl View for Parameter {
    type V = (Seq<char>, Seq<char>);

    open spec fn view(&self) -> (Seq<char>, Seq<char>) {
        (self.name@, self.value@)
    }
}

/// The parameters of one request.
#[derive(Debug)]
pub struct QueryParameterSet {
    pub entries: Vec<Parameter>,
}

impl View for QueryParameterSet {
    type V = Seq<(Seq<char>, Seq<char>)>;

    open spec fn view(&self) -> Seq<(Seq<char>, Seq<char>)> {
        Seq::new(self.entries@.len(), |i: int| self.entries@[i]@)
    }
}

/// Whether a name is among the parameters.
pub open spec fn has_name(pairs: Seq<(Seq<char>, Seq<char>)>, name: Seq<char>) -> bool {
    exists|i: int| 0 <= i < pairs.len() && (#[trigger] pairs[i]).0 == name
}

/// Whether a name is among the parameters with this value.
pub open spec fn has_pair(pairs: Seq<(Seq<char>, Seq<char>)>, name: Seq<char>, value: Seq<char>) -> bool {
    exists|i: int| 0 <= i < pairs.len() && #[trigger] pairs[i] == (name, value)
}

/// The parameters after one more was offered: with a value it is added at the
/// end, without one nothing changes.
pub open spec fn offered(
    pairs: Seq<(Seq<char>, Seq<char>)>,
    name: Seq<char>,
    value: Option<Seq<char>>,
) -> Seq<(Seq<char>, Seq<char>)> {
    match value {
        Some(v) => pairs.push((name, v)),
        None => pairs,
    }
}

/// The text of a flag.
pub open spec fn flag_text(flag: bool) -> Seq<char> {
    if flag { "true"@ } else { "false"@ }
}

/// Writes a flag as `true` or `false`.
pub fn format_flag(flag: bool) -> (r: String)
    ensures
        r@ == flag_text(flag),
{
    if flag { "true".to_owned() } else { "false".to_owned() }
}

impl QueryParameterSet {
    /// No parameters.
    pub fn new() -> (r: QueryParameterSet)
        ensures
            r@ == Seq::<(Seq<char>, Seq<char>)>::empty(),
    {
        let r = QueryParameterSet { entries: Vec::new() };
        assert(r@ =~= Seq::<(Seq<char>, Seq<char>)>::empty());
        r
    }

    /// The number of parameters.
    pub fn len(&self) -> (n: usize)
        ensures
            n == self@.len(),
    {
        self.entries.len()
    }

    /// Offers a parameter. One without a value is left out altogether.
    pub fn with(self, name: &str, value: Option<String>) -> (r: QueryParameterSet)
        ensures
            r@ == offered(
                self@,
                name@,
                match value {
                    Some(v) => Some(v@),
                    None => None,
                },
            ),
    {
        let ghost before = self@;
        let mut entries = self.entries;
        match value {
            Some(v) => {
                entries.push(Parameter { name: name.to_owned(), value: v });
                let r = QueryParameterSet { entries };
                assert(r@ =~= before.push((name@, v@)));
                r
            },
            None => {
                let r = QueryParameterSet { entries };
                assert(r@ =~= before);
                r
            },
        }
    }

    /// Offers a flag, which is sent as `true` or `false`. One that was not
    /// chosen is left out altogether, not sent as `false`.
    pub fn with_flag(self, name: &str, flag: Option<bool>) -> (r: QueryParameterSet)
        ensures
            r@ == offered(
                self@,
                name@,
                match flag {
                    Some(f) => Some(flag_text(f)),
                    None => None,
                },
            ),
    {
        match flag {
            Some(f) => self.with(name, Some(format_flag(f))),
            None => self.with(name, None),
        }
    }

    /// Offers a date, which is sent as `YYYY-MM-DD`.
    pub fn with_date(self, name: &str, date: Option<Date>) -> (r: QueryParameterSet)
        requires
            date is Some ==> date.unwrap().wf(),
        ensures
            r@ == offered(
                self@,
                name@,
                match date {
                    Some(d) => Some(d.text()),
                    None => None,
                },
            ),
    {
        match date {
            Some(d) => self.with(name, Some(d.format())),
            None => self.with(name, None),
        }
    }

    /// Whether a parameter of this name is held.
    pub fn contains(&self, name: &str) -> (r: bool)
        ensures
            r == has_name(self@, name@),
    {
        let wanted: String = name.to_owned();
        let mut i: usize = 0;
        while i < self.entries.len()
            invariant
                i <= self.entries@.len(),
                wanted@ == name@,
                forall|j: int| 0 <= j < i ==> (#[trigger] self@[j]).0 != name@,
            decreases self.entries@.len() - i,
        {
            if self.entries[i].name == wanted {
                assert(self@[i as int].0 == name@);
                return true;
            }
            i = i + 1;
        }
        false
    }
}

/// A parameter that was offered without a value is not among the parameters
/// afterwards, unless it was there before; one offered with a value is there
/// with that value; and whatever was there before stays.
pub proof fn lemma_offered(
    pairs: Seq<(Seq<char>, Seq<char>)>,
    name: Seq<char>,
    value: Option<Seq<char>>,
    other: Seq<char>,
)
    ensures
        value is None ==> has_name(offered(pairs, name, value), other) == has_name(pairs, other),
        value is Some ==> has_pair(offered(pairs, name, value), name, value.unwrap()),
        has_name(pairs, other) ==> has_name(offered(pairs, name, value), other),
        has_name(offered(pairs, name, value), other) ==> has_name(pairs, other) || (value is Some
            && other == name),
{
    let after = offered(pairs, name, value);
    if value is Some {
        assert(after[pairs.len() as int] == (name, value.unwrap()));
        if has_name(pairs, other) {
            let i = choose|i: int| 0 <= i < pairs.len() && (#[trigger] pairs[i]).0 == other;
            assert(after[i].0 == other);
        }
        if has_name(after, other) {
            let i = choose|i: int| 0 <= i < after.len() && (#[trigger] after[i]).0 == other;
            if i < pairs.len() {
                assert(pairs[i].0 == other);
            }
        }
    }
}

} // verus!
