//! One level of a JSON text: what kind of value it is, and for an array or an
//! object the text of each part.

use serde_json::Value;
use vstd::prelude::*;
use vstd::string::*;
use crate::date::{digit_char, digit_of, digit_text};

verus! {

/// A member of an object: its name, and its value as JSON text.
#[derive(Debug, Clone)]
pub struct Member {
    pub name: String,
    pub text: String,
}

/// The outermost value of a JSON text.
#[derive(Debug, Clone)]
pub enum Node {
    Null,
    Flag(bool),
    /// A number, as JSON writes it.
    Number(String),
    Text(String),
    /// An array: the JSON text of each item, in order.
    Array(Vec<String>),
    /// An object: each member with the JSON text of its value.
    Object(Vec<Member>),
}

/// A node as plain values.
pub enum NodeModel {
    Null,
    Flag(bool),
    Number(Seq<char>),
    Text(Seq<char>),
    Array(Seq<Seq<char>>),
    Object(Seq<(Seq<char>, Seq<char>)>),
}

impl View for Member {
    type V = (Seq<char>, Seq<char>);

    open spec fn view(&self) -> (Seq<char>, Seq<char>) {
        (self.name@, self.text@)
    }
}

/// The texts of a list of strings.
pub open spec fn texts_of(items: Seq<String>) -> Seq<Seq<char>> {
    Seq::new(items.len(), |i: int| items[i]@)
}

/// The members of an object as pairs of name and text.
pub open spec fn pairs_of(members: Seq<Member>) -> Seq<(Seq<char>, Seq<char>)> {
    Seq::new(members.len(), |i: int| members[i]@)
}

impl View for Node {
    type V = NodeModel;

    open spec fn view(&self) -> NodeModel {
        match self {
            Node::Null => NodeModel::Null,
            Node::Flag(b) => NodeModel::Flag(*b),
            Node::Number(t) => NodeModel::Number(t@),
            Node::Text(t) => NodeModel::Text(t@),
            Node::Array(items) => NodeModel::Array(texts_of(items@)),
            Node::Object(members) => NodeModel::Object(pairs_of(members@)),
        }
    }
}

/// What `serde_json::from_str` makes of a text, read as a `serde_json::Value`
/// and taken one level deep: the kind of the outermost value, with the parts
/// of an array or an object written out again as JSON text; or the words in
/// which the text is refused.
pub uninterp spec fn json_node(text: Seq<char>) -> Result<NodeModel, Seq<char>>;

/// Calls `serde_json::from_str` for a `serde_json::Value` and hands back its
/// outermost level, the parts of an array or object each as the text that
/// `to_string` gives. The contract only names the outcome.
#[verifier::external_body]
pub(crate) fn read_node(text: &str) -> (r: Result<Node, String>)
    ensures
        match r {
            Ok(node) => json_node(text@) == Ok::<NodeModel, Seq<char>>(node@),
            Err(words) => json_node(text@) == Err::<NodeModel, Seq<char>>(words@),
        },
{
    let value: Value = serde_json::from_str(text).map_err(|e| e.to_string())?;
    Ok(match value {
        Value::Null => Node::Null,
        Value::Bool(b) => Node::Flag(b),
        Value::Number(n) => Node::Number(n.to_string()),
        Value::String(s) => Node::Text(s),
        Value::Array(a) => Node::Array(a.iter().map(|v| v.to_string()).collect()),
        Value::Object(o) => Node::Object(
            o.iter().map(|(k, v)| Member { name: k.clone(), text: v.to_string() }).collect(),
        ),
    })
}

/// The number that a row of decimal digits writes.
pub open spec fn digits_value(text: Seq<char>) -> int
    decreases text.len(),
{
    if text.len() == 0 {
        0
    } else {
        digits_value(text.drop_last()) * 10 + digit_of(text.last())
    }
}

/// Whether every character is a decimal digit.
pub open spec fn all_digits(text: Seq<char>) -> bool {
    forall|i: int| 0 <= i < text.len() ==> digit_of(#[trigger] text[i]) >= 0
}

/// The count that a number's text writes: a whole number, not negative, that
/// fits in 64 bits.
pub open spec fn count_in(text: Seq<char>) -> Option<u64> {
    if text.len() > 0 && all_digits(text) && digits_value(text) <= u64::MAX {
        Some(digits_value(text) as u64)
    } else {
        None
    }
}

/// A row of digits writes at least what its first digits write.
pub proof fn lemma_digits_grow(text: Seq<char>, n: int)
    requires
        all_digits(text),
        0 <= n <= text.len(),
    ensures
        0 <= digits_value(text.take(n)) <= digits_value(text),
    decreases text.len(),
{
    if text.len() == 0 {
        assert(text.take(n) =~= text);
    } else if n == text.len() {
        assert(text.take(n) =~= text);
        assert(all_digits(text.drop_last())) by {
            assert forall|i: int| 0 <= i < text.drop_last().len() implies digit_of(
                #[trigger] text.drop_last()[i],
            ) >= 0 by {
                assert(text.drop_last()[i] == text[i]);
            }
        }
        lemma_digits_grow(text.drop_last(), n - 1);
        assert(digit_of(text.last()) >= 0);
    } else {
        assert(all_digits(text.drop_last())) by {
            assert forall|i: int| 0 <= i < text.drop_last().len() implies digit_of(
                #[trigger] text.drop_last()[i],
            ) >= 0 by {
                assert(text.drop_last()[i] == text[i]);
            }
        }
        assert(text.drop_last().take(n) =~= text.take(n));
        lemma_digits_grow(text.drop_last(), n);
        assert(digit_of(text.last()) >= 0);
    }
}

/// Reads a count from the text of a number.
pub fn read_count(text: &str) -> (r: Option<u64>)
    ensures
        r == count_in(text@),
{
    let n: usize = text.unicode_len();
    if n == 0 {
        return None;
    }
    let mut total: u64 = 0;
    let mut i: usize = 0;
    while i < n
        invariant
            n == text@.len(),
            i <= n,
            all_digits(text@.take(i as int)),
            total == digits_value(text@.take(i as int)),
        decreases n - i,
    {
        let c: char = text.get_char(i);
        proof {
            assert(text@.take(i + 1).drop_last() =~= text@.take(i as int));
            assert(text@.take(i + 1).last() == text@[i as int]);
        }
        match crate::date::digit_value(c) {
            None => {
                proof {
                    assert(digit_of(text@[i as int]) < 0);
                }
                return None;
            },
            Some(d) => {
                let d: u64 = d as u64;
                proof {
                    assert forall|j: int| 0 <= j < i + 1 implies digit_of(
                        #[trigger] text@.take(i + 1)[j],
                    ) >= 0 by {
                        if j < i {
                            assert(text@.take(i as int)[j] == text@[j]);
                        }
                    }
                }
                if total > (u64::MAX - d) / 10 {
                    proof {
                        assert(digits_value(text@.take(i + 1)) > u64::MAX);
                        if all_digits(text@) {
                            lemma_digits_grow(text@, i + 1);
                        }
                    }
                    return None;
                }
                total = total * 10 + d;
            },
        }
        i = i + 1;
    }
    proof {
        assert(text@.take(i as int) =~= text@);
    }
    Some(total)
}

/// A number in decimal digits, without leading zeros.
pub open spec fn decimal(n: nat) -> Seq<char>
    decreases n,
{
    if n < 10 {
        seq![digit_char(n as int)]
    } else {
        decimal(n / 10).push(digit_char((n % 10) as int))
    }
}

/// Writes a number in decimal digits.
pub fn format_decimal(n: u64) -> (r: String)
    ensures
        r@ == decimal(n as nat),
    decreases n,
{
    if n < 10 {
        digit_text(n as u16).to_owned()
    } else {
        let mut r = format_decimal(n / 10);
        r.append(digit_text((n % 10) as u16));
        assert(r@ =~= decimal(n as nat));
        r
    }
}

/// The digits of a number write that number: a count that was written can
/// be read back.
pub proof fn lemma_decimal_reads_back(n: nat)
    ensures
        decimal(n).len() > 0,
        all_digits(decimal(n)),
        digits_value(decimal(n)) == n,
        n <= u64::MAX ==> count_in(decimal(n)) == Some(n as u64),
    decreases n,
{
    let t = decimal(n);
    if n < 10 {
        assert(t.drop_last() =~= Seq::<char>::empty());
        assert(digits_value(t.drop_last()) == 0);
        assert(digit_of(digit_char(n as int)) == n);
    } else {
        lemma_decimal_reads_back(n / 10);
        assert(t.drop_last() =~= decimal(n / 10));
        assert(digit_of(digit_char((n % 10) as int)) == (n % 10) as int);
        assert forall|i: int| 0 <= i < t.len() implies digit_of(#[trigger] t[i]) >= 0 by {
            if i < t.len() - 1 {
                assert(t[i] == decimal(n / 10)[i]);
            }
        }
    }
}

} // verus!
