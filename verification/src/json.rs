//! A JSON value, held as plain data.

use vstd::prelude::*;

verus! {

/// Any JSON value. Several fields of a collection carry free-form JSON
/// (variable values, version metadata, cookie extensions and the like); they
/// are kept here as plain data. A number is held as the text that denotes it,
/// so that no precision is lost and no floating point enters the model.
#[derive(Debug, PartialEq, Eq)]
pub enum JsonValue {
    Null,
    Bool(bool),
    Number(String),
    String(String),
    Array(Vec<JsonValue>),
    /// The members of an object, in the order in which they were read.
    Object(Vec<(String, JsonValue)>),
}

/// Two JSON values are alike: same kind, same scalars (strings compared by
/// their characters), and elements and members alike in the same order.
pub open spec fn json_alike(a: JsonValue, b: JsonValue) -> bool
    decreases a,
{
    match a {
        JsonValue::Null => b is Null,
        JsonValue::Bool(x) => b is Bool && b->Bool_0 == x,
        JsonValue::Number(x) => b is Number && b->Number_0@ == x@,
        JsonValue::String(x) => b is String && b->String_0@ == x@,
        JsonValue::Array(xs) => {
            &&& b is Array
            &&& xs.len() == b->Array_0.len()
            &&& forall|i: int|
                #![trigger xs@[i]]
                0 <= i < xs.len() ==> json_alike(xs@[i], b->Array_0@[i])
        },
        JsonValue::Object(xs) => {
            &&& b is Object
            &&& xs.len() == b->Object_0.len()
            &&& forall|i: int|
                #![trigger xs@[i]]
                0 <= i < xs.len() ==> xs@[i].0@ == b->Object_0@[i].0@ && json_alike(
                    xs@[i].1,
                    b->Object_0@[i].1,
                )
        },
    }
}

/// Law: every value is alike to itself, so a copy that is alike may be the
/// value itself.
pub proof fn lemma_json_alike_reflexive(a: JsonValue)
    ensures
        json_alike(a, a),
    decreases a,
{
    match a {
        JsonValue::Array(xs) => {
            assert forall|i: int| #![trigger xs@[i]] 0 <= i < xs.len() implies json_alike(xs@[i], xs@[i]) by {
                lemma_json_alike_reflexive(xs@[i]);
            }
        },
        JsonValue::Object(xs) => {
            assert forall|i: int| #![trigger xs@[i]] 0 <= i < xs.len() implies json_alike(xs@[i].1, xs@[i].1) by {
                assert(decreases_to!(a => xs@[i]));
                lemma_json_alike_reflexive(xs@[i].1);
            }
        },
        _ => {},
    }
}

/// Law: a value alike to `a` is of the same kind and carries the same
/// scalars: the same `null`, the same boolean, a number or string with the
/// same characters, an array or object with as many elements, each alike in
/// turn, members under the same keys.
pub proof fn lemma_json_alike_same_content(a: JsonValue, b: JsonValue)
    requires
        json_alike(a, b),
    ensures
        a is Null ==> b == JsonValue::Null,
        forall|x: bool| a == JsonValue::Bool(x) ==> b == JsonValue::Bool(x),
        a is Number ==> b is Number && b->Number_0@ == a->Number_0@,
        a is String ==> b is String && b->String_0@ == a->String_0@,
        a is Array ==> b is Array && b->Array_0.len() == a->Array_0.len() && forall|i: int|
            0 <= i < a->Array_0.len() ==> json_alike(#[trigger] a->Array_0@[i], b->Array_0@[i]),
        a is Object ==> b is Object && b->Object_0.len() == a->Object_0.len() && forall|i: int|
            0 <= i < a->Object_0.len() ==> (#[trigger] a->Object_0@[i]).0@ == b->Object_0@[i].0@
                && json_alike(a->Object_0@[i].1, b->Object_0@[i].1),
{
}

/// Every character of `s` is an ASCII decimal digit.
pub open spec fn all_digits(s: Seq<char>) -> bool {
    forall|i: int| 0 <= i < s.len() ==> '0' <= #[trigger] s[i] && s[i] <= '9'
}

/// The integer part of a JSON number: `0`, or a digit `1`-`9` followed by digits.
pub open spec fn json_int_part(s: Seq<char>) -> bool {
    ||| s == seq!['0']
    ||| s.len() >= 1 && '1' <= s[0] && s[0] <= '9' && all_digits(s.drop_first())
}

/// The fraction of a JSON number: nothing, or `.` followed by one digit or more.
pub open spec fn json_fraction(s: Seq<char>) -> bool {
    ||| s.len() == 0
    ||| s.len() >= 2 && s[0] == '.' && all_digits(s.drop_first())
}

/// The exponent of a JSON number: nothing, or `e`/`E`, an optional sign and
/// one digit or more.
pub open spec fn json_exponent(s: Seq<char>) -> bool {
    ||| s.len() == 0
    ||| s.len() >= 2 && (s[0] == 'e' || s[0] == 'E') && {
        let r = s.drop_first();
        if r[0] == '+' || r[0] == '-' {
            r.len() >= 2 && all_digits(r.drop_first())
        } else {
            all_digits(r)
        }
    }
}

/// `s` is a number as JSON writes one (RFC 8259, section 6): an optional
/// minus, an integer part, an optional fraction and an optional exponent.
pub open spec fn json_number_text(s: Seq<char>) -> bool {
    if s.len() > 0 && s[0] == '-' {
        json_unsigned_number_text(s.drop_first())
    } else {
        json_unsigned_number_text(s)
    }
}

/// `u` is a JSON number without its minus sign.
pub open spec fn json_unsigned_number_text(u: Seq<char>) -> bool {
    exists|i: int, j: int|
        #![trigger u.take(i), u.skip(j)]
        0 < i <= j <= u.len() && json_int_part(u.take(i)) && json_fraction(u.subrange(i, j))
            && json_exponent(u.skip(j))
}

/// A JSON value as a JSON reader makes one: every number's text is a JSON
/// number, and no object has two members with the same key.
pub open spec fn json_well_formed(v: JsonValue) -> bool
    decreases v,
{
    match v {
        JsonValue::Number(t) => json_number_text(t@),
        JsonValue::Array(xs) => forall|i: int|
            #![trigger xs@[i]]
            0 <= i < xs.len() ==> json_well_formed(xs@[i]),
        JsonValue::Object(ms) => {
            &&& forall|i: int, j: int|
                0 <= i < j < ms.len() ==> (#[trigger] ms@[i]).0@ != (#[trigger] ms@[j]).0@
            &&& forall|i: int| #![trigger ms@[i]] 0 <= i < ms.len() ==> json_well_formed(ms@[i].1)
        },
        _ => true,
    }
}

/// Values alike are well formed alike.
pub proof fn lemma_alike_keeps_well_formed(a: JsonValue, b: JsonValue)
    requires
        json_alike(a, b),
        json_well_formed(a),
    ensures
        json_well_formed(b),
    decreases a,
{
    match a {
        JsonValue::Array(xs) => {
            let ys = b->Array_0;
            assert forall|i: int| #![trigger ys@[i]] 0 <= i < ys.len() implies json_well_formed(ys@[i]) by {
                assert(json_alike(xs@[i], ys@[i]));
                assert(json_well_formed(xs@[i]));
                lemma_alike_keeps_well_formed(xs@[i], ys@[i]);
            }
        },
        JsonValue::Object(xs) => {
            let ys = b->Object_0;
            assert forall|i: int| #![trigger ys@[i]] 0 <= i < ys.len() implies json_well_formed(ys@[i].1) by {
                assert(json_alike(xs@[i].1, ys@[i].1));
                assert(json_well_formed(xs@[i].1));
                assert(decreases_to!(a => xs@[i]));
                lemma_alike_keeps_well_formed(xs@[i].1, ys@[i].1);
            }
            assert forall|i: int, j: int| 0 <= i < j < ys.len() implies (#[trigger] ys@[i]).0@ != (
            #[trigger] ys@[j]).0@ by {
                assert(xs@[i].0@ != xs@[j].0@);
                assert(xs@[i].0@ == ys@[i].0@);
                assert(xs@[j].0@ == ys@[j].0@);
            }
        },
        _ => {},
    }
}

/// A copy of `value`.
fn clone_value(value: &JsonValue) -> (res: JsonValue)
    ensures
        json_alike(*value, res),
    decreases *value,
{
    match value {
        JsonValue::Null => JsonValue::Null,
        JsonValue::Bool(b) => JsonValue::Bool(*b),
        JsonValue::Number(n) => JsonValue::Number(n.clone()),
        JsonValue::String(s) => JsonValue::String(s.clone()),
        JsonValue::Array(items) => {
            let mut out: Vec<JsonValue> = Vec::new();
            let mut i: usize = 0;
            while i < items.len()
                invariant
                    *value == JsonValue::Array(*items),
                    i <= items.len(),
                    out.len() == i,
                    forall|j: int| #![trigger items@[j]] 0 <= j < i ==> json_alike(items@[j], out@[j]),
                decreases items.len() - i,
            {
                proof {
                    assert(decreases_to!(*value => value->Array_0@[i as int]));
                }
                let item = clone_value(&items[i]);
                out.push(item);
                i = i + 1;
            }
            let res = JsonValue::Array(out);
            assert(json_alike(*value, res));
            res
        },
        JsonValue::Object(members) => {
            let mut out: Vec<(String, JsonValue)> = Vec::new();
            let mut i: usize = 0;
            while i < members.len()
                invariant
                    *value == JsonValue::Object(*members),
                    i <= members.len(),
                    out.len() == i,
                    forall|j: int|
                        #![trigger members@[j]]
                        0 <= j < i ==> members@[j].0@ == out@[j].0@ && json_alike(
                            members@[j].1,
                            out@[j].1,
                        ),
                decreases members.len() - i,
            {
                proof {
                    assert(decreases_to!(*value => value->Object_0@[i as int]));
                    assert(decreases_to!(value->Object_0@[i as int] => value->Object_0@[i as int].1));
                }
                let key = members[i].0.clone();
                let item = clone_value(&members[i].1);
                assert(key@ == members@[i as int].0@);
                assert(json_alike(members@[i as int].1, item));
                out.push((key, item));
                assert(out@[i as int].1 == item);
                i = i + 1;
            }
            let res = JsonValue::Object(out);
            assert(json_alike(*value, res));
            res
        },
    }
}

impl Clone for JsonValue {
    fn clone(&self) -> (res: Self)
        ensures
            json_alike(*self, res),
            json_well_formed(*self) ==> json_well_formed(res),
    {
        let res = clone_value(self);
        proof {
            if json_well_formed(*self) {
                lemma_alike_keeps_well_formed(*self, res);
            }
        }
        res
    }
}

} // verus!
