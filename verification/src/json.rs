//! A small tree of values in the shape of a JSON document, for payloads.

use vstd::prelude::*;

verus! {

/// A payload value: a scalar, or an object of named members in order.
#[derive(Debug, PartialEq, Eq)]
pub enum Json {
    /// A real number, as its single-precision bit pattern.
    Real(u32),
    /// A small unsigned integer.
    Integer(u8),
    /// Text.
    Text(String),
    /// An object: its members, in the order in which they were written.
    Object(Vec<Member>),
}

/// One named member of an object.
#[derive(Debug, PartialEq, Eq)]
pub struct Member {
    pub key: &'static str,
    pub value: Json,
}

/// The mathematical value of a [`Json`].
pub ghost enum JsonView {
    Real(u32),
    Integer(u8),
    Text(Seq<char>),
    Object(Seq<(Seq<char>, JsonView)>),
}

impl View for Json {
    type V = JsonView;

    open spec fn view(&self) -> JsonView
        decreases self,
    {
        match self {
            Json::Real(bits) => JsonView::Real(*bits),
            Json::Integer(n) => JsonView::Integer(*n),
            Json::Text(text) => JsonView::Text(text@),
            Json::Object(members) => JsonView::Object(
                Seq::new(
                    members@.len(),
                    |i: int|
                        if 0 <= i < members@.len() {
                            (members@[i].key@, members@[i].value@)
                        } else {
                            (Seq::empty(), JsonView::Integer(0))
                        },
                ),
            ),
        }
    }
}

impl Json {
    /// An object of one member.
    pub fn object1(key: &'static str, value: Json) -> (object: Json)
        ensures
            object@ == JsonView::Object(seq![(key@, value@)]),
    {
        let mut members: Vec<Member> = Vec::new();
        members.push(Member { key, value });
        let object = Json::Object(members);
        assert(object@ =~= JsonView::Object(seq![(key@, value@)])) by {
            assert(object@->Object_0 =~= seq![(key@, value@)]);
        }
        object
    }

    /// An object of two members, in this order.
    pub fn object2(key0: &'static str, value0: Json, key1: &'static str, value1: Json) -> (object:
        Json)
        ensures
            object@ == JsonView::Object(seq![(key0@, value0@), (key1@, value1@)]),
    {
        let mut members: Vec<Member> = Vec::new();
        members.push(Member { key: key0, value: value0 });
        members.push(Member { key: key1, value: value1 });
        let object = Json::Object(members);
        assert(object@ =~= JsonView::Object(seq![(key0@, value0@), (key1@, value1@)])) by {
            assert(object@->Object_0 =~= seq![(key0@, value0@), (key1@, value1@)]);
        }
        object
    }

    /// An object of three members, in this order.
    pub fn object3(
        key0: &'static str,
        value0: Json,
        key1: &'static str,
        value1: Json,
        key2: &'static str,
        value2: Json,
    ) -> (object: Json)
        ensures
            object@ == JsonView::Object(
                seq![(key0@, value0@), (key1@, value1@), (key2@, value2@)],
            ),
    {
        let mut members: Vec<Member> = Vec::new();
        members.push(Member { key: key0, value: value0 });
        members.push(Member { key: key1, value: value1 });
        members.push(Member { key: key2, value: value2 });
        let object = Json::Object(members);
        assert(object@ =~= JsonView::Object(
            seq![(key0@, value0@), (key1@, value1@), (key2@, value2@)],
        )) by {
            assert(object@->Object_0 =~= seq![(key0@, value0@), (key1@, value1@), (key2@, value2@)]);
        }
        object
    }
}

} // verus!
