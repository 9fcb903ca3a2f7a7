//! The raw document model: what a wire payload looks like after
//! tokenization and before normalization. A document is a tree of named
//! elements; each element carries named attributes whose values are loosely
//! typed scalars (string, number or boolean, depending on the transport
//! encoding).

use vstd::prelude::*;

verus! {

/// A loosely typed wire scalar. XML transports deliver every attribute as a
/// string; JSON transports may deliver numbers and booleans natively.
#[derive(Debug)]
pub enum RawValue {
    Flag(bool),
    Num(i64),
    Text(String),
}

/// One named attribute of a raw element.
#[derive(Debug)]
pub struct RawAttr {
    pub name: String,
    pub value: RawValue,
}

/// One element of a raw document: a name, its attributes, and its child
/// elements in document order.
#[derive(Debug)]
pub struct RawElement {
    pub name: String,
    pub attrs: Vec<RawAttr>,
    pub children: Vec<RawElement>,
}

/// The value of the first attribute called `name`, if any.
pub open spec fn lookup(attrs: Seq<RawAttr>, name: Seq<char>) -> Option<RawValue>
    decreases attrs.len(),
{
    if attrs.len() == 0 {
        None
    } else if attrs[0].name@ == name {
        Some(attrs[0].value)
    } else {
        lookup(attrs.drop_first(), name)
    }
}

/// Finds the first attribute called `name`.
pub fn get_attr<'a>(attrs: &'a Vec<RawAttr>, name: &str) -> (r: Option<
    &'a RawValue,
>)
    ensures
        match r {
            Some(v) => lookup(attrs@, name@) == Some(*v),
            None => lookup(attrs@, name@) is None,
        },
{
    let mut i: usize = 0;
    proof {
        assert(attrs@.skip(0) =~= attrs@);
    }
    while i < attrs.len()
        invariant
            i <= attrs@.len(),
            lookup(attrs@, name@) == lookup(attrs@.skip(i as int), name@),
        decreases attrs@.len() - i,
    {
        proof {
            assert(attrs@.skip(i as int).drop_first() =~= attrs@.skip(i + 1));
            assert(attrs@.skip(i as int)[0] == attrs@[i as int]);
        }
        if crate::text::str_eq(attrs[i].name.as_str(), name) {
            return Some(&attrs[i].value);
        }
        i += 1;
    }
    proof {
        assert(attrs@.skip(attrs@.len() as int) =~= Seq::<RawAttr>::empty());
    }
    None
}

/// The child elements called `name`, in document order.
pub open spec fn children_named(children: Seq<RawElement>, name: Seq<char>) -> Seq<
    RawElement,
>
    decreases children.len(),
{
    if children.len() == 0 {
        Seq::empty()
    } else if children.last().name@ == name {
        children_named(children.drop_last(), name).push(children.last())
    } else {
        children_named(children.drop_last(), name)
    }
}

/// Collects references to the children of `el` called `name`.
pub fn get_children<'a>(el: &'a RawElement, name: &str) -> (r: Vec<
    &'a RawElement,
>)
    ensures
        r@.map_values(|e: &RawElement| *e) == children_named(el.children@, name@),
{
    let mut r: Vec<&'a RawElement> = Vec::new();
    let mut i: usize = 0;
    while i < el.children.len()
        invariant
            i <= el.children@.len(),
            r@.map_values(|e: &RawElement| *e) == children_named(
                el.children@.take(i as int),
                name@,
            ),
        decreases el.children@.len() - i,
    {
        proof {
            assert(el.children@.take(i + 1).drop_last() =~= el.children@.take(
                i as int,
            ));
            assert(el.children@.take(i + 1).last() == el.children@[i as int]);
        }
        if crate::text::str_eq(el.children[i].name.as_str(), name) {
            r.push(&el.children[i]);
            proof {
                assert(r@.map_values(|e: &RawElement| *e) =~= children_named(
                    el.children@.take(i + 1),
                    name@,
                ));
            }
        } else {
            proof {
                assert(r@.map_values(|e: &RawElement| *e) =~= children_named(
                    el.children@.take(i + 1),
                    name@,
                ));
            }
        }
        i += 1;
    }
    proof {
        assert(el.children@.take(el.children@.len() as int) =~= el.children@);
    }
    r
}

} // verus!
