//! The structured tree a template renders against.
//!
//! External input is converted, outside this crate's verified core, into
//! this generic tree of scalar, byte, sequence, associative, and option
//! nodes.  Path resolution walks it one segment at a time; a missing
//! segment yields the absent placeholder [`Document::Null`], and absence
//! only surfaces as an error once the resolved node is converted to a
//! runtime value.

use vstd::prelude::*;

use crate::template::syntax::field::Field;
use crate::template::syntax::field_path::spec_fields_view;
use crate::template::syntax::grammar::SpecField;
use crate::text::str_eq;

verus! {

/// One node of the structured input tree.
///
/// An eight-bit unsigned number keeps its own tag, [`Document::Byte`],
/// because a sequence node converts to a byte string exactly when every
/// element is one.
pub enum Document {
    /// A node that was never assigned; resolves to nothing.
    Unassigned,
    /// An explicit null; resolves to nothing.
    Null,
    /// A boolean scalar.
    Bool(bool),
    /// An eight-bit unsigned number.
    Byte(u8),
    /// A wider unsigned number.
    UInt(u128),
    /// A signed number.
    Int(i128),
    /// A 64-bit floating-point number, carried as its IEEE-754 bits.
    Float(u64),
    /// A string scalar.
    String(String),
    /// A character scalar.
    Char(char),
    /// A byte string.
    Bytes(Vec<u8>),
    /// An ordered sequence of nodes.
    Sequence(Vec<Document>),
    /// An associative node: ordered key-value pairs with distinct keys.
    Mapping(Vec<(Document, Document)>),
    /// A node that may be absent.
    Option(Option<Box<Document>>),
    /// A newtype wrapper around another node.
    Newtype(Box<Document>),
    /// A node standing for an error the conversion met.
    ErrorValue,
    /// A node of a shape this tree does not represent.
    Other,
}

// ---------------------------------------------------------------------------
// Path resolution.
// ---------------------------------------------------------------------------

/// Whether a mapping key answers to an unsigned index: a numeric key with
/// exactly that value.
pub open spec fn spec_key_matches_index(key: Document, i: int) -> bool {
    ||| key matches Document::Byte(b) && b as int == i
    ||| key matches Document::UInt(u) && u as int == i
    ||| key matches Document::Int(n) && n as int == i
}

/// The value under the first key equal to the given name, or the absent
/// placeholder.
pub open spec fn spec_lookup_named(entries: Seq<(Document, Document)>, name: Seq<char>) -> Document
    decreases entries.len(),
{
    if entries.len() == 0 {
        Document::Null
    } else if entries[0].0 matches Document::String(s) && s@ == name {
        entries[0].1
    } else {
        spec_lookup_named(entries.skip(1), name)
    }
}

/// The value under the first numeric key equal to the given index, or the
/// absent placeholder.
pub open spec fn spec_lookup_indexed(entries: Seq<(Document, Document)>, i: int) -> Document
    decreases entries.len(),
{
    if entries.len() == 0 {
        Document::Null
    } else if spec_key_matches_index(entries[0].0, i) {
        entries[0].1
    } else {
        spec_lookup_indexed(entries.skip(1), i)
    }
}

/// One resolution step: a named segment looks into an associative node, an
/// indexed segment looks into a sequence node by position or into an
/// associative node by numeric key; anything else resolves to the absent
/// placeholder.
pub open spec fn spec_step(doc: Document, f: SpecField) -> Document {
    match f {
        SpecField::Named(name) => match doc {
            Document::Mapping(entries) => spec_lookup_named(entries@, name),
            _ => Document::Null,
        },
        SpecField::Index(i) => match doc {
            Document::Sequence(items) => if 0 <= i < items@.len() {
                items@[i]
            } else {
                Document::Null
            },
            Document::Mapping(entries) => spec_lookup_indexed(entries@, i),
            _ => Document::Null,
        },
    }
}

/// The node a path resolves to: the steps applied left to right.
pub open spec fn spec_resolve(doc: Document, path: Seq<SpecField>) -> Document
    decreases path.len(),
{
    if path.len() == 0 {
        doc
    } else {
        spec_resolve(spec_step(doc, path[0]), path.skip(1))
    }
}

/// The absent placeholder resolves to itself under any path.
pub proof fn lemma_resolve_null(path: Seq<SpecField>)
    ensures
        spec_resolve(Document::Null, path) == Document::Null,
    decreases path.len(),
{
    if path.len() > 0 {
        assert(spec_step(Document::Null, path[0]) == Document::Null);
        lemma_resolve_null(path.skip(1));
    }
}

impl Document {
    /// One resolution step for a named segment; `None` stands for the
    /// absent placeholder.
    pub fn step_named<'a>(&'a self, name: &str) -> (r: Option<&'a Document>)
        ensures
            match r {
                Some(d) => *d == spec_step(*self, SpecField::Named(name@)),
                None => spec_step(*self, SpecField::Named(name@)) == Document::Null,
            },
    {
        match self {
            Document::Mapping(entries) => {
                let ghost all = entries@;
                proof {
                    assert(all.skip(0) =~= all);
                }
                let mut i: usize = 0;
                while i < entries.len()
                    invariant
                        0 <= i <= all.len(),
                        all == entries@,
                        *self == Document::Mapping(*entries),
                        spec_lookup_named(all, name@) == spec_lookup_named(
                            all.skip(i as int),
                            name@,
                        ),
                    decreases all.len() - i,
                {
                    proof {
                        assert(all.skip(i as int)[0] == all[i as int]);
                        assert(all.skip(i as int).skip(1) =~= all.skip(i + 1));
                    }
                    if let Document::String(key) = &entries[i].0 {
                        if str_eq(key.as_str(), name) {
                            proof {
                                assert(all[i as int].0 matches Document::String(s) && s@ == name@);
                                assert(spec_lookup_named(all.skip(i as int), name@) == all[
                                    i as int
                                ].1);

                            }
                            return Some(&entries[i].1);
                        }
                    }
                    i = i + 1;
                }
                proof {
                    assert(all.skip(all.len() as int) =~= Seq::<(Document, Document)>::empty());
                }
                None
            },
            _ => None,
        }
    }

    /// One resolution step for an indexed segment; `None` stands for the
    /// absent placeholder.
    pub fn step_indexed<'a>(&'a self, index: usize) -> (r: Option<&'a Document>)
        ensures
            match r {
                Some(d) => *d == spec_step(*self, SpecField::Index(index as int)),
                None => spec_step(*self, SpecField::Index(index as int)) == Document::Null,
            },
    {
        match self {
            Document::Sequence(items) => {
                if index < items.len() {
                    Some(&items[index])
                } else {
                    None
                }
            },
            Document::Mapping(entries) => {
                let ghost all = entries@;
                proof {
                    assert(all.skip(0) =~= all);
                }
                let mut i: usize = 0;
                while i < entries.len()
                    invariant
                        0 <= i <= all.len(),
                        all == entries@,
                        *self == Document::Mapping(*entries),
                        spec_lookup_indexed(all, index as int) == spec_lookup_indexed(
                            all.skip(i as int),
                            index as int,
                        ),
                    decreases all.len() - i,
                {
                    proof {
                        assert(all.skip(i as int)[0] == all[i as int]);
                        assert(all.skip(i as int).skip(1) =~= all.skip(i + 1));
                    }
                    let hit = match &entries[i].0 {
                        Document::Byte(b) => *b as u128 == index as u128,
                        Document::UInt(u) => *u == index as u128,
                        Document::Int(n) => *n >= 0 && *n as u128 == index as u128,
                        _ => false,
                    };
                    if hit {
                        proof {
                            assert(spec_key_matches_index(all[i as int].0, index as int));
                            assert(spec_lookup_indexed(all.skip(i as int), index as int) == all[
                                i as int
                            ].1);
                        }
                        return Some(&entries[i].1);
                    }
                    i = i + 1;
                }
                proof {
                    assert(all.skip(all.len() as int) =~= Seq::<(Document, Document)>::empty());
                }
                None
            },
            _ => None,
        }
    }

    /// The node the given path resolves to, stepping left to right;
    /// `None` stands for the absent placeholder.
    pub fn resolve<'a>(&'a self, fields: &Vec<Field>) -> (r: Option<&'a Document>)
        ensures
            match r {
                Some(d) => *d == spec_resolve(*self, spec_fields_view(fields@)),
                None => spec_resolve(*self, spec_fields_view(fields@)) == Document::Null,
            },
    {
        let ghost path = spec_fields_view(fields@);
        proof {
            assert(path.skip(0) =~= path);
        }
        let mut cur: &Document = self;
        let mut i: usize = 0;
        while i < fields.len()
            invariant
                0 <= i <= fields@.len(),
                path == spec_fields_view(fields@),
                spec_resolve(*self, path) == spec_resolve(*cur, path.skip(i as int)),
            decreases fields@.len() - i,
        {
            proof {
                assert(path.skip(i as int)[0] == path[i as int]);
                assert(path.skip(i as int).skip(1) =~= path.skip(i + 1));
                assert(path[i as int] == fields@[i as int]@);
            }
            let next = match &fields[i] {
                Field::Field(name) => cur.step_named(name.as_str()),
                Field::Index(index) => cur.step_indexed(*index),
            };
            match next {
                Some(d) => {
                    cur = d;
                },
                None => {
                    proof {
                        lemma_resolve_null(path.skip(i + 1));
                    }
                    return None;
                },
            }
            i = i + 1;
        }
        proof {
            assert(path.skip(path.len() as int) =~= Seq::<SpecField>::empty());
        }
        Some(cur)
    }
}

} // verus!
