//! A field path: the dotted segments locating a value.

use vstd::prelude::*;

use crate::template::syntax::field::Field;
use crate::template::syntax::grammar::{spec_parse_path, SpecField, SpecParseError};
use crate::template::syntax::syntax_parse_error::SyntaxParseError;
use crate::text::{lemma_skip_subrange, lemma_skip_skip, spec_udec, u128_to_dec};

verus! {

broadcast use lemma_skip_subrange, lemma_skip_skip;

/// The shapes of a sequence of segments.
pub open spec fn spec_fields_view(fields: Seq<Field>) -> Seq<SpecField> {
    fields.map_values(|f: Field| f@)
}

/// An ordered sequence of path segments; empty means the root itself.
pub struct FieldPath {
    path: Vec<Field>,
}

impl View for FieldPath {
    type V = Seq<SpecField>;

    closed spec fn view(&self) -> Seq<SpecField> {
        spec_fields_view(self.path@)
    }
}

impl FieldPath {
    /// The segments, in order.
    pub fn get_fields(&self) -> (r: &Vec<Field>)
        ensures
            spec_fields_view(r@) == self@,
    {
        &self.path
    }

    /// Reads the dotted segments at `pos`, as many as there are.
    pub fn parse(input: &Vec<char>, pos: usize) -> (r: Result<(FieldPath, usize), SyntaxParseError>)
        requires
            pos <= input@.len(),
        ensures
            match r {
                Ok(p) => pos <= p.1 <= input@.len() && spec_parse_path(input@.skip(pos as int))
                    == Ok::<_, SpecParseError>((p.0@, input@.skip(p.1 as int))),
                Err(e) => spec_parse_path(input@.skip(pos as int)) == Err::<
                    (Seq<SpecField>, Seq<char>),
                    _,
                >(e@),
            },
    {
        let ghost s0 = input@.skip(pos as int);
        let mut path: Vec<Field> = Vec::new();
        let mut p: usize = pos;
        while p < input.len() && input[p] == '.'
            invariant
                pos <= p <= input@.len(),
                s0 == input@.skip(pos as int),
                spec_parse_path(s0) == match spec_parse_path(input@.skip(p as int)) {
                    Ok(rest) => Ok::<(Seq<SpecField>, Seq<char>), SpecParseError>(
                        (spec_fields_view(path@) + rest.0, rest.1),
                    ),
                    Err(e) => Err(e),
                },
            decreases input@.len() - p,
        {
            proof {
                assert(input@.skip(p as int)[0] == input@[p as int]);
            }
            match Field::parse(input, p + 1) {
                Ok((f, p2)) => {
                    let ghost oldv = spec_fields_view(path@);
                    path.push(f);
                    proof {
                        assert(spec_fields_view(path@) =~= oldv.push(f@));
                        match spec_parse_path(input@.skip(p2 as int)) {
                            Ok(pair) => {
                                assert(oldv + (seq![f@] + pair.0) =~= spec_fields_view(path@)
                                    + pair.0);
                            },
                            Err(e) => {},
                        }
                    }
                    p = p2;
                },
                Err(e) => {
                    return Err(e);
                },
            }
        }
        proof {
            if p < input@.len() {
                assert(input@.skip(p as int)[0] == input@[p as int]);
            }
            assert(spec_parse_path(input@.skip(p as int)) == Ok::<_, SpecParseError>((
                Seq::<SpecField>::empty(),
                input@.skip(p as int),
            )));
            assert(spec_fields_view(path@) + Seq::<SpecField>::empty() =~= spec_fields_view(
                path@,
            ));
        }
        Ok((FieldPath { path }, p))
    }
}


/// The display text of one segment: the name, or the index in decimal.
pub open spec fn spec_field_display(f: SpecField) -> Seq<char> {
    match f {
        SpecField::Named(name) => name,
        SpecField::Index(i) => spec_udec(i as nat),
    }
}

/// The display text of a path: its segments joined with dots.
pub open spec fn spec_path_display(path: Seq<SpecField>) -> Seq<char>
    decreases path.len(),
{
    if path.len() == 0 {
        Seq::empty()
    } else if path.len() == 1 {
        spec_field_display(path[0])
    } else {
        spec_field_display(path[0]) + seq!['.'] + spec_path_display(path.skip(1))
    }
}

/// Joining one more segment appends a dot and its text.
proof fn lemma_path_display_snoc(path: Seq<SpecField>)
    requires
        path.len() > 1,
    ensures
        spec_path_display(path) == spec_path_display(path.drop_last()) + seq!['.']
            + spec_field_display(path.last()),
    decreases path.len(),
{
    if path.len() == 2 {
        assert(path.skip(1) =~= seq![path[1]]);
        assert(path.drop_last() =~= seq![path[0]]);
        assert(spec_path_display(path.skip(1)) == spec_field_display(path[1]));
        assert(spec_path_display(path.drop_last()) == spec_field_display(path[0]));
    } else {
        lemma_path_display_snoc(path.skip(1));
        assert(path.skip(1).drop_last() =~= path.drop_last().skip(1));
        assert(path.skip(1).last() == path.last());
        assert(path.drop_last()[0] == path[0]);
        assert(path.drop_last().len() > 1);
        assert(spec_field_display(path[0]) + seq!['.'] + (spec_path_display(
            path.skip(1).drop_last(),
        ) + seq!['.'] + spec_field_display(path.last())) =~= (spec_field_display(path[0]) + seq![
            '.',
        ] + spec_path_display(path.drop_last().skip(1))) + seq!['.'] + spec_field_display(
            path.last(),
        ));
    }
}

impl FieldPath {
    /// The path's display text: its segments joined with dots.
    pub fn path_string(&self) -> (r: String)
        ensures
            r@ == spec_path_display(self@),
    {
        let mut m = String::new();
        let fields = &self.path;
        let ghost all = self@;
        if fields.len() == 0 {
            return m;
        }
        match &fields[0] {
            Field::Field(name) => {
                m.push_str(name.as_str());
            },
            Field::Index(i) => {
                let text = u128_to_dec(*i as u128);
                m.push_str(text.as_str());
            },
        }
        proof {
            assert(all[0] == fields@[0]@);
            assert(all.subrange(0, 1int) =~= seq![all[0]]);
            assert(spec_path_display(seq![all[0]]) == spec_field_display(all[0]));
        }
        let mut i: usize = 1;
        while i < fields.len()
            invariant
                1 <= i <= all.len(),
                all == spec_fields_view(fields@),
                fields@.len() == all.len(),
                m@ == spec_path_display(all.subrange(0, i as int)),
            decreases all.len() - i,
        {
            m.push_str(".");
            match &fields[i] {
                Field::Field(name) => {
                    m.push_str(name.as_str());
                },
                Field::Index(idx) => {
                    let text = u128_to_dec(*idx as u128);
                    m.push_str(text.as_str());
                },
            }
            i = i + 1;
            proof {
                reveal_strlit(".");
                assert("."@ =~= seq!['.']);
                assert(all[i - 1] == fields@[i - 1]@);
                lemma_path_display_snoc(all.subrange(0, i as int));
                assert(all.subrange(0, i as int).drop_last() =~= all.subrange(0, i - 1));
                assert(all.subrange(0, i as int).last() == all[i - 1]);
            }
        }
        proof {
            assert(all.subrange(0, all.len() as int) =~= all);
        }
        m
    }
}

} // verus!
