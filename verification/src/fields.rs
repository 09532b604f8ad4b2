//! Mapping over the named fields of a struct, with some of them left out by
//! their names.

use crate::decl::{all_named, field_ident, FieldDecl};
use crate::text::concatenated;
use vstd::prelude::*;

verus! {

/// The texts that a renderer gives for the fields whose names `hides` does
/// not hide, in declared order. The renderer gets the field's position among
/// all fields, its name, its declared type, and whether it is the last of
/// `total` fields.
pub open spec fn field_parts(
    fields: Seq<FieldDecl>,
    total: int,
    hides: spec_fn(Seq<char>) -> bool,
    render: spec_fn(int, Seq<char>, Seq<char>, bool) -> Seq<char>,
) -> Seq<Seq<char>>
    decreases fields.len(),
{
    if fields.len() == 0 {
        Seq::empty()
    } else {
        let rest = field_parts(fields.drop_last(), total, hides, render);
        let f = fields.last();
        let i = fields.len() - 1;
        if hides(field_ident(f)) {
            rest
        } else {
            rest.push(render(i, field_ident(f), f.ty@, i == total - 1))
        }
    }
}

/// What a renderer gives for the fields that are not hidden, put together.
pub open spec fn mapped_fields(
    fields: Seq<FieldDecl>,
    hides: spec_fn(Seq<char>) -> bool,
    render: spec_fn(int, Seq<char>, Seq<char>, bool) -> Seq<char>,
) -> Seq<char> {
    concatenated(field_parts(fields, fields.len() as int, hides, render))
}

/// Puts together what `mapper` gives for each field that `hidden` does not
/// hide, in declared order.
pub fn map_shown_fields<H, M>(
    fields: &Vec<FieldDecl>,
    hidden: H,
    mapper: M,
    Ghost(hides): Ghost<spec_fn(Seq<char>) -> bool>,
    Ghost(render): Ghost<spec_fn(int, Seq<char>, Seq<char>, bool) -> Seq<char>>,
) -> (r: String) where H: Fn(&str) -> bool, M: Fn(usize, &str, &str, bool) -> String
    requires
        all_named(fields@),
        forall|ident: &str| call_requires(hidden, (ident,)),
        forall|ident: &str, b: bool| call_ensures(hidden, (ident,), b) ==> b == hides(ident@),
        forall|i: usize, ident: &str, ty: &str, last: bool|
            call_requires(mapper, (i, ident, ty, last)),
        forall|i: usize, ident: &str, ty: &str, last: bool, o: String|
            call_ensures(mapper, (i, ident, ty, last), o) ==> o@ == render(
                i as int,
                ident@,
                ty@,
                last,
            ),
    ensures
        r@ == mapped_fields(fields@, hides, render),
{
    let ghost total = fields.len() as int;
    let mut out = String::new();
    let mut i: usize = 0;
    while i < fields.len()
        invariant
            i <= fields.len(),
            total == fields.len(),
            all_named(fields@),
            forall|ident: &str| call_requires(hidden, (ident,)),
            forall|ident: &str, b: bool| call_ensures(hidden, (ident,), b) ==> b == hides(ident@),
            forall|i: usize, ident: &str, ty: &str, last: bool|
                call_requires(mapper, (i, ident, ty, last)),
            forall|i: usize, ident: &str, ty: &str, last: bool, o: String|
                call_ensures(mapper, (i, ident, ty, last), o) ==> o@ == render(
                    i as int,
                    ident@,
                    ty@,
                    last,
                ),
            out@ == concatenated(field_parts(fields@.take(i as int), total, hides, render)),
        decreases fields.len() - i,
    {
        proof {
            assert(fields@.take(i + 1).drop_last() =~= fields@.take(i as int));
            assert(fields@.take(i + 1).last() == fields@[i as int]);
        }
        let field = &fields[i];
        match &field.ident {
            Some(ident) => {
                if !hidden(ident.as_str()) {
                    let piece = mapper(i, ident.as_str(), field.ty.as_str(), i == fields.len() - 1);
                    proof {
                        let parts = field_parts(fields@.take(i + 1), total, hides, render);
                        assert(parts.drop_last() =~= field_parts(
                            fields@.take(i as int),
                            total,
                            hides,
                            render,
                        ));
                        assert(parts.last() == piece@);
                    }
                    out.append(piece.as_str());
                }
            },
            None => {},
        }
        i += 1;
    }
    assert(fields@.take(fields.len() as int) =~= fields@);
    out
}

} // verus!
