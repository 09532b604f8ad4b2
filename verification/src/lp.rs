//! The bounded text form of a struct: code that packs each field with its
//! name, under a limit that the caller hands in.

use crate::decl::{all_named, check_all_named, Body, Declaration, FieldDecl, FieldStyle, MacroError};
use crate::fields::{map_shown_fields, mapped_fields};
use crate::sql_model::text_outcome;
use crate::text::{is_prefix, starts_with};
use vstd::prelude::*;

verus! {

// The fixed parts of the generated code. Each is named after what follows
// it.

pub const HIDDEN_PREFIX: &'static str = "_renames_";

pub const PAIR_OPEN: &'static str =
    "            python_comm::use_limit_pack::ForStruct {\n                k: stringify!(";

pub const PAIR_VALUE: &'static str = ").to_limit_str(limit),\n                v: &self.";

pub const PAIR_CLOSE: &'static str = ",\n            },\n";

pub const PACK_OPEN: &'static str = "impl python_comm::use_limit_pack::LimitPackAble for ";

pub const PACK_DATA: &'static str =
    " {\n    fn to_limit_str(&self, limit: &mut Limit) -> String {\n        limit.push_and_inc();\n        let data = (\n";

pub const PACK_TEXT: &'static str =
    "        );\n        let pair_seq = limit.pop_start();\n        let text = data.to_limit_str(limit);\n        limit.pop_end(pair_seq);\n        format!(\"{}{}\", stringify!(";

pub const PACK_CLOSE: &'static str = "), text)\n    }\n}\n";

/// A field is left out where its name begins with `_renames_`.
pub open spec fn is_hidden(ident: Seq<char>) -> bool {
    is_prefix(HIDDEN_PREFIX@, ident)
}

/// The filter of [`is_hidden`].
pub open spec fn hides() -> spec_fn(Seq<char>) -> bool {
    |ident: Seq<char>| is_hidden(ident)
}

/// A field's name, packed under the limit, with a reference to its value.
pub open spec fn pair(ident: Seq<char>) -> Seq<char> {
    PAIR_OPEN@ + ident + PAIR_VALUE@ + ident + PAIR_CLOSE@
}

/// The renderer of [`pair`].
pub open spec fn pair_render() -> spec_fn(int, Seq<char>, Seq<char>, bool) -> Seq<char> {
    |i: int, ident: Seq<char>, ty: Seq<char>, last: bool| pair(ident)
}

/// The packing code of a struct named `ident` with the given fields.
pub open spec fn limit_pack_text(ident: Seq<char>, fields: Seq<FieldDecl>) -> Seq<char> {
    PACK_OPEN@ + ident + PACK_DATA@ + mapped_fields(fields, hides(), pair_render()) + PACK_TEXT@
        + ident + PACK_CLOSE@
}

/// The text generated for a declaration: the packing code for a struct
/// with named fields, nothing for any other declaration.
pub open spec fn limit_pack_of(dvi: Declaration) -> Result<Seq<char>, MacroError> {
    match dvi.body {
        Body::Struct { style: FieldStyle::Named, fields } => if all_named(fields@) {
            Ok(limit_pack_text(dvi.ident@, fields@))
        } else {
            Err(MacroError::UnnamedField)
        },
        _ => Ok(Seq::empty()),
    }
}

/// Puts together what `mapper` gives for each field whose name does not
/// begin with `_renames_`, in declared order. The mapper gets the field's
/// position among all fields, its name, its declared type, and whether it is
/// the last of all fields.
pub fn map_fields<M>(
    fields: &Vec<FieldDecl>,
    mapper: M,
    Ghost(render): Ghost<spec_fn(int, Seq<char>, Seq<char>, bool) -> Seq<char>>,
) -> (r: String) where M: Fn(usize, &str, &str, bool) -> String
    requires
        all_named(fields@),
        forall|i: usize, ident: &str, ty: &str, last: bool|
            call_requires(mapper, (i, ident, ty, last)),
        forall|i: usize, ident: &str, ty: &str, last: bool, o: String|
            call_ensures(mapper, (i, ident, ty, last), o) ==> o@ == render(
                i as int,
                ident@,
                ty@,
                last,
            ),
    ensures
        r@ == mapped_fields(fields@, hides(), render),
{
    let hidden = |ident: &str| -> (b: bool)
        ensures
            b == is_hidden(ident@),
        { starts_with(ident, HIDDEN_PREFIX) };
    map_shown_fields(fields, hidden, mapper, Ghost(hides()), Ghost(render))
}

/// The code that packs a struct with named fields into bounded text: each
/// field that is not hidden, by name and value. Any other declaration gets
/// no code.
pub fn limit_pack(input: &Declaration) -> (r: Result<String, MacroError>)
    ensures
        text_outcome(r, limit_pack_of(*input)),
{
    match &input.body {
        Body::Struct { style, fields } => {
            match style {
                FieldStyle::Named => {
                    if !check_all_named(fields) {
                        return Err(MacroError::UnnamedField);
                    }
                    let mapper = |i: usize, ident: &str, ty: &str, last: bool| -> (o: String)
                        ensures
                            o@ == pair(ident@),
                        {
                            let mut out = PAIR_OPEN.to_owned();
                            out.append(ident);
                            out.append(PAIR_VALUE);
                            out.append(ident);
                            out.append(PAIR_CLOSE);
                            out
                        };
                    let field_to_limit_str = map_fields(fields, mapper, Ghost(pair_render()));
                    let mut out = PACK_OPEN.to_owned();
                    out.append(input.ident.as_str());
                    out.append(PACK_DATA);
                    out.append(field_to_limit_str.as_str());
                    out.append(PACK_TEXT);
                    out.append(input.ident.as_str());
                    out.append(PACK_CLOSE);
                    Ok(out)
                },
                _ => Ok(String::new()),
            }
        },
        _ => Ok(String::new()),
    }
}

} // verus!
