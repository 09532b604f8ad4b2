//! The decoding of a row: the statements that take one value after another
//! out of a row and convert it, and that hand the row back as it came when
//! a value is missing or does not convert.
//!
//! Each value is first converted into an intermediate that can still be
//! turned back; the intermediate of the value at position 3 is the local
//! `__ir_3`. Before an error is returned, every intermediate made so far is
//! turned back and put in its place again. Only when every value has
//! converted do the intermediates become the final values, in locals named
//! like the fields.

use crate::text::{concatenated, decimal, push_decimal};
use vstd::prelude::*;

verus! {

// The fixed parts of the statements. Each is named after what follows it.

pub const DECODE_LET: &'static str = "        let __ir_";

pub const DECODE_TAKE: &'static str = " = match row.take(";

pub const DECODE_SOME: &'static str = "usize) {\n            Some(value) => match ";

pub const DECODE_CONVERT: &'static str =
    "::get_intermediate(value) {\n                Ok(ir) => ir,\n                Err(mysql::FromValueError(value)) => {\n                    row.place(";

pub const DECODE_PLACED: &'static str = "usize, value);\n";

pub const DECODE_FAILED: &'static str =
    "                    return Err(mysql::FromRowError(row));\n                }\n            },\n            None => {\n";

pub const DECODE_MISSING: &'static str =
    "                return Err(mysql::FromRowError(row));\n            }\n        };\n";

pub const INDENT_FAILED: &'static str = "                    ";

pub const INDENT_MISSING: &'static str = "                ";

pub const RESTORE_PLACE: &'static str = "row.place(";

pub const RESTORE_VALUE: &'static str = "usize, __ir_";

pub const RESTORE_CLOSE: &'static str = ".rollback());\n";

pub const COMMIT_LET: &'static str = "        let ";

pub const COMMIT_VALUE: &'static str = " = __ir_";

pub const COMMIT_CLOSE: &'static str = ".commit();\n";

/// One value of a row: where it stands in the row, the local that its final
/// value goes into, and the type that it is converted to.
pub struct Slot {
    pub position: nat,
    pub ident: Seq<char>,
    pub ty: Seq<char>,
}

/// The statement that turns one intermediate back into a value and puts it
/// in its place in the row.
pub open spec fn restore_line(indent: Seq<char>, s: Slot) -> Seq<char> {
    indent + RESTORE_PLACE@ + decimal(s.position) + RESTORE_VALUE@ + decimal(s.position)
        + RESTORE_CLOSE@
}

/// The statements that put every value of `slots` back, in order.
pub open spec fn restore_lines(indent: Seq<char>, slots: Seq<Slot>) -> Seq<char>
    decreases slots.len(),
{
    if slots.len() == 0 {
        Seq::empty()
    } else {
        restore_lines(indent, slots.drop_last()) + restore_line(indent, slots.last())
    }
}

/// The statement that decodes one value, with `before` already decoded: it
/// takes the value out of the row and converts it into an intermediate.
/// Where the value does not convert, it is put back, and so is every value
/// of `before`; where there is no value, every value of `before` is put
/// back. Either way the row is then returned in the error.
pub open spec fn decode_step(before: Seq<Slot>, s: Slot) -> Seq<char> {
    DECODE_LET@ + decimal(s.position) + DECODE_TAKE@ + decimal(s.position) + DECODE_SOME@ + s.ty
        + DECODE_CONVERT@ + decimal(s.position) + DECODE_PLACED@ + restore_lines(
        INDENT_FAILED@,
        before,
    ) + DECODE_FAILED@ + restore_lines(INDENT_MISSING@, before) + DECODE_MISSING@
}

/// The decoding statements of all values, each with those before it.
pub open spec fn decode_steps(slots: Seq<Slot>) -> Seq<Seq<char>> {
    Seq::new(slots.len(), |k: int| decode_step(slots.take(k), slots[k]))
}

/// The statement that makes the final value of one intermediate.
pub open spec fn commit_line(s: Slot) -> Seq<char> {
    COMMIT_LET@ + s.ident + COMMIT_VALUE@ + decimal(s.position) + COMMIT_CLOSE@
}

/// The statements that make the final values, in order.
pub open spec fn commit_lines(slots: Seq<Slot>) -> Seq<Seq<char>> {
    slots.map_values(|s: Slot| commit_line(s))
}

/// The statements that decode a row: every value converted, then every
/// final value made.
pub open spec fn row_decoding(slots: Seq<Slot>) -> Seq<char> {
    concatenated(decode_steps(slots)) + concatenated(commit_lines(slots))
}

/// One value of a row.
#[derive(Clone, Debug)]
pub struct RowSlot {
    /// Where the value stands in the row.
    pub position: usize,
    /// The local that the final value goes into.
    pub ident: String,
    /// The type that the value is converted to.
    pub ty: String,
}

impl View for RowSlot {
    type V = Slot;

    open spec fn view(&self) -> Slot {
        Slot { position: self.position as nat, ident: self.ident@, ty: self.ty@ }
    }
}

/// The models of a sequence of slots.
pub open spec fn slot_models(slots: Seq<RowSlot>) -> Seq<Slot> {
    slots.map_values(|s: RowSlot| s@)
}

/// Appends the statement that puts one value back.
fn push_restore_line(out: &mut String, indent: &str, slot: &RowSlot)
    ensures
        final(out)@ == old(out)@ + restore_line(indent@, slot@),
{
    out.append(indent);
    out.append(RESTORE_PLACE);
    push_decimal(out, slot.position);
    out.append(RESTORE_VALUE);
    push_decimal(out, slot.position);
    out.append(RESTORE_CLOSE);
    assert(out@ =~= old(out)@ + restore_line(indent@, slot@));
}

/// The statement that decodes one value, with the statements that put the
/// earlier values back.
fn decode_step_text(slot: &RowSlot, restore_failed: &str, restore_missing: &str) -> (r: String)
    ensures
        r@ == DECODE_LET@ + decimal(slot@.position) + DECODE_TAKE@ + decimal(slot@.position)
            + DECODE_SOME@ + slot@.ty + DECODE_CONVERT@ + decimal(slot@.position) + DECODE_PLACED@
            + restore_failed@ + DECODE_FAILED@ + restore_missing@ + DECODE_MISSING@,
{
    let mut out = DECODE_LET.to_owned();
    push_decimal(&mut out, slot.position);
    out.append(DECODE_TAKE);
    push_decimal(&mut out, slot.position);
    out.append(DECODE_SOME);
    out.append(slot.ty.as_str());
    out.append(DECODE_CONVERT);
    push_decimal(&mut out, slot.position);
    out.append(DECODE_PLACED);
    out.append(restore_failed);
    out.append(DECODE_FAILED);
    out.append(restore_missing);
    out.append(DECODE_MISSING);
    out
}

/// The statement that makes the final value of one intermediate.
fn commit_line_text(slot: &RowSlot) -> (r: String)
    ensures
        r@ == commit_line(slot@),
{
    let mut out = COMMIT_LET.to_owned();
    out.append(slot.ident.as_str());
    out.append(COMMIT_VALUE);
    push_decimal(&mut out, slot.position);
    out.append(COMMIT_CLOSE);
    out
}

/// The statements that decode a row with the given values.
pub fn make_row_decoding(slots: &Vec<RowSlot>) -> (r: String)
    ensures
        r@ == row_decoding(slot_models(slots@)),
{
    let ghost models = slot_models(slots@);
    let ghost steps = decode_steps(models);
    let mut out = String::new();
    let mut restore_failed = String::new();
    let mut restore_missing = String::new();
    let mut k: usize = 0;
    assert(models.take(0).len() == 0);
    while k < slots.len()
        invariant
            k <= slots.len(),
            models == slot_models(slots@),
            steps == decode_steps(models),
            out@ == concatenated(steps.take(k as int)),
            restore_failed@ == restore_lines(INDENT_FAILED@, models.take(k as int)),
            restore_missing@ == restore_lines(INDENT_MISSING@, models.take(k as int)),
        decreases slots.len() - k,
    {
        let step = decode_step_text(&slots[k], restore_failed.as_str(), restore_missing.as_str());
        proof {
            assert(models[k as int] == slots@[k as int]@);
            assert(steps[k as int] == decode_step(models.take(k as int), models[k as int]));
            assert(steps.take(k + 1).drop_last() =~= steps.take(k as int));
            assert(steps.take(k + 1).last() == step@);
            assert(models.take(k + 1).drop_last() =~= models.take(k as int));
            assert(models.take(k + 1).last() == slots@[k as int]@);
        }
        out.append(step.as_str());
        push_restore_line(&mut restore_failed, INDENT_FAILED, &slots[k]);
        push_restore_line(&mut restore_missing, INDENT_MISSING, &slots[k]);
        k += 1;
    }
    assert(steps.take(slots.len() as int) =~= steps);
    let ghost commits = commit_lines(models);
    let ghost decoded = out@;
    let mut tail = String::new();
    let mut j: usize = 0;
    while j < slots.len()
        invariant
            j <= slots.len(),
            models == slot_models(slots@),
            commits == commit_lines(models),
            tail@ == concatenated(commits.take(j as int)),
        decreases slots.len() - j,
    {
        let line = commit_line_text(&slots[j]);
        proof {
            assert(commits.take(j + 1).drop_last() =~= commits.take(j as int));
            assert(commits.take(j + 1).last() == line@);
        }
        tail.append(line.as_str());
        j += 1;
    }
    assert(commits.take(slots.len() as int) =~= commits);
    out.append(tail.as_str());
    out
}

} // verus!
