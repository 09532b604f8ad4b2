//! What holds of every table and of every fragment generated from it.

use crate::decl::{all_named, field_ident, Declaration, FieldDecl, MacroError};
use crate::decode::{decode_step, decode_steps, Slot};
use crate::fragments::{
    assign_method, assign_render, column_line, column_lines, column_slots, equal_term, fields_ee,
    fields_fi, fields_string, fields_string2, fields_v, param_term, per_column, string2_entries,
    string_entries, value_term, value_terms, LINE_NOT_NULL, LINE_OPEN, LINE_TYPE, NAME_COMMA,
    VALUE_CLOSE, VALUE_OPEN, VALUE_SELF,
};
use crate::schema::{
    column_of, first_match, identity_name, is_selected, kept, mapped, parsed_column, parsed_columns,
    parsed_columns_from, selected, sql_type_of, table_of, type_map1, type_map2, ColumnModel,
    TableModel,
};
use crate::text::{joined, string_literal};
use vstd::prelude::*;

verus! {

/// The positions in `s` of the items that `keep` accepts, in rising order.
pub open spec fn kept_positions<T>(s: Seq<T>, keep: spec_fn(T) -> bool) -> Seq<int>
    decreases s.len(),
{
    if s.len() == 0 {
        Seq::empty()
    } else {
        let rest = kept_positions(s.drop_last(), keep);
        if keep(s.last()) {
            rest.push(s.len() - 1)
        } else {
            rest
        }
    }
}

/// The positions of the columns that a fragment lists.
pub open spec fn selected_positions(cols: Seq<ColumnModel>, use_id: bool) -> Seq<int> {
    kept_positions(cols, |c: ColumnModel| is_selected(c, use_id))
}

/// A filter keeps exactly the accepted items, each once for each time it
/// stands in the sequence, in the order in which they stand there.
pub proof fn lemma_kept_is_ordered_subsequence<T>(s: Seq<T>, keep: spec_fn(T) -> bool)
    ensures
        kept(s, keep).len() == kept_positions(s, keep).len(),
        kept(s, keep).len() <= s.len(),
        forall|j: int|
            0 <= j < kept(s, keep).len() ==> 0 <= (#[trigger] kept_positions(s, keep)[j]) < s.len()
                && kept(s, keep)[j] == s[kept_positions(s, keep)[j]] && keep(
                s[kept_positions(s, keep)[j]],
            ),
        forall|a: int, b: int|
            0 <= a < b < kept(s, keep).len() ==> (#[trigger] kept_positions(s, keep)[a]) < (
            #[trigger] kept_positions(s, keep)[b]),
        forall|i: int|
            0 <= i < s.len() && keep(#[trigger] s[i]) ==> exists|j: int|
                0 <= j < kept(s, keep).len() && kept_positions(s, keep)[j] == i,
    decreases s.len(),
{
    if s.len() > 0 {
        let head = s.drop_last();
        lemma_kept_is_ordered_subsequence(head, keep);
        let pos = kept_positions(s, keep);
        let hpos = kept_positions(head, keep);
        assert forall|i: int| 0 <= i < s.len() && keep(#[trigger] s[i]) implies exists|j: int|
            0 <= j < kept(s, keep).len() && pos[j] == i by {
            if i < s.len() - 1 {
                assert(head[i] == s[i]);
                let j = choose|j: int| 0 <= j < kept(head, keep).len() && hpos[j] == i;
                assert(pos[j] == i);
            } else {
                assert(pos[hpos.len() as int] == i);
            }
        }
    }
}

/// A filter that accepts every item of a sequence keeps the sequence.
pub proof fn lemma_kept_all_of<T>(s: Seq<T>, keep: spec_fn(T) -> bool)
    requires
        forall|i: int| 0 <= i < s.len() ==> keep(#[trigger] s[i]),
    ensures
        kept(s, keep) == s,
    decreases s.len(),
{
    if s.len() > 0 {
        let head = s.drop_last();
        assert forall|i: int| 0 <= i < head.len() implies keep(#[trigger] head[i]) by {
            assert(head[i] == s[i]);
        }
        lemma_kept_all_of(head, keep);
        assert(head.push(s.last()) =~= s);
    }
}

/// A filter that refuses the item at one position and no other keeps the
/// sequence without that position.
pub proof fn lemma_kept_all_but_one<T>(s: Seq<T>, keep: spec_fn(T) -> bool, k: int)
    requires
        0 <= k < s.len(),
        forall|i: int| 0 <= i < s.len() ==> (keep(#[trigger] s[i]) <==> i != k),
    ensures
        kept(s, keep) == s.remove(k),
    decreases s.len(),
{
    let head = s.drop_last();
    if k == s.len() - 1 {
        assert forall|i: int| 0 <= i < head.len() implies keep(#[trigger] head[i]) by {
            assert(head[i] == s[i]);
        }
        lemma_kept_all_of(head, keep);
        assert(head =~= s.remove(k));
    } else {
        assert forall|i: int| 0 <= i < head.len() implies (keep(#[trigger] head[i]) <==> i
            != k) by {
            assert(head[i] == s[i]);
        }
        lemma_kept_all_but_one(head, keep, k);
        assert(keep(s[s.len() - 1]));
        assert(head.remove(k).push(s.last()) =~= s.remove(k));
    }
}

/// The columns of a list of fields stand behind those that were there, one
/// per field, in the order of the fields.
pub proof fn lemma_parsed_columns_follow_fields(
    fields: Seq<FieldDecl>,
    acc: Seq<ColumnModel>,
    cols: Seq<ColumnModel>,
)
    requires
        parsed_columns_from(fields, acc) == Ok::<Seq<ColumnModel>, MacroError>(cols),
    ensures
        cols.len() == acc.len() + fields.len(),
        forall|i: int| 0 <= i < acc.len() ==> cols[i] == acc[i],
        forall|i: int|
            0 <= i < fields.len() ==> parsed_column(#[trigger] fields[i]) == Ok::<
                ColumnModel,
                MacroError,
            >(cols[acc.len() + i]),
    decreases fields.len(),
{
    if fields.len() > 0 {
        let c = parsed_column(fields[0])->Ok_0;
        lemma_parsed_columns_follow_fields(fields.skip(1), acc.push(c), cols);
        assert forall|i: int| 0 <= i < fields.len() implies parsed_column(#[trigger] fields[i])
            == Ok::<ColumnModel, MacroError>(cols[acc.len() + i]) by {
            if i == 0 {
                assert(cols[acc.len() as int] == acc.push(c)[acc.len() as int]);
            } else {
                assert(fields.skip(1)[i - 1] == fields[i]);
            }
        }
        assert forall|i: int| 0 <= i < acc.len() implies cols[i] == acc[i] by {
            assert(acc.push(c)[i] == acc[i]);
        }
    }
}

/// Declared order is kept from the fields to the columns: the table of a
/// struct has one column per field, at the field's position, with the
/// field's name and type, and every column is well formed.
pub proof fn law_columns_follow_fields(fields: Seq<FieldDecl>, cols: Seq<ColumnModel>)
    requires
        parsed_columns(fields) == Ok::<Seq<ColumnModel>, MacroError>(cols),
    ensures
        cols.len() == fields.len(),
        forall|i: int|
            0 <= i < fields.len() ==> (#[trigger] fields[i]).ident is Some && cols[i].ident
                == fields[i].ident->0@ && cols[i].ty == fields[i].ty@ && cols[i].wf(),
{
    lemma_parsed_columns_follow_fields(fields, Seq::empty(), cols);
}

/// Where no column is the identity column, excluding the identity column
/// excludes nothing: every fragment is the same with and without it.
pub proof fn law_no_identity_nothing_excluded(
    cols: Seq<ColumnModel>,
    left: Seq<char>,
    mid: Seq<char>,
    right: Seq<char>,
    sep: Seq<char>,
)
    requires
        forall|i: int| 0 <= i < cols.len() ==> !(#[trigger] cols[i]).is_identity(),
    ensures
        selected(cols, false) == cols,
        selected(cols, true) == cols,
        fields_string(cols, left, right, sep, false) == fields_string(
            cols,
            left,
            right,
            sep,
            true,
        ),
        fields_string2(cols, left, mid, right, sep, false) == fields_string2(
            cols,
            left,
            mid,
            right,
            sep,
            true,
        ),
        fields_ee(cols, false) == fields_ee(cols, true),
        fields_v(cols, false) == fields_v(cols, true),
        fields_fi(cols) == joined(cols.map_values(|c: ColumnModel| param_term(c)), NAME_COMMA@),
{
    lemma_kept_all_of(cols, |c: ColumnModel| is_selected(c, false));
    lemma_kept_all_of(cols, |c: ColumnModel| is_selected(c, true));
}

/// The same of a struct: where no field is named `id`, every fragment of
/// its table is the same with and without the identity column.
pub proof fn law_struct_without_identity_field(
    fields: Seq<FieldDecl>,
    cols: Seq<ColumnModel>,
    left: Seq<char>,
    mid: Seq<char>,
    right: Seq<char>,
    sep: Seq<char>,
)
    requires
        parsed_columns(fields) == Ok::<Seq<ColumnModel>, MacroError>(cols),
        forall|i: int|
            0 <= i < fields.len() && (#[trigger] fields[i]).ident is Some ==> fields[i].ident->0@
                != identity_name(),
    ensures
        selected(cols, false) == cols,
        fields_string(cols, left, right, sep, false) == fields_string(
            cols,
            left,
            right,
            sep,
            true,
        ),
        fields_string2(cols, left, mid, right, sep, false) == fields_string2(
            cols,
            left,
            mid,
            right,
            sep,
            true,
        ),
        fields_ee(cols, false) == fields_ee(cols, true),
        fields_v(cols, false) == fields_v(cols, true),
{
    law_columns_follow_fields(fields, cols);
    assert forall|i: int| 0 <= i < cols.len() implies !(#[trigger] cols[i]).is_identity() by {
        assert(fields[i].ident is Some);
    }
    law_no_identity_nothing_excluded(cols, left, mid, right, sep);
}

/// Where exactly one column is the identity column, every fragment that
/// excludes it lists the other columns and only them: one entry less than
/// there are columns, none of them made from the identity column.
pub proof fn law_one_identity_one_entry_less(
    cols: Seq<ColumnModel>,
    k: int,
    left: Seq<char>,
    mid: Seq<char>,
    right: Seq<char>,
)
    requires
        0 <= k < cols.len(),
        forall|i: int| 0 <= i < cols.len() ==> ((#[trigger] cols[i]).is_identity() <==> i == k),
    ensures
        selected(cols, false) == cols.remove(k),
        selected(cols, false).len() == cols.len() - 1,
        forall|j: int|
            0 <= j < selected(cols, false).len() ==> !(#[trigger] selected(
                cols,
                false,
            )[j]).is_identity(),
        string_entries(cols, left, right, false).len() == cols.len() - 1,
        string2_entries(cols, left, mid, right, false).len() == cols.len() - 1,
        value_terms(cols, false).len() == cols.len() - 1,
        forall|j: int|
            0 <= j < cols.len() - 1 ==> #[trigger] string_entries(cols, left, right, false)[j]
                == left + cols.remove(k)[j].sql_name() + right,
        forall|j: int|
            0 <= j < cols.len() - 1 ==> #[trigger] string2_entries(
                cols,
                left,
                mid,
                right,
                false,
            )[j] == left + cols.remove(k)[j].sql_name() + mid + cols.remove(k)[j].sql_name()
                + right,
        forall|j: int|
            0 <= j < cols.len() - 1 ==> #[trigger] value_terms(cols, false)[j] == value_term(
                cols.remove(k)[j],
            ),
{
    lemma_kept_all_but_one(cols, |c: ColumnModel| is_selected(c, false), k);
    assert forall|j: int| 0 <= j < cols.remove(k).len() implies !(#[trigger] cols.remove(
        k,
    )[j]).is_identity() by {
        if j < k {
            assert(cols.remove(k)[j] == cols[j]);
        } else {
            assert(cols.remove(k)[j] == cols[j + 1]);
        }
    }
}

/// Where no column is renamed to `id`, no entry of a fragment that excludes
/// the identity column is named `id`, neither in the program nor in storage.
pub proof fn law_excluded_identity_is_not_named(cols: Seq<ColumnModel>)
    requires
        forall|i: int| 0 <= i < cols.len() ==> (#[trigger] cols[i]).wf(),
        forall|i: int|
            0 <= i < cols.len() && (#[trigger] cols[i]).opt.contains_key("name"@)
                ==> cols[i].opt["name"@] != identity_name(),
    ensures
        forall|j: int|
            0 <= j < selected(cols, false).len() ==> (#[trigger] selected(cols, false)[j]).ident
                != identity_name() && selected(cols, false)[j].sql_name() != identity_name(),
{
    let keep = |c: ColumnModel| is_selected(c, false);
    lemma_kept_is_ordered_subsequence(cols, keep);
    assert forall|j: int| 0 <= j < selected(cols, false).len() implies (#[trigger] selected(
        cols,
        false,
    )[j]).ident != identity_name() && selected(cols, false)[j].sql_name()
        != identity_name() by {
        let i = kept_positions(cols, keep)[j];
        assert(selected(cols, false)[j] == cols[i]);
        assert(keep(cols[i]));
        assert(cols[i].wf());
    }
}

/// Every list keeps declared order, and merges nothing: with the identity
/// column the listed columns are the table's columns; without it they are
/// the columns at rising positions, every column that is not the identity
/// column among them, each once for each time it is declared.
pub proof fn law_selected_keeps_declared_order(cols: Seq<ColumnModel>, use_id: bool)
    ensures
        selected(cols, true) == cols,
        selected(cols, use_id).len() == selected_positions(cols, use_id).len(),
        forall|j: int|
            0 <= j < selected(cols, use_id).len() ==> 0 <= (#[trigger] selected_positions(
                cols,
                use_id,
            )[j]) < cols.len() && selected(cols, use_id)[j] == cols[selected_positions(
                cols,
                use_id,
            )[j]],
        forall|a: int, b: int|
            0 <= a < b < selected(cols, use_id).len() ==> (#[trigger] selected_positions(
                cols,
                use_id,
            )[a]) < (#[trigger] selected_positions(cols, use_id)[b]),
        forall|i: int|
            0 <= i < cols.len() && is_selected(#[trigger] cols[i], use_id) ==> exists|j: int|
                0 <= j < selected(cols, use_id).len() && selected_positions(cols, use_id)[j] == i,
{
    lemma_kept_all_of(cols, |c: ColumnModel| is_selected(c, true));
    let keep = |c: ColumnModel| is_selected(c, use_id);
    lemma_kept_is_ordered_subsequence(cols, keep);
    assert forall|i: int|
        0 <= i < cols.len() && is_selected(#[trigger] cols[i], use_id) implies exists|j: int|
        0 <= j < selected(cols, use_id).len() && selected_positions(cols, use_id)[j] == i by {
        assert(keep(cols[i]));
        let j = choose|j: int| 0 <= j < kept(cols, keep).len() && kept_positions(cols, keep)[j] == i;
        assert(selected_positions(cols, use_id)[j] == i);
    }
}

/// Every emitted list has one entry per listed column, at the column's
/// place in the list, made from that column alone.
pub proof fn law_entries_follow_columns(
    cols: Seq<ColumnModel>,
    use_id: bool,
    left: Seq<char>,
    mid: Seq<char>,
    right: Seq<char>,
)
    ensures
        column_lines(cols).len() == cols.len(),
        forall|i: int| 0 <= i < cols.len() ==> #[trigger] column_lines(cols)[i] == column_line(cols[i]),
        per_column(cols, assign_render()).len() == cols.len(),
        forall|i: int|
            0 <= i < cols.len() ==> #[trigger] per_column(cols, assign_render())[i]
                == assign_method(cols[i].ident, cols[i].ty),
        decode_steps(column_slots(cols)).len() == cols.len(),
        forall|i: int|
            0 <= i < cols.len() ==> #[trigger] decode_steps(column_slots(cols))[i] == decode_step(
                column_slots(cols.take(i)),
                Slot { position: i as nat, ident: cols[i].ident, ty: cols[i].ty },
            ),
        string_entries(cols, left, right, use_id).len() == selected(cols, use_id).len(),
        forall|j: int|
            0 <= j < selected(cols, use_id).len() ==> #[trigger] string_entries(
                cols,
                left,
                right,
                use_id,
            )[j] == left + selected(cols, use_id)[j].sql_name() + right,
        string2_entries(cols, left, mid, right, use_id).len() == selected(cols, use_id).len(),
        forall|j: int|
            0 <= j < selected(cols, use_id).len() ==> #[trigger] string2_entries(
                cols,
                left,
                mid,
                right,
                use_id,
            )[j] == left + selected(cols, use_id)[j].sql_name() + mid + selected(
                cols,
                use_id,
            )[j].sql_name() + right,
        value_terms(cols, use_id).len() == selected(cols, use_id).len(),
        forall|j: int|
            0 <= j < selected(cols, use_id).len() ==> #[trigger] value_terms(cols, use_id)[j]
                == value_term(selected(cols, use_id)[j]),
{
    assert forall|i: int| 0 <= i < cols.len() implies #[trigger] decode_steps(
        column_slots(cols),
    )[i] == decode_step(
        column_slots(cols.take(i)),
        Slot { position: i as nat, ident: cols[i].ident, ty: cols[i].ty },
    ) by {
        assert(column_slots(cols).take(i) =~= column_slots(cols.take(i)));
    }
}

/// A lookup never fails: it gives the value of the first entry with the
/// key, and the key itself where no entry has it.
pub proof fn law_lookup_is_first_match_or_identity(
    table: Seq<(Seq<char>, Seq<char>)>,
    key: Seq<char>,
)
    ensures
        (forall|i: int| 0 <= i < table.len() ==> (#[trigger] table[i]).0 != key) ==> mapped(
            table,
            key,
        ) == key,
        forall|i: int|
            0 <= i < table.len() && (#[trigger] table[i]).0 == key && (forall|j: int|
                0 <= j < i ==> (#[trigger] table[j]).0 != key) ==> mapped(table, key) == table[i].1,
    decreases table.len(),
{
    if table.len() > 0 {
        let rest = table.skip(1);
        law_lookup_is_first_match_or_identity(rest, key);
        if table[0].0 == key {
        } else {
            assert forall|i: int| 0 <= i < rest.len() implies (#[trigger] rest[i]) == table[i + 1] by {}
            if forall|i: int| 0 <= i < table.len() ==> (#[trigger] table[i]).0 != key {
                assert forall|i: int| 0 <= i < rest.len() implies (#[trigger] rest[i]).0 != key by {
                    assert(rest[i] == table[i + 1]);
                }
            }
            assert forall|i: int|
                0 <= i < table.len() && (#[trigger] table[i]).0 == key && (forall|j: int|
                    0 <= j < i ==> (#[trigger] table[j]).0 != key) implies mapped(table, key)
                == table[i].1 by {
                assert(i > 0);
                assert(rest[i - 1] == table[i]);
                assert forall|j: int| 0 <= j < i - 1 implies (#[trigger] rest[j]).0 != key by {
                    assert(rest[j] == table[j + 1]);
                }
            }
        }
    }
}

/// Every declared type has a storage type: the one that the two tables
/// give, and the declared type itself where neither table knows it.
pub proof fn law_type_mapping_is_total(ty: Seq<char>)
    ensures
        sql_type_of(ty) == mapped(type_map2(), mapped(type_map1(), ty)),
        first_match(type_map1(), ty) is None && first_match(type_map2(), ty) is None
            ==> sql_type_of(ty) == ty,
{
}

/// The `type` option wins over the inferred type: a column with that
/// option has the option's value as its storage type, whatever its declared
/// type, and its line of the table-creation statement shows that value.
pub proof fn law_type_option_wins(
    ident: Seq<char>,
    ty: Seq<char>,
    other_ty: Seq<char>,
    opt: Map<Seq<char>, Seq<char>>,
)
    requires
        opt.contains_key("type"@),
    ensures
        column_of(ident, ty, opt).sql_type == opt["type"@],
        column_of(ident, ty, opt).sql_type == column_of(ident, other_ty, opt).sql_type,
        column_line(column_of(ident, ty, opt)) == LINE_OPEN@ + column_of(ident, ty, opt).sql_name()
            + LINE_TYPE@ + opt["type"@] + LINE_NOT_NULL@ + column_of(ident, ty, opt).sql_auto(),
        column_line(column_of(ident, ty, opt)) == column_line(column_of(ident, other_ty, opt)),
{
}

/// The `name` option renames the column in storage and nowhere else: the
/// table-creation statement, the field lists and the query parameters show
/// the new name; the builder method, the comparisons, the parameters of
/// `create_with` and the locals of the row decoding keep the field's name.
pub proof fn law_rename_reaches_storage_only(
    ident: Seq<char>,
    ty: Seq<char>,
    opt: Map<Seq<char>, Seq<char>>,
    i: int,
    left: Seq<char>,
    mid: Seq<char>,
    right: Seq<char>,
)
    requires
        opt.contains_key("name"@),
    ensures
        column_of(ident, ty, opt).sql_name() == opt["name"@],
        column_line(column_of(ident, ty, opt)) == LINE_OPEN@ + opt["name"@] + LINE_TYPE@
            + column_of(ident, ty, opt).sql_type + LINE_NOT_NULL@ + column_of(
            ident,
            ty,
            opt,
        ).sql_auto(),
        string_entries(seq![column_of(ident, ty, opt)], left, right, true) == seq![
            left + opt["name"@] + right,
        ],
        string2_entries(seq![column_of(ident, ty, opt)], left, mid, right, true) == seq![
            left + opt["name"@] + mid + opt["name"@] + right,
        ],
        value_term(column_of(ident, ty, opt)) == VALUE_OPEN@ + string_literal(opt["name"@])
            + VALUE_SELF@ + ident + VALUE_CLOSE@,
        column_of(ident, ty, opt).ident == ident,
        equal_term(column_of(ident, ty, opt)) == equal_term(column_of(ident, ty, Map::empty())),
        param_term(column_of(ident, ty, opt)) == param_term(column_of(ident, ty, Map::empty())),
        per_column(seq![column_of(ident, ty, opt)], assign_render()) == seq![
            assign_method(ident, ty),
        ],
        column_slots(seq![column_of(ident, ty, opt)]) == seq![
            Slot { position: 0, ident, ty },
        ],
{
    let c = column_of(ident, ty, opt);
    let one = seq![c];
    assert(one.drop_last() =~= Seq::<ColumnModel>::empty());
    assert(one.last() == c);
    assert(is_selected(c, true));
    let keep = |x: ColumnModel| is_selected(x, true);
    assert(kept(one.drop_last(), keep) =~= Seq::<ColumnModel>::empty());
    assert(selected(one, true) =~= one);
    assert(string_entries(one, left, right, true) =~= seq![left + opt["name"@] + right]);
    assert(string2_entries(one, left, mid, right, true) =~= seq![
        left + opt["name"@] + mid + opt["name"@] + right,
    ]);
    assert(per_column(one, assign_render()) =~= seq![assign_method(ident, ty)]);
    assert(column_slots(one) =~= seq![Slot { position: 0, ident, ty }]);
}

/// A well-formed table has at most one identity column.
pub proof fn law_at_most_one_identity(t: TableModel)
    requires
        t.wf(),
    ensures
        forall|i: int, j: int|
            0 <= i < t.columns.len() && 0 <= j < t.columns.len() && (
            #[trigger] t.columns[i]).is_identity() && (#[trigger] t.columns[j]).is_identity() ==> i
                == j,
{
    assert forall|i: int, j: int|
        0 <= i < t.columns.len() && 0 <= j < t.columns.len() && (
        #[trigger] t.columns[i]).is_identity() && (
        #[trigger] t.columns[j]).is_identity() implies i == j by {
        if i < j {
            assert(t.columns[i].ident != t.columns[j].ident);
        }
        if j < i {
            assert(t.columns[j].ident != t.columns[i].ident);
        }
    }
}

/// The table of a struct is well formed where the struct's fields differ in
/// their names.
pub proof fn law_distinct_fields_give_wf_table(dvi: Declaration, t: TableModel)
    requires
        table_of(dvi) == Ok::<TableModel, MacroError>(t),
        dvi.body is Struct,
        forall|i: int, j: int|
            0 <= i < j < dvi.body->fields@.len() ==> field_ident(#[trigger] dvi.body->fields@[i])
                != field_ident(#[trigger] dvi.body->fields@[j]),
    ensures
        t.wf(),
        t.columns.len() == dvi.body->fields@.len(),
{
    let fields = dvi.body->fields@;
    law_columns_follow_fields(fields, t.columns);
    assert forall|i: int| 0 <= i < t.columns.len() implies (#[trigger] t.columns[i]).wf() by {
        assert(fields[i].ident is Some);
    }
    assert forall|i: int, j: int| 0 <= i < j < t.columns.len() implies (
    #[trigger] t.columns[i]).ident != (#[trigger] t.columns[j]).ident by {
        assert(fields[i].ident is Some && fields[j].ident is Some);
        assert(field_ident(fields[i]) != field_ident(fields[j]));
    }
}

/// The same of a struct: where exactly one field is named `id`, the
/// fragments that exclude the identity column list the columns of the other
/// fields, in declared order, and only them.
pub proof fn law_struct_with_one_identity_field(
    fields: Seq<FieldDecl>,
    cols: Seq<ColumnModel>,
    k: int,
)
    requires
        parsed_columns(fields) == Ok::<Seq<ColumnModel>, MacroError>(cols),
        0 <= k < fields.len(),
        forall|i: int|
            0 <= i < fields.len() && (#[trigger] fields[i]).ident is Some ==> (fields[i].ident->0@
                == identity_name() <==> i == k),
    ensures
        cols.len() == fields.len(),
        selected(cols, false) == cols.remove(k),
        selected(cols, false).len() == fields.len() - 1,
        forall|j: int|
            0 <= j < selected(cols, false).len() ==> (#[trigger] selected(cols, false)[j]).ident
                != identity_name(),
{
    law_columns_follow_fields(fields, cols);
    assert forall|i: int| 0 <= i < cols.len() implies ((#[trigger] cols[i]).is_identity() <==> i
        == k) by {
        assert(fields[i].ident is Some);
    }
    law_one_identity_one_entry_less(cols, k, Seq::empty(), Seq::empty(), Seq::empty());
}

/// The builder methods are the same whether a struct is a SQL model or has
/// builder methods alone.
pub proof fn law_builders_alike(fields: Seq<FieldDecl>, cols: Seq<ColumnModel>)
    requires
        parsed_columns(fields) == Ok::<Seq<ColumnModel>, MacroError>(cols),
    ensures
        all_named(fields),
        crate::fragments::assign_methods(cols) == crate::qa::assign_methods(
            crate::qa::field_models(fields),
        ),
{
    law_columns_follow_fields(fields, cols);
    assert(per_column(cols, assign_render()) =~= crate::qa::per_field(
        crate::qa::field_models(fields),
        assign_render(),
    ));
}

} // verus!
