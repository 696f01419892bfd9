//! The AtomSpace: atoms held by identifier, with statistics and queries.

use std::collections::HashMap;
use vstd::prelude::*;

use crate::clock::{clock_now, elapsed_millis};
use crate::config::AtomSpaceConfig;
use crate::text::{contains_text, occurs_at, text_contains};
use crate::error::OpenCogError;
use crate::types::{
    Atom, AtomId, AtomKind, AtomModel, AtomSpaceStats, AtomType, AtomTypeModel, QueryPattern,
    QueryResult, kind_name, kind_of,
};

verus! {

broadcast use vstd::std_specs::hash::group_hash_axioms;

/// AtomSpace manager: a store of atoms keyed by their identifiers.
pub struct AtomSpaceManager {
    /// Configuration
    config: AtomSpaceConfig,
    /// Atoms by the 128-bit value of their identifier
    atom_cache: HashMap<u128, Atom>,
}

/// The identifiers in `ids` whose atom in `m` is of kind `k`.
pub open spec fn ids_of_kind(m: Map<u128, AtomModel>, ids: Set<u128>, k: AtomKind) -> Set<u128> {
    ids.filter(|id: u128| kind_of(m[id].atom_type) == k)
}

/// The number of atoms of kind `k` held in `m`.
pub open spec fn count_of_kind(m: Map<u128, AtomModel>, k: AtomKind) -> nat {
    ids_of_kind(m, m.dom(), k).len()
}

/// The statistics entry of kind `k`: its name and count, where any atom of
/// that kind is held.
pub open spec fn kind_entry(m: Map<u128, AtomModel>, k: AtomKind) -> Seq<(Seq<char>, nat)> {
    if count_of_kind(m, k) > 0 {
        seq![(kind_name(k), count_of_kind(m, k))]
    } else {
        Seq::empty()
    }
}

/// The per-kind counts of `m`: one (name, count) entry for each kind present,
/// in the order Symbol, Number, Expression, Variable, Link.
pub open spec fn type_entries(m: Map<u128, AtomModel>) -> Seq<(Seq<char>, nat)> {
    kind_entry(m, AtomKind::Symbol) + kind_entry(m, AtomKind::Number) + kind_entry(
        m,
        AtomKind::Expression,
    ) + kind_entry(m, AtomKind::Variable) + kind_entry(m, AtomKind::Link)
}

/// No two entries share a name, and every count is positive.
pub open spec fn well_named(e: Seq<(Seq<char>, nat)>) -> bool {
    &&& forall|i: int, j: int| 0 <= i < j < e.len() ==> #[trigger] e[i].0 != #[trigger] e[j].0
    &&& forall|i: int| 0 <= i < e.len() ==> #[trigger] e[i].1 > 0
}

/// Every entry's name is non-empty and starts with a character of `lead`.
spec fn leads_in(e: Seq<(Seq<char>, nat)>, lead: Set<char>) -> bool {
    forall|i: int| 0 <= i < e.len() ==> #[trigger] e[i].0.len() > 0 && lead.contains(e[i].0[0])
}

proof fn lemma_append_entry(e: Seq<(Seq<char>, nat)>, lead: Set<char>, m: Map<u128, AtomModel>, k: AtomKind)
    requires
        well_named(e),
        leads_in(e, lead),
        kind_name(k).len() > 0,
        !lead.contains(kind_name(k)[0]),
    ensures
        well_named(e + kind_entry(m, k)),
        leads_in(e + kind_entry(m, k), lead.insert(kind_name(k)[0])),
{
    let r = e + kind_entry(m, k);
    if count_of_kind(m, k) > 0 {
        assert forall|i: int, j: int| 0 <= i < j < r.len() implies #[trigger] r[i].0 != #[trigger] r[j].0 by {
            if j == e.len() {
                assert(r[i] == e[i]);
                assert(r[j] == (kind_name(k), count_of_kind(m, k)));
                assert(e[i].0.len() > 0 && lead.contains(e[i].0[0]));
                assert(r[i].0[0] != r[j].0[0]);
            } else {
                assert(r[i] == e[i] && r[j] == e[j]);
            }
        }
        assert forall|i: int| 0 <= i < r.len() implies #[trigger] r[i].0.len() > 0
            && lead.insert(kind_name(k)[0]).contains(r[i].0[0]) by {
            if i < e.len() {
                assert(r[i] == e[i]);
            }
        }
    } else {
        assert(r =~= e);
    }
}

/// The statistics entries name each kind at most once, with positive counts.
proof fn lemma_type_entries_well_named(m: Map<u128, AtomModel>)
    ensures
        well_named(type_entries(m)),
{
    reveal_strlit("Symbol");
    reveal_strlit("Number");
    reveal_strlit("Expression");
    reveal_strlit("Variable");
    reveal_strlit("Link");
    let e0 = Seq::<(Seq<char>, nat)>::empty();
    let l0 = Set::<char>::empty();
    lemma_append_entry(e0, l0, m, AtomKind::Symbol);
    let e1 = e0 + kind_entry(m, AtomKind::Symbol);
    let l1 = l0.insert('S');
    lemma_append_entry(e1, l1, m, AtomKind::Number);
    let e2 = e1 + kind_entry(m, AtomKind::Number);
    let l2 = l1.insert('N');
    lemma_append_entry(e2, l2, m, AtomKind::Expression);
    let e3 = e2 + kind_entry(m, AtomKind::Expression);
    let l3 = l2.insert('E');
    lemma_append_entry(e3, l3, m, AtomKind::Variable);
    let e4 = e3 + kind_entry(m, AtomKind::Variable);
    let l4 = l3.insert('V');
    lemma_append_entry(e4, l4, m, AtomKind::Link);
    let e5 = e4 + kind_entry(m, AtomKind::Link);
    assert(e0 + kind_entry(m, AtomKind::Symbol) =~= kind_entry(m, AtomKind::Symbol));
    assert(e5 =~= type_entries(m));
}

/// The text and count of each statistics entry.
pub open spec fn entries_view(v: Seq<(String, usize)>) -> Seq<(Seq<char>, nat)> {
    v.map_values(|e: (String, usize)| (e.0@, e.1 as nat))
}

/// Adding an identifier not yet seen raises the count of its kind by one and
/// leaves the other counts alone.
proof fn lemma_count_insert(m: Map<u128, AtomModel>, ids: Set<u128>, x: u128, k: AtomKind)
    requires
        ids.finite(),
        !ids.contains(x),
    ensures
        ids_of_kind(m, ids.insert(x), k).len() == ids_of_kind(m, ids, k).len() + if kind_of(
            m[x].atom_type,
        ) == k {
            1int
        } else {
            0int
        },
{
    let before = ids_of_kind(m, ids, k);
    let after = ids_of_kind(m, ids.insert(x), k);
    ids.lemma_len_filter(|id: u128| kind_of(m[id].atom_type) == k);
    if kind_of(m[x].atom_type) == k {
        assert(after =~= before.insert(x));
    } else {
        assert(after =~= before);
    }
}

/// Pushes the entry of a kind when any atom of it is held.
fn push_entry(entries: &mut Vec<(String, usize)>, k: AtomKind, count: usize)
    ensures
        entries_view(final(entries)@) == entries_view(old(entries)@) + if count > 0 {
            seq![(kind_name(k), count as nat)]
        } else {
            Seq::empty()
        },
{
    if count > 0 {
        entries.push((k.label(), count));
    }
    assert(entries_view(entries@) =~= entries_view(old(entries)@) + if count > 0 {
        seq![(kind_name(k), count as nat)]
    } else {
        Seq::empty()
    });
}

/// An atom answers a text pattern when it is a symbol whose name, or an
/// expression whose operator, occurs in the pattern text.
pub open spec fn answers_pattern(pattern: Seq<char>, t: AtomTypeModel) -> bool {
    match t {
        AtomTypeModel::Symbol { name } => contains_text(pattern, name),
        AtomTypeModel::Expression { operator, .. } => contains_text(pattern, operator),
        _ => false,
    }
}

/// The identifiers of the atoms of `m` that answer the pattern.
pub open spec fn answering_ids(m: Map<u128, AtomModel>, pattern: Seq<char>) -> Set<u128> {
    m.dom().filter(|k: u128| answers_pattern(pattern, m[k].atom_type))
}

/// The identifier values of a list of atoms, in order.
pub open spec fn ids_of(atoms: Seq<Atom>) -> Seq<u128> {
    atoms.map_values(|a: Atom| a.id.0)
}

/// `found` holds each atom of `m` that answers `pattern` exactly once, as it
/// is held in `m`, and nothing else (in no particular order).
pub open spec fn is_pattern_answer(
    m: Map<u128, AtomModel>,
    pattern: Seq<char>,
    found: Seq<Atom>,
) -> bool {
    &&& ids_of(found).no_duplicates()
    &&& ids_of(found).to_set() == answering_ids(m, pattern)
    &&& forall|j: int| 0 <= j < found.len() ==> #[trigger] found[j]@ == m[found[j].id.0]
}

/// `found` is a query's answer under an optional cap on its size: atoms of
/// `m` that answer `pattern`, each as held in `m` and none twice; all of them
/// without a cap, and as many as the cap allows (or all, if fewer) with one.
pub open spec fn is_capped_answer(
    m: Map<u128, AtomModel>,
    pattern: Seq<char>,
    found: Seq<Atom>,
    cap: Option<usize>,
) -> bool {
    &&& ids_of(found).no_duplicates()
    &&& ids_of(found).to_set().subset_of(answering_ids(m, pattern))
    &&& forall|j: int| 0 <= j < found.len() ==> #[trigger] found[j]@ == m[found[j].id.0]
    &&& match cap {
        Some(k) => found.len() == if k < answering_ids(m, pattern).len() {
            k as nat
        } else {
            answering_ids(m, pattern).len()
        },
        None => ids_of(found).to_set() == answering_ids(m, pattern),
    }
}

/// One empty binding map per match.
pub open spec fn empty_bindings_for(
    bindings: Seq<HashMap<String, AtomId>>,
    found: Seq<Atom>,
) -> bool {
    &&& bindings.len() == found.len()
    &&& forall|j: int| 0 <= j < bindings.len() ==> #[trigger] bindings[j]@ == Map::<
        String,
        AtomId,
    >::empty()
}

/// The number of atoms of each kind among `ids`, added up over the five kinds.
pub open spec fn kind_total(m: Map<u128, AtomModel>, ids: Set<u128>) -> nat {
    ids_of_kind(m, ids, AtomKind::Symbol).len() + ids_of_kind(m, ids, AtomKind::Number).len()
        + ids_of_kind(m, ids, AtomKind::Expression).len() + ids_of_kind(
        m,
        ids,
        AtomKind::Variable,
    ).len() + ids_of_kind(m, ids, AtomKind::Link).len()
}

proof fn lemma_kind_total(m: Map<u128, AtomModel>, ids: Set<u128>)
    requires
        ids.finite(),
    ensures
        kind_total(m, ids) == ids.len(),
    decreases ids.len(),
{
    if ids.len() == 0 {
        assert(ids =~= Set::empty());
        assert(ids_of_kind(m, ids, AtomKind::Symbol) =~= Set::empty());
        assert(ids_of_kind(m, ids, AtomKind::Number) =~= Set::empty());
        assert(ids_of_kind(m, ids, AtomKind::Expression) =~= Set::empty());
        assert(ids_of_kind(m, ids, AtomKind::Variable) =~= Set::empty());
        assert(ids_of_kind(m, ids, AtomKind::Link) =~= Set::empty());
    } else {
        let x = ids.choose();
        let rest = ids.remove(x);
        lemma_kind_total(m, rest);
        assert(rest.insert(x) =~= ids);
        lemma_count_insert(m, rest, x, AtomKind::Symbol);
        lemma_count_insert(m, rest, x, AtomKind::Number);
        lemma_count_insert(m, rest, x, AtomKind::Expression);
        lemma_count_insert(m, rest, x, AtomKind::Variable);
        lemma_count_insert(m, rest, x, AtomKind::Link);
    }
}

/// Every atom is of exactly one kind: the per-kind counts of the statistics
/// add up to the total number of atoms.
pub proof fn law_kind_counts_add_up(m: Map<u128, AtomModel>)
    requires
        m.dom().finite(),
    ensures
        count_of_kind(m, AtomKind::Symbol) + count_of_kind(m, AtomKind::Number) + count_of_kind(
            m,
            AtomKind::Expression,
        ) + count_of_kind(m, AtomKind::Variable) + count_of_kind(m, AtomKind::Link) == m.len(),
{
    lemma_kind_total(m, m.dom());
}

/// Looking up an atom just added gives it back, and leaves every other
/// identifier as it was.
pub proof fn law_get_after_add(m: Map<u128, AtomModel>, a: AtomModel, other: u128)
    requires
        other != a.id.0,
    ensures
        m.insert(a.id.0, a).contains_key(a.id.0),
        m.insert(a.id.0, a)[a.id.0] == a,
        m.insert(a.id.0, a).contains_key(other) == m.contains_key(other),
        m.contains_key(other) ==> m.insert(a.id.0, a)[other] == m[other],
{
}

/// Adding an atom under a new identifier and then removing it gives back the
/// AtomSpace as it was; the atom count goes up by one and back down.
pub proof fn law_remove_undoes_add(m: Map<u128, AtomModel>, a: AtomModel)
    requires
        m.dom().finite(),
        !m.contains_key(a.id.0),
    ensures
        m.insert(a.id.0, a).remove(a.id.0) == m,
        m.insert(a.id.0, a).len() == m.len() + 1,
        m.insert(a.id.0, a).remove(a.id.0).len() == m.len(),
{
    assert(m.insert(a.id.0, a).remove(a.id.0) =~= m);
}

/// Removing is idempotent: once an identifier is removed it is absent, so a
/// second removal reports that nothing was held and changes nothing.
pub proof fn law_remove_twice(m: Map<u128, AtomModel>, k: u128)
    ensures
        !m.remove(k).contains_key(k),
        m.remove(k).remove(k) == m.remove(k),
{
    assert(m.remove(k).remove(k) =~= m.remove(k));
}

/// An empty AtomSpace (as left by clearing) reports no atoms and no kinds.
pub proof fn law_empty_space_has_no_entries()
    ensures
        Map::<u128, AtomModel>::empty().len() == 0,
        type_entries(Map::<u128, AtomModel>::empty()) == Seq::<(Seq<char>, nat)>::empty(),
{
    let m = Map::<u128, AtomModel>::empty();
    assert(m.dom() =~= Set::empty());
    assert(ids_of_kind(m, m.dom(), AtomKind::Symbol) =~= Set::empty());
    assert(ids_of_kind(m, m.dom(), AtomKind::Number) =~= Set::empty());
    assert(ids_of_kind(m, m.dom(), AtomKind::Expression) =~= Set::empty());
    assert(ids_of_kind(m, m.dom(), AtomKind::Variable) =~= Set::empty());
    assert(ids_of_kind(m, m.dom(), AtomKind::Link) =~= Set::empty());
    assert(type_entries(m) =~= Seq::<(Seq<char>, nat)>::empty());
}

/// A symbol is found by a query whose pattern is its own name.
pub proof fn law_symbol_found_by_its_name(m: Map<u128, AtomModel>, k: u128, name: Seq<char>)
    requires
        m.contains_key(k),
        m[k].atom_type == (AtomTypeModel::Symbol { name }),
    ensures
        answering_ids(m, name).contains(k),
{
    assert(name.subrange(0, name.len() as int) =~= name);
    assert(occurs_at(name, name, 0));
}

/// A symbol or an expression: the only atom types that can answer a pattern.
pub open spec fn is_symbol_or_expression(t: AtomTypeModel) -> bool {
    t is Symbol || t is Expression
}

/// Only symbols and expressions answer a pattern: every match of a query is a
/// symbol or an expression, and no held link, variable or number answers any
/// pattern text.
pub proof fn law_only_symbols_and_expressions_answer(
    m: Map<u128, AtomModel>,
    pattern: Seq<char>,
    found: Seq<Atom>,
    cap: Option<usize>,
)
    requires
        is_capped_answer(m, pattern, found, cap),
    ensures
        forall|j: int| 0 <= j < found.len() ==> is_symbol_or_expression(#[trigger] found[j]@.atom_type),
        forall|k: u128|
            #[trigger] m.contains_key(k) && !is_symbol_or_expression(m[k].atom_type)
                ==> !answering_ids(m, pattern).contains(k),
{
    assert forall|j: int| 0 <= j < found.len() implies is_symbol_or_expression(
        #[trigger] found[j]@.atom_type,
    ) by {
        assert(ids_of(found)[j] == found[j].id.0);
        assert(ids_of(found).to_set().contains(found[j].id.0));
    }
}

/// Adding a link, variable or number changes no query's answer: the atoms
/// that answer a pattern are those that answered it before (less any atom
/// the new one replaces).
pub proof fn law_non_answering_atoms_leave_answers_alone(
    m: Map<u128, AtomModel>,
    pattern: Seq<char>,
    a: AtomModel,
)
    requires
        !is_symbol_or_expression(a.atom_type),
    ensures
        answering_ids(m.insert(a.id.0, a), pattern) == answering_ids(m, pattern).remove(a.id.0),
{
    assert(answering_ids(m.insert(a.id.0, a), pattern) =~= answering_ids(m, pattern).remove(
        a.id.0,
    ));
}

/// A held symbol answers every pattern that its name occurs in, and a held
/// expression every pattern that its operator occurs in; so a query without
/// a cap returns it.
pub proof fn law_named_atoms_answer(
    m: Map<u128, AtomModel>,
    pattern: Seq<char>,
    found: Seq<Atom>,
    k: u128,
    i: int,
)
    requires
        m.contains_key(k),
        is_capped_answer(m, pattern, found, None),
        match m[k].atom_type {
            AtomTypeModel::Symbol { name } => occurs_at(pattern, name, i),
            AtomTypeModel::Expression { operator, .. } => occurs_at(pattern, operator, i),
            _ => false,
        },
    ensures
        answering_ids(m, pattern).contains(k),
        exists|j: int| 0 <= j < found.len() && (#[trigger] found[j]).id.0 == k,
{
    assert(answering_ids(m, pattern).contains(k));
    assert(ids_of(found).to_set().contains(k));
    let j = choose|j: int| 0 <= j < ids_of(found).len() && ids_of(found)[j] == k;
    assert(found[j].id.0 == k);
}

/// Each entry of the statistics is the name and count of some kind present.
spec fn entries_are_kind_counts(m: Map<u128, AtomModel>, e: Seq<(Seq<char>, nat)>) -> bool {
    forall|i: int|
        0 <= i < e.len() ==> exists|k: AtomKind|
            #[trigger] e[i] == (kind_name(k), count_of_kind(m, k)) && count_of_kind(m, k) > 0
}

proof fn lemma_append_kind_counts(m: Map<u128, AtomModel>, e: Seq<(Seq<char>, nat)>, k: AtomKind)
    requires
        entries_are_kind_counts(m, e),
    ensures
        entries_are_kind_counts(m, e + kind_entry(m, k)),
{
    let r = e + kind_entry(m, k);
    assert forall|i: int| 0 <= i < r.len() implies exists|k2: AtomKind|
        #[trigger] r[i] == (kind_name(k2), count_of_kind(m, k2)) && count_of_kind(m, k2) > 0 by {
        if i < e.len() {
            assert(r[i] == e[i]);
        } else {
            assert(r[i] == (kind_name(k), count_of_kind(m, k)));
        }
    }
}

proof fn lemma_type_entries_are_kind_counts(m: Map<u128, AtomModel>)
    ensures
        entries_are_kind_counts(m, type_entries(m)),
{
    let e0 = Seq::<(Seq<char>, nat)>::empty();
    lemma_append_kind_counts(m, e0, AtomKind::Symbol);
    let e1 = e0 + kind_entry(m, AtomKind::Symbol);
    lemma_append_kind_counts(m, e1, AtomKind::Number);
    let e2 = e1 + kind_entry(m, AtomKind::Number);
    lemma_append_kind_counts(m, e2, AtomKind::Expression);
    let e3 = e2 + kind_entry(m, AtomKind::Expression);
    lemma_append_kind_counts(m, e3, AtomKind::Variable);
    let e4 = e3 + kind_entry(m, AtomKind::Variable);
    lemma_append_kind_counts(m, e4, AtomKind::Link);
    assert(e0 + kind_entry(m, AtomKind::Symbol) =~= kind_entry(m, AtomKind::Symbol));
    assert(e4 + kind_entry(m, AtomKind::Link) =~= type_entries(m));
}

/// Distinct kinds have distinct names.
proof fn lemma_kind_names_distinct(k1: AtomKind, k2: AtomKind)
    ensures
        kind_name(k1) == kind_name(k2) ==> k1 == k2,
{
    reveal_strlit("Symbol");
    reveal_strlit("Number");
    reveal_strlit("Expression");
    reveal_strlit("Variable");
    reveal_strlit("Link");
    if kind_name(k1) == kind_name(k2) {
        assert(kind_name(k1)[0] == kind_name(k2)[0]);
    }
}

/// The statistics carry, for a kind, its name and count exactly when an atom
/// of that kind is held; any entry under its name carries that count.
proof fn lemma_stats_entry(m: Map<u128, AtomModel>, k: AtomKind)
    ensures
        count_of_kind(m, k) > 0 ==> type_entries(m).contains((kind_name(k), count_of_kind(m, k))),
        forall|i: int|
            0 <= i < type_entries(m).len() && (#[trigger] type_entries(m)[i]).0 == kind_name(k)
                ==> type_entries(m)[i].1 == count_of_kind(m, k) && count_of_kind(m, k) > 0,
{
    lemma_type_entries_are_kind_counts(m);
    let e = type_entries(m);
    assert forall|i: int| 0 <= i < e.len() && (#[trigger] e[i]).0 == kind_name(k) implies e[i].1
        == count_of_kind(m, k) && count_of_kind(m, k) > 0 by {
        let k2 = choose|k2: AtomKind|
            #[trigger] e[i] == (kind_name(k2), count_of_kind(m, k2)) && count_of_kind(m, k2) > 0;
        lemma_kind_names_distinct(k, k2);
    }
    if count_of_kind(m, k) > 0 {
        let a = match k {
            AtomKind::Symbol => Seq::<(Seq<char>, nat)>::empty(),
            AtomKind::Number => kind_entry(m, AtomKind::Symbol),
            AtomKind::Expression => kind_entry(m, AtomKind::Symbol) + kind_entry(m, AtomKind::Number),
            AtomKind::Variable => kind_entry(m, AtomKind::Symbol) + kind_entry(m, AtomKind::Number)
                + kind_entry(m, AtomKind::Expression),
            AtomKind::Link => kind_entry(m, AtomKind::Symbol) + kind_entry(m, AtomKind::Number)
                + kind_entry(m, AtomKind::Expression) + kind_entry(m, AtomKind::Variable),
        };
        assert(e[a.len() as int] == (kind_name(k), count_of_kind(m, k)));
    }
}

/// The identifiers of the held atoms whose type satisfies `p`.
pub open spec fn ids_with_type(m: Map<u128, AtomModel>, p: spec_fn(AtomTypeModel) -> bool) -> Set<
    u128,
> {
    m.dom().filter(|k: u128| p(m[k].atom_type))
}

/// The statistics count each atom under the name of its own type. For each
/// of Symbol, Number, Expression, Variable and Link: where atoms of that type
/// are held, there is an entry with that name and their number; and any
/// entry with that name carries that number.
pub proof fn law_stats_count_each_type(m: Map<u128, AtomModel>)
    ensures
        ({
            let n = ids_with_type(m, |t: AtomTypeModel| t is Symbol).len();
            &&& n > 0 ==> type_entries(m).contains(("Symbol"@, n))
            &&& forall|i: int|
                0 <= i < type_entries(m).len() && (#[trigger] type_entries(m)[i]).0 == "Symbol"@
                    ==> type_entries(m)[i].1 == n
        }),
        ({
            let n = ids_with_type(m, |t: AtomTypeModel| t is Number).len();
            &&& n > 0 ==> type_entries(m).contains(("Number"@, n))
            &&& forall|i: int|
                0 <= i < type_entries(m).len() && (#[trigger] type_entries(m)[i]).0 == "Number"@
                    ==> type_entries(m)[i].1 == n
        }),
        ({
            let n = ids_with_type(m, |t: AtomTypeModel| t is Expression).len();
            &&& n > 0 ==> type_entries(m).contains(("Expression"@, n))
            &&& forall|i: int|
                0 <= i < type_entries(m).len() && (#[trigger] type_entries(m)[i]).0
                    == "Expression"@ ==> type_entries(m)[i].1 == n
        }),
        ({
            let n = ids_with_type(m, |t: AtomTypeModel| t is Variable).len();
            &&& n > 0 ==> type_entries(m).contains(("Variable"@, n))
            &&& forall|i: int|
                0 <= i < type_entries(m).len() && (#[trigger] type_entries(m)[i]).0 == "Variable"@
                    ==> type_entries(m)[i].1 == n
        }),
        ({
            let n = ids_with_type(m, |t: AtomTypeModel| t is Link).len();
            &&& n > 0 ==> type_entries(m).contains(("Link"@, n))
            &&& forall|i: int|
                0 <= i < type_entries(m).len() && (#[trigger] type_entries(m)[i]).0 == "Link"@
                    ==> type_entries(m)[i].1 == n
        }),
{
    assert(ids_with_type(m, |t: AtomTypeModel| t is Symbol) =~= ids_of_kind(m, m.dom(), AtomKind::Symbol));
    assert(ids_with_type(m, |t: AtomTypeModel| t is Number) =~= ids_of_kind(m, m.dom(), AtomKind::Number));
    assert(ids_with_type(m, |t: AtomTypeModel| t is Expression) =~= ids_of_kind(
        m,
        m.dom(),
        AtomKind::Expression,
    ));
    assert(ids_with_type(m, |t: AtomTypeModel| t is Variable) =~= ids_of_kind(
        m,
        m.dom(),
        AtomKind::Variable,
    ));
    assert(ids_with_type(m, |t: AtomTypeModel| t is Link) =~= ids_of_kind(m, m.dom(), AtomKind::Link));
    lemma_stats_entry(m, AtomKind::Symbol);
    lemma_stats_entry(m, AtomKind::Number);
    lemma_stats_entry(m, AtomKind::Expression);
    lemma_stats_entry(m, AtomKind::Variable);
    lemma_stats_entry(m, AtomKind::Link);
}

impl View for AtomSpaceManager {
    type V = Map<u128, AtomModel>;

    /// The atoms held, by the value of their identifier.
    closed spec fn view(&self) -> Map<u128, AtomModel> {
        self.atom_cache@.map_values(|a: Atom| a@)
    }
}

impl AtomSpaceManager {
    /// Every atom is held under its own identifier.
    pub open spec fn wf(&self) -> bool {
        &&& self@.dom().finite()
        &&& forall|k: u128| #[trigger] self@.contains_key(k) ==> self@[k].id == AtomId(k)
    }

    /// Every atom is stored under the value of its own identifier, and there
    /// are finitely many.
    #[verifier::type_invariant]
    spec fn cache_well_formed(&self) -> bool {
        &&& self.atom_cache@.dom().finite()
        &&& forall|k: u128| #[trigger] self.atom_cache@.contains_key(k) ==> self.atom_cache@[k].id
            == AtomId(k)
    }

    /// The stored invariant, read through the view.
    proof fn lemma_wf(&self)
        requires
            self.cache_well_formed(),
        ensures
            self.wf(),
    {
        self.lemma_view();
    }

    /// The configuration the manager was created with.
    pub closed spec fn configuration(&self) -> AtomSpaceConfig {
        self.config
    }

    proof fn lemma_view(&self)
        ensures
            self@.dom() == self.atom_cache@.dom(),
            forall|k: u128| #[trigger] self.atom_cache@.contains_key(k) ==> self@[k] == self.atom_cache@[k]@,
    {
        assert(self@.dom() =~= self.atom_cache@.dom());
    }

    /// Create new AtomSpace manager, holding no atoms.
    pub fn new(config: &AtomSpaceConfig) -> (r: Result<AtomSpaceManager, OpenCogError>)
        ensures
            r matches Ok(m) && m@ == Map::<u128, AtomModel>::empty() && m.wf()
                && m.configuration().same_as(*config),
    {
        let m = AtomSpaceManager { config: config.clone(), atom_cache: HashMap::new() };
        assert(m@ =~= Map::<u128, AtomModel>::empty());
        Ok(m)
    }

    /// Add an atom to the AtomSpace; an atom held under the same identifier is
    /// replaced.
    pub fn add_atom(&mut self, atom: Atom) -> (r: Result<AtomId, OpenCogError>)
        ensures
            final(self).wf(),
            final(self)@ == old(self)@.insert(atom.id.0, atom@),
            final(self).configuration() == old(self).configuration(),
            r == Ok::<AtomId, OpenCogError>(atom.id),
    {
        proof { use_type_invariant(&*self); }
        let atom_id = atom.id;
        let ghost model = atom@;
        let mut cache: HashMap<u128, Atom> = HashMap::new();
        std::mem::swap(&mut cache, &mut self.atom_cache);
        cache.insert(atom_id.0, atom);
        self.atom_cache = cache;
        proof {
            use_type_invariant(&*self);
            self.lemma_wf();
        }
        assert(self@ =~= old(self)@.insert(atom_id.0, model));
        Ok(atom_id)
    }

    /// Remove an atom from the AtomSpace; tells whether one was held.
    pub fn remove_atom(&mut self, atom_id: AtomId) -> (r: Result<bool, OpenCogError>)
        ensures
            final(self).wf(),
            final(self)@ == old(self)@.remove(atom_id.0),
            final(self).configuration() == old(self).configuration(),
            r == Ok::<bool, OpenCogError>(old(self)@.contains_key(atom_id.0)),
    {
        proof { use_type_invariant(&*self); }
        let mut cache: HashMap<u128, Atom> = HashMap::new();
        std::mem::swap(&mut cache, &mut self.atom_cache);
        let removed_atom = cache.remove(&atom_id.0);
        self.atom_cache = cache;
        proof {
            use_type_invariant(&*self);
            self.lemma_wf();
        }
        assert(self@ =~= old(self)@.remove(atom_id.0));
        if removed_atom.is_some() {
            Ok(true)
        } else {
            Ok(false)
        }
    }

    /// Get an atom by ID.
    pub fn get_atom(&self, atom_id: AtomId) -> (r: Result<Option<Atom>, OpenCogError>)
        ensures
            match r {
                Ok(Some(a)) => self@.contains_key(atom_id.0) && a@ == self@[atom_id.0],
                Ok(None) => !self@.contains_key(atom_id.0),
                Err(_) => false,
            },
    {
        proof { self.lemma_view(); }
        match self.atom_cache.get(&atom_id.0) {
            Some(a) => Ok(Some(a.clone())),
            None => Ok(None),
        }
    }

    /// The number of atoms held.
    pub fn len(&self) -> (n: usize)
        ensures
            n == self@.len(),
    {
        proof { self.lemma_view(); }
        self.atom_cache.len()
    }


    /// Get AtomSpace statistics: the number of atoms, how many there are of
    /// each kind, and a memory estimate of 128 bytes per atom.
    pub fn get_stats(&self) -> (r: Result<AtomSpaceStats, OpenCogError>)
        requires
            self@.len() * 128 <= usize::MAX,
        ensures
            r matches Ok(s) && s.total_atoms == self@.len() && s.memory_usage == self@.len() * 128
                && entries_view(s.atom_types@) == type_entries(self@) && well_named(
                type_entries(self@),
            ),
    {
        proof {
            self.lemma_view();
            lemma_type_entries_well_named(self@);
        }
        let total_atoms: usize = self.atom_cache.len();
        let ghost m = self@;
        let mut symbols: usize = 0;
        let mut numbers: usize = 0;
        let mut expressions: usize = 0;
        let mut variables: usize = 0;
        let mut links: usize = 0;
        let ghost mut seen: Set<u128> = Set::empty();
        assert(ids_of_kind(m, seen, AtomKind::Symbol) =~= Set::empty());
        assert(ids_of_kind(m, seen, AtomKind::Number) =~= Set::empty());
        assert(ids_of_kind(m, seen, AtomKind::Expression) =~= Set::empty());
        assert(ids_of_kind(m, seen, AtomKind::Variable) =~= Set::empty());
        assert(ids_of_kind(m, seen, AtomKind::Link) =~= Set::empty());
        for k in it: self.atom_cache.keys()
            invariant
                m == self@,
                m.dom() == self.atom_cache@.dom(),
                forall|j: u128| #[trigger] self.atom_cache@.contains_key(j) ==> m[j] == self.atom_cache@[j]@,
                total_atoms == m.len(),
                it.seq().unref().to_set() == m.dom(),
                it.seq().unref().no_duplicates(),
                it.seq().len() == m.dom().len(),
                seen == it.seq().unref().take(it.index()).to_set(),
                seen.finite(),
                it.index() == it.seq().len() ==> seen == m.dom(),
                symbols + numbers + expressions + variables + links == it.index(),
                symbols == ids_of_kind(m, seen, AtomKind::Symbol).len(),
                numbers == ids_of_kind(m, seen, AtomKind::Number).len(),
                expressions == ids_of_kind(m, seen, AtomKind::Expression).len(),
                variables == ids_of_kind(m, seen, AtomKind::Variable).len(),
                links == ids_of_kind(m, seen, AtomKind::Link).len(),
        {
            let ghost ks = it.seq().unref();
            let ghost i = it.index();
            assert(ks[i] == *k);
            assert(!seen.contains(*k)) by {
                if seen.contains(*k) {
                    let j = choose|j: int| 0 <= j < i && ks.take(i)[j] == *k;
                    assert(ks[j] == ks[i]);
                }
            }
            assert(ks.take(i + 1) =~= ks.take(i).push(*k));
            proof { ks.take(i).lemma_push_to_set_commute(*k); }
            assert(self.atom_cache@.contains_key(*k)) by {
                assert(ks.to_set().contains(*k));
            }
            let kind = match self.atom_cache.get(k) {
                Some(atom) => atom.atom_type.kind(),
                None => {
                    assert(false);
                    AtomKind::Symbol
                },
            };
            proof {
                if i + 1 == ks.len() {
                    assert(ks.take(i + 1) =~= ks);
                }
                lemma_count_insert(m, seen, *k, AtomKind::Symbol);
                lemma_count_insert(m, seen, *k, AtomKind::Number);
                lemma_count_insert(m, seen, *k, AtomKind::Expression);
                lemma_count_insert(m, seen, *k, AtomKind::Variable);
                lemma_count_insert(m, seen, *k, AtomKind::Link);
                seen = seen.insert(*k);
            }
            match kind {
                AtomKind::Symbol => symbols = symbols + 1,
                AtomKind::Number => numbers = numbers + 1,
                AtomKind::Expression => expressions = expressions + 1,
                AtomKind::Variable => variables = variables + 1,
                AtomKind::Link => links = links + 1,
            }
        }
        let mut atom_types: Vec<(String, usize)> = Vec::new();
        push_entry(&mut atom_types, AtomKind::Symbol, symbols);
        push_entry(&mut atom_types, AtomKind::Number, numbers);
        push_entry(&mut atom_types, AtomKind::Expression, expressions);
        push_entry(&mut atom_types, AtomKind::Variable, variables);
        push_entry(&mut atom_types, AtomKind::Link, links);
        assert(entries_view(atom_types@) =~= type_entries(m));
        Ok(AtomSpaceStats { total_atoms, atom_types, memory_usage: total_atoms * 128 })
    }


    /// Whether an atom type answers a text pattern.
    fn answers(pattern: &str, t: &AtomType) -> (b: bool)
        ensures
            b == answers_pattern(pattern@, t@),
    {
        match t {
            AtomType::Symbol { name } => text_contains(pattern, name.as_str()),
            AtomType::Expression { operator, .. } => text_contains(pattern, operator.as_str()),
            _ => false,
        }
    }

    /// Simple pattern matching: the symbols whose name, and the expressions
    /// whose operator, occur in the pattern text.
    fn simple_pattern_match(&self, pattern: &str) -> (r: Result<Vec<Atom>, OpenCogError>)
        ensures
            r matches Ok(found) && is_pattern_answer(self@, pattern@, found@),
    {
        proof {
            use_type_invariant(self);
            self.lemma_wf();
        }
        let ghost m = self@;
        let ghost p = pattern@;
        let mut matches: Vec<Atom> = Vec::new();
        let ghost mut seen: Set<u128> = Set::empty();
        assert(ids_of(matches@).to_set() =~= seen.filter(|k: u128| answers_pattern(p, m[k].atom_type)));
        for k in it: self.atom_cache.keys()
            invariant
                m == self@,
                p == pattern@,
                self.wf(),
                m.dom() == self.atom_cache@.dom(),
                forall|j: u128| #[trigger] self.atom_cache@.contains_key(j) ==> m[j] == self.atom_cache@[j]@,
                it.seq().unref().to_set() == m.dom(),
                it.seq().unref().no_duplicates(),
                seen == it.seq().unref().take(it.index()).to_set(),
                seen.finite(),
                it.index() == it.seq().len() ==> seen == m.dom(),
                seen.subset_of(m.dom()),
                ids_of(matches@).no_duplicates(),
                ids_of(matches@).to_set() == seen.filter(|k: u128| answers_pattern(p, m[k].atom_type)),
                forall|j: int| 0 <= j < matches@.len() ==> #[trigger] matches@[j]@ == m[matches@[j].id.0],
        {
            let ghost ks = it.seq().unref();
            let ghost i = it.index();
            let ghost before = matches@;
            assert(ks[i] == *k);
            assert(!seen.contains(*k)) by {
                if seen.contains(*k) {
                    let j = choose|j: int| 0 <= j < i && ks.take(i)[j] == *k;
                    assert(ks[j] == ks[i]);
                }
            }
            assert(ks.take(i + 1) =~= ks.take(i).push(*k));
            proof { ks.take(i).lemma_push_to_set_commute(*k); }
            assert(self.atom_cache@.contains_key(*k)) by {
                assert(ks.to_set().contains(*k));
            }
            match self.atom_cache.get(k) {
                Some(atom) => {
                    if Self::answers(pattern, &atom.atom_type) {
                        matches.push(atom.clone());
                        assert(ids_of(matches@) =~= ids_of(before).push(*k));
                        proof { ids_of(before).lemma_push_to_set_commute(*k); }
                        assert(!ids_of(before).contains(*k)) by {
                            if ids_of(before).contains(*k) {
                                assert(ids_of(before).to_set().contains(*k));
                            }
                        }
                    } else {
                    }
                },
                None => {
                    assert(false);
                },
            }
            proof {
                if i + 1 == ks.len() {
                    assert(ks.take(i + 1) =~= ks);
                }
                seen = seen.insert(*k);
                assert(ids_of(matches@).to_set() =~= seen.filter(|j: u128| answers_pattern(p, m[j].atom_type)));
            }
        }
        assert(seen.filter(|j: u128| answers_pattern(p, m[j].atom_type)) =~= answering_ids(m, p));
        Ok(matches)
    }

    /// Query atoms using pattern matching on the pattern's expression text:
    /// the answering atoms, at most `max_results` of them where that is set,
    /// one binding map per match (empty, as no variables are bound), and the
    /// time the query took.
    pub fn query(&self, pattern: QueryPattern) -> (r: Result<QueryResult, OpenCogError>)
        ensures
            r matches Ok(res) && is_capped_answer(
                self@,
                pattern.pattern.expression@,
                res.matches@,
                pattern.max_results,
            ) && empty_bindings_for(res.bindings@, res.matches@),
    {
        let start_time = clock_now();
        let mut matches = match self.simple_pattern_match(pattern.pattern.expression.as_str()) {
            Ok(found) => found,
            Err(e) => {
                return Err(e);
            },
        };
        let ghost m = self@;
        let ghost p = pattern.pattern.expression@;
        let ghost all = matches@;
        proof {
            ids_of(all).unique_seq_to_set();
            assert(all.len() == answering_ids(m, p).len());
        }
        match pattern.max_results {
            Some(k) => {
                matches.truncate(k);
                proof {
                    if k < all.len() {
                        assert(ids_of(matches@) =~= ids_of(all).take(k as int));
                        assert forall|a: int, b: int|
                            0 <= a < ids_of(matches@).len() && 0 <= b < ids_of(matches@).len() && a
                                != b implies ids_of(matches@)[a]
                            != ids_of(matches@)[b] by {
                            assert(ids_of(matches@)[a] == ids_of(all)[a]);
                            assert(ids_of(matches@)[b] == ids_of(all)[b]);
                        }
                        assert forall|x: u128| ids_of(matches@).to_set().contains(x) implies ids_of(
                            all,
                        ).to_set().contains(x) by {
                            let j = choose|j: int|
                                0 <= j < ids_of(matches@).len() && ids_of(matches@)[j] == x;
                            assert(ids_of(all)[j] == x);
                        }
                        assert forall|j: int| 0 <= j < matches@.len() implies #[trigger] matches@[j]@
                            == m[matches@[j].id.0] by {
                            assert(matches@[j] == all[j]);
                        }
                    } else {
                        assert(matches@ =~= all);
                    }
                }
            },
            None => {},
        }
        assert(is_capped_answer(m, p, matches@, pattern.max_results));
        let n: usize = matches.len();
        let mut bindings: Vec<HashMap<String, AtomId>> = Vec::new();
        let mut i: usize = 0;
        while i < n
            invariant
                n == matches@.len(),
                i <= n,
                empty_bindings_for(bindings@, matches@.take(i as int)),
            decreases n - i,
        {
            bindings.push(HashMap::new());
            i = i + 1;
        }
        assert(matches@.take(n as int) =~= matches@);
        let execution_time_ms: u64 = elapsed_millis(&start_time);
        Ok(QueryResult { matches, bindings, execution_time_ms })
    }

    /// Clear all atoms from the AtomSpace.
    pub fn clear(&mut self) -> (r: Result<(), OpenCogError>)
        ensures
            final(self).wf(),
            final(self)@ == Map::<u128, AtomModel>::empty(),
            final(self).configuration() == old(self).configuration(),
            r == Ok::<(), OpenCogError>(()),
    {
        let mut cache: HashMap<u128, Atom> = HashMap::new();
        std::mem::swap(&mut cache, &mut self.atom_cache);
        proof { self.lemma_wf(); }
        assert(self@ =~= Map::<u128, AtomModel>::empty());
        Ok(())
    }
}

} // verus!
