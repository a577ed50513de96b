use vstd::multiset::Multiset;
use vstd::prelude::*;

use crate::printer::Printer;

verus! {

/// Lexicographic order on characters, the order `String`'s `Ord` gives
/// (UTF-8 keeps the order of code points).
pub open spec fn chars_le(a: Seq<char>, b: Seq<char>) -> bool
    decreases a.len(),
{
    if a.len() == 0 {
        true
    } else if b.len() == 0 {
        false
    } else if a[0] != b[0] {
        (a[0] as int) < (b[0] as int)
    } else {
        chars_le(a.drop_first(), b.drop_first())
    }
}

proof fn lemma_chars_le_total(a: Seq<char>, b: Seq<char>)
    ensures
        chars_le(a, b) || chars_le(b, a),
        chars_le(a, a),
    decreases a.len(),
{
    if a.len() > 0 && b.len() > 0 {
        lemma_chars_le_total(a.drop_first(), b.drop_first());
        if a[0] != b[0] {
        }
    }
    if a.len() > 0 {
        lemma_chars_le_total(a.drop_first(), a.drop_first());
    }
}

proof fn lemma_chars_le_transitive(a: Seq<char>, b: Seq<char>, c: Seq<char>)
    requires
        chars_le(a, b),
        chars_le(b, c),
    ensures
        chars_le(a, c),
    decreases a.len(),
{
    if a.len() > 0 && b.len() > 0 && c.len() > 0 && a[0] == b[0] && b[0] == c[0] {
        lemma_chars_le_transitive(a.drop_first(), b.drop_first(), c.drop_first());
    }
}

/// The listing order of printers: the default printer first, the others by
/// ascending name.
pub open spec fn listed_before(a: Printer, b: Printer) -> bool {
    (a.is_default && !b.is_default) || (a.is_default == b.is_default && chars_le(a.name@, b.name@))
}

/// Every printer of the sequence comes no later than the ones after it.
pub open spec fn is_listing_order(ps: Seq<Printer>) -> bool {
    forall|i: int, j: int| 0 <= i < j < ps.len() ==> listed_before(ps[i], ps[j])
}

proof fn lemma_listed_before_total(a: Printer, b: Printer)
    ensures
        listed_before(a, b) || listed_before(b, a),
        listed_before(a, a),
{
    lemma_chars_le_total(a.name@, b.name@);
}

proof fn lemma_listed_before_transitive(a: Printer, b: Printer, c: Printer)
    requires
        listed_before(a, b),
        listed_before(b, c),
    ensures
        listed_before(a, c),
{
    if a.is_default == b.is_default && b.is_default == c.is_default {
        lemma_chars_le_transitive(a.name@, b.name@, c.name@);
    }
}

/// Three printers, `beta`, the default `gamma` and `alpha`, come out of
/// [`get_sorted_printers`] as `gamma`, `alpha`, `beta`: the default first, the
/// others by ascending name. Every result that holds the same printers in
/// listing order is that one.
pub proof fn lemma_three_printers_listing(b: Printer, g: Printer, a: Printer, r: Seq<Printer>)
    requires
        b.name@ == "beta"@ && !b.is_default,
        g.name@ == "gamma"@ && g.is_default,
        a.name@ == "alpha"@ && !a.is_default,
        r.to_multiset() == seq![b, g, a].to_multiset(),
        is_listing_order(r),
    ensures
        r == seq![g, a, b],
{
    broadcast use vstd::seq_lib::group_to_multiset_ensures;

    reveal_strlit("alpha");
    reveal_strlit("beta");
    let input = seq![b, g, a];
    r.to_multiset_ensures();
    input.to_multiset_ensures();
    assert(r.len() == 3);
    assert(input.contains(g) && input.contains(a) && input.contains(b)) by {
        assert(input[1] == g && input[2] == a && input[0] == b);
    }
    assert(input.to_multiset().count(g) > 0 && input.to_multiset().count(a) > 0
        && input.to_multiset().count(b) > 0);
    assert(r.to_multiset().count(g) > 0 && r.to_multiset().count(a) > 0 && r.to_multiset().count(b)
        > 0);
    assert(r.contains(g) && r.contains(a) && r.contains(b));
    assert forall|i: int| 0 <= i < 3 implies r[i] == g || r[i] == a || r[i] == b by {
        assert(r.contains(r[i]));
        assert(r.to_multiset().count(r[i]) > 0);
        assert(input.to_multiset().count(r[i]) > 0);
        assert(input.contains(r[i]));
    }
    assert(!chars_le(b.name@, a.name@));
    assert(!listed_before(b, a));
    assert(!listed_before(a, g) && !listed_before(b, g));
    assert(a != g && b != g && a != b);
    let ig = choose|i: int| 0 <= i < 3 && r[i] == g;
    let ia = choose|i: int| 0 <= i < 3 && r[i] == a;
    let ib = choose|i: int| 0 <= i < 3 && r[i] == b;
    assert(ig < ia && ig < ib) by {
        if ia < ig {
            assert(listed_before(r[ia], r[ig]));
        }
        if ib < ig {
            assert(listed_before(r[ib], r[ig]));
        }
    }
    assert(ia < ib) by {
        if ib < ia {
            assert(listed_before(r[ib], r[ia]));
        }
    }
    assert(ig == 0 && ia == 1 && ib == 2);
    assert(r =~= seq![g, a, b]);
}

/// Compares two strings in lexicographic order.
pub fn name_le(a: &String, b: &String) -> (r: bool)
    ensures
        r == chars_le(a@, b@),
{
    let sa = a.as_str();
    let sb = b.as_str();
    let la = sa.unicode_len();
    let lb = sb.unicode_len();
    let mut i: usize = 0;
    assert(a@.skip(0) =~= a@ && b@.skip(0) =~= b@);
    while i < la && i < lb
        invariant
            i <= la,
            i <= lb,
            la == a@.len(),
            lb == b@.len(),
            sa@ == a@,
            sb@ == b@,
            chars_le(a@, b@) == chars_le(a@.skip(i as int), b@.skip(i as int)),
        decreases la - i,
    {
        let ca = sa.get_char(i);
        let cb = sb.get_char(i);
        assert(a@.skip(i as int)[0] == ca && b@.skip(i as int)[0] == cb);
        if ca != cb {
            return (ca as u32) < (cb as u32);
        }
        assert(a@.skip(i as int).drop_first() =~= a@.skip(i + 1));
        assert(b@.skip(i as int).drop_first() =~= b@.skip(i + 1));
        i += 1;
    }
    i == la
}

/// Whether `a` may be listed before `b`.
pub fn listed_before_exec(a: &Printer, b: &Printer) -> (r: bool)
    ensures
        r == listed_before(*a, *b),
{
    if a.is_default != b.is_default {
        a.is_default
    } else {
        name_le(&a.name, &b.name)
    }
}

/// The position of a printer that may be listed before every other one.
fn first_listed(ps: &Vec<Printer>) -> (m: usize)
    requires
        ps.len() > 0,
    ensures
        m < ps.len(),
        forall|k: int| 0 <= k < ps.len() ==> listed_before(ps@[m as int], #[trigger] ps@[k]),
{
    let mut m: usize = 0;
    let mut j: usize = 1;
    proof {
        lemma_listed_before_total(ps@[0], ps@[0]);
    }
    while j < ps.len()
        invariant
            m < j <= ps.len(),
            forall|k: int| 0 <= k < j ==> listed_before(ps@[m as int], #[trigger] ps@[k]),
        decreases ps.len() - j,
    {
        if !listed_before_exec(&ps[m], &ps[j]) {
            proof {
                lemma_listed_before_total(ps@[m as int], ps@[j as int]);
                lemma_listed_before_total(ps@[j as int], ps@[j as int]);
                assert forall|k: int| 0 <= k < j implies listed_before(ps@[j as int], #[trigger] ps@[k]) by {
                    lemma_listed_before_transitive(ps@[j as int], ps@[m as int], ps@[k]);
                }
            }
            m = j;
        }
        j += 1;
    }
    m
}

/// Puts printers in listing order: the default printer first, the others by
/// ascending name. The result holds the same printers.
pub fn get_sorted_printers(printers: Vec<Printer>) -> (r: Vec<Printer>)
    ensures
        r@.to_multiset() == printers@.to_multiset(),
        is_listing_order(r@),
{
    broadcast use vstd::seq_lib::group_to_multiset_ensures;

    let ghost input = printers@;
    let mut rest = printers;
    let mut out: Vec<Printer> = Vec::new();
    while rest.len() > 0
        invariant
            out@.to_multiset().add(rest@.to_multiset()) == input.to_multiset(),
            is_listing_order(out@),
            forall|a: int, b: int|
                0 <= a < out@.len() && 0 <= b < rest@.len() ==> listed_before(
                    #[trigger] out@[a],
                    #[trigger] rest@[b],
                ),
        decreases rest.len(),
    {
        let m = first_listed(&rest);
        let ghost before_rest = rest@;
        let ghost before_out = out@;
        let p = rest.remove(m);
        out.push(p);
        proof {
            before_rest.to_multiset_ensures();
            before_out.to_multiset_ensures();
            assert(before_rest.contains(before_rest[m as int]));
            assert(rest@.to_multiset() =~= before_rest.to_multiset().remove(before_rest[m as int]));
            assert(out@.to_multiset() =~= before_out.to_multiset().insert(before_rest[m as int]));
            assert(out@.to_multiset().add(rest@.to_multiset()) =~= before_out.to_multiset().add(
                before_rest.to_multiset(),
            ));
            assert forall|b: int| 0 <= b < rest@.len() implies listed_before(
                before_rest[m as int],
                #[trigger] rest@[b],
            ) by {
                if b < m {
                    assert(rest@[b] == before_rest[b]);
                } else {
                    assert(rest@[b] == before_rest[b + 1]);
                }
            }
            assert forall|a: int, b: int|
                0 <= a < out@.len() && 0 <= b < rest@.len() implies listed_before(
                #[trigger] out@[a],
                #[trigger] rest@[b],
            ) by {
                if a < before_out.len() {
                    if b < m {
                        assert(rest@[b] == before_rest[b]);
                    } else {
                        assert(rest@[b] == before_rest[b + 1]);
                    }
                }
            }
            assert forall|i: int, j: int| 0 <= i < j < out@.len() implies listed_before(
                out@[i],
                out@[j],
            ) by {
                if j == out@.len() - 1 {
                    assert(out@[i] == before_out[i]);
                } else {
                    assert(out@[i] == before_out[i] && out@[j] == before_out[j]);
                }
            }
        }
    }
    proof {
        rest@.to_multiset_ensures();
        assert(rest@.to_multiset() =~= Multiset::empty());
        assert(out@.to_multiset() =~= out@.to_multiset().add(rest@.to_multiset()));
    }
    out
}

/// Whether `name` designates the printer: its identifier, its name or its
/// human-friendly name.
pub open spec fn is_named(p: Printer, name: Seq<char>) -> bool {
    p.identifier@ == name || p.name@ == name || p.spec_human_name() == name
}

/// The position of the first printer that `name` designates.
pub fn find_printer_by_name(printers: &Vec<Printer>, name: &str) -> (r: Option<usize>)
    ensures
        match r {
            Some(i) => i < printers@.len() && is_named(printers@[i as int], name@) && forall|k: int|
                0 <= k < i ==> !is_named(#[trigger] printers@[k], name@),
            None => forall|k: int| 0 <= k < printers@.len() ==> !is_named(#[trigger] printers@[k], name@),
        },
{
    let key = String::from_str(name);
    let mut i: usize = 0;
    while i < printers.len()
        invariant
            i <= printers.len(),
            key@ == name@,
            forall|k: int| 0 <= k < i ==> !is_named(#[trigger] printers@[k], name@),
        decreases printers.len() - i,
    {
        let p = &printers[i];
        if p.identifier == key || p.name == key || *p.get_human_name() == key {
            return Some(i);
        }
        i += 1;
    }
    None
}

/// The position in the printer listing of the printer with list number `id`;
/// the listing counts from one, so `0` designates no printer.
pub fn position_of_id(id: usize) -> (r: Option<usize>)
    ensures
        r is None <==> id == 0,
        r is Some ==> r->Some_0 == id - 1,
{
    if id < 1 {
        None
    } else {
        Some(id - 1)
    }
}

} // verus!
