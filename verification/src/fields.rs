//! Conversions between `wrpc:http/types.fields` and `http::HeaderMap`.
use vstd::prelude::*;
use vstd::slice::slice_to_vec;

use crate::http_api::{
    header_iter_items, header_map_contains_key, HEADER_MAP_GROWTH_LIMIT, header_map_contents, header_map_into_iter,
    header_map_listing, header_map_new, header_map_order, header_map_try_append, header_name_from_str, header_name_clone,
    header_name_to_string, header_name_text, header_iter_next, header_value_as_bytes, header_value_from_bytes,
    is_header_value, listing_of, parse_header_name,
};
use crate::types::{ContentsResult, Fields, FieldsView, HeaderContents, HeaderError};

verus! {

// ---------------------------------------------------------------------------
// The model: groups of values under names
// ---------------------------------------------------------------------------

/// No name occurs in two entries.
pub open spec fn names_distinct(g: FieldsView) -> bool {
    forall|i: int, j: int| 0 <= i < j < g.len() ==> #[trigger] g[i].0 != #[trigger] g[j].0
}

/// Every entry has at least one value.
pub open spec fn values_nonempty(g: FieldsView) -> bool {
    forall|i: int| 0 <= i < g.len() ==> #[trigger] g[i].1.len() > 0
}

/// Every name is a header name in lower case, as `http` writes names.
pub open spec fn names_canonical(g: FieldsView) -> bool {
    forall|i: int| 0 <= i < g.len() ==> parse_header_name(#[trigger] g[i].0) == Some(g[i].0)
}

/// Every value is one that a header value can hold.
pub open spec fn values_valid(g: FieldsView) -> bool {
    forall|i: int, j: int|
        0 <= i < g.len() && 0 <= j < g[i].1.len() ==> is_header_value(#[trigger] g[i].1[j])
}

/// The map from each name to its values; a later entry replaces an earlier one of the
/// same name.
pub open spec fn fields_map(g: FieldsView) -> HeaderContents
    decreases g.len(),
{
    if g.len() == 0 {
        Map::empty()
    } else {
        fields_map(g.drop_last()).insert(g.last().0, g.last().1)
    }
}

/// The names of the entries, in order.
pub open spec fn names_of(g: FieldsView) -> Seq<Seq<char>> {
    g.map_values(|e: (Seq<char>, Seq<Seq<u8>>)| e.0)
}

/// The items that a consuming iterator over a header map hands out for one entry: the
/// first value with the name, every further value without.
pub open spec fn expand_group(e: (Seq<char>, Seq<Seq<u8>>)) -> Seq<(Option<Seq<char>>, Seq<u8>)> {
    Seq::new(
        e.1.len(),
        |i: int|
            (
                if i == 0 {
                    Some(e.0)
                } else {
                    None
                },
                e.1[i],
            ),
    )
}

/// The items handed out for all entries, in order.
pub open spec fn expand_groups(g: FieldsView) -> Seq<(Option<Seq<char>>, Seq<u8>)>
    decreases g.len(),
{
    if g.len() == 0 {
        Seq::empty()
    } else {
        expand_groups(g.drop_last()) + expand_group(g.last())
    }
}

/// Collects items into entries: an item with a name opens an entry, an item without one
/// adds its value to the entry before; there is none when the first item has no name.
pub open spec fn group_items(items: Seq<(Option<Seq<char>>, Seq<u8>)>) -> Option<FieldsView>
    decreases items.len(),
{
    if items.len() == 0 {
        Some(Seq::empty())
    } else {
        match group_items(items.drop_last()) {
            None => None,
            Some(g) => match items.last().0 {
                Some(n) => Some(g.push((n, seq![items.last().1]))),
                None => if g.len() == 0 {
                    None
                } else {
                    Some(g.update(g.len() - 1, (g.last().0, g.last().1.push(items.last().1))))
                },
            },
        }
    }
}

/// One step of building a header map from fields: the entry's name must parse and must
/// not have been inserted before; an entry with no values is passed over; otherwise every
/// value must be valid and the entry is inserted.
pub open spec fn insert_field(acc: ContentsResult, e: (Seq<char>, Seq<Seq<u8>>)) -> ContentsResult {
    match acc {
        Err(err) => Err(err),
        Ok(m) => match parse_header_name(e.0) {
            None => Err(HeaderError::InvalidName),
            Some(n) => if m.contains_key(n) {
                Err(HeaderError::DuplicateName)
            } else if e.1.len() == 0 {
                Ok(m)
            } else if !(forall|j: int| 0 <= j < e.1.len() ==> is_header_value(#[trigger] e.1[j])) {
                Err(HeaderError::InvalidValue)
            } else {
                Ok(m.insert(n, e.1))
            },
        },
    }
}

/// What a header map built from the fields holds, or the first error in their order.
pub open spec fn header_contents_of_fields(f: FieldsView) -> ContentsResult
    decreases f.len(),
{
    if f.len() == 0 {
        Ok(Map::empty())
    } else {
        insert_field(header_contents_of_fields(f.drop_last()), f.last())
    }
}

// ---------------------------------------------------------------------------
// Lemmas
// ---------------------------------------------------------------------------

proof fn lemma_contents_error_persists(f: FieldsView, k: int, n: int)
    requires
        0 <= k <= n <= f.len(),
        header_contents_of_fields(f.take(k)) is Err,
    ensures
        header_contents_of_fields(f.take(n)) == header_contents_of_fields(f.take(k)),
    decreases n - k,
{
    if n > k {
        lemma_contents_error_persists(f, k, n - 1);
        assert(f.take(n).drop_last() =~= f.take(n - 1));
    }
}

proof fn lemma_group_one_more(
    xs: Seq<(Option<Seq<char>>, Seq<u8>)>,
    h: FieldsView,
    e: (Seq<char>, Seq<Seq<u8>>),
)
    requires
        group_items(xs) == Some(h),
        e.1.len() > 0,
    ensures
        group_items(xs + expand_group(e)) == Some(h.push(e)),
    decreases e.1.len(),
{
    let k = e.1.len();
    if k == 1 {
        let s = xs + expand_group(e);
        assert(s.drop_last() =~= xs);
        assert(seq![e.1[0]] =~= e.1);
    } else {
        let e2 = (e.0, e.1.drop_last());
        lemma_group_one_more(xs, h, e2);
        let s = xs + expand_group(e);
        assert(s.drop_last() =~= xs + expand_group(e2));
        assert(e2.1.push(e.1.last()) =~= e.1);
        assert(h.push(e2).update(h.len() as int, (e.0, e2.1.push(e.1.last()))) =~= h.push(e));
    }
}

/// Collecting the items that the entries expand to gives the entries back.
pub proof fn lemma_group_expand(g: FieldsView)
    requires
        values_nonempty(g),
    ensures
        group_items(expand_groups(g)) == Some(g),
    decreases g.len(),
{
    if g.len() > 0 {
        let g2 = g.drop_last();
        assert(values_nonempty(g2)) by {
            assert forall|i: int| 0 <= i < g2.len() implies #[trigger] g2[i].1.len() > 0 by {
                assert(g2[i] == g[i]);
            }
        }
        lemma_group_expand(g2);
        lemma_group_one_more(expand_groups(g2), g2, g.last());
        assert(g2.push(g.last()) =~= g);
    }
}

proof fn lemma_group_prefix(s: Seq<(Option<Seq<char>>, Seq<u8>)>, k: int)
    requires
        0 <= k <= s.len(),
        group_items(s) is Some,
    ensures
        group_items(s.take(k)) is Some,
    decreases s.len(),
{
    if k < s.len() {
        assert(s.drop_last().take(k) =~= s.take(k));
        lemma_group_prefix(s.drop_last(), k);
    } else {
        assert(s.take(k) =~= s);
    }
}

proof fn lemma_fields_map_domain(g: FieldsView, k: Seq<char>)
    ensures
        fields_map(g).contains_key(k) <==> exists|i: int| 0 <= i < g.len() && #[trigger] g[i].0 == k,
    decreases g.len(),
{
    if g.len() > 0 {
        let g2 = g.drop_last();
        lemma_fields_map_domain(g2, k);
        if fields_map(g2).contains_key(k) {
            let i = choose|i: int| 0 <= i < g2.len() && #[trigger] g2[i].0 == k;
            assert(g[i].0 == k);
        }
        if exists|i: int| 0 <= i < g.len() && #[trigger] g[i].0 == k {
            let i = choose|i: int| 0 <= i < g.len() && #[trigger] g[i].0 == k;
            if i < g.len() - 1 {
                assert(g2[i].0 == k);
            }
        }
    }
}

/// Header fields listed from a header map convert back to what the map holds: a listing
/// whose names are distinct header names in lower case, each with at least one value and
/// with valid values only, builds a map of exactly its entries.
pub proof fn lemma_listed_fields_rebuild(g: FieldsView)
    requires
        names_distinct(g),
        values_nonempty(g),
        names_canonical(g),
        values_valid(g),
    ensures
        header_contents_of_fields(g) == ContentsResult::Ok(fields_map(g)),
    decreases g.len(),
{
    if g.len() > 0 {
        let g2 = g.drop_last();
        let e = g.last();
        assert(names_distinct(g2));
        assert(values_nonempty(g2)) by {
            assert forall|i: int| 0 <= i < g2.len() implies #[trigger] g2[i].1.len() > 0 by {
                assert(g2[i] == g[i]);
            }
        }
        assert(names_canonical(g2)) by {
            assert forall|i: int| 0 <= i < g2.len() implies parse_header_name(#[trigger] g2[i].0)
                == Some(g2[i].0) by {
                assert(g2[i] == g[i]);
            }
        }
        assert(values_valid(g2)) by {
            assert forall|i: int, j: int| 0 <= i < g2.len() && 0 <= j < g2[i].1.len() implies is_header_value(
                #[trigger] g2[i].1[j],
            ) by {
                assert(g2[i] == g[i]);
            }
        }
        lemma_listed_fields_rebuild(g2);
        lemma_fields_map_domain(g2, e.0);
        assert(parse_header_name(g[g.len() - 1].0) == Some(e.0));
        assert(e.1.len() > 0);
        assert forall|j: int| 0 <= j < e.1.len() implies is_header_value(#[trigger] e.1[j]) by {
            assert(is_header_value(g[g.len() - 1].1[j]));
        }
        if fields_map(g2).contains_key(e.0) {
            let i = choose|i: int| 0 <= i < g2.len() && #[trigger] g2[i].0 == e.0;
            assert(g[i].0 == g[g.len() - 1].0);
        }
    }
}

/// The entries that a header map built from fields holds: each entry with at least one
/// value, under its name in lower case.
pub open spec fn kept_fields(f: FieldsView) -> FieldsView
    decreases f.len(),
{
    if f.len() == 0 {
        Seq::empty()
    } else if f.last().1.len() == 0 {
        kept_fields(f.drop_last())
    } else {
        kept_fields(f.drop_last()).push((parse_header_name(f.last().0)->0, f.last().1))
    }
}

/// Building a header map from fields loses nothing but entries without values and the
/// case of the names: when it succeeds, the map holds exactly the kept entries.
pub proof fn lemma_fields_to_map_keeps_entries(f: FieldsView)
    requires
        header_contents_of_fields(f) is Ok,
    ensures
        header_contents_of_fields(f) == ContentsResult::Ok(fields_map(kept_fields(f))),
    decreases f.len(),
{
    if f.len() > 0 {
        lemma_fields_to_map_keeps_entries(f.drop_last());
        if f.last().1.len() > 0 {
            let k = kept_fields(f.drop_last());
            assert(kept_fields(f).drop_last() =~= k);
        }
    }
}

proof fn lemma_fields_map_at(g: FieldsView, i: int)
    requires
        names_distinct(g),
        0 <= i < g.len(),
    ensures
        fields_map(g).contains_key(g[i].0),
        fields_map(g)[g[i].0] == g[i].1,
    decreases g.len(),
{
    if i < g.len() - 1 {
        let g2 = g.drop_last();
        assert(g2[i] == g[i]);
        assert(g[i].0 != g[g.len() - 1].0);
        lemma_fields_map_at(g2, i);
    }
}

/// Entries with distinct names, listed from the map they make in the order of their
/// names, come back as they were.
pub proof fn lemma_listing_of_entries(g: FieldsView)
    requires
        names_distinct(g),
    ensures
        listing_of(names_of(g), fields_map(g)) == g,
{
    assert forall|i: int| 0 <= i < g.len() implies #[trigger] listing_of(names_of(g), fields_map(g))[i]
        == g[i] by {
        lemma_fields_map_at(g, i);
    }
    assert(listing_of(names_of(g), fields_map(g)) =~= g);
}

proof fn lemma_kept_fields_distinct(f: FieldsView)
    requires
        header_contents_of_fields(f) is Ok,
    ensures
        names_distinct(kept_fields(f)),
        values_nonempty(kept_fields(f)),
        header_contents_of_fields(f) == ContentsResult::Ok(fields_map(kept_fields(f))),
    decreases f.len(),
{
    if f.len() > 0 {
        let f2 = f.drop_last();
        lemma_kept_fields_distinct(f2);
        lemma_fields_to_map_keeps_entries(f);
        if f.last().1.len() > 0 {
            let k = kept_fields(f2);
            let n = parse_header_name(f.last().0)->0;
            assert(kept_fields(f) == k.push((n, f.last().1)));
            lemma_fields_map_domain(k, n);
            assert forall|i: int, j: int| 0 <= i < j < kept_fields(f).len() implies #[trigger] kept_fields(f)[i].0
                != #[trigger] kept_fields(f)[j].0 by {
                if j == k.len() {
                    assert(kept_fields(f)[i] == k[i]);
                } else {
                    assert(kept_fields(f)[i] == k[i]);
                    assert(kept_fields(f)[j] == k[j]);
                }
            }
            assert forall|i: int| 0 <= i < kept_fields(f).len() implies #[trigger] kept_fields(f)[i].1.len() > 0 by {
                if i < k.len() {
                    assert(kept_fields(f)[i] == k[i]);
                }
            }
        }
    }
}

proof fn lemma_kept_fields_grow(f: FieldsView, k: int, n: int)
    requires
        0 <= k <= n <= f.len(),
    ensures
        kept_fields(f.take(k)).len() <= kept_fields(f.take(n)).len(),
    decreases n - k,
{
    if n > k {
        lemma_kept_fields_grow(f, k, n - 1);
        assert(f.take(n).drop_last() =~= f.take(n - 1));
    }
}

/// A header map built from fields and listed in the order in which its names were added
/// gives back the entries that it kept, in their order.
pub proof fn lemma_fields_listing_roundtrip(f: FieldsView, c: HeaderContents)
    requires
        header_contents_of_fields(f) == ContentsResult::Ok(c),
    ensures
        listing_of(names_of(kept_fields(f)), c) == kept_fields(f),
{
    lemma_kept_fields_distinct(f);
    lemma_listing_of_entries(kept_fields(f));
}

/// Fields whose names are header names in lower case and whose entries all have values
/// are kept whole.
pub proof fn lemma_canonical_fields_kept(f: FieldsView)
    requires
        names_canonical(f),
        values_nonempty(f),
    ensures
        kept_fields(f) == f,
    decreases f.len(),
{
    if f.len() > 0 {
        let f2 = f.drop_last();
        assert(names_canonical(f2)) by {
            assert forall|i: int| 0 <= i < f2.len() implies parse_header_name(#[trigger] f2[i].0)
                == Some(f2[i].0) by {
                assert(f2[i] == f[i]);
            }
        }
        assert(values_nonempty(f2)) by {
            assert forall|i: int| 0 <= i < f2.len() implies #[trigger] f2[i].1.len() > 0 by {
                assert(f2[i] == f[i]);
            }
        }
        lemma_canonical_fields_kept(f2);
        assert(f.last().1.len() > 0);
        assert(parse_header_name(f[f.len() - 1].0) == Some(f[f.len() - 1].0));
        assert(f2.push(f.last()) =~= f);
    }
}

proof fn lemma_kept_entry_source(f: FieldsView, k: int)
    requires
        0 <= k < kept_fields(f).len(),
    ensures
        exists|i: int|
            0 <= i < f.len() && f[i].1.len() > 0 && kept_fields(f)[k] == (
                parse_header_name(#[trigger] f[i].0)->0,
                f[i].1,
            ),
    decreases f.len(),
{
    let f2 = f.drop_last();
    if f.last().1.len() > 0 && k == kept_fields(f2).len() {
        assert(f[f.len() - 1] == f.last());
    } else {
        lemma_kept_entry_source(f2, k);
        let i = choose|i: int|
            0 <= i < f2.len() && f2[i].1.len() > 0 && kept_fields(f2)[k] == (
                parse_header_name(#[trigger] f2[i].0)->0,
                f2[i].1,
            );
        assert(f[i] == f2[i]);
    }
}

proof fn lemma_kept_entry_of(f: FieldsView, i: int)
    requires
        0 <= i < f.len(),
        f[i].1.len() > 0,
    ensures
        exists|k: int|
            0 <= k < kept_fields(f).len() && #[trigger] kept_fields(f)[k] == (
                parse_header_name(f[i].0)->0,
                f[i].1,
            ),
    decreases f.len(),
{
    let f2 = f.drop_last();
    if i == f.len() - 1 {
        let k = kept_fields(f2).len() as int;
        assert(kept_fields(f)[k] == (parse_header_name(f[i].0)->0, f[i].1));
    } else {
        assert(f2[i] == f[i]);
        lemma_kept_entry_of(f2, i);
        let k = choose|k: int|
            0 <= k < kept_fields(f2).len() && #[trigger] kept_fields(f2)[k] == (
                parse_header_name(f2[i].0)->0,
                f2[i].1,
            );
        assert(kept_fields(f)[k] == kept_fields(f2)[k]);
    }
}

/// Building a header map from fields succeeds whenever every name parses as a header
/// name, in whatever case and at whatever position, no two entries have the same lowered
/// name, and every value is a valid header value; the map then holds each entry that has
/// values, under its lowered name, with its values in order, and nothing else.
pub proof fn lemma_valid_fields_build_map(f: FieldsView)
    requires
        forall|i: int| 0 <= i < f.len() ==> (#[trigger] parse_header_name(f[i].0)) is Some,
        forall|i: int, j: int|
            0 <= i < j < f.len() ==> parse_header_name(#[trigger] f[i].0) != parse_header_name(
                #[trigger] f[j].0,
            ),
        values_valid(f),
    ensures
        header_contents_of_fields(f) == ContentsResult::Ok(fields_map(kept_fields(f))),
        forall|i: int|
            0 <= i < f.len() && f[i].1.len() > 0 ==> {
                &&& fields_map(kept_fields(f)).contains_key(parse_header_name(#[trigger] f[i].0)->0)
                &&& fields_map(kept_fields(f))[parse_header_name(f[i].0)->0] == f[i].1
            },
        forall|n: Seq<char>|
            #[trigger] fields_map(kept_fields(f)).contains_key(n) ==> exists|i: int|
                0 <= i < f.len() && f[i].1.len() > 0 && parse_header_name(#[trigger] f[i].0) == Some(n),
    decreases f.len(),
{
    if f.len() > 0 {
        let f2 = f.drop_last();
        let e = f.last();
        assert forall|i: int| 0 <= i < f2.len() implies (#[trigger] parse_header_name(f2[i].0)) is Some by {
            assert(f2[i] == f[i]);
        }
        assert forall|i: int, j: int| 0 <= i < j < f2.len() implies parse_header_name(#[trigger] f2[i].0)
            != parse_header_name(#[trigger] f2[j].0) by {
            assert(f2[i] == f[i]);
            assert(f2[j] == f[j]);
        }
        assert(values_valid(f2)) by {
            assert forall|i: int, j: int| 0 <= i < f2.len() && 0 <= j < f2[i].1.len() implies is_header_value(
                #[trigger] f2[i].1[j],
            ) by {
                assert(f2[i] == f[i]);
            }
        }
        lemma_valid_fields_build_map(f2);
        let m2 = fields_map(kept_fields(f2));
        assert(parse_header_name(f[f.len() - 1].0) is Some);
        let n = parse_header_name(e.0)->0;
        if m2.contains_key(n) {
            let i = choose|i: int|
                0 <= i < f2.len() && f2[i].1.len() > 0 && parse_header_name(#[trigger] f2[i].0) == Some(n);
            assert(f2[i] == f[i]);
            assert(parse_header_name(f[i].0) != parse_header_name(f[f.len() - 1].0));
        }
        assert forall|j: int| 0 <= j < e.1.len() implies is_header_value(#[trigger] e.1[j]) by {
            assert(is_header_value(f[f.len() - 1].1[j]));
        }
        lemma_kept_fields_distinct(f);
        assert forall|i: int| 0 <= i < f.len() && f[i].1.len() > 0 implies {
            &&& fields_map(kept_fields(f)).contains_key(parse_header_name(#[trigger] f[i].0)->0)
            &&& fields_map(kept_fields(f))[parse_header_name(f[i].0)->0] == f[i].1
        } by {
            lemma_kept_entry_of(f, i);
            let k = choose|k: int|
                0 <= k < kept_fields(f).len() && #[trigger] kept_fields(f)[k] == (
                    parse_header_name(f[i].0)->0,
                    f[i].1,
                );
            lemma_fields_map_at(kept_fields(f), k);
        }
        assert forall|n: Seq<char>| #[trigger] fields_map(kept_fields(f)).contains_key(n) implies exists|i: int|
            0 <= i < f.len() && f[i].1.len() > 0 && parse_header_name(#[trigger] f[i].0) == Some(n) by {
            lemma_fields_map_domain(kept_fields(f), n);
            let k = choose|k: int| 0 <= k < kept_fields(f).len() && #[trigger] kept_fields(f)[k].0 == n;
            lemma_kept_entry_source(f, k);
            let i = choose|i: int|
                0 <= i < f.len() && f[i].1.len() > 0 && kept_fields(f)[k] == (
                    parse_header_name(#[trigger] f[i].0)->0,
                    f[i].1,
                );
            assert(parse_header_name(f[i].0) is Some);
        }
    }
}

// ---------------------------------------------------------------------------
// Conversions
// ---------------------------------------------------------------------------

/// Builds an `http::HeaderMap` from header fields.
///
/// Names are parsed as header names, which lowers them; a name that occurs in a second
/// entry is refused; an entry with no values adds nothing; every value is checked.
pub fn try_fields_to_header_map(fields: Fields) -> (r: Result<http::HeaderMap, HeaderError>)
    ensures
        r matches Ok(m) ==> header_contents_of_fields(fields.deep_view()) == ContentsResult::Ok(
            header_map_contents(m),
        ),
        r matches Err(e) ==> e == HeaderError::TooManyHeaders || header_contents_of_fields(
            fields.deep_view(),
        ) == ContentsResult::Err(e),
        r matches Err(HeaderError::TooManyHeaders) ==> kept_fields(fields.deep_view()).len()
            >= HEADER_MAP_GROWTH_LIMIT,
        r matches Ok(m) ==> header_map_order(m) == names_of(kept_fields(fields.deep_view())),
{
    let ghost f = fields.deep_view();
    let mut headers = header_map_new();
    let mut i: usize = 0;
    assert(f.take(0) =~= Seq::<(Seq<char>, Seq<Seq<u8>>)>::empty());
    while i < fields.len()
        invariant
            0 <= i <= fields.len(),
            f == fields.deep_view(),
            header_contents_of_fields(f.take(i as int)) == ContentsResult::Ok(header_map_contents(headers)),
            header_map_contents(headers).dom().finite(),
            header_map_contents(headers).dom().len() == kept_fields(f.take(i as int)).len(),
            header_map_order(headers) == names_of(kept_fields(f.take(i as int))),
        decreases fields.len() - i,
    {
        let ghost base = header_map_contents(headers);
        let ghost base_order = header_map_order(headers);
        assert(f.take(i + 1).drop_last() =~= f.take(i as int));
        assert(f.take(i + 1).last() == f[i as int]);
        let name_str = &fields[i].0;
        let values = &fields[i].1;
        assert(f[i as int].0 == name_str@);
        assert(f[i as int].1 =~= values.deep_view());
        let name = match header_name_from_str(name_str.as_str()) {
            Ok(name) => name,
            Err(_) => {
                proof {
                    lemma_contents_error_persists(f, i + 1, f.len() as int);
                    assert(f.take(f.len() as int) =~= f);
                }
                return Err(HeaderError::InvalidName);
            },
        };
        if header_map_contains_key(&headers, &name) {
            proof {
                lemma_contents_error_persists(f, i + 1, f.len() as int);
                assert(f.take(f.len() as int) =~= f);
            }
            return Err(HeaderError::DuplicateName);
        }
        let mut j: usize = 0;
        while j < values.len()
            invariant
                0 <= j <= values.len(),
                0 <= i < fields.len(),
                f == fields.deep_view(),
                header_contents_of_fields(f.take(i as int)) == ContentsResult::Ok(base),
                f.take(i + 1).drop_last() == f.take(i as int),
                f.take(i + 1).last() == f[i as int],
                values.deep_view() == f[i as int].1,
                base.dom().finite(),
                base.dom().len() == kept_fields(f.take(i as int)).len(),
                base_order == names_of(kept_fields(f.take(i as int))),
                header_map_order(headers) == if j == 0 {
                    base_order
                } else {
                    base_order.push(header_name_text(name))
                },
                header_map_contents(headers).dom().finite(),
                parse_header_name(f[i as int].0) is Some,
                header_name_text(name) == parse_header_name(f[i as int].0)->0,
                !base.contains_key(header_name_text(name)),
                forall|k: int| 0 <= k < j ==> is_header_value(#[trigger] values.deep_view()[k]),
                header_map_contents(headers) == if j == 0 {
                    base
                } else {
                    base.insert(header_name_text(name), values.deep_view().take(j as int))
                },
            decreases values.len() - j,
        {
            assert(values.deep_view()[j as int] =~= values[j as int]@);
            let value = match header_value_from_bytes(values[j].as_slice()) {
                Ok(value) => value,
                Err(_) => {
                    proof {
                        assert(!is_header_value(f[i as int].1[j as int]));
                        lemma_contents_error_persists(f, i + 1, f.len() as int);
                        assert(f.take(f.len() as int) =~= f);
                    }
                    return Err(HeaderError::InvalidValue);
                },
            };
            match header_map_try_append(&mut headers, header_name_clone(&name), value) {
                Ok(_) => {},
                Err(_) => {
                    proof {
                        if j > 0 {
                            assert(header_map_contents(headers).dom() =~= base.dom().insert(
                                header_name_text(name),
                            ));
                            lemma_kept_fields_grow(f, i + 1, f.len() as int);
                        } else {
                            lemma_kept_fields_grow(f, i as int, f.len() as int);
                        }
                        assert(f.take(f.len() as int) =~= f);
                    }
                    return Err(HeaderError::TooManyHeaders);
                },
            }
            proof {
                assert(values.deep_view().take(j + 1) =~= if j == 0 {
                    seq![values.deep_view()[0]]
                } else {
                    values.deep_view().take(j as int).push(values.deep_view()[j as int])
                });
            }
            j += 1;
        }
        proof {
            assert(values.deep_view().take(j as int) =~= values.deep_view());
            if j > 0 {
                assert(header_map_contents(headers).dom() =~= base.dom().insert(
                    header_name_text(name),
                ));
                assert(names_of(kept_fields(f.take(i + 1))) =~= base_order.push(
                    header_name_text(name),
                ));
            }
        }
        i += 1;
    }
    assert(f.take(f.len() as int) =~= f);
    Ok(headers)
}

/// Lists the entries of an `http::HeaderMap` as header fields: each name once, with its
/// values in order, the names in the order of the map's table of entries.
pub fn try_header_map_to_fields(headers: http::HeaderMap) -> (r: Result<Fields, HeaderError>)
    ensures
        r matches Ok(f) && {
            &&& f.deep_view() == header_map_listing(headers)
            &&& names_distinct(f.deep_view())
            &&& values_nonempty(f.deep_view())
            &&& fields_map(f.deep_view()) == header_map_contents(headers)
        },
{
    let ghost groups = header_map_listing(headers);
    let mut iter = header_map_into_iter(headers);
    let ghost items = header_iter_items(iter);
    proof {
        lemma_group_expand(groups);
    }
    let mut fields: Fields = Vec::new();
    let ghost mut taken: int = 0;
    assert(items.take(0) =~= Seq::<(Option<Seq<char>>, Seq<u8>)>::empty());
    loop
        invariant
            0 <= taken <= items.len(),
            header_iter_items(iter) == items.skip(taken),
            group_items(items) == Some(groups),
            group_items(items.take(taken)) == Some(fields.deep_view()),
        ensures
            taken == items.len(),
            group_items(items.take(taken)) == Some(fields.deep_view()),
        decreases items.len() - taken,
    {
        let ghost before = fields.deep_view();
        match header_iter_next(&mut iter) {
            None => {
                break;
            },
            Some((name, value)) => {
                let ghost item = items[taken];
                assert(items.skip(taken).first() == item);
                assert(items.take(taken + 1).drop_last() =~= items.take(taken));
                assert(items.take(taken + 1).last() == item);
                let bytes = slice_to_vec(header_value_as_bytes(&value));
                assert(bytes.deep_view() =~= item.1);
                match name {
                    Some(name) => {
                        let text = header_name_to_string(&name);
                        let mut values: Vec<Vec<u8>> = Vec::new();
                        values.push(bytes);
                        fields.push((text, values));
                        proof {
                            assert(values.deep_view() =~= seq![item.1]);
                            assert(fields.deep_view() =~= before.push((item.0->0, seq![item.1])));
                        }
                    },
                    None => {
                        match fields.pop() {
                            None => {
                                proof {
                                    lemma_group_prefix(items, taken + 1);
                                }
                                return Err(HeaderError::MissingName);
                            },
                            Some((text, values)) => {
                                let mut values = values;
                                let ghost last_values = values.deep_view();
                                values.push(bytes);
                                fields.push((text, values));
                                proof {
                                    assert(values.deep_view() =~= last_values.push(item.1));
                                    assert(fields.deep_view() =~= before.update(
                                        before.len() - 1,
                                        (before.last().0, before.last().1.push(item.1)),
                                    ));
                                }
                            },
                        }
                    },
                }
                proof {
                    assert(items.skip(taken).drop_first() =~= items.skip(taken + 1));
                    taken = taken + 1;
                }
            },
        }
    }
    assert(items.take(items.len() as int) =~= items);
    Ok(fields)
}

} // verus!
