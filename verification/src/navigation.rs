use vstd::prelude::*;

use vstd::string::{StrSliceExecFns, StringExecFns};

use crate::PlannerError;
use crate::seq_views;

verus! {

/// One entry of the device's menu tree: an opaque device token, the shown
/// name, and the child entries in the order the device listed them.
#[derive(Debug)]
pub struct NavigationItem {
    pub id: String,
    pub name: String,
    pub items: Vec<NavigationItem>,
}

/// The menu tree the device answers to a login, rooted at a synthetic root
/// with no id of its own.
#[derive(Debug)]
pub struct Navigation {
    pub items: Vec<NavigationItem>,
}

/// The first position at or after `from` where the separator occurs.
pub open spec fn find_sep(s: Seq<char>, from: nat) -> Option<nat>
    decreases s.len() - from,
{
    if from + 3 > s.len() {
        None
    } else if s[from as int] == ' ' && s[from as int + 1] == '>' && s[from as int + 2] == ' ' {
        Some(from)
    } else {
        find_sep(s, from + 1)
    }
}

/// The path split on the separator: the text before the first separator,
/// then the split of the text after it. A path with no separator is one
/// segment, so the split is never empty.
pub open spec fn split_segments(s: Seq<char>) -> Seq<Seq<char>>
    decreases s.len(),
    via split_segments_decreases
{
    match find_sep(s, 0) {
        None => seq![s],
        Some(i) => seq![s.subrange(0, i as int)] + split_segments(
            s.subrange(i as int + 3, s.len() as int),
        ),
    }
}

/// A found separator lies within the text, three characters before its end.
pub proof fn lemma_find_sep_bounds(s: Seq<char>, from: nat)
    ensures
        (match find_sep(s, from) {
            Some(i) => from <= i && i + 3 <= s.len(),
            None => true,
        }),
    decreases s.len() - from,
{
    if from + 3 <= s.len() && !(s[from as int] == ' ' && s[from as int + 1] == '>' && s[from as int
        + 2] == ' ') {
        lemma_find_sep_bounds(s, from + 1);
    }
}

#[via_fn]
proof fn split_segments_decreases(s: Seq<char>) {
    lemma_find_sep_bounds(s, 0);
}

/// The first item of the level whose name is the wanted one.
pub open spec fn first_match(items: Seq<NavigationItem>, name: Seq<char>) -> Option<NavigationItem>
    decreases items.len(),
{
    if items.len() == 0 {
        None
    } else if items.first().name@ == name {
        Some(items.first())
    } else {
        first_match(items.drop_first(), name)
    }
}

/// Walks the tree segment by segment, taking at each level the first child
/// whose name equals the segment; the result is the id of the last matched
/// node, or the first segment with no match at its level.
pub open spec fn resolve_from(
    items: Seq<NavigationItem>,
    segments: Seq<Seq<char>>,
    current_id: Seq<char>,
) -> Result<Seq<char>, Seq<char>>
    decreases segments.len(),
{
    if segments.len() == 0 {
        Ok(current_id)
    } else {
        match first_match(items, segments.first()) {
            None => Err(segments.first()),
            Some(item) => resolve_from(item.items@, segments.drop_first(), item.id@),
        }
    }
}

/// What resolving a path against a tree yields.
pub open spec fn resolve_spec(items: Seq<NavigationItem>, path: Seq<char>) -> Result<
    Seq<char>,
    Seq<char>,
> {
    resolve_from(items, split_segments(path), Seq::empty())
}

/// Finds the separator at or after a position, scanning character by
/// character.
fn find_sep_at(s: &str, from: usize) -> (r: Option<usize>)
    requires
        from <= s@.len(),
    ensures
        (match r {
            Some(i) => find_sep(s@, from as nat) == Some(i as nat) && from <= i && i + 3 <= s@.len(),
            None => find_sep(s@, from as nat) is None,
        }),
{
    let n = s.unicode_len();
    if n < 3 || from > n - 3 {
        return None;
    }
    let mut i = from;
    while i <= n - 3
        invariant
            from <= i <= n - 2,
            n >= 3,
            n == s@.len(),
            find_sep(s@, from as nat) == find_sep(s@, i as nat),
        decreases n - i,
    {
        let c0 = s.get_char(i);
        let c1 = s.get_char(i + 1);
        let c2 = s.get_char(i + 2);
        if c0 == ' ' && c1 == '>' && c2 == ' ' {
            return Some(i);
        }
        i = i + 1;
    }
    None
}

/// Splits a menu path on the separator.
pub fn split_path(s: &str) -> (r: Vec<String>)
    ensures
        seq_views(r@) =~= split_segments(s@),
        r@.len() >= 1,
    decreases s@.len(),
{
    match find_sep_at(s, 0) {
        None => {
            let mut v: Vec<String> = Vec::new();
            v.push(String::from_str(s));
            proof {
                assert(seq_views(v@) =~= split_segments(s@));
            }
            v
        },
        Some(i) => {
            let n = s.unicode_len();
            let head = s.substring_char(0, i);
            let tail = s.substring_char(i + 3, n);
            let mut v = split_path(tail);
            v.insert(0, String::from_str(head));
            proof {
                assert(seq_views(v@) =~= split_segments(s@));
            }
            v
        },
    }
}

/// Finds the first child of a level whose name is the wanted one.
fn find_child<'a>(items: &'a Vec<NavigationItem>, name: &String) -> (r: Option<
    &'a NavigationItem,
>)
    ensures
        (match r {
            Some(item) => first_match(items@, name@) == Some(*item),
            None => first_match(items@, name@) is None,
        }),
{
    let mut j: usize = 0;
    proof {
        assert(items@.subrange(0, items@.len() as int) =~= items@);
    }
    while j < items.len()
        invariant
            0 <= j <= items.len(),
            first_match(items@, name@) == first_match(items@.subrange(j as int, items@.len() as int), name@),
        decreases items.len() - j,
    {
        proof {
            let tail = items@.subrange(j as int, items@.len() as int);
            assert(tail.first() == items@[j as int]);
            assert(tail.drop_first() =~= items@.subrange(j as int + 1, items@.len() as int));
        }
        if items[j].name == *name {
            return Some(&items[j]);
        }
        j = j + 1;
    }
    proof {
        assert(items@.subrange(items@.len() as int, items@.len() as int).len() == 0);
    }
    None
}

impl Navigation {
    /// Resolves a human-readable menu path such as `"Seg1 > Seg2"` to the
    /// device's item id: at each level the first child whose name equals the
    /// segment is taken; the first segment with no match fails the walk,
    /// naming that segment.
    pub fn get_navigation_item_id(&self, item_path: &str) -> (r: Result<String, PlannerError>)
        ensures
            (match r {
                Ok(id) => resolve_spec(self.items@, item_path@) == Ok::<_, Seq<char>>(id@),
                Err(e) => (match e {
                    PlannerError::PathNotFound(seg) => resolve_spec(self.items@, item_path@)
                        == Err::<Seq<char>, _>(seg@),
                    _ => false,
                }),
            }),
    {
        let segments = split_path(item_path);
        let ghost segs = split_segments(item_path@);
        let mut current_id = String::new();
        let mut level: &Vec<NavigationItem> = &self.items;
        let mut k: usize = 0;
        proof {
            assert(segs.subrange(0, segs.len() as int) =~= segs);
        }
        while k < segments.len()
            invariant
                0 <= k <= segments@.len(),
                segs == split_segments(item_path@),
                seq_views(segments@) =~= segs,
                resolve_from(self.items@, segs, Seq::empty()) == resolve_from(
                    level@,
                    segs.subrange(k as int, segs.len() as int),
                    current_id@,
                ),
            decreases segments@.len() - k,
        {
            proof {
                let rest = segs.subrange(k as int, segs.len() as int);
                assert(rest.first() == segs[k as int]);
                assert(segs[k as int] == segments@[k as int]@);
                assert(rest.drop_first() =~= segs.subrange(k as int + 1, segs.len() as int));
            }
            match find_child(level, &segments[k]) {
                Some(item) => {
                    current_id = item.id.clone();
                    level = &item.items;
                },
                None => {
                    proof {
                        let rest = segs.subrange(k as int, segs.len() as int);
                        assert(seq_views(segments@)[k as int] == segments@[k as int]@);
                        assert(rest.first() == segments@[k as int]@);
                        assert(first_match(level@, rest.first()) is None);
                        assert(resolve_from(level@, rest, current_id@) == Err::<
                            Seq<char>,
                            Seq<char>,
                        >(rest.first()));
                    }
                    let missing = segments[k].clone();
                    return Err(PlannerError::PathNotFound(missing));
                },
            }
            k = k + 1;
        }
        proof {
            assert(segs.subrange(segs.len() as int, segs.len() as int).len() == 0);
        }
        Ok(current_id)
    }
}

/// An error from a resolve names a segment of the path it was given.
pub proof fn lemma_resolve_err_names_segment(
    items: Seq<NavigationItem>,
    segments: Seq<Seq<char>>,
    current_id: Seq<char>,
)
    ensures
        (match resolve_from(items, segments, current_id) {
            Err(seg) => exists|k: int| 0 <= k < segments.len() && segments[k] == seg,
            Ok(_) => true,
        }),
    decreases segments.len(),
{
    if segments.len() > 0 {
        match first_match(items, segments.first()) {
            None => {
                assert(segments[0] == segments.first());
            },
            Some(item) => {
                lemma_resolve_err_names_segment(item.items@, segments.drop_first(), item.id@);
                if resolve_from(items, segments, current_id) is Err {
                    let seg = resolve_from(item.items@, segments.drop_first(), item.id@)->Err_0;
                    let k = choose|k: int|
                        0 <= k < segments.drop_first().len() && segments.drop_first()[k] == seg;
                    assert(segments[k + 1] == seg);
                }
            },
        }
    }
}

/// A level's children whose names chain along the segments down to a node
/// with the given id.
pub open spec fn chain_reaches(
    items: Seq<NavigationItem>,
    segments: Seq<Seq<char>>,
    id: Seq<char>,
) -> bool
    decreases segments.len(),
{
    exists|j: int|
        0 <= j < items.len() && #[trigger] items[j].name@ == segments.first() && (if segments.len()
            <= 1 {
            items[j].id@ == id
        } else {
            chain_reaches(items[j].items@, segments.drop_first(), id)
        })
}

/// The first item of a level with a matching name is one of the level's
/// items.
proof fn lemma_first_match_witness(items: Seq<NavigationItem>, name: Seq<char>)
    ensures
        (match first_match(items, name) {
            Some(item) => exists|j: int|
                0 <= j < items.len() && #[trigger] items[j] == item && items[j].name@ == name,
            None => true,
        }),
    decreases items.len(),
{
    if items.len() > 0 {
        if items.first().name@ == name {
            assert(items[0] == items.first());
        } else {
            lemma_first_match_witness(items.drop_first(), name);
            if first_match(items, name) is Some {
                let item = first_match(items, name)->Some_0;
                let j = choose|j: int|
                    0 <= j < items.drop_first().len() && #[trigger] items.drop_first()[j] == item
                        && items.drop_first()[j].name@ == name;
                assert(items[j + 1] == item);
            }
        }
    }
}

/// A resolved id is the id of a node whose name chain spells the path: the
/// walk only ever answers ids that are present in the tree under the asked-for
/// names.
pub proof fn lemma_resolve_ok_reaches(
    items: Seq<NavigationItem>,
    segments: Seq<Seq<char>>,
    current_id: Seq<char>,
    id: Seq<char>,
)
    requires
        segments.len() > 0,
        resolve_from(items, segments, current_id) == Ok::<_, Seq<char>>(id),
    ensures
        chain_reaches(items, segments, id),
    decreases segments.len(),
{
    let item = first_match(items, segments.first())->Some_0;
    lemma_first_match_witness(items, segments.first());
    let j = choose|j: int|
        0 <= j < items.len() && #[trigger] items[j] == item && items[j].name@ == segments.first();
    if segments.len() == 1 {
        assert(resolve_from(item.items@, segments.drop_first(), item.id@) == Ok::<_, Seq<char>>(
            item.id@,
        ));
        assert(items[j].id@ == id);
    } else {
        lemma_resolve_ok_reaches(item.items@, segments.drop_first(), item.id@, id);
    }
}

} // verus!
