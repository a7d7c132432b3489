use vstd::prelude::*;

use vstd::string::{StrSliceExecFns, StringExecFns};

use crate::PlannerError;
use crate::navigation::{Navigation, NavigationItem};
use crate::screen::{pattern_at, matches_at};

verus! {

broadcast use vstd::seq::group_seq_axioms;

/// Whether a character is markup whitespace.
pub open spec fn is_ws(c: char) -> bool {
    c == ' ' || c == '\t' || c == '\r' || c == '\n'
}

/// The first non-whitespace position at or after `pos`.
pub open spec fn skip_ws(s: Seq<char>, pos: nat) -> nat
    decreases s.len() - pos,
{
    if pos < s.len() && is_ws(s[pos as int]) {
        skip_ws(s, pos + 1)
    } else {
        pos
    }
}

/// The first position at or after `pos` holding the given character.
pub open spec fn scan_char(s: Seq<char>, pos: nat, c: char) -> Option<nat>
    decreases s.len() - pos,
{
    if pos >= s.len() {
        None
    } else if s[pos as int] == c {
        Some(pos)
    } else {
        scan_char(s, pos + 1, c)
    }
}

/// A text element: optional whitespace, an opening tag, text up to the next
/// `<`, and the matching closing tag; yields the text and the position after
/// the closing tag.
pub open spec fn parse_tagged(s: Seq<char>, pos: nat, open: Seq<char>, close: Seq<char>) -> Option<
    (Seq<char>, nat),
> {
    let p = skip_ws(s, pos);
    if !pattern_at(s, open, p) {
        None
    } else {
        match scan_char(s, p + open.len(), '<') {
            None => None,
            Some(e) => if pattern_at(s, close, e) {
                Some((s.subrange(p as int + open.len() as int, e as int), e + close.len()))
            } else {
                None
            },
        }
    }
}

/// The attribute list of an opened tag, up to and past the closing `>`:
/// yields the value of the `id` attribute (empty when absent) and the
/// position after the `>`. Attribute values may be quoted with either quote
/// character.
pub open spec fn parse_attrs(s: Seq<char>, pos: nat, id: Seq<char>) -> Option<(Seq<char>, nat)>
    decreases s.len() - pos,
{
    let p = skip_ws(s, pos);
    if p >= s.len() {
        None
    } else if s[p as int] == '>' {
        Some((id, p + 1))
    } else {
        match scan_char(s, p, '=') {
            None => None,
            Some(e1) => {
                let name = s.subrange(p as int, e1 as int);
                if e1 + 1 >= s.len() || (s[e1 as int + 1] != '\'' && s[e1 as int + 1] != '"') {
                    None
                } else {
                    match scan_char(s, e1 + 2, s[e1 as int + 1]) {
                        None => None,
                        Some(e2) => {
                            let value = s.subrange(e1 as int + 2, e2 as int);
                            let next = if name == "id"@ {
                                value
                            } else {
                                id
                            };
                            if e2 + 1 <= pos || e2 + 1 > s.len() {
                                None
                            } else {
                                parse_attrs(s, e2 + 1, next)
                            }
                        },
                    }
                }
            },
        }
    }
}

/// One slot line of a schedule listing.
#[derive(Debug)]
pub struct Item {
    pub id: String,
    pub value: String,
    pub name: String,
    pub kind: String,
    pub raw: String,
}

/// The named list of slot lines a schedule screen shows.
#[derive(Debug)]
pub struct ContentItem {
    pub name: String,
    pub item: Vec<Item>,
}

/// A schedule screen listing.
#[derive(Debug)]
pub struct Content {
    pub item: ContentItem,
}

/// The mathematical shape of one slot line.
pub struct ItemModel {
    pub id: Seq<char>,
    pub value: Seq<char>,
    pub name: Seq<char>,
    pub kind: Seq<char>,
    pub raw: Seq<char>,
}

/// The mathematical shape of a schedule listing.
pub struct ContentModel {
    pub name: Seq<char>,
    pub items: Seq<ItemModel>,
}

/// The shape of a parsed slot line.
pub open spec fn item_view(it: Item) -> ItemModel {
    ItemModel { id: it.id@, value: it.value@, name: it.name@, kind: it.kind@, raw: it.raw@ }
}

/// The shape of a parsed schedule listing.
pub open spec fn content_view(c: Content) -> ContentModel {
    ContentModel {
        name: c.item.name@,
        items: Seq::new(c.item.item@.len(), |i: int| item_view(c.item.item@[i])),
    }
}

/// One slot element of a schedule listing: an `item` tag with an `id`
/// attribute and, in order, its value, name, type and raw text elements.
pub open spec fn parse_entry(s: Seq<char>, pos: nat) -> Option<(ItemModel, nat)> {
    if !pattern_at(s, "<item"@, pos) {
        None
    } else {
        match parse_attrs(s, pos + 5, Seq::empty()) {
            None => None,
            Some((id, p1)) => match parse_tagged(s, p1, "<value>"@, "</value>"@) {
                None => None,
                Some((value, p2)) => match parse_tagged(s, p2, "<name>"@, "</name>"@) {
                    None => None,
                    Some((name, p3)) => match parse_tagged(s, p3, "<type>"@, "</type>"@) {
                        None => None,
                        Some((kind, p4)) => match parse_tagged(s, p4, "<raw>"@, "</raw>"@) {
                            None => None,
                            Some((raw, p5)) => {
                                let p6 = skip_ws(s, p5);
                                if pattern_at(s, "</item>"@, p6) {
                                    Some((ItemModel { id, value, name, kind, raw }, p6 + 7))
                                } else {
                                    None
                                }
                            },
                        },
                    },
                },
            },
        }
    }
}

/// The slot elements of a schedule listing, one after the other.
pub open spec fn parse_entries(s: Seq<char>, pos: nat) -> Option<(Seq<ItemModel>, nat)>
    decreases s.len() - pos,
{
    let p = skip_ws(s, pos);
    if !pattern_at(s, "<item"@, p) {
        Some((Seq::empty(), p))
    } else {
        match parse_entry(s, p) {
            None => None,
            Some((entry, np)) => if np <= pos || np > s.len() {
                None
            } else {
                match parse_entries(s, np) {
                    None => None,
                    Some((rest, fp)) => Some((seq![entry] + rest, fp)),
                }
            },
        }
    }
}

/// A whole schedule listing: a `Content` element holding one named `item`
/// element with the slot elements inside.
pub open spec fn parse_content(s: Seq<char>) -> Option<ContentModel> {
    let p0 = skip_ws(s, 0);
    if !pattern_at(s, "<Content"@, p0) {
        None
    } else {
        match parse_attrs(s, p0 + 8, Seq::empty()) {
            None => None,
            Some((_cid, p1)) => {
                let p2 = skip_ws(s, p1);
                if !pattern_at(s, "<item"@, p2) {
                    None
                } else {
                    match parse_attrs(s, p2 + 5, Seq::empty()) {
                        None => None,
                        Some((_iid, p3)) => match parse_tagged(s, p3, "<name>"@, "</name>"@) {
                            None => None,
                            Some((name, p4)) => match parse_entries(s, p4) {
                                None => None,
                                Some((items, p5)) => {
                                    let p6 = skip_ws(s, p5);
                                    if pattern_at(s, "</item>"@, p6) {
                                        let p7 = skip_ws(s, p6 + 7);
                                        if pattern_at(s, "</Content>"@, p7) {
                                            Some(ContentModel { name, items })
                                        } else {
                                            None
                                        }
                                    } else {
                                        None
                                    }
                                },
                            },
                        },
                    }
                }
            },
        }
    }
}

/// Moves past markup whitespace.
fn skip_ws_at(s: &str, pos: usize) -> (r: usize)
    requires
        pos <= s@.len(),
    ensures
        r == skip_ws(s@, pos as nat),
        pos <= r <= s@.len(),
    decreases s@.len() - pos,
{
    if pos < s.unicode_len() {
        let c = s.get_char(pos);
        if c == ' ' || c == '\t' || c == '\r' || c == '\n' {
            return skip_ws_at(s, pos + 1);
        }
    }
    pos
}

/// Finds the next occurrence of a character.
fn scan_char_at(s: &str, pos: usize, c: char) -> (r: Option<usize>)
    requires
        pos <= s@.len(),
    ensures
        (match r {
            Some(i) => scan_char(s@, pos as nat, c) == Some(i as nat) && pos <= i < s@.len(),
            None => scan_char(s@, pos as nat, c) is None,
        }),
{
    let n = s.unicode_len();
    let mut i = pos;
    while i < n
        invariant
            pos <= i <= n,
            n == s@.len(),
            scan_char(s@, pos as nat, c) == scan_char(s@, i as nat, c),
        decreases n - i,
    {
        if s.get_char(i) == c {
            return Some(i);
        }
        i = i + 1;
    }
    None
}

/// Reads a text element.
fn parse_tagged_at(s: &str, pos: usize, open: &str, close: &str) -> (r: Option<(String, usize)>)
    requires
        pos <= s@.len(),
    ensures
        (match r {
            Some(p) => parse_tagged(s@, pos as nat, open@, close@) == Some((p.0@, p.1 as nat))
                && pos <= p.1 <= s@.len() && (open@.len() > 0 ==> pos < p.1),
            None => parse_tagged(s@, pos as nat, open@, close@) is None,
        }),
{
    let n: usize = s.unicode_len();
    let p = skip_ws_at(s, pos);
    if !matches_at(s, open, p) {
        return None;
    }
    let m = open.unicode_len();
    let e = match scan_char_at(s, p + m, '<') {
        None => {
            return None;
        },
        Some(e) => e,
    };
    if !matches_at(s, close, e) {
        return None;
    }
    let cm = close.unicode_len();
    let text = s.substring_char(p + m, e);
    Some((String::from_str(text), e + cm))
}

/// Reads an attribute list, keeping the `id` value.
fn parse_attrs_at(s: &str, pos: usize, id: String) -> (r: Option<(String, usize)>)
    requires
        pos <= s@.len(),
    ensures
        (match r {
            Some(p) => parse_attrs(s@, pos as nat, id@) == Some((p.0@, p.1 as nat)) && pos < p.1
                <= s@.len(),
            None => parse_attrs(s@, pos as nat, id@) is None,
        }),
    decreases s@.len() - pos,
{
    let p = skip_ws_at(s, pos);
    let n = s.unicode_len();
    if p >= n {
        return None;
    }
    if s.get_char(p) == '>' {
        return Some((id, p + 1));
    }
    let e1 = match scan_char_at(s, p, '=') {
        None => {
            return None;
        },
        Some(e) => e,
    };
    if e1 + 1 >= n {
        return None;
    }
    let q = s.get_char(e1 + 1);
    if q != '\'' && q != '"' {
        return None;
    }
    let e2 = match scan_char_at(s, e1 + 2, q) {
        None => {
            return None;
        },
        Some(e) => e,
    };
    let name = s.substring_char(p, e1);
    proof {
        reveal_strlit("id");
        if name@ == "id"@ {
            assert(name@.subrange(0, 2) =~= name@);
        }
    }
    let is_id = name.unicode_len() == 2 && matches_at(name, "id", 0);
    proof {
        if pattern_at(name@, "id"@, 0) && name@.len() == 2 {
            assert(name@.subrange(0, 2) =~= name@);
            assert(name@ == "id"@);
        }
    }
    let next = if is_id {
        String::from_str(s.substring_char(e1 + 2, e2))
    } else {
        id
    };
    parse_attrs_at(s, e2 + 1, next)
}

/// Reads one slot element.
fn parse_entry_at(s: &str, pos: usize) -> (r: Option<(Item, usize)>)
    requires
        pos <= s@.len(),
    ensures
        (match r {
            Some(p) => parse_entry(s@, pos as nat) == Some((item_view(p.0), p.1 as nat)) && pos
                < p.1 <= s@.len(),
            None => parse_entry(s@, pos as nat) is None,
        }),
{
    let n: usize = s.unicode_len();
    if !matches_at(s, "<item", pos) {
        return None;
    }
    proof {
        reveal_strlit("<item");
    }
    let (id, p1) = match parse_attrs_at(s, pos + 5, String::new()) {
        None => {
            return None;
        },
        Some(x) => x,
    };
    let (value, p2) = match parse_tagged_at(s, p1, "<value>", "</value>") {
        None => {
            return None;
        },
        Some(x) => x,
    };
    let (name, p3) = match parse_tagged_at(s, p2, "<name>", "</name>") {
        None => {
            return None;
        },
        Some(x) => x,
    };
    let (kind, p4) = match parse_tagged_at(s, p3, "<type>", "</type>") {
        None => {
            return None;
        },
        Some(x) => x,
    };
    let (raw, p5) = match parse_tagged_at(s, p4, "<raw>", "</raw>") {
        None => {
            return None;
        },
        Some(x) => x,
    };
    let p6 = skip_ws_at(s, p5);
    if !matches_at(s, "</item>", p6) {
        return None;
    }
    proof {
        reveal_strlit("</item>");
    }
    Some((Item { id, value, name, kind, raw }, p6 + 7))
}

/// Reads the slot elements one after the other.
fn parse_entries_at(s: &str, pos: usize) -> (r: Option<(Vec<Item>, usize)>)
    requires
        pos <= s@.len(),
    ensures
        (match r {
            Some(p) => {
                &&& (match parse_entries(s@, pos as nat) {
                    Some(sp) => sp.1 == p.1 as nat && sp.0 =~= Seq::new(
                        p.0@.len(),
                        |i: int| item_view(p.0@[i]),
                    ),
                    None => false,
                })
                &&& pos <= p.1 <= s@.len()
            },
            None => parse_entries(s@, pos as nat) is None,
        }),
    decreases s@.len() - pos,
{
    let p = skip_ws_at(s, pos);
    if !matches_at(s, "<item", p) {
        let empty: Vec<Item> = Vec::new();
        return Some((empty, p));
    }
    let (entry, np) = match parse_entry_at(s, p) {
        None => {
            return None;
        },
        Some(x) => x,
    };
    let (rest, fp) = match parse_entries_at(s, np) {
        None => {
            return None;
        },
        Some(x) => x,
    };
    let mut items = rest;
    items.insert(0, entry);
    proof {
        let sp = parse_entries(s@, pos as nat)->Some_0;
        assert(sp.0 =~= Seq::new(items@.len(), |i: int| item_view(items@[i])));
    }
    Some((items, fp))
}

/// Parses a schedule screen listing: the named list of slot lines, each with
/// its id, displayed value, name, type and raw packed value.
pub fn parse_content_response(s: &str) -> (r: Result<Content, PlannerError>)
    ensures
        (match r {
            Ok(c) => parse_content(s@) == Some(content_view(c)),
            Err(e) => parse_content(s@) is None && e == PlannerError::ProtocolViolation,
        }),
{
    let n: usize = s.unicode_len();
    let p0 = skip_ws_at(s, 0);
    if !matches_at(s, "<Content", p0) {
        return Err(PlannerError::ProtocolViolation);
    }
    proof {
        reveal_strlit("<Content");
    }
    let (_cid, p1) = match parse_attrs_at(s, p0 + 8, String::new()) {
        None => {
            return Err(PlannerError::ProtocolViolation);
        },
        Some(x) => x,
    };
    let p2 = skip_ws_at(s, p1);
    if !matches_at(s, "<item", p2) {
        return Err(PlannerError::ProtocolViolation);
    }
    proof {
        reveal_strlit("<item");
    }
    let (_iid, p3) = match parse_attrs_at(s, p2 + 5, String::new()) {
        None => {
            return Err(PlannerError::ProtocolViolation);
        },
        Some(x) => x,
    };
    let (name, p4) = match parse_tagged_at(s, p3, "<name>", "</name>") {
        None => {
            return Err(PlannerError::ProtocolViolation);
        },
        Some(x) => x,
    };
    let (items, p5) = match parse_entries_at(s, p4) {
        None => {
            return Err(PlannerError::ProtocolViolation);
        },
        Some(x) => x,
    };
    let p6 = skip_ws_at(s, p5);
    if !matches_at(s, "</item>", p6) {
        return Err(PlannerError::ProtocolViolation);
    }
    proof {
        reveal_strlit("</item>");
    }
    let p7 = skip_ws_at(s, p6 + 7);
    if !matches_at(s, "</Content>", p7) {
        return Err(PlannerError::ProtocolViolation);
    }
    let content = Content { item: ContentItem { name, item: items } };
    proof {
        let cm = parse_content(s@)->Some_0;
        assert(cm.items =~= content_view(content).items);
    }
    Ok(content)
}

/// One entry of the device's menu tree, as its mathematical shape.
pub struct NavItemModel {
    pub id: Seq<char>,
    pub name: Seq<char>,
    pub items: Seq<NavItemModel>,
}

/// The shape of a parsed menu entry.
pub open spec fn nav_item_view(it: NavigationItem) -> NavItemModel
    decreases it,
{
    NavItemModel { id: it.id@, name: it.name@, items: nav_items_views(it.items@) }
}

/// The shapes of a sequence of menu entries.
pub open spec fn nav_items_views(s: Seq<NavigationItem>) -> Seq<NavItemModel>
    decreases s,
{
    if s.len() == 0 {
        Seq::empty()
    } else {
        seq![nav_item_view(s.first())] + nav_items_views(s.drop_first())
    }
}

/// The shapes line up with the entries, one for one.
pub proof fn lemma_nav_items_views(s: Seq<NavigationItem>)
    ensures
        nav_items_views(s).len() == s.len(),
        forall|i: int| 0 <= i < s.len() ==> nav_items_views(s)[i] == nav_item_view(#[trigger] s[i]),
    decreases s.len(),
{
    if s.len() > 0 {
        lemma_nav_items_views(s.drop_first());
        assert forall|i: int| 0 <= i < s.len() implies nav_items_views(s)[i] == nav_item_view(
            #[trigger] s[i],
        ) by {
            if i > 0 {
                assert(nav_items_views(s.drop_first())[i - 1] == nav_item_view(s.drop_first()[i
                    - 1]));
            }
        }
    }
}

/// The shape of a parsed menu tree.
pub open spec fn navigation_view(nav: Navigation) -> Seq<NavItemModel> {
    nav_items_views(nav.items@)
}

/// One menu entry element: an `item` tag with an `id` attribute, a name text
/// element, then any mix of nested entries and `readOnly` markers, and the
/// closing tag.
pub open spec fn parse_nav_item(s: Seq<char>, pos: nat) -> Option<(NavItemModel, nat)>
    decreases s.len() - pos, 0int,
{
    if !pattern_at(s, "<item"@, pos) {
        None
    } else {
        match parse_attrs(s, pos + 5, Seq::empty()) {
            None => None,
            Some((id, p1)) => match parse_tagged(s, p1, "<name>"@, "</name>"@) {
                None => None,
                Some((name, p2)) => if p2 <= pos || p2 > s.len() {
                    None
                } else {
                    match parse_nav_children(s, p2) {
                        None => None,
                        Some((kids, p3)) => {
                            let p4 = skip_ws(s, p3);
                            if pattern_at(s, "</item>"@, p4) {
                                Some((NavItemModel { id, name, items: kids }, p4 + 7))
                            } else {
                                None
                            }
                        },
                    }
                },
            },
        }
    }
}

/// The children of a menu entry: nested entries gathered in order, with any
/// `readOnly` markers skipped; ends before whatever else follows.
pub open spec fn parse_nav_children(s: Seq<char>, pos: nat) -> Option<(Seq<NavItemModel>, nat)>
    decreases s.len() - pos, 1int,
{
    let p = skip_ws(s, pos);
    if p < pos || p > s.len() {
        None
    } else if pattern_at(s, "<readOnly>"@, p) {
        match parse_tagged(s, p, "<readOnly>"@, "</readOnly>"@) {
            None => None,
            Some((_text, np)) => if np <= pos || np > s.len() {
                None
            } else {
                parse_nav_children(s, np)
            },
        }
    } else if pattern_at(s, "<item"@, p) {
        match parse_nav_item(s, p) {
            None => None,
            Some((child, np)) => if np <= pos || np > s.len() {
                None
            } else {
                match parse_nav_children(s, np) {
                    None => None,
                    Some((rest, fp)) => Some((seq![child] + rest, fp)),
                }
            },
        }
    } else {
        Some((Seq::empty(), p))
    }
}

/// A whole menu tree: a `Navigation` element with the top-level entries
/// inside.
pub open spec fn parse_navigation(s: Seq<char>) -> Option<Seq<NavItemModel>> {
    let p0 = skip_ws(s, 0);
    if !pattern_at(s, "<Navigation"@, p0) {
        None
    } else {
        match parse_attrs(s, p0 + 11, Seq::empty()) {
            None => None,
            Some((_nid, p1)) => if p1 > s.len() {
                None
            } else {
                match parse_nav_children(s, p1) {
                    None => None,
                    Some((items, p2)) => {
                        let p3 = skip_ws(s, p2);
                        if pattern_at(s, "</Navigation>"@, p3) {
                            Some(items)
                        } else {
                            None
                        }
                    },
                }
            },
        }
    }
}

/// Reads one menu entry element.
fn parse_nav_item_at(s: &str, pos: usize) -> (r: Option<(NavigationItem, usize)>)
    requires
        pos <= s@.len(),
    ensures
        (match r {
            Some(p) => {
                &&& (match parse_nav_item(s@, pos as nat) {
                    Some(sp) => sp.1 == p.1 as nat && sp.0 == nav_item_view(p.0),
                    None => false,
                })
                &&& pos < p.1 <= s@.len()
            },
            None => parse_nav_item(s@, pos as nat) is None,
        }),
    decreases s@.len() - pos, 0int,
{
    let n: usize = s.unicode_len();
    if !matches_at(s, "<item", pos) {
        return None;
    }
    proof {
        reveal_strlit("<item");
    }
    let (id, p1) = match parse_attrs_at(s, pos + 5, String::new()) {
        None => {
            return None;
        },
        Some(x) => x,
    };
    proof {
        reveal_strlit("<name>");
    }
    let (name, p2) = match parse_tagged_at(s, p1, "<name>", "</name>") {
        None => {
            return None;
        },
        Some(x) => x,
    };
    let (kids, p3) = match parse_nav_children_at(s, p2) {
        None => {
            return None;
        },
        Some(x) => x,
    };
    let p4 = skip_ws_at(s, p3);
    if !matches_at(s, "</item>", p4) {
        return None;
    }
    proof {
        reveal_strlit("</item>");
    }
    let item = NavigationItem { id, name, items: kids };
    proof {
        let sp = parse_nav_item(s@, pos as nat)->Some_0;
        assert(item.items@ == kids@);
        assert(sp.0.items =~= nav_item_view(item).items);
        assert(sp.0 == nav_item_view(item));
    }
    Some((item, p4 + 7))
}

/// Reads the children of a menu entry.
fn parse_nav_children_at(s: &str, pos: usize) -> (r: Option<(Vec<NavigationItem>, usize)>)
    requires
        pos <= s@.len(),
    ensures
        (match r {
            Some(p) => {
                &&& (match parse_nav_children(s@, pos as nat) {
                    Some(sp) => sp.1 == p.1 as nat && sp.0 =~= nav_items_views(p.0@),
                    None => false,
                })
                &&& pos <= p.1 <= s@.len()
            },
            None => parse_nav_children(s@, pos as nat) is None,
        }),
    decreases s@.len() - pos, 1int,
{
    let p = skip_ws_at(s, pos);
    if matches_at(s, "<readOnly>", p) {
        proof {
            reveal_strlit("<readOnly>");
        }
        let np = match parse_tagged_at(s, p, "<readOnly>", "</readOnly>") {
            None => {
                return None;
            },
            Some(x) => x.1,
        };
        return parse_nav_children_at(s, np);
    }
    if !matches_at(s, "<item", p) {
        let empty: Vec<NavigationItem> = Vec::new();
        return Some((empty, p));
    }
    let (child, np) = match parse_nav_item_at(s, p) {
        None => {
            return None;
        },
        Some(x) => x,
    };
    let (rest, fp) = match parse_nav_children_at(s, np) {
        None => {
            return None;
        },
        Some(x) => x,
    };
    let mut items = rest;
    items.insert(0, child);
    proof {
        let sp = parse_nav_children(s@, pos as nat)->Some_0;
        lemma_nav_items_views(items@);
        lemma_nav_items_views(rest@);
        assert forall|i: int| 0 <= i < items@.len() implies nav_items_views(items@)[i]
            == sp.0[i] by {
            if i == 0 {
                assert(items@[0] == child);
            } else {
                assert(items@[i] == rest@[i - 1]);
                assert(nav_items_views(rest@)[i - 1] == nav_item_view(rest@[i - 1]));
            }
        }
        assert(sp.0 =~= nav_items_views(items@));
    }
    Some((items, fp))
}

/// Parses the menu tree the device answers to a login.
pub fn parse_navigation_response(s: &str) -> (r: Result<Navigation, PlannerError>)
    ensures
        (match r {
            Ok(nav) => parse_navigation(s@) == Some(navigation_view(nav)),
            Err(e) => parse_navigation(s@) is None && e == PlannerError::ProtocolViolation,
        }),
{
    let n: usize = s.unicode_len();
    let p0 = skip_ws_at(s, 0);
    if !matches_at(s, "<Navigation", p0) {
        return Err(PlannerError::ProtocolViolation);
    }
    proof {
        reveal_strlit("<Navigation");
    }
    let (_nid, p1) = match parse_attrs_at(s, p0 + 11, String::new()) {
        None => {
            return Err(PlannerError::ProtocolViolation);
        },
        Some(x) => x,
    };
    let (items, p2) = match parse_nav_children_at(s, p1) {
        None => {
            return Err(PlannerError::ProtocolViolation);
        },
        Some(x) => x,
    };
    let p3 = skip_ws_at(s, p2);
    if !matches_at(s, "</Navigation>", p3) {
        return Err(PlannerError::ProtocolViolation);
    }
    let nav = Navigation { items };
    proof {
        let sp = parse_navigation(s@)->Some_0;
        assert(nav.items@ == items@);
        assert(sp =~= navigation_view(nav));
    }
    Ok(nav)
}

} // verus!
