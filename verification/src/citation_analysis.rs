//! Reading the citation delimiter off a CSL 1.0 citation layout: the
//! delimiter of the deepest group that holds both the author and the date.
//!
//! The layout is held as the parts of its node tree the analyses read:
//! macro calls by name with their suffix, names and date nodes, groups
//! with their delimiter, affixes and children, and choose blocks with
//! their branches. The citation's wrapping is read off the same tree.

use vstd::prelude::*;
use crate::template::WrapPunctuation;
use crate::text::{contains_seq, contains_str, opt_view, str_eq};

verus! {

/// A text node: the macro it calls, if any, and its suffix.
pub struct CslText {
    pub macro_name: Option<String>,
    pub suffix: Option<String>,
}

/// A group node: its delimiter, affixes and children.
pub struct CslGroup {
    pub delimiter: Option<String>,
    pub prefix: Option<String>,
    pub suffix: Option<String>,
    pub children: Vec<CslNode>,
}

/// A names node: its children (name, substitute, ...).
pub struct CslNames {
    pub children: Vec<CslNode>,
}

/// A name node: its `and` attribute.
pub struct CslName {
    pub and: Option<String>,
}

/// A substitute node: its children.
pub struct CslSubstitute {
    pub children: Vec<CslNode>,
}

/// A branch of a choose node.
pub struct CslBranch {
    pub children: Vec<CslNode>,
}

/// A choose node: its if-branch, else-if branches and else-branch.
pub struct CslChoose {
    pub if_branch: CslBranch,
    pub else_if_branches: Vec<CslBranch>,
    pub else_branch: Option<Vec<CslNode>>,
}

/// A node of a CSL 1.0 layout or macro.
pub enum CslNode {
    Text(CslText),
    Names(CslNames),
    Name(CslName),
    Substitute(CslSubstitute),
    Date,
    Group(CslGroup),
    Choose(CslChoose),
    /// Any other node (labels, numbers, terms, ...).
    Other,
}

/// A macro: its name and children.
pub struct CslMacro {
    pub name: String,
    pub children: Vec<CslNode>,
}

/// A layout: its affixes and children.
pub struct CslLayout {
    pub prefix: Option<String>,
    pub suffix: Option<String>,
    pub children: Vec<CslNode>,
}

/// A bibliography: its layout.
pub struct CslBibliography {
    pub layout: CslLayout,
}

/// The parts of a CSL 1.0 style the analyses read: its macros and its
/// bibliography.
pub struct CslStyle {
    pub macros: Vec<CslMacro>,
    pub bibliography: Option<CslBibliography>,
}

/// What a node is looked for: the author or the date.
#[derive(Clone, Copy, PartialEq, Eq, Structural)]
pub enum Probe {
    Author,
    Date,
}

/// Whether an optional macro name holds `word`.
pub open spec fn mentions(m: Option<String>, word: Seq<char>) -> bool {
    m is Some && contains_seq(m->Some_0@, word)
}

/// Whether a text node calls a macro that, by its name, renders the author
/// ("author") or the date ("year" or "date").
pub open spec fn text_probe(t: CslText, p: Probe) -> bool {
    match p {
        Probe::Author => mentions(t.macro_name, "author"@),
        Probe::Date => mentions(t.macro_name, "year"@) || mentions(t.macro_name, "date"@),
    }
}

/// Whether a node renders the author (a names node, or such a macro call)
/// or the date (a date node, or such a macro call), in any group or
/// branch below it.
pub open spec fn node_probe(n: CslNode, p: Probe) -> bool
    decreases n, 2nat,
{
    match n {
        CslNode::Text(t) => text_probe(t, p),
        CslNode::Names(_) => p == Probe::Author,
        CslNode::Date => p == Probe::Date,
        CslNode::Group(g) => nodes_probe(n->Group_0.children@, p),
        CslNode::Choose(c) => {
            let c = n->Choose_0;
            nodes_probe(c.if_branch.children@, p) || branches_probe(c.else_if_branches@, p) || match c.else_branch {
                Some(e) => nodes_probe(c.else_branch->Some_0@, p),
                None => false,
            }
        },
        _ => false,
    }
}

/// Whether one of `s` does (`node_probe`).
pub open spec fn nodes_probe(s: Seq<CslNode>, p: Probe) -> bool
    decreases s, 1nat,
{
    s.len() > 0 && (nodes_probe(s.drop_last(), p) || node_probe(s.last(), p))
}

/// Whether the children of one of the branches do (`node_probe`).
pub open spec fn branches_probe(bs: Seq<CslBranch>, p: Probe) -> bool
    decreases bs, 0nat,
{
    bs.len() > 0 && (branches_probe(bs.drop_last(), p) || nodes_probe(bs.last().children@, p))
}

/// A delimiter with the depth it was found at.
pub type Best = Option<(Seq<char>, usize)>;

/// `c` when it is deeper than `b`, else `b`: the first of the deepest.
pub open spec fn better(b: Best, c: Best) -> Best {
    if c is Some && (b is None || c->Some_0.1 > b->Some_0.1) {
        c
    } else {
        b
    }
}

/// A result one level deeper (the count stops at the largest `usize`).
pub open spec fn deeper(c: Best) -> Best {
    match c {
        Some(x) => Some((x.0, if x.1 < usize::MAX { (x.1 + 1) as usize } else { x.1 })),
        None => None,
    }
}

/// Two results taken in order: the first of the deepest, and whether
/// either ran out of macro expansions.
pub open spec fn combined(a: (Best, bool), b: (Best, bool)) -> (Best, bool) {
    (better(a.0, b.0), a.1 || b.1)
}

/// Index of the first macro named `name`, or -1.
pub open spec fn macro_index(ms: Seq<CslMacro>, name: Seq<char>) -> int
    decreases ms.len(),
{
    if ms.len() == 0 {
        -1
    } else if macro_index(ms.drop_last(), name) >= 0 {
        macro_index(ms.drop_last(), name)
    } else if ms.last().name@ == name {
        ms.len() - 1
    } else {
        -1
    }
}

/// The deepest delimiter among `s`, each node in order (`node_deepest`),
/// with `fuel` macro expansions left; and whether some expansion needed
/// more.
pub open spec fn nodes_deepest(s: Seq<CslNode>, ms: Seq<CslMacro>, fuel: nat) -> (Best, bool)
    decreases fuel, s, 1nat,
{
    if s.len() == 0 {
        (None, false)
    } else {
        combined(nodes_deepest(s.drop_last(), ms, fuel), node_deepest(s.last(), ms, fuel))
    }
}

/// The deepest delimiter of the children of the branches, in order.
pub open spec fn branches_deepest(bs: Seq<CslBranch>, ms: Seq<CslMacro>, fuel: nat) -> (Best, bool)
    decreases fuel, bs, 0nat,
{
    if bs.len() == 0 {
        (None, false)
    } else {
        combined(branches_deepest(bs.drop_last(), ms, fuel), nodes_deepest(bs.last().children@, ms, fuel))
    }
}

/// The deepest delimiter a node gives:
/// - a group holding both the author and the date gives the deepest
///   delimiter among its children one level deeper, else its own
///   delimiter at depth one;
/// - a choose node gives the deepest among its branches, in order;
/// - a call of a macro whose name holds both "author" and "date" gives the
///   deepest delimiter of the first macro of that name one level deeper;
/// - anything else gives none.
pub open spec fn node_deepest(n: CslNode, ms: Seq<CslMacro>, fuel: nat) -> (Best, bool)
    decreases fuel, n, 2nat,
{
    match n {
        CslNode::Group(g) => {
            let children = n->Group_0.children@;
            if nodes_probe(children, Probe::Author) && nodes_probe(children, Probe::Date) {
                let r = nodes_deepest(children, ms, fuel);
                (
                    if r.0 is Some {
                        deeper(r.0)
                    } else {
                        match g.delimiter {
                            Some(d) => Some((d@, 1usize)),
                            None => None,
                        }
                    },
                    r.1,
                )
            } else {
                (None, false)
            }
        },
        CslNode::Choose(c) => {
            let c = n->Choose_0;
            combined(
                combined(nodes_deepest(c.if_branch.children@, ms, fuel), branches_deepest(c.else_if_branches@, ms, fuel)),
                match c.else_branch {
                    Some(e) => nodes_deepest(c.else_branch->Some_0@, ms, fuel),
                    None => (None, false),
                },
            )
        },
        CslNode::Text(t) => {
            if mentions(t.macro_name, "author"@) && mentions(t.macro_name, "date"@) {
                let j = macro_index(ms, t.macro_name->Some_0@);
                if j < 0 {
                    (None, false)
                } else if fuel == 0 {
                    (None, true)
                } else {
                    let r = nodes_deepest(ms[j].children@, ms, (fuel - 1) as nat);
                    (deeper(r.0), r.1)
                }
            } else {
                (None, false)
            }
        },
        _ => (None, false),
    }
}

/// Whether the search of a layout ends: no chain of macro expansions
/// longer than the number of macros is needed. A longer chain calls some
/// macro inside itself, and the search would then never end.
pub open spec fn search_ends(layout: CslLayout, ms: Seq<CslMacro>) -> bool {
    !nodes_deepest(layout.children@, ms, ms.len()).1
}

/// The delimiter of the deepest group in a citation layout that holds both
/// the author and the date, macros expanded (`node_deepest`).
pub open spec fn deepest_author_date_delimiter(layout: CslLayout, ms: Seq<CslMacro>) -> Option<Seq<char>> {
    match nodes_deepest(layout.children@, ms, ms.len()).0 {
        Some(x) => Some(x.0),
        None => None,
    }
}

fn text_probe_of(t: &CslText, p: Probe) -> (r: bool)
    ensures
        r == text_probe(*t, p),
{
    match &t.macro_name {
        Some(m) => match p {
            Probe::Author => contains_str(m.as_str(), "author"),
            Probe::Date => contains_str(m.as_str(), "year") || contains_str(m.as_str(), "date"),
        },
        None => false,
    }
}

fn node_probe_of(n: &CslNode, p: Probe) -> (r: bool)
    ensures
        r == node_probe(*n, p),
    decreases n, 2nat,
{
    match n {
        CslNode::Text(t) => text_probe_of(t, p),
        CslNode::Names(_) => p == Probe::Author,
        CslNode::Date => p == Probe::Date,
        CslNode::Group(g) => {
            proof {
                assert(decreases_to!(n => g));
                assert(decreases_to!(g => g.children));
            }
            nodes_probe_of(&g.children, p)
        },
        CslNode::Choose(c) => {
            proof {
                assert(decreases_to!(n => c));
                assert(decreases_to!(c => c.if_branch));
                assert(decreases_to!(c.if_branch => c.if_branch.children));
                assert(decreases_to!(c => c.else_if_branches));
                assert(decreases_to!(c => c.else_branch));
            }
            if nodes_probe_of(&c.if_branch.children, p) {
                return true;
            }
            if branches_probe_of(&c.else_if_branches, p) {
                return true;
            }
            match &c.else_branch {
                Some(e) => {
                    proof {
                        assert(decreases_to!(c.else_branch => *e));
                    }
                    nodes_probe_of(e, p)
                },
                None => false,
            }
        },
        _ => false,
    }
}

fn nodes_probe_of(s: &Vec<CslNode>, p: Probe) -> (r: bool)
    ensures
        r == nodes_probe(s@, p),
    decreases s, 1nat,
{
    let mut i: usize = 0;
    proof {
        assert(s@.subrange(0, 0) =~= Seq::<CslNode>::empty());
    }
    while i < s.len()
        invariant
            i <= s@.len(),
            !nodes_probe(s@.subrange(0, i as int), p),
        decreases s@.len() - i,
    {
        proof {
            let u = s@.subrange(0, i + 1);
            assert(u.drop_last() =~= s@.subrange(0, i as int));
            assert(u.last() == s@[i as int]);
            assert(decreases_to!(s => s@));
            assert(decreases_to!(s@ => s@[i as int]));
        }
        if node_probe_of(&s[i], p) {
            proof {
                lemma_nodes_probe_prefix(s@, i as int + 1, p);
            }
            return true;
        }
        i = i + 1;
    }
    proof {
        assert(s@.subrange(0, s@.len() as int) =~= s@);
    }
    false
}

/// A sequence that has a node found in a prefix is found.
proof fn lemma_nodes_probe_prefix(s: Seq<CslNode>, k: int, p: Probe)
    requires
        0 <= k <= s.len(),
        nodes_probe(s.subrange(0, k), p),
    ensures
        nodes_probe(s, p),
    decreases s.len() - k,
{
    if k < s.len() {
        let u = s.subrange(0, k + 1);
        assert(u.drop_last() =~= s.subrange(0, k));
        lemma_nodes_probe_prefix(s, k + 1, p);
    } else {
        assert(s.subrange(0, k) =~= s);
    }
}

fn branches_probe_of(bs: &Vec<CslBranch>, p: Probe) -> (r: bool)
    ensures
        r == branches_probe(bs@, p),
    decreases bs, 0nat,
{
    let mut i: usize = 0;
    proof {
        assert(bs@.subrange(0, 0) =~= Seq::<CslBranch>::empty());
    }
    while i < bs.len()
        invariant
            i <= bs@.len(),
            !branches_probe(bs@.subrange(0, i as int), p),
        decreases bs@.len() - i,
    {
        proof {
            let u = bs@.subrange(0, i + 1);
            assert(u.drop_last() =~= bs@.subrange(0, i as int));
            assert(u.last() == bs@[i as int]);
            assert(decreases_to!(bs => bs@));
            assert(decreases_to!(bs@ => bs@[i as int]));
            assert(decreases_to!(bs@[i as int] => bs@[i as int].children));
        }
        if nodes_probe_of(&bs[i].children, p) {
            proof {
                lemma_branches_probe_prefix(bs@, i as int + 1, p);
            }
            return true;
        }
        i = i + 1;
    }
    proof {
        assert(bs@.subrange(0, bs@.len() as int) =~= bs@);
    }
    false
}

proof fn lemma_branches_probe_prefix(bs: Seq<CslBranch>, k: int, p: Probe)
    requires
        0 <= k <= bs.len(),
        branches_probe(bs.subrange(0, k), p),
    ensures
        branches_probe(bs, p),
    decreases bs.len() - k,
{
    if k < bs.len() {
        let u = bs.subrange(0, k + 1);
        assert(u.drop_last() =~= bs.subrange(0, k));
        lemma_branches_probe_prefix(bs, k + 1, p);
    } else {
        assert(bs.subrange(0, k) =~= bs);
    }
}

/// An exec result by its contents.
pub open spec fn best_view(b: Option<(String, usize)>) -> Best {
    match b {
        Some(x) => Some((x.0@, x.1)),
        None => None,
    }
}

fn better_of(b: Option<(String, usize)>, c: Option<(String, usize)>) -> (r: Option<(String, usize)>)
    ensures
        best_view(r) == better(best_view(b), best_view(c)),
{
    let take = match (&b, &c) {
        (_, None) => false,
        (None, Some(_)) => true,
        (Some(x), Some(y)) => y.1 > x.1,
    };
    if take {
        c
    } else {
        b
    }
}

fn deeper_of(c: Option<(String, usize)>) -> (r: Option<(String, usize)>)
    ensures
        best_view(r) == deeper(best_view(c)),
{
    match c {
        Some(x) => Some((x.0, x.1.saturating_add(1))),
        None => None,
    }
}

fn find_macro(ms: &Vec<CslMacro>, name: &String) -> (r: Option<usize>)
    ensures
        match r {
            Some(j) => j as int == macro_index(ms@, name@) && j < ms@.len(),
            None => macro_index(ms@, name@) < 0,
        },
{
    let mut i: usize = 0;
    proof {
        assert(ms@.subrange(0, 0) =~= Seq::<CslMacro>::empty());
    }
    while i < ms.len()
        invariant
            i <= ms@.len(),
            macro_index(ms@.subrange(0, i as int), name@) < 0,
        decreases ms@.len() - i,
    {
        proof {
            let u = ms@.subrange(0, i + 1);
            assert(u.drop_last() =~= ms@.subrange(0, i as int));
            assert(u.last() == ms@[i as int]);
        }
        if str_eq(ms[i].name.as_str(), name.as_str()) {
            proof {
                lemma_macro_index_prefix(ms@, i as int + 1, name@);
            }
            return Some(i);
        }
        i = i + 1;
    }
    proof {
        assert(ms@.subrange(0, ms@.len() as int) =~= ms@);
    }
    None
}

/// The first index found in a prefix is the first index.
proof fn lemma_macro_index_prefix(ms: Seq<CslMacro>, k: int, name: Seq<char>)
    requires
        0 <= k <= ms.len(),
        macro_index(ms.subrange(0, k), name) >= 0,
    ensures
        macro_index(ms, name) == macro_index(ms.subrange(0, k), name),
    decreases ms.len() - k,
{
    if k < ms.len() {
        let u = ms.subrange(0, k + 1);
        assert(u.drop_last() =~= ms.subrange(0, k));
        lemma_macro_index_prefix(ms, k + 1, name);
    } else {
        assert(ms.subrange(0, k) =~= ms);
    }
}

fn nodes_deepest_of(s: &Vec<CslNode>, ms: &Vec<CslMacro>, fuel: usize) -> (r: (Option<(String, usize)>, bool))
    ensures
        (best_view(r.0), r.1) == nodes_deepest(s@, ms@, fuel as nat),
    decreases fuel, s, 1nat,
{
    let mut best: Option<(String, usize)> = None;
    let mut out = false;
    let mut i: usize = 0;
    proof {
        assert(s@.subrange(0, 0) =~= Seq::<CslNode>::empty());
    }
    while i < s.len()
        invariant
            i <= s@.len(),
            (best_view(best), out) == nodes_deepest(s@.subrange(0, i as int), ms@, fuel as nat),
        decreases s@.len() - i,
    {
        proof {
            let u = s@.subrange(0, i + 1);
            assert(u.drop_last() =~= s@.subrange(0, i as int));
            assert(u.last() == s@[i as int]);
            assert(decreases_to!(s => s@));
            assert(decreases_to!(s@ => s@[i as int]));
        }
        let (b, o) = node_deepest_of(&s[i], ms, fuel);
        best = better_of(best, b);
        out = out || o;
        i = i + 1;
    }
    proof {
        assert(s@.subrange(0, s@.len() as int) =~= s@);
    }
    (best, out)
}

fn branches_deepest_of(bs: &Vec<CslBranch>, ms: &Vec<CslMacro>, fuel: usize) -> (r: (Option<(String, usize)>, bool))
    ensures
        (best_view(r.0), r.1) == branches_deepest(bs@, ms@, fuel as nat),
    decreases fuel, bs, 0nat,
{
    let mut best: Option<(String, usize)> = None;
    let mut out = false;
    let mut i: usize = 0;
    proof {
        assert(bs@.subrange(0, 0) =~= Seq::<CslBranch>::empty());
    }
    while i < bs.len()
        invariant
            i <= bs@.len(),
            (best_view(best), out) == branches_deepest(bs@.subrange(0, i as int), ms@, fuel as nat),
        decreases bs@.len() - i,
    {
        proof {
            let u = bs@.subrange(0, i + 1);
            assert(u.drop_last() =~= bs@.subrange(0, i as int));
            assert(u.last() == bs@[i as int]);
            assert(decreases_to!(bs => bs@));
            assert(decreases_to!(bs@ => bs@[i as int]));
            assert(decreases_to!(bs@[i as int] => bs@[i as int].children));
        }
        let (b, o) = nodes_deepest_of(&bs[i].children, ms, fuel);
        best = better_of(best, b);
        out = out || o;
        i = i + 1;
    }
    proof {
        assert(bs@.subrange(0, bs@.len() as int) =~= bs@);
    }
    (best, out)
}

fn node_deepest_of(n: &CslNode, ms: &Vec<CslMacro>, fuel: usize) -> (r: (Option<(String, usize)>, bool))
    ensures
        (best_view(r.0), r.1) == node_deepest(*n, ms@, fuel as nat),
    decreases fuel, n, 2nat,
{
    match n {
        CslNode::Group(g) => {
            proof {
                assert(decreases_to!(n => g));
                assert(decreases_to!(g => g.children));
            }
            if nodes_probe_of(&g.children, Probe::Author) && nodes_probe_of(&g.children, Probe::Date) {
                let (b, o) = nodes_deepest_of(&g.children, ms, fuel);
                let res = match b {
                    Some(x) => deeper_of(Some(x)),
                    None => match &g.delimiter {
                        Some(d) => Some((d.clone(), 1usize)),
                        None => None,
                    },
                };
                (res, o)
            } else {
                (None, false)
            }
        },
        CslNode::Choose(c) => {
            proof {
                assert(decreases_to!(n => c));
                assert(decreases_to!(c => c.if_branch));
                assert(decreases_to!(c.if_branch => c.if_branch.children));
                assert(decreases_to!(c => c.else_if_branches));
                assert(decreases_to!(c => c.else_branch));
            }
            let (b1, o1) = nodes_deepest_of(&c.if_branch.children, ms, fuel);
            let (b2, o2) = branches_deepest_of(&c.else_if_branches, ms, fuel);
            let b12 = better_of(b1, b2);
            let (b3, o3) = match &c.else_branch {
                Some(e) => {
                    proof {
                        assert(decreases_to!(c.else_branch => *e));
                    }
                    nodes_deepest_of(e, ms, fuel)
                },
                None => (None, false),
            };
            (better_of(b12, b3), o1 || o2 || o3)
        },
        CslNode::Text(t) => {
            match &t.macro_name {
                Some(m) => {
                    if contains_str(m.as_str(), "author") && contains_str(m.as_str(), "date") {
                        match find_macro(ms, m) {
                            None => (None, false),
                            Some(j) => {
                                if fuel == 0 {
                                    (None, true)
                                } else {
                                    let (b, o) = nodes_deepest_of(&ms[j].children, ms, fuel - 1);
                                    (deeper_of(b), o)
                                }
                            },
                        }
                    } else {
                        (None, false)
                    }
                },
                None => (None, false),
            }
        },
        _ => (None, false),
    }
}

/// The citation delimiter a layout implies: that of the deepest group
/// holding both the author and the date, macros expanded
/// (`deepest_author_date_delimiter`). The search must end
/// (`search_ends`).
pub fn extract_citation_delimiter(layout: &CslLayout, macros: &Vec<CslMacro>) -> (r: Option<String>)
    requires
        search_ends(*layout, macros@),
    ensures
        opt_view(r) == deepest_author_date_delimiter(*layout, macros@),
{
    let (b, _) = nodes_deepest_of(&layout.children, macros, macros.len());
    match b {
        Some(x) => Some(x.0),
        None => None,
    }
}

/// The citation delimiter of a layout, with the test of `search_ends`
/// made: `None` when the search would not end (some macro calls itself
/// through a chain of macros), else the delimiter that
/// `extract_citation_delimiter` gives.
pub fn extract_citation_delimiter_checked(layout: &CslLayout, macros: &Vec<CslMacro>) -> (r: Option<Option<String>>)
    ensures
        r is None <==> !search_ends(*layout, macros@),
        r matches Some(d) ==> opt_view(d) == deepest_author_date_delimiter(*layout, macros@),
{
    let (b, out) = nodes_deepest_of(&layout.children, macros, macros.len());
    if out {
        None
    } else {
        match b {
            Some(x) => Some(Some(x.0)),
            None => Some(None),
        }
    }
}


/// Whether an optional text is exactly `t`.
pub open spec fn is_text(o: Option<String>, t: Seq<char>) -> bool {
    o is Some && o->Some_0@ == t
}

/// The wrapping that a prefix and suffix spell: parentheses for "(" and
/// ")", brackets for "[" and "]", else none.
pub open spec fn affix_wrap(prefix: Option<String>, suffix: Option<String>) -> Option<WrapPunctuation> {
    if is_text(prefix, "("@) && is_text(suffix, ")"@) {
        Some(WrapPunctuation::Parentheses)
    } else if is_text(prefix, "["@) && is_text(suffix, "]"@) {
        Some(WrapPunctuation::Brackets)
    } else {
        None
    }
}

/// The wrapping of the first group, in document order, whose affixes spell
/// one; a group without one is searched inside. Choose blocks and other
/// nodes are not searched.
pub open spec fn nodes_wrap(s: Seq<CslNode>) -> Option<WrapPunctuation>
    decreases s, 1nat,
{
    if s.len() == 0 {
        None
    } else {
        match nodes_wrap(s.drop_last()) {
            Some(w) => Some(w),
            None => node_wrap(s.last()),
        }
    }
}

/// The wrapping a node gives (`nodes_wrap`).
pub open spec fn node_wrap(n: CslNode) -> Option<WrapPunctuation>
    decreases n, 2nat,
{
    match n {
        CslNode::Group(g) => match affix_wrap(g.prefix, g.suffix) {
            Some(w) => Some(w),
            None => nodes_wrap(n->Group_0.children@),
        },
        _ => None,
    }
}

/// Whether an optional text is absent or empty.
pub open spec fn is_blank(o: Option<String>) -> bool {
    o is None || o->Some_0@.len() == 0
}

/// The wrapping of a citation, with the prefix and suffix left over: the
/// layout's own wrapping, else that of its first wrapping group, else no
/// wrapping and the layout's affixes (none where both are blank).
pub open spec fn citation_wrapping(layout: CslLayout) -> (Option<WrapPunctuation>, Option<Seq<char>>, Option<Seq<char>>) {
    match affix_wrap(layout.prefix, layout.suffix) {
        Some(w) => (Some(w), None, None),
        None => match nodes_wrap(layout.children@) {
            Some(w) => (Some(w), None, None),
            None => if is_blank(layout.prefix) && is_blank(layout.suffix) {
                (None, None, None)
            } else {
                (None, opt_view(layout.prefix), opt_view(layout.suffix))
            },
        },
    }
}

fn is_text_of(o: &Option<String>, t: &str) -> (r: bool)
    ensures
        r == is_text(*o, t@),
{
    match o {
        Some(x) => str_eq(x.as_str(), t),
        None => false,
    }
}

fn affix_wrap_of(prefix: &Option<String>, suffix: &Option<String>) -> (r: Option<WrapPunctuation>)
    ensures
        r == affix_wrap(*prefix, *suffix),
{
    if is_text_of(prefix, "(") && is_text_of(suffix, ")") {
        Some(WrapPunctuation::Parentheses)
    } else if is_text_of(prefix, "[") && is_text_of(suffix, "]") {
        Some(WrapPunctuation::Brackets)
    } else {
        None
    }
}

fn node_wrap_of(n: &CslNode) -> (r: Option<WrapPunctuation>)
    ensures
        r == node_wrap(*n),
    decreases n, 2nat,
{
    match n {
        CslNode::Group(g) => {
            proof {
                assert(decreases_to!(n => g));
                assert(decreases_to!(g => g.children));
            }
            match affix_wrap_of(&g.prefix, &g.suffix) {
                Some(w) => Some(w),
                None => nodes_wrap_of(&g.children),
            }
        },
        _ => None,
    }
}

fn nodes_wrap_of(s: &Vec<CslNode>) -> (r: Option<WrapPunctuation>)
    ensures
        r == nodes_wrap(s@),
    decreases s, 1nat,
{
    let mut i: usize = 0;
    proof {
        assert(s@.subrange(0, 0) =~= Seq::<CslNode>::empty());
    }
    while i < s.len()
        invariant
            i <= s@.len(),
            nodes_wrap(s@.subrange(0, i as int)) is None,
        decreases s@.len() - i,
    {
        proof {
            let u = s@.subrange(0, i + 1);
            assert(u.drop_last() =~= s@.subrange(0, i as int));
            assert(u.last() == s@[i as int]);
            assert(decreases_to!(s => s@));
            assert(decreases_to!(s@ => s@[i as int]));
        }
        let w = node_wrap_of(&s[i]);
        if w.is_some() {
            proof {
                lemma_nodes_wrap_prefix(s@, i + 1);
            }
            return w;
        }
        i = i + 1;
    }
    proof {
        assert(s@.subrange(0, s@.len() as int) =~= s@);
    }
    None
}

/// The first wrapping found in a prefix stays the first in the whole.
proof fn lemma_nodes_wrap_prefix(s: Seq<CslNode>, k: int)
    requires
        0 <= k <= s.len(),
        nodes_wrap(s.subrange(0, k)) is Some,
    ensures
        nodes_wrap(s) == nodes_wrap(s.subrange(0, k)),
    decreases s.len() - k,
{
    if k < s.len() {
        let u = s.subrange(0, k + 1);
        assert(u.drop_last() =~= s.subrange(0, k));
        lemma_nodes_wrap_prefix(s, k + 1);
    } else {
        assert(s.subrange(0, k) =~= s);
    }
}

/// The wrapping of a citation and the prefix and suffix left over
/// (`citation_wrapping`).
pub fn infer_citation_wrapping(layout: &CslLayout) -> (r: (Option<WrapPunctuation>, Option<String>, Option<String>))
    ensures
        (r.0, opt_view(r.1), opt_view(r.2)) == citation_wrapping(*layout),
{
    if let Some(w) = affix_wrap_of(&layout.prefix, &layout.suffix) {
        return (Some(w), None, None);
    }
    if let Some(w) = nodes_wrap_of(&layout.children) {
        return (Some(w), None, None);
    }
    let prefix_blank = match &layout.prefix {
        Some(p) => p.unicode_len() == 0,
        None => true,
    };
    let suffix_blank = match &layout.suffix {
        Some(p) => p.unicode_len() == 0,
        None => true,
    };
    if prefix_blank && suffix_blank {
        (None, None, None)
    } else {
        (None, layout.prefix.clone(), layout.suffix.clone())
    }
}

} // verus!
