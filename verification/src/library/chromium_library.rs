//! The bookmark file of Chromium and its relatives: a tree of folders with
//! the bookmarks at its leaves.

use vstd::prelude::*;

use crate::types::{bookmarks_of, text_of, Bookmark, BookmarkView};

verus! {

/// A node of the tree: a folder with its children, or a bookmark with its
/// address.
#[derive(Debug)]
pub struct ChromiumBookmark {
    pub children: Option<Vec<ChromiumBookmark>>,
    pub url: Option<String>,
    pub name: String,
}

/// The three folders at the top of the tree.
#[derive(Debug)]
pub struct ChromiumBookmarkRoots {
    pub bookmark_bar: ChromiumBookmark,
    pub other: ChromiumBookmark,
    pub synced: ChromiumBookmark,
}

/// A bookmark file.
#[derive(Debug)]
pub struct ChromiumBookmarkCore {
    pub roots: ChromiumBookmarkRoots,
}

/// Whether every node without children has an address.
pub open spec fn is_parsable(entry: ChromiumBookmark) -> bool
    decreases entry,
{
    match entry.children {
        Some(children) => forall|i: int|
            0 <= i < children.len() ==> is_parsable(#[trigger] children[i]),
        None => entry.url is Some,
    }
}

/// The bookmarks under a node, from left to right.
pub open spec fn bookmarks_under(entry: ChromiumBookmark) -> Seq<BookmarkView>
    decreases entry, 0nat,
{
    match entry.children {
        Some(children) => bookmarks_under_first(children, children.len() as nat),
        None => match entry.url {
            Some(url) => seq![BookmarkView { title: entry.name@, url: url@ }],
            None => Seq::empty(),
        },
    }
}

/// The bookmarks under the first `n` of a folder's children.
pub open spec fn bookmarks_under_first(children: Vec<ChromiumBookmark>, n: nat) -> Seq<BookmarkView>
    decreases children, n,
{
    if n == 0 || n > children.len() {
        Seq::empty()
    } else {
        bookmarks_under_first(children, (n - 1) as nat) + bookmarks_under(children[n - 1])
    }
}

/// The name of the first node under a node, from left to right, that has
/// neither children nor an address.
pub open spec fn unparsable_under(entry: ChromiumBookmark) -> Option<Seq<char>>
    decreases entry, 0nat,
{
    match entry.children {
        Some(children) => unparsable_under_first(children, children.len() as nat),
        None => if entry.url is Some {
            None
        } else {
            Some(entry.name@)
        },
    }
}

/// The name of the first such node under the first `n` of a folder's
/// children.
pub open spec fn unparsable_under_first(children: Vec<ChromiumBookmark>, n: nat) -> Option<Seq<char>>
    decreases children, n,
{
    if n == 0 || n > children.len() {
        None
    } else {
        match unparsable_under_first(children, (n - 1) as nat) {
            Some(name) => Some(name),
            None => unparsable_under(children[n - 1]),
        }
    }
}

/// Finds the first node under a node, from left to right, that has neither
/// children nor an address, and gives its name. There is none exactly if
/// the node can be parsed.
pub fn first_unparsable(entry: &ChromiumBookmark) -> (name: Option<String>)
    ensures
        text_of(name) == unparsable_under(*entry),
        name is None <==> is_parsable(*entry),
    decreases entry,
{
    match &entry.children {
        Some(children) => {
            let mut i: usize = 0;
            while i < children.len()
                invariant
                    i <= children.len(),
                    entry.children == Some(*children),
                    unparsable_under_first(*children, i as nat) is None,
                    forall|k: int| 0 <= k < i ==> is_parsable(#[trigger] children[k]),
                decreases children.len() - i,
            {
                assert(entry.children->Some_0 == *children);
                assert(decreases_to!(entry => entry.children));
                assert(decreases_to!(entry.children => *children));
                assert(decreases_to!(*children => children[i as int]));
                let found = first_unparsable(&children[i]);
                if found.is_some() {
                    assert(!is_parsable(children[i as int]));
                    proof {
                        lemma_unparsable_stays(*children, (i + 1) as nat, children.len() as nat);
                    }
                    return found;
                }
                i += 1;
            }
            None
        },
        None => {
            if entry.url.is_some() {
                None
            } else {
                Some(entry.name.clone())
            }
        },
    }
}

/// The first node that cannot be parsed among some of a folder's children
/// is the first among more of them.
proof fn lemma_unparsable_stays(children: Vec<ChromiumBookmark>, n: nat, m: nat)
    requires
        n <= m <= children.len(),
        unparsable_under_first(children, n) is Some,
    ensures
        unparsable_under_first(children, m) == unparsable_under_first(children, n),
    decreases m - n,
{
    if n < m {
        lemma_unparsable_stays(children, n, (m - 1) as nat);
    }
}

/// Finds the first node of a file that has neither children nor an address:
/// under the bookmark bar, then under the other bookmarks, then under the
/// synced ones. There is none exactly if the file can be collected.
pub fn first_unparsable_in(core: &ChromiumBookmarkCore) -> (name: Option<String>)
    ensures
        text_of(name) == (if unparsable_under(core.roots.bookmark_bar) is Some {
            unparsable_under(core.roots.bookmark_bar)
        } else if unparsable_under(core.roots.other) is Some {
            unparsable_under(core.roots.other)
        } else {
            unparsable_under(core.roots.synced)
        }),
        name is None <==> is_parsable(core.roots.bookmark_bar) && is_parsable(core.roots.other)
            && is_parsable(core.roots.synced),
{
    let in_bar = first_unparsable(&core.roots.bookmark_bar);
    if in_bar.is_some() {
        return in_bar;
    }
    let in_other = first_unparsable(&core.roots.other);
    if in_other.is_some() {
        return in_other;
    }
    first_unparsable(&core.roots.synced)
}

/// Tells whether every node without children has an address.
pub fn is_parsable_entry(entry: &ChromiumBookmark) -> (parsable: bool)
    ensures
        parsable == is_parsable(*entry),
    decreases entry,
{
    match &entry.children {
        Some(children) => {
            let mut i: usize = 0;
            while i < children.len()
                invariant
                    i <= children.len(),
                    entry.children == Some(*children),
                    forall|k: int| 0 <= k < i ==> is_parsable(#[trigger] children[k]),
                decreases children.len() - i,
            {
                assert(entry.children->Some_0 == *children);
                assert(decreases_to!(entry => entry.children));
                assert(decreases_to!(entry.children => *children));
                assert(decreases_to!(*children => children[i as int]));
                if !is_parsable_entry(&children[i]) {
                    assert(!is_parsable(children[i as int]));
                    return false;
                }
                i += 1;
            }
            true
        },
        None => entry.url.is_some(),
    }
}

/// Collects the bookmarks under a node, from left to right.
pub fn parse_bookmarks(entry: &ChromiumBookmark) -> (bookmarks: Vec<Bookmark>)
    requires
        is_parsable(*entry),
    ensures
        bookmarks_of(bookmarks@) == bookmarks_under(*entry),
    decreases entry,
{
    let mut bookmarks: Vec<Bookmark> = Vec::new();
    match &entry.children {
        Some(children) => {
            let mut i: usize = 0;
            while i < children.len()
                invariant
                    i <= children.len(),
                    entry.children == Some(*children),
                    is_parsable(*entry),
                    bookmarks_of(bookmarks@) == bookmarks_under_first(*children, i as nat),
                decreases children.len() - i,
            {
                assert(entry.children->Some_0 == *children);
                assert(is_parsable(children[i as int]));
                assert(decreases_to!(entry => entry.children));
                assert(decreases_to!(entry.children => *children));
                assert(decreases_to!(*children => children[i as int]));
                let mut found = parse_bookmarks(&children[i]);
                let ghost before = bookmarks_of(bookmarks@);
                let ghost added = bookmarks_of(found@);
                bookmarks.append(&mut found);
                assert(bookmarks_of(bookmarks@) =~= before + added);
                i += 1;
            }
        },
        None => match &entry.url {
            Some(url) => {
                bookmarks.push(Bookmark { title: entry.name.clone(), url: url.clone() });
                assert(bookmarks_of(bookmarks@) =~= bookmarks_under(*entry));
            },
            None => {},
        },
    }
    bookmarks
}

/// Collects the bookmarks of a file: those of the bookmark bar, then the
/// other ones, then the synced ones.
pub fn collect_bookmarks(core: ChromiumBookmarkCore) -> (bookmarks: Vec<Bookmark>)
    requires
        is_parsable(core.roots.bookmark_bar),
        is_parsable(core.roots.other),
        is_parsable(core.roots.synced),
    ensures
        bookmarks_of(bookmarks@) == bookmarks_under(core.roots.bookmark_bar) + bookmarks_under(
            core.roots.other,
        ) + bookmarks_under(core.roots.synced),
{
    let mut bookmarks = parse_bookmarks(&core.roots.bookmark_bar);
    let mut other = parse_bookmarks(&core.roots.other);
    let mut synced = parse_bookmarks(&core.roots.synced);
    let ghost first = bookmarks_of(bookmarks@);
    let ghost second = bookmarks_of(other@);
    let ghost third = bookmarks_of(synced@);
    bookmarks.append(&mut other);
    bookmarks.append(&mut synced);
    assert(bookmarks_of(bookmarks@) =~= first + second + third);
    bookmarks
}

/// Tells whether a file can be collected: every node without children has
/// an address.
pub fn is_parsable_core(core: &ChromiumBookmarkCore) -> (parsable: bool)
    ensures
        parsable == (is_parsable(core.roots.bookmark_bar) && is_parsable(core.roots.other)
            && is_parsable(core.roots.synced)),
{
    is_parsable_entry(&core.roots.bookmark_bar) && is_parsable_entry(&core.roots.other)
        && is_parsable_entry(&core.roots.synced)
}

} // verus!
