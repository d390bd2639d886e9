//! The plain data records of the feed: posts and comments, immutable once
//! fetched, and the choice of which page a post links to.

use vstd::prelude::*;

verus! {

/// A post of the ranked feed.
#[derive(Debug, PartialEq)]
pub struct HNPost {
    pub title: String,
    pub score: u32,
    pub url: Option<String>,
    pub by: String,
    pub time: u64,
    pub id: u64,
    pub descendants: Option<u32>,
    pub kids: Option<Vec<u64>>,
}

/// A comment of a post's discussion thread. A missing `text` means the
/// comment is dead or removed.
#[derive(Debug, PartialEq)]
pub struct HNComment {
    pub id: u64,
    pub text: Option<String>,
    pub by: String,
}

/// Which page to open for a post: the post's own URL when it has one, else
/// the feed's discussion page for the item with the given id.
#[derive(Debug, PartialEq)]
pub enum UrlTarget {
    Direct(String),
    ItemPage(u64),
}

/// The link a post leads to: its own URL if present, its discussion page
/// otherwise.
pub fn post_link(p: &HNPost) -> (t: UrlTarget)
    ensures
        match p.url {
            Some(u) => t matches UrlTarget::Direct(s) && s@ == u@,
            None => t == UrlTarget::ItemPage(p.id),
        },
{
    match &p.url {
        Some(u) => UrlTarget::Direct(u.clone()),
        None => UrlTarget::ItemPage(p.id),
    }
}

/// The discussion-page link for a post, regardless of its own URL.
pub fn post_item_page(p: &HNPost) -> (t: UrlTarget)
    ensures
        t == UrlTarget::ItemPage(p.id),
{
    UrlTarget::ItemPage(p.id)
}

/// A copy of a list of item identifiers, element for element.
pub fn copy_ids(v: &Vec<u64>) -> (r: Vec<u64>)
    ensures
        r@ == v@,
{
    let mut r: Vec<u64> = Vec::new();
    let mut i: usize = 0;
    while i < v.len()
        invariant
            i <= v.len(),
            r@ == v@.take(i as int),
        decreases v.len() - i,
    {
        r.push(v[i]);
        i = i + 1;
    }
    assert(v@.take(v@.len() as int) == v@);
    r
}

} // verus!
