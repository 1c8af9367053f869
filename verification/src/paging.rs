//! One page of a longer listing, with either an exact total or a
//! has-more flag.

use vstd::prelude::*;

verus! {

/// A window of results: the items, where the window sits, and what is
/// known about the rest.
#[derive(Debug)]
pub enum Page<T> {
    WithTotal { items: Vec<T>, offset: u32, limit: u32, total: u32 },
    WithHasMore { items: Vec<T>, offset: u32, limit: u32, has_more: bool },
}

/// The page's items.
pub open spec fn page_items<T>(p: &Page<T>) -> Seq<T> {
    match p {
        Page::WithTotal { items, .. } => items@,
        Page::WithHasMore { items, .. } => items@,
    }
}

/// The page's offset into the listing.
pub open spec fn page_offset<T>(p: &Page<T>) -> u32 {
    match p {
        Page::WithTotal { offset, .. } => *offset,
        Page::WithHasMore { offset, .. } => *offset,
    }
}

/// The page size that was asked for.
pub open spec fn page_limit<T>(p: &Page<T>) -> u32 {
    match p {
        Page::WithTotal { limit, .. } => *limit,
        Page::WithHasMore { limit, .. } => *limit,
    }
}

/// Whether the listing continues past this page.
pub open spec fn page_has_more<T>(p: &Page<T>) -> bool {
    match p {
        Page::WithTotal { items, offset, total, .. } => (*offset as int) + items@.len() < (*total
            as int),
        Page::WithHasMore { has_more, .. } => *has_more,
    }
}

impl<T> Page<T> {
    /// Where this page starts in the listing.
    pub fn offset(&self) -> (r: u32)
        ensures
            r == page_offset(self),
    {
        match self {
            Page::WithTotal { offset, .. } => *offset,
            Page::WithHasMore { offset, .. } => *offset,
        }
    }

    /// The page size that was asked for.
    pub fn limit(&self) -> (r: u32)
        ensures
            r == page_limit(self),
    {
        match self {
            Page::WithTotal { limit, .. } => *limit,
            Page::WithHasMore { limit, .. } => *limit,
        }
    }

    /// Whether the listing continues past this page: past the known
    /// total, or as the has-more flag says.
    pub fn has_more(&self) -> (r: bool)
        ensures
            r == page_has_more(self),
    {
        match self {
            Page::WithTotal { items, offset, total, .. } => if *offset >= *total {
                false
            } else {
                (items.len() as u64) < ((*total - *offset) as u64)
            },
            Page::WithHasMore { has_more, .. } => *has_more,
        }
    }

    /// The exact total when this page knows one.
    pub fn total(&self) -> (r: Option<u32>)
        ensures
            r == (match self {
                Page::WithTotal { total, .. } => Some(*total),
                Page::WithHasMore { .. } => Option::<u32>::None,
            }),
    {
        match self {
            Page::WithTotal { total, .. } => Some(*total),
            Page::WithHasMore { .. } => None,
        }
    }

    /// Takes the page's items.
    pub fn items(self) -> (r: Vec<T>)
        ensures
            r@ == page_items(&self),
    {
        match self {
            Page::WithTotal { items, .. } => items,
            Page::WithHasMore { items, .. } => items,
        }
    }
}

} // verus!
