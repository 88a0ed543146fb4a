//! Paging over an in-memory list of items, driven by a numeric page token.

use vstd::prelude::*;

use crate::ports::{Page, PageInfo, PageRequest};
use crate::text::{decimal, parsed_usize, parse_usize, u64_to_decimal, lemma_parse_decimal_roundtrip};

verus! {

/// Where a page starts: the position its token names, or the beginning when the token is
/// missing or does not read as a position.
pub open spec fn page_start(token: Option<Seq<char>>) -> nat {
    match token {
        Some(t) => match parsed_usize(t) {
            Some(n) => n,
            None => 0,
        },
        None => 0,
    }
}

/// How many items a page holds at most: the requested limit, at least one.
pub open spec fn page_limit(limit: u32) -> nat {
    if limit == 0 { 1 } else { limit as nat }
}

/// The end (exclusive) of the page that starts at `start` in a list of `len` items.
pub open spec fn page_end(len: nat, start: nat, limit: nat) -> nat {
    if start >= len {
        start
    } else if start + limit >= len {
        len
    } else {
        start + limit
    }
}

/// The token view of a page request.
pub open spec fn token_view(page: PageRequest) -> Option<Seq<char>> {
    match page.page_token {
        Some(t) => Some(t@),
        None => None,
    }
}

/// Cuts one page out of `items`: the items from the token's position on, at most the
/// limit of them; the next token names the position after the page when items remain.
pub fn paginate_items<T>(items: Vec<T>, page: PageRequest) -> (r: Page<T>)
    ensures
        ({
            let start = page_start(token_view(page));
            let end = page_end(items@.len(), start, page_limit(page.limit));
            &&& start < items@.len() ==> r.items@ == items@.subrange(start as int, end as int)
            &&& start >= items@.len() ==> r.items@.len() == 0
            &&& r.page_info.has_more == (end < items@.len())
            &&& r.page_info.has_more ==> (r.page_info.next_page_token matches Some(t) && t@ == decimal(end))
            &&& !r.page_info.has_more ==> r.page_info.next_page_token is None
        }),
{
    let start: usize = match &page.page_token {
        Some(token) => match parse_usize(token.as_str()) {
            Some(n) => n,
            None => 0,
        },
        None => 0,
    };
    let limit: usize = if page.limit == 0 { 1 } else { page.limit as usize };
    let len = items.len();
    let mut items = items;
    let ghost all_items = items@;
    let page_items: Vec<T> = if start >= len {
        Vec::new()
    } else {
        let mut rest = items.split_off(start);
        if rest.len() > limit {
            rest.truncate(limit);
        }
        rest
    };
    proof {
        if start < len {
            assert(page_items@ =~= all_items.subrange(start as int, page_end(len as nat, start as nat, limit as nat) as int));
        }
    }
    let next: usize = if start >= len { start } else { start + page_items.len() };
    let has_more = next < len;
    let next_page_token = if has_more { Some(u64_to_decimal(next as u64)) } else { None };
    Page { items: page_items, page_info: PageInfo { next_page_token, has_more } }
}

/// Following the next token resumes exactly where the page ended: the token a page hands
/// out reads back as the position after that page.
pub proof fn lemma_next_token_resumes_after_page(len: nat, start: nat, limit: u32)
    requires
        page_end(len, start, page_limit(limit)) <= usize::MAX,
        page_end(len, start, page_limit(limit)) < len,
    ensures
        page_start(Some(decimal(page_end(len, start, page_limit(limit))))) == page_end(len, start, page_limit(limit)),
        page_end(len, start, page_limit(limit)) > start,
{
    lemma_parse_decimal_roundtrip(page_end(len, start, page_limit(limit)));
}

} // verus!
