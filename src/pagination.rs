use vstd::prelude::*;

use crate::endpoint::text_of;
use crate::list::ListReq;

verus! {

/// The items observed after taking in a page: those observed before,
/// then the page's own, each in the order the service gave them.
pub open spec fn observed_after<T>(observed: Seq<T>, page: Seq<T>) -> Seq<T> {
    observed + page
}

/// The state of an enumeration of all pages of a list request: the items
/// observed so far, and whether the last page has come.
pub struct Pager<T> {
    pub items: Vec<T>,
    pub finished: bool,
}

impl<T> Pager<T> {
    /// An enumeration that has observed nothing yet.
    pub fn new() -> (r: Pager<T>)
        ensures
            r.items@.len() == 0,
            !r.finished,
    {
        Pager { items: Vec::new(), finished: false }
    }

    /// Takes in a page that answered `req`, and decides what comes next:
    /// the request for the following page, which carries the page's
    /// token verbatim, or none where the page came without a token, which
    /// ends the enumeration.
    pub fn advance(&mut self, req: &ListReq, page: Vec<T>, next_page_token: Option<String>) -> (r: Option<ListReq>)
        requires
            !old(self).finished,
        ensures
            final(self).items@ == observed_after(old(self).items@, page@),
            final(self).finished == next_page_token is None,
            r is None <==> next_page_token is None,
            r matches Some(n) ==> {
                &&& n.symbol@ == req.symbol@
                &&& n.prefix == req.prefix
                &&& n.start == req.start
                &&& n.end == req.end
                &&& n.limit == req.limit
                &&& n.feed == req.feed
                &&& text_of(n.page_token) == text_of(next_page_token)
            },
    {
        let mut page = page;
        self.items.append(&mut page);
        let r = req.next_page(&next_page_token);
        self.finished = r.is_none();
        r
    }
}

/// Taking in a page never changes the items observed before it: they
/// stay in front, in their order, and the page follows in its own order.
pub proof fn lemma_observed_order_kept<T>(observed: Seq<T>, page: Seq<T>)
    ensures
        observed_after(observed, page).subrange(0, observed.len() as int) == observed,
        observed_after(observed, page).subrange(observed.len() as int, (observed.len() + page.len()) as int) == page,
{
    assert(observed_after(observed, page).subrange(0, observed.len() as int) =~= observed);
    assert(observed_after(observed, page).subrange(observed.len() as int, (observed.len() + page.len()) as int) =~= page);
}

} // verus!
