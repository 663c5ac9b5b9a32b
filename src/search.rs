//! The ticker search: a query typed by the user, fetched in the background,
//! with the candidates that are not plain equities left out.
use vstd::prelude::*;
use crate::market::FetchError;
use crate::slot::{FetchSlot, PollStep, busy_after_poll, step_of};

verus! {

/// One candidate that a search returns.
pub struct SearchHit {
    pub symbol: String,
    pub short_name: String,
    pub exchange: String,
    pub quote_type: String,
}

impl SearchHit {
    /// A copy of this candidate.
    pub fn duplicate(&self) -> (r: SearchHit)
        ensures
            r == *self,
    {
        SearchHit {
            symbol: self.symbol.clone(),
            short_name: self.short_name.clone(),
            exchange: self.exchange.clone(),
            quote_type: self.quote_type.clone(),
        }
    }
}

/// Whether an instrument type is one that the search never shows: funds,
/// indices, options, currencies and futures.
pub open spec fn is_excluded_type(t: Seq<char>) -> bool {
    t == "MUTUALFUND"@ || t == "INDEX"@ || t == "OPTION"@ || t == "CURRENCY"@ || t == "FUTURE"@
}

/// The candidates of `hits` that the search shows, in their order.
pub open spec fn listed_hits(hits: Seq<SearchHit>) -> Seq<SearchHit>
    decreases hits.len(),
{
    if hits.len() == 0 {
        hits
    } else {
        let rest = listed_hits(hits.drop_last());
        if is_excluded_type(hits.last().quote_type@) {
            rest
        } else {
            rest.push(hits.last())
        }
    }
}

/// Whether the search shows instruments of type `quote_type`.
pub fn is_listed_type(quote_type: &String) -> (r: bool)
    ensures
        r == !is_excluded_type(quote_type@),
{
    let excluded = ["MUTUALFUND", "INDEX", "OPTION", "CURRENCY", "FUTURE"];
    let mut k: usize = 0;
    while k < 5
        invariant
            k <= 5,
            excluded@ == seq!["MUTUALFUND", "INDEX", "OPTION", "CURRENCY", "FUTURE"],
            forall|j: int| 0 <= j < k ==> quote_type@ != (#[trigger] excluded@[j])@,
        decreases 5 - k,
    {
        let t = excluded[k].to_owned();
        if quote_type.eq(&t) {
            return false;
        }
        k += 1;
    }
    assert(!is_excluded_type(quote_type@)) by {
        assert(quote_type@ != excluded@[0]@);
        assert(quote_type@ != excluded@[1]@);
        assert(quote_type@ != excluded@[2]@);
        assert(quote_type@ != excluded@[3]@);
        assert(quote_type@ != excluded@[4]@);
    }
    true
}

/// The candidates of `hits` that the search shows, in their order.
pub fn filter_hits(hits: &Vec<SearchHit>) -> (r: Vec<SearchHit>)
    ensures
        r@ == listed_hits(hits@),
{
    let mut r: Vec<SearchHit> = Vec::new();
    let mut i: usize = 0;
    while i < hits.len()
        invariant
            i <= hits.len(),
            r@ == listed_hits(hits@.subrange(0, i as int)),
        decreases hits.len() - i,
    {
        proof {
            let prefix = hits@.subrange(0, i + 1);
            assert(prefix.drop_last() == hits@.subrange(0, i as int));
            assert(prefix.last() == hits@[i as int]);
        }
        if is_listed_type(&hits[i].quote_type) {
            r.push(hits[i].duplicate());
        }
        i += 1;
    }
    assert(hits@.subrange(0, hits.len() as int) == hits@);
    r
}

pub struct SearchBar {
    /// The text the user has typed.
    pub search_text: String,
    /// The text as it stood at the end of the previous redraw.
    pub prev_search_text: String,
    pub search_slot: FetchSlot,
    /// The candidates of the last search that came back, if it succeeded.
    pub search_result: Option<Vec<SearchHit>>,
    /// Whether the search list is shown in place of the watch list.
    pub searching: bool,
    /// Whether a search has come back since the text last changed.
    pub found_result: bool,
}

impl SearchBar {
    /// An empty search bar, not searching.
    pub fn new() -> (r: SearchBar)
        ensures
            r.search_text@.len() == 0,
            r.prev_search_text@.len() == 0,
            !r.search_slot.busy(),
            r.search_result is None,
            !r.searching,
            !r.found_result,
    {
        SearchBar {
            search_text: String::new(),
            prev_search_text: String::new(),
            search_slot: FetchSlot::new(),
            search_result: None,
            searching: false,
            found_result: false,
        }
    }

    /// The first half of a redraw, after the text field has been drawn.
    /// Focus on the field starts searching. While searching, a changed text
    /// calls for a new search, and until one has come back the search fetch is
    /// polled (`finished` says whether its task has finished). Returns the
    /// poll's step, or None where nothing was polled. On `Start` the caller
    /// searches for `search_text`; on `Collect` it hands the outcome to
    /// `deliver`.
    pub fn begin_frame(&mut self, gained_focus: bool, finished: bool) -> (r: Option<PollStep>)
        ensures
            final(self).searching == (old(self).searching || gained_focus),
            final(self).found_result == (old(self).found_result && !(final(self).searching
                && old(self).prev_search_text@ != old(self).search_text@)),
            r == (if final(self).searching && !final(self).found_result {
                Some(step_of(old(self).search_slot.busy(), finished))
            } else {
                None
            }),
            final(self).search_slot.busy() == (if r is Some {
                busy_after_poll(old(self).search_slot.busy(), finished)
            } else {
                old(self).search_slot.busy()
            }),
            final(self).search_text == old(self).search_text,
            final(self).prev_search_text == old(self).prev_search_text,
            final(self).search_result == old(self).search_result,
    {
        if gained_focus {
            self.searching = true;
        }
        if self.searching {
            if !self.prev_search_text.eq(&self.search_text) {
                self.found_result = false;
            }
            if !self.found_result {
                return Some(self.search_slot.poll(finished));
            }
        }
        None
    }

    /// Takes in a finished search: the candidates on success, none on failure.
    pub fn deliver(&mut self, outcome: Result<Vec<SearchHit>, FetchError>)
        ensures
            final(self).found_result,
            final(self).search_result == (match outcome {
                Ok(hits) => Some(hits),
                Err(_) => None,
            }),
            final(self).searching == old(self).searching,
            final(self).search_text == old(self).search_text,
            final(self).prev_search_text == old(self).prev_search_text,
            final(self).search_slot == old(self).search_slot,
    {
        self.found_result = true;
        self.search_result = match outcome {
            Ok(hits) => Some(hits),
            Err(_) => None,
        };
    }

    /// The candidates to show: those of the last search that are listed, when
    /// searching.
    pub fn visible_hits(&self) -> (r: Vec<SearchHit>)
        ensures
            r@ == (match self.search_result {
                Some(hits) => if self.searching {
                    listed_hits(hits@)
                } else {
                    Seq::empty()
                },
                None => Seq::empty(),
            }),
    {
        match &self.search_result {
            Some(hits) => if self.searching {
                filter_hits(hits)
            } else {
                Vec::new()
            },
            None => Vec::new(),
        }
    }

    /// The second half of a redraw: leaving an empty field stops searching,
    /// and the text is remembered for the next redraw.
    pub fn end_frame(&mut self, lost_focus: bool)
        ensures
            final(self).searching == (old(self).searching && !(lost_focus
                && old(self).search_text@.len() == 0)),
            final(self).prev_search_text@ == old(self).search_text@,
            final(self).search_text == old(self).search_text,
            final(self).search_slot == old(self).search_slot,
            final(self).search_result == old(self).search_result,
            final(self).found_result == old(self).found_result,
    {
        if lost_focus && self.search_text.as_str().is_empty() {
            self.searching = false;
        }
        self.prev_search_text = self.search_text.clone();
    }
}

} // verus!
