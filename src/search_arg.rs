use vstd::prelude::*;
use vstd::string::*;

use crate::enums::{Duration, SearchSort, SearchTarget};
use crate::params::ParamSeq;
use crate::text::{decimal, decimal_string};

verus! {

/// Arguments of an illustration search: the search word, what it matches
/// against, the result order, and an optional time window, offset and filter.
pub struct IllustrationSearchRequestArg {
    word: String,
    search_target: SearchTarget,
    sort: SearchSort,
    duration: Option<Duration>,
    offset: Option<u32>,
    filter: Option<&'static str>,
}

/// The `i`-th parameter that a search argument can carry, where it is set:
/// `word`, `search_target`, `sort`, then `duration`, `offset` and `filter`.
pub open spec fn search_entry(
    word: Seq<char>,
    target: SearchTarget,
    sort: SearchSort,
    duration: Option<Duration>,
    offset: Option<u32>,
    filter: Option<Seq<char>>,
    i: int,
) -> Option<(Seq<char>, Seq<char>)> {
    if i == 0 {
        Some(("word"@, word))
    } else if i == 1 {
        Some(("search_target"@, target.token()))
    } else if i == 2 {
        Some(("sort"@, sort.token()))
    } else if i == 3 {
        match duration {
            Some(d) => Some(("duration"@, d.token())),
            None => None,
        }
    } else if i == 4 {
        match offset {
            Some(n) => Some(("offset"@, decimal(n as nat))),
            None => None,
        }
    } else if i == 5 {
        match filter {
            Some(f) => Some(("filter"@, f)),
            None => None,
        }
    } else {
        None
    }
}

impl IllustrationSearchRequestArg {
    pub closed spec fn word_view(&self) -> Seq<char> {
        self.word@
    }

    pub closed spec fn target_view(&self) -> SearchTarget {
        self.search_target
    }

    pub closed spec fn sort_view(&self) -> SearchSort {
        self.sort
    }

    pub closed spec fn duration_view(&self) -> Option<Duration> {
        self.duration
    }

    pub closed spec fn offset_view(&self) -> Option<u32> {
        self.offset
    }

    pub closed spec fn filter_view(&self) -> Option<Seq<char>> {
        match self.filter {
            Some(f) => Some(f@),
            None => None,
        }
    }

    /// The `i`-th parameter slot of this argument.
    pub open spec fn entry(&self, i: int) -> Option<(Seq<char>, Seq<char>)> {
        search_entry(
            self.word_view(),
            self.target_view(),
            self.sort_view(),
            self.duration_view(),
            self.offset_view(),
            self.filter_view(),
            i,
        )
    }

    /// The parameters that are set, from slot `i` on, in slot order.
    pub open spec fn params_from(&self, i: int) -> ParamSeq
        decreases 6 - i,
    {
        if i >= 6 {
            Seq::empty()
        } else {
            match self.entry(i) {
                Some(p) => seq![p] + self.params_from(i + 1),
                None => self.params_from(i + 1),
            }
        }
    }

    /// A search for `word` in partially matched tags, newest first, with no
    /// time window, offset or filter.
    pub fn new(word: String) -> (r: Self)
        ensures
            r.word_view() == word@,
            r.target_view() == SearchTarget::TagsPartial,
            r.sort_view() == SearchSort::DateDescending,
            r.duration_view() is None,
            r.offset_view() is None,
            r.filter_view() is None,
    {
        IllustrationSearchRequestArg {
            word,
            search_target: SearchTarget::TagsPartial,
            sort: SearchSort::DateDescending,
            duration: None,
            offset: None,
            filter: None,
        }
    }

    /// Sets what the search matches against.
    pub fn set_search_target(self, search_target: SearchTarget) -> (r: Self)
        ensures
            r.target_view() == search_target,
            r.word_view() == self.word_view(),
            r.sort_view() == self.sort_view(),
            r.duration_view() == self.duration_view(),
            r.offset_view() == self.offset_view(),
            r.filter_view() == self.filter_view(),
    {
        let mut a = self;
        a.search_target = search_target;
        a
    }

    /// Sets the result order.
    pub fn set_sort(self, sort: SearchSort) -> (r: Self)
        ensures
            r.sort_view() == sort,
            r.word_view() == self.word_view(),
            r.target_view() == self.target_view(),
            r.duration_view() == self.duration_view(),
            r.offset_view() == self.offset_view(),
            r.filter_view() == self.filter_view(),
    {
        let mut a = self;
        a.sort = sort;
        a
    }

    /// Sets the time window.
    pub fn set_duration(self, duration: Duration) -> (r: Self)
        ensures
            r.duration_view() == Some(duration),
            r.word_view() == self.word_view(),
            r.target_view() == self.target_view(),
            r.sort_view() == self.sort_view(),
            r.offset_view() == self.offset_view(),
            r.filter_view() == self.filter_view(),
    {
        let mut a = self;
        a.duration = Some(duration);
        a
    }

    /// Sets the offset into the results.
    pub fn set_offset(self, offset: u32) -> (r: Self)
        ensures
            r.offset_view() == Some(offset),
            r.word_view() == self.word_view(),
            r.target_view() == self.target_view(),
            r.sort_view() == self.sort_view(),
            r.duration_view() == self.duration_view(),
            r.filter_view() == self.filter_view(),
    {
        let mut a = self;
        a.offset = Some(offset);
        a
    }

    /// The search word.
    pub fn word(&self) -> (r: &str)
        ensures
            r@ == self.word_view(),
    {
        self.word.as_str()
    }

    /// What the search matches against.
    pub fn search_target(&self) -> (r: SearchTarget)
        ensures
            r == self.target_view(),
    {
        self.search_target
    }

    /// The result order.
    pub fn sort(&self) -> (r: SearchSort)
        ensures
            r == self.sort_view(),
    {
        self.sort
    }

    /// The time window, if set.
    pub fn duration(&self) -> (r: Option<Duration>)
        ensures
            r == self.duration_view(),
    {
        self.duration
    }

    /// The offset into the results, if set.
    pub fn offset(&self) -> (r: Option<u32>)
        ensures
            r == self.offset_view(),
    {
        self.offset
    }

    /// Walks the parameters that are set, in slot order.
    pub fn into_iter(self) -> (r: IllustrationSearchParamIterator)
        ensures
            r.remaining() == self.params_from(0),
    {
        IllustrationSearchParamIterator { vec: self, index: 0 }
    }
}

/// Walk over the parameters of an `IllustrationSearchRequestArg`.
pub struct IllustrationSearchParamIterator {
    vec: IllustrationSearchRequestArg,
    index: usize,
}

impl IllustrationSearchParamIterator {
    /// The parameters still to come, in order.
    pub closed spec fn remaining(&self) -> ParamSeq {
        self.vec.params_from(self.index as int)
    }

    /// The next parameter that is set, or `None` once all have come.
    pub fn next(&mut self) -> (r: Option<(String, String)>)
        ensures
            old(self).remaining().len() == 0 ==> r is None && final(self).remaining().len() == 0,
            old(self).remaining().len() > 0 ==> (r matches Some(p) && (p.0@, p.1@)
                == old(self).remaining()[0] && final(self).remaining()
                == old(self).remaining().drop_first()),
    {
        if self.index > 6 {
            return None;
        }
        loop
            invariant
                self.vec == old(self).vec,
                self.index <= 6,
                self.vec.params_from(self.index as int) == old(self).remaining(),
            decreases 6 - self.index,
        {
            let result: Option<(String, String)> = if self.index == 0 {
                Some((String::from_str("word"), self.vec.word.clone()))
            } else if self.index == 1 {
                let target = String::from_str(self.vec.search_target.as_str());
                Some((String::from_str("search_target"), target))
            } else if self.index == 2 {
                Some((String::from_str("sort"), String::from_str(self.vec.sort.as_str())))
            } else if self.index == 3 {
                match self.vec.duration {
                    Some(d) => Some((String::from_str("duration"), String::from_str(d.as_str()))),
                    None => None,
                }
            } else if self.index == 4 {
                match self.vec.offset {
                    Some(n) => Some((String::from_str("offset"), decimal_string(n as usize))),
                    None => None,
                }
            } else if self.index == 5 {
                match self.vec.filter {
                    Some(f) => Some((String::from_str("filter"), String::from_str(f))),
                    None => None,
                }
            } else {
                return None;
            };
            self.index = self.index + 1;
            if let Some(p) = result {
                return Some(p);
            }
        }
    }
}

} // verus!
