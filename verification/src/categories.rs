//! The catalog's category listing: the fetched categories, their unique
//! headers, and filtering by header.

use vstd::prelude::*;
use crate::search::Builder;

verus! {

/// One category the catalog lists.
#[derive(Debug, PartialEq, Eq)]
pub struct Category {
    pub icon: String,
    pub name: String,
    pub project_type: String,
    pub header: String,
}

impl Clone for Category {
    fn clone(&self) -> (r: Self)
        ensures
            r == *self,
    {
        Category {
            icon: self.icon.clone(),
            name: self.name.clone(),
            project_type: self.project_type.clone(),
            header: self.header.clone(),
        }
    }
}

/// A header grouping several categories.
#[derive(Debug, PartialEq, Eq, Hash)]
pub struct Header(pub String);

/// The category listing fetched from the catalog.
#[derive(Debug)]
pub struct Categories(Vec<Category>);

/// The categories of a prefix whose header matches, in order.
pub open spec fn spec_matching_categories(
    cats: Seq<Category>,
    header: Seq<char>,
    n: int,
) -> Seq<Category>
    decreases n,
{
    if n <= 0 {
        Seq::empty()
    } else {
        let rest = spec_matching_categories(cats, header, n - 1);
        if cats[n - 1].header@ == header {
            rest.push(cats[n - 1])
        } else {
            rest
        }
    }
}

/// Whether some category of the listing bears this header.
pub open spec fn spec_is_header(cats: Seq<Category>, h: Seq<char>) -> bool {
    exists|k: int| 0 <= k < cats.len() && h == (#[trigger] cats[k]).header@
}

/// Whether this header occurs among the collected ones.
pub open spec fn spec_header_listed(headers: Seq<Header>, h: Seq<char>) -> bool {
    exists|i: int| 0 <= i < headers.len() && (#[trigger] headers[i]).0@ == h
}

/// The headers of a prefix of the listing, each kept at its first
/// occurrence only, in that order.
pub open spec fn spec_first_headers(cats: Seq<Category>, n: int) -> Seq<Header>
    decreases n,
{
    if n <= 0 {
        Seq::empty()
    } else {
        let rest = spec_first_headers(cats, n - 1);
        if spec_header_listed(rest, cats[n - 1].header@) {
            rest
        } else {
            rest.push(Header(cats[n - 1].header))
        }
    }
}

impl Categories {
    pub closed spec fn spec_all(&self) -> Seq<Category> {
        self.0@
    }

    pub fn new(categories: Vec<Category>) -> (c: Self)
        ensures
            c.spec_all() == categories@,
    {
        Categories(categories)
    }

    pub fn get_all_categories(&self) -> (r: &[Category])
        ensures
            r@ == self.spec_all(),
    {
        self.0.as_slice()
    }

    /// The distinct headers occurring in the listing, each exactly once, in
    /// order of first occurrence.
    pub fn get_unique_headers(&self) -> (r: Vec<Header>)
        ensures
            r@ == spec_first_headers(self.spec_all(), self.spec_all().len() as int),
            forall|i: int, j: int|
                0 <= i < j < r@.len() ==> (#[trigger] r@[i]).0@ != (#[trigger] r@[j]).0@,
            forall|i: int|
                0 <= i < r@.len() ==> spec_is_header(self.spec_all(), (#[trigger] r@[i]).0@),
            forall|k: int|
                0 <= k < self.spec_all().len() ==> spec_header_listed(
                    r@,
                    (#[trigger] self.spec_all()[k]).header@,
                ),
    {
        let mut r: Vec<Header> = Vec::new();
        let mut k: usize = 0;
        while k < self.0.len()
            invariant
                0 <= k <= self.0@.len(),
                r@ == spec_first_headers(self.spec_all(), k as int),
                forall|i: int, j: int|
                    0 <= i < j < r@.len() ==> (#[trigger] r@[i]).0@ != (#[trigger] r@[j]).0@,
                forall|i: int|
                    0 <= i < r@.len() ==> spec_is_header(self.spec_all(), (#[trigger] r@[i]).0@),
                forall|m: int|
                    0 <= m < k ==> spec_header_listed(
                        r@,
                        (#[trigger] self.spec_all()[m]).header@,
                    ),
            decreases self.0@.len() - k,
        {
            let h = &self.0[k].header;
            let mut seen = false;
            let mut i: usize = 0;
            while i < r.len()
                invariant
                    0 <= i <= r@.len(),
                    h@ == self.spec_all()[k as int].header@,
                    seen <==> exists|j: int| 0 <= j < i && (#[trigger] r@[j]).0@ == h@,
                decreases r@.len() - i,
            {
                if r[i].0 == *h {
                    seen = true;
                }
                i = i + 1;
            }
            let ghost prev = r@;
            if !seen {
                r.push(Header(h.clone()));
            }
            proof {
                assert(seen == spec_header_listed(prev, self.spec_all()[k as int].header@));
                if !seen {
                    assert(r@.last() == Header(self.spec_all()[k as int].header));
                    assert(r@ =~= prev.push(Header(self.spec_all()[k as int].header)));
                }
                assert(r@ == spec_first_headers(self.spec_all(), k + 1 as int));
                assert forall|a: int| 0 <= a < r@.len() implies spec_is_header(
                    self.spec_all(),
                    (#[trigger] r@[a]).0@,
                ) by {
                    if a < prev.len() {
                        assert(r@[a] == prev[a]);
                    } else {
                        assert(r@[a].0@ == self.spec_all()[k as int].header@);
                    }
                }
                assert forall|m: int| 0 <= m < k + 1 implies spec_header_listed(
                    r@,
                    (#[trigger] self.spec_all()[m]).header@,
                ) by {
                    if m < k {
                        let a = choose|a: int|
                            0 <= a < prev.len() && (#[trigger] prev[a]).0@
                                == self.spec_all()[m].header@;
                        assert(r@[a] == prev[a]);
                        assert(r@[a].0@ == self.spec_all()[m].header@);
                    } else {
                        if seen {
                            let a = choose|a: int|
                                0 <= a < prev.len() && (#[trigger] prev[a]).0@ == h@;
                            assert(r@[a] == prev[a]);
                            assert(r@[a].0@ == self.spec_all()[m].header@);
                        } else {
                            assert(r@[prev.len() as int].0@ == self.spec_all()[m].header@);
                        }
                    }
                }
            }
            k = k + 1;
        }
        r
    }

    /// The categories whose header equals the given one, in listing order.
    pub fn filter_header(&self, header: Header) -> (r: Vec<&Category>)
        ensures
            r@.map_values(|c: &Category| *c) == spec_matching_categories(
                self.spec_all(),
                header.0@,
                self.spec_all().len() as int,
            ),
    {
        let mut r: Vec<&Category> = Vec::new();
        let mut i: usize = 0;
        while i < self.0.len()
            invariant
                0 <= i <= self.0@.len(),
                r@.map_values(|c: &Category| *c) == spec_matching_categories(
                    self.spec_all(),
                    header.0@,
                    i as int,
                ),
            decreases self.0@.len() - i,
        {
            if self.0[i].header == header.0 {
                let ghost prev = r@;
                r.push(&self.0[i]);
                proof {
                    assert(r@.map_values(|c: &Category| *c) =~= prev.map_values(
                        |c: &Category| *c,
                    ).push(self.spec_all()[i as int]));
                }
            }
            i = i + 1;
        }
        r
    }
}

/// The category-listing query: it carries no data of its own.
#[derive(Debug)]
pub struct CategoriesData;

impl CategoriesData {
    /// Assemble the category-listing request: the endpoint alone, with no
    /// parameters.
    pub fn builder(&self) -> (b: Builder)
        ensures
            b.spec_url() == "https://api.modrinth.com/v2/tag/category"@,
            b.spec_params() == Seq::<(Seq<char>, Seq<char>)>::empty(),
    {
        Builder::new("https://api.modrinth.com/v2/tag/category")
    }
}

} // verus!
