//! Reading the product list of a search result page.

use vstd::prelude::*;
use crate::client::search::item::{
    checked_parse_search_item_html, is_parse_error, item_facts, item_matches, item_result, item_stops,
    parse_search_item_html, SearchItemView, SearchProductItem,
};
use crate::client::search::selectors::SEARCH_RESULT_ITEMS;
use crate::error::DlsiteError;
use crate::html::{all_matches_html, select_all_html, strings_view};

verus! {

/// Search results from a query.
#[derive(Debug)]
pub struct SearchResult {
    /// List of products matching the query.
    pub products: Vec<SearchProductItem>,
    /// Total count of matching products.
    pub count: i32,
    /// Query path used for the request.
    pub query_path: String,
}

/// The HTML of each result item of a result page.
pub open spec fn page_items(html: Seq<char>) -> Seq<Seq<char>> {
    all_matches_html(html, SEARCH_RESULT_ITEMS@)
}

/// The products read from the given item HTMLs, in order, leaving out the
/// items that could not be read.
pub open spec fn read_items(items: Seq<Seq<char>>) -> Seq<SearchItemView>
    decreases items.len(),
{
    if items.len() == 0 {
        Seq::empty()
    } else {
        let rest = read_items(items.drop_last());
        match item_result(item_facts(items.last())) {
            Some(Ok(v)) => rest.push(v),
            _ => rest,
        }
    }
}

/// Whether reading some item of the page stops without an answer.
pub open spec fn page_stops(html: Seq<char>) -> bool {
    exists|i: int| 0 <= i < page_items(html).len() && #[trigger] item_stops(item_facts(page_items(html)[i]))
}

/// The views of a list of products.
pub open spec fn items_view(v: Seq<SearchProductItem>) -> Seq<SearchItemView> {
    v.map_values(|i: SearchProductItem| i@)
}

/// Parse the products of a search result page; items that cannot be read
/// are left out.
pub fn parse_search_html(html: &str) -> (r: Result<Vec<SearchProductItem>, DlsiteError>)
    requires
        !page_stops(html@),
    ensures
        r matches Ok(v) && items_view(v@) == read_items(page_items(html@)),
{
    let items = select_all_html(html, SEARCH_RESULT_ITEMS);
    let ghost views = strings_view(items@);
    let mut result: Vec<SearchProductItem> = Vec::new();
    let mut i: usize = 0;
    while i < items.len()
        invariant
            i <= items@.len(),
            views == strings_view(items@),
            views == page_items(html@),
            !page_stops(html@),
            items_view(result@) == read_items(views.take(i as int)),
        decreases items.len() - i,
    {
        proof {
            assert(views[i as int] == items@[i as int]@);
            assert(!item_stops(item_facts(page_items(html@)[i as int])));
            assert(views.take(i + 1).drop_last() =~= views.take(i as int));
            assert(views.take(i + 1).last() == views[i as int]);
        }
        match parse_search_item_html(items[i].as_str()) {
            Ok(item) => {
                result.push(item);
                assert(items_view(result@) =~= read_items(views.take(i as int)).push(item@));
            },
            Err(_) => {},
        }
        i = i + 1;
    }
    assert(views.take(items@.len() as int) =~= views);
    Ok(result)
}

/// Parse the products of a search result page, or give `None` when reading
/// some item stops without an answer.
pub fn checked_parse_search_html(html: &str) -> (r: Option<Result<Vec<SearchProductItem>, DlsiteError>>)
    ensures
        r is None <==> page_stops(html@),
        r matches Some(x) ==> (x matches Ok(v) && items_view(v@) == read_items(page_items(html@))),
{
    let items = select_all_html(html, SEARCH_RESULT_ITEMS);
    let ghost views = strings_view(items@);
    let mut i: usize = 0;
    while i < items.len()
        invariant
            i <= items@.len(),
            views == strings_view(items@),
            views == page_items(html@),
            forall|k: int| 0 <= k < i ==> !#[trigger] item_stops(item_facts(views[k])),
        decreases items.len() - i,
    {
        assert(views[i as int] == items@[i as int]@);
        if checked_parse_search_item_html(items[i].as_str()).is_none() {
            return None;
        }
        i = i + 1;
    }
    Some(parse_search_html(html))
}

/// The HTML of each result item of a result page, in order.
pub fn search_item_htmls(html: &str) -> (r: Vec<String>)
    ensures
        strings_view(r@) == page_items(html@),
{
    select_all_html(html, SEARCH_RESULT_ITEMS)
}

/// The products read from the given item HTMLs when every one of them is
/// read, or the message of the first that is not.
pub open spec fn read_all_items(items: Seq<Seq<char>>) -> Result<Seq<SearchItemView>, Seq<char>>
    decreases items.len(),
{
    if items.len() == 0 {
        Ok(Seq::empty())
    } else {
        match read_all_items(items.drop_last()) {
            Err(m) => Err(m),
            Ok(rest) => match item_result(item_facts(items.last())) {
                Some(Ok(v)) => Ok(rest.push(v)),
                Some(Err(m)) => Err(m),
                None => Err(Seq::empty()),
            },
        }
    }
}

/// Parse every product of a search result page, failing with the error of
/// the first item that cannot be read.
pub fn parse_all_search_items(html: &str) -> (r: Result<Vec<SearchProductItem>, DlsiteError>)
    requires
        !page_stops(html@),
    ensures
        match read_all_items(page_items(html@)) {
            Ok(vs) => r matches Ok(v) && items_view(v@) == vs,
            Err(m) => r matches Err(e) && is_parse_error(e, m),
        },
{
    let items = search_item_htmls(html);
    let ghost views = strings_view(items@);
    let mut result: Vec<SearchProductItem> = Vec::new();
    let mut i: usize = 0;
    assert(views.take(0) =~= Seq::<Seq<char>>::empty());
    assert(items_view(result@) =~= Seq::<SearchItemView>::empty());
    while i < items.len()
        invariant
            i <= items@.len(),
            views == strings_view(items@),
            views == page_items(html@),
            !page_stops(html@),
            read_all_items(views.take(i as int)) == Ok::<Seq<SearchItemView>, Seq<char>>(items_view(result@)),
        decreases items.len() - i,
    {
        proof {
            assert(views[i as int] == items@[i as int]@);
            assert(!item_stops(item_facts(page_items(html@)[i as int])));
            assert(views.take(i + 1).drop_last() =~= views.take(i as int));
            assert(views.take(i + 1).last() == views[i as int]);
        }
        match parse_search_item_html(items[i].as_str()) {
            Ok(item) => {
                let ghost before = result@;
                result.push(item);
                assert(result@.drop_last() =~= before);
                assert(items_view(result@) =~= items_view(before).push(item@));
                assert(item_result(item_facts(views[i as int])) == Some(Ok::<SearchItemView, Seq<char>>(item@)));
            },
            Err(e) => {
                proof {
                    lemma_first_failure_stays(views, i as int);
                }
                return Err(e);
            },
        }
        i = i + 1;
    }
    assert(views.take(items@.len() as int) =~= views);
    Ok(result)
}

/// Parse every product of a search result page as
/// [`parse_all_search_items`] does, or give `None` when reading some item
/// stops without an answer.
pub fn checked_parse_all_search_items(html: &str) -> (r: Option<Result<Vec<SearchProductItem>, DlsiteError>>)
    ensures
        r is None <==> page_stops(html@),
        r matches Some(x) ==> match read_all_items(page_items(html@)) {
            Ok(vs) => x matches Ok(v) && items_view(v@) == vs,
            Err(m) => x matches Err(e) && is_parse_error(e, m),
        },
{
    if checked_parse_search_html(html).is_none() {
        None
    } else {
        Some(parse_all_search_items(html))
    }
}

proof fn lemma_first_failure_stays(items: Seq<Seq<char>>, i: int)
    requires
        0 <= i < items.len(),
        read_all_items(items.take(i + 1)) is Err,
    ensures
        read_all_items(items) == read_all_items(items.take(i + 1)),
    decreases items.len(),
{
    if items.len() > i + 1 {
        assert(items.drop_last().take(i + 1) =~= items.take(i + 1));
        lemma_first_failure_stays(items.drop_last(), i);
    } else {
        assert(items.take(i + 1) =~= items);
    }
}

/// The products of a list of item results when each is read, in order, or
/// the error of the first that is not.
pub fn all_or_first_error<T>(results: Vec<Result<T, DlsiteError>>) -> (r: Result<Vec<T>, DlsiteError>)
    ensures
        (forall|i: int| 0 <= i < results@.len() ==> #[trigger] results@[i] is Ok) ==> (r matches Ok(v) && v@.len()
            == results@.len() && forall|i: int| 0 <= i < results@.len() ==> results@[i] == Ok::<T, DlsiteError>(
            #[trigger] v@[i])),
        r matches Err(e) ==> exists|i: int|
            0 <= i < results@.len() && #[trigger] results@[i] == Err::<T, DlsiteError>(e) && forall|j: int|
                0 <= j < i ==> #[trigger] results@[j] is Ok,
        (exists|i: int| 0 <= i < results@.len() && #[trigger] results@[i] is Err) ==> r is Err,
{
    let ghost all = results@;
    assert(all.len() == results.len());
    let mut rest = results;
    let mut out: Vec<T> = Vec::new();
    let mut i: usize = 0;
    while rest.len() > 0
        invariant
            all == results@,
            all.len() <= usize::MAX,
            i + rest@.len() == all.len(),
            rest@ == all.skip(i as int),
            out@.len() == i,
            forall|k: int| 0 <= k < i ==> all[k] == Ok::<T, DlsiteError>(#[trigger] out@[k]),
        decreases rest.len(),
    {
        let first = rest.remove(0);
        assert(first == all[i as int]);
        assert(rest@ =~= all.skip(i + 1));
        match first {
            Ok(v) => {
                out.push(v);
            },
            Err(e) => {
                assert(all[i as int] == Err::<T, DlsiteError>(e));
                assert(!(all[i as int] is Ok));
                assert forall|j: int| 0 <= j < i implies #[trigger] all[j] is Ok by {
                    assert(all[j] == Ok::<T, DlsiteError>(out@[j]));
                }
                return Err(e);
            },
        }
        i = i + 1;
    }
    assert forall|k: int| 0 <= k < all.len() implies !(#[trigger] all[k] is Err) by {
        assert(all[k] == Ok::<T, DlsiteError>(out@[k]));
    }
    Ok(out)
}

/// When every item of a page is read, reading the page item by item and
/// failing on the first unreadable item gives the same products as reading
/// it leniently.
pub proof fn lemma_strict_agrees_with_lenient(items: Seq<Seq<char>>)
    requires
        read_all_items(items) is Ok,
    ensures
        read_all_items(items) == Ok::<Seq<SearchItemView>, Seq<char>>(read_items(items)),
    decreases items.len(),
{
    if items.len() > 0 {
        lemma_strict_agrees_with_lenient(items.drop_last());
    }
}

/// Reading the items of a page one by one, each on its own (as the client
/// does in parallel), and collecting the results with
/// [`all_or_first_error`] gives, when every item reads, the products that
/// [`parse_search_html`] gives, in the same order.
pub proof fn lemma_item_by_item_agrees(
    items: Seq<Seq<char>>,
    results: Seq<Result<SearchProductItem, DlsiteError>>,
    products: Seq<SearchProductItem>,
)
    requires
        results.len() == items.len(),
        forall|i: int| 0 <= i < items.len() ==> item_matches(#[trigger] results[i], item_facts(items[i])),
        products.len() == results.len(),
        forall|i: int| 0 <= i < results.len() ==> results[i] == Ok::<SearchProductItem, DlsiteError>(#[trigger] products[i]),
    ensures
        read_all_items(items) == Ok::<Seq<SearchItemView>, Seq<char>>(items_view(products)),
        items_view(products) == read_items(items),
    decreases items.len(),
{
    if items.len() > 0 {
        let n = items.len() - 1;
        assert forall|i: int| 0 <= i < n implies item_matches(#[trigger] results.drop_last()[i], item_facts(items.drop_last()[i])) by {
            assert(results.drop_last()[i] == results[i]);
            assert(items.drop_last()[i] == items[i]);
        }
        assert forall|i: int| 0 <= i < n implies results.drop_last()[i] == Ok::<SearchProductItem, DlsiteError>(#[trigger] products.drop_last()[i]) by {
            assert(results.drop_last()[i] == results[i]);
        }
        lemma_item_by_item_agrees(items.drop_last(), results.drop_last(), products.drop_last());
        assert(item_matches(results[n], item_facts(items[n])));
        assert(results[n] == Ok::<SearchProductItem, DlsiteError>(products[n]));
        assert(items.last() == items[n]);
        assert(items_view(products) =~= items_view(products.drop_last()).push(products[n]@));
    } else {
        assert(items_view(products) =~= Seq::<SearchItemView>::empty());
    }
}

} // verus!
