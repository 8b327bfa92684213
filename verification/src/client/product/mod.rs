//! Product data from the AJAX, product and review APIs: request paths, the
//! people credited on a work, dates, and the check of review responses.

use vstd::prelude::*;
use chrono::Datelike;
use crate::client::product_api::interface::{Creator, Creators};
use crate::error::DlsiteError;
use crate::interface::query::Language;
use crate::path::PathSegment;
use crate::client::product_api::{sample_views, urls_or_empty};
use crate::interface::genre::Genre;
use crate::interface::product::{AgeCategory, WorkType};
use crate::text::{before_first, concat, i64_to_string, owned, part_before_first, signed_decimal, str_eq, u64_to_string};

verus! {

/// People who contributed to a product on DLsite.
#[derive(Debug, Default)]
pub struct ProductPeople {
    /// Authors.
    pub author: Option<Vec<String>>,
    /// Scenario writers.
    pub scenario: Option<Vec<String>>,
    /// Illustrators.
    pub illustrator: Option<Vec<String>>,
    /// Voice actors.
    pub voice_actor: Option<Vec<String>>,
}

/// The names of a list of creators, in order.
pub open spec fn creator_names(v: Seq<Creator>) -> Seq<Seq<char>> {
    v.map_values(|c: Creator| c.name@)
}

/// The names of an optional list of creators.
pub open spec fn opt_creator_names(v: Option<Vec<Creator>>) -> Option<Seq<Seq<char>>> {
    match v {
        Some(l) => Some(creator_names(l@)),
        None => None,
    }
}

/// The characters of an optional list of names.
pub open spec fn opt_names(v: Option<Vec<String>>) -> Option<Seq<Seq<char>>> {
    match v {
        Some(l) => Some(l@.map_values(|s: String| s@)),
        None => None,
    }
}

fn names(v: Vec<Creator>) -> (r: Vec<String>)
    ensures
        r@.map_values(|s: String| s@) == creator_names(v@),
{
    let mut r: Vec<String> = Vec::new();
    let mut i: usize = 0;
    while i < v.len()
        invariant
            i <= v@.len(),
            r@.len() == i,
            forall|k: int| 0 <= k < i ==> #[trigger] r@[k]@ == v@[k].name@,
        decreases v.len() - i,
    {
        r.push(v[i].name.clone());
        i = i + 1;
    }
    assert(r@.map_values(|s: String| s@) =~= creator_names(v@));
    r
}

fn opt_names_of(v: Option<Vec<Creator>>) -> (r: Option<Vec<String>>)
    ensures
        opt_names(r) == opt_creator_names(v),
{
    match v {
        Some(l) => Some(names(l)),
        None => None,
    }
}

impl ProductPeople {
    /// The people of a product by role, each role by the names of its
    /// creators in order; a role absent from `creators` stays absent.
    pub fn from_creators(creators: Creators) -> (p: ProductPeople)
        ensures
            opt_names(p.author) == opt_creator_names(creators.created_by),
            opt_names(p.scenario) == opt_creator_names(creators.scenario_by),
            opt_names(p.illustrator) == opt_creator_names(creators.illust_by),
            opt_names(p.voice_actor) == opt_creator_names(creators.voice_by),
    {
        ProductPeople {
            author: opt_names_of(creators.created_by),
            scenario: opt_names_of(creators.scenario_by),
            illustrator: opt_names_of(creators.illust_by),
            voice_actor: opt_names_of(creators.voice_by),
        }
    }
}

/// Whether `p` holds, role by role, the names of `creators` in order.
pub open spec fn people_of(p: ProductPeople, creators: Creators) -> bool {
    &&& opt_names(p.author) == opt_creator_names(creators.created_by)
    &&& opt_names(p.scenario) == opt_creator_names(creators.scenario_by)
    &&& opt_names(p.illustrator) == opt_creator_names(creators.illust_by)
    &&& opt_names(p.voice_actor) == opt_creator_names(creators.voice_by)
}

impl vstd::std_specs::convert::FromSpecImpl<Creators> for ProductPeople {
    /// `from` is stated by [`people_of`] on its own `ensures`: a `Vec` or a
    /// `String` is not determined by its characters, so no single value can
    /// stand for the result and `from` is not held to `from_spec`.
    open spec fn obeys_from_spec() -> bool {
        false
    }

    /// Some people holding, role by role, the names of `v`.
    open spec fn from_spec(v: Creators) -> ProductPeople {
        choose|p: ProductPeople| people_of(p, v)
    }
}

impl From<Creators> for ProductPeople {
    fn from(creators: Creators) -> (p: ProductPeople)
        ensures
            people_of(p, creators),
    {
        ProductPeople::from_creators(creators)
    }
}

/// Sort order of product reviews.
#[derive(Debug, Clone, PartialEq, Eq, Structural)]
pub enum ReviewSortOrder {
    /// Newest first.
    New,
    /// Most helpful first.
    Top,
}

impl ReviewSortOrder {
    /// The value of the `order` parameter of the review API.
    pub open spec fn param(&self) -> Seq<char> {
        match self {
            ReviewSortOrder::New => "regist_d"@,
            ReviewSortOrder::Top => "top"@,
        }
    }

    /// Writes the value of the `order` parameter.
    pub fn to_param(&self) -> (r: &'static str)
        ensures
            r@ == self.param(),
    {
        match self {
            ReviewSortOrder::New => "regist_d",
            ReviewSortOrder::Top => "top",
        }
    }
}

/// The ids joined by commas.
pub open spec fn comma_joined(ids: Seq<Seq<char>>) -> Seq<char>
    decreases ids.len(),
{
    if ids.len() == 0 {
        Seq::empty()
    } else if ids.len() == 1 {
        ids[0]
    } else {
        comma_joined(ids.drop_last()) + seq![','] + ids.last()
    }
}

/// The path of the AJAX request for the given products.
pub open spec fn spec_ajax_path(ids: Seq<Seq<char>>) -> Seq<char> {
    "/product/info/ajax?product_id="@ + comma_joined(ids)
}

/// Build the path of the AJAX request for the given products, their ids
/// joined by commas.
pub fn ajax_path(product_ids: &[&str]) -> (path: String)
    ensures
        path@ == spec_ajax_path(product_ids@.map_values(|s: &str| s@)),
{
    let ghost ids = product_ids@.map_values(|s: &str| s@);
    let mut joined = String::new();
    let mut i: usize = 0;
    while i < product_ids.len()
        invariant
            i <= product_ids@.len(),
            ids == product_ids@.map_values(|s: &str| s@),
            joined@ == comma_joined(ids.take(i as int)),
        decreases product_ids.len() - i,
    {
        proof {
            assert(ids.take(i + 1).drop_last() =~= ids.take(i as int));
            assert(ids.take(i + 1).last() == product_ids@[i as int]@);
        }
        if i > 0 {
            crate::text::push_char(&mut joined, ',');
        } else {
            assert(ids.take(1) =~= seq![ids[0]]);
        }
        joined.append(product_ids[i]);
        i = i + 1;
    }
    assert(ids.take(product_ids@.len() as int) =~= ids);
    concat("/product/info/ajax?product_id=", joined.as_str())
}

/// `true` or `false`.
pub open spec fn bool_text(b: bool) -> Seq<char> {
    if b {
        "true"@
    } else {
        "false"@
    }
}

/// The path of a review API request.
pub open spec fn spec_review_path(product_id: Seq<char>, limit: u32, page: u32, mix_pickup: bool, order: ReviewSortOrder, locale: Language) -> Seq<char> {
    "/api/review?product_id="@ + product_id
        + "&limit="@ + limit.segment()
        + "&mix_pickup="@ + bool_text(mix_pickup)
        + "&page="@ + page.segment()
        + "&order="@ + order.param()
        + "&locale="@ + locale.locale()
}

/// Build the path of a review API request.
pub fn review_path(product_id: &str, limit: u32, page: u32, mix_pickup: bool, order: &ReviewSortOrder, locale: &Language) -> (path: String)
    ensures
        path@ == spec_review_path(product_id@, limit, page, mix_pickup, *order, *locale),
{
    let mut path = concat("/api/review?product_id=", product_id);
    path.append("&limit=");
    let limit_text = limit.to_segment();
    path.append(limit_text.as_str());
    path.append("&mix_pickup=");
    path.append(if mix_pickup { "true" } else { "false" });
    path.append("&page=");
    let page_text = page.to_segment();
    path.append(page_text.as_str());
    path.append("&order=");
    path.append(order.to_param());
    path.append("&locale=");
    path.append(locale.to_review_locale());
    path
}

/// A calendar date.
#[derive(Debug, Clone, Copy, PartialEq, Eq)]
pub struct ReleaseDate {
    /// Year.
    pub year: i32,
    /// Month, 1 to 12.
    pub month: u32,
    /// Day of the month.
    pub day: u32,
}

/// The date `chrono` reads from `s` with the format `%Y-%m-%d`, as year,
/// month and day.
pub uninterp spec fn ymd_date(s: Seq<char>) -> Option<(i32, u32, u32)>;

/// `chrono::NaiveDate::parse_from_str(s, "%Y-%m-%d")`, as year, month and day.
#[verifier::external_body]
fn parse_ymd(s: &str) -> (r: Option<(i32, u32, u32)>)
    ensures
        r == ymd_date(s@),
{
    let date = chrono::NaiveDate::parse_from_str(s, "%Y-%m-%d").ok()?;
    Some((date.year(), date.month(), date.day()))
}

/// The date in a registration date such as `2024-01-15 12:00:00`: the part
/// before the first space, read as `YYYY-MM-DD`.
pub fn parse_date(date_str: &str) -> (r: Option<ReleaseDate>)
    ensures
        match ymd_date(before_first(date_str@, ' ')) {
            Some((y, m, d)) => r == Some(ReleaseDate { year: y, month: m, day: d }),
            None => r is None,
        },
{
    let day = part_before_first(date_str, ' ');
    match parse_ymd(day) {
        Some((year, month, day)) => Some(ReleaseDate { year, month, day }),
        None => None,
    }
}

/// `is_success` and `error_msg` of a review API response, or `None` when
/// the response is not JSON.
pub uninterp spec fn review_flags(json: Seq<char>) -> Option<(Option<bool>, Option<Seq<char>>)>;

/// `serde_json::from_str::<serde_json::Value>`, then the boolean at
/// `is_success` and the string at `error_msg`.
#[verifier::external_body]
fn read_review_flags(json: &str) -> (r: Result<(Option<bool>, Option<String>), serde_json::Error>)
    ensures
        match r {
            Ok((s, m)) => review_flags(json@) == Some((s, crate::html::opt_view(m))),
            Err(_) => review_flags(json@) is None,
        },
{
    let value: serde_json::Value = serde_json::from_str(json)?;
    Ok((value["is_success"].as_bool(), value["error_msg"].as_str().map(|s| s.to_string())))
}

/// The message of a failed review request.
pub open spec fn review_failure_message(msg: Option<Seq<char>>) -> Seq<char> {
    "Failed to get review: "@ + match msg {
        Some(m) => m,
        None => "Failed to get error message"@,
    }
}

/// Check a review API response before it is read: it must be JSON with
/// `is_success` a boolean, and `is_success` must be true; when it is false
/// the error is a server error carrying `error_msg`.
pub fn check_review_response(json: &str) -> (r: Result<(), DlsiteError>)
    ensures
        match review_flags(json@) {
            None => r matches Err(DlsiteError::SerdeJson(_)),
            Some((None, _)) => r matches Err(DlsiteError::Parse(m)) && m@ == "Failed to parse revire json"@,
            Some((Some(false), msg)) => r matches Err(DlsiteError::Server(m)) && m@ == review_failure_message(msg),
            Some((Some(true), _)) => r is Ok,
        },
{
    match read_review_flags(json) {
        Err(e) => Err(DlsiteError::SerdeJson(e)),
        Ok((None, _)) => Err(DlsiteError::Parse(owned("Failed to parse revire json"))),
        Ok((Some(false), msg)) => {
            let mut m = owned("Failed to get review: ");
            match msg {
                Some(t) => m.append(t.as_str()),
                None => m.append("Failed to get error message"),
            }
            Err(DlsiteError::Server(m))
        },
        Ok((Some(true), _)) => Ok(()),
    }
}

/// Whether `id` is a key of the decoded AJAX answer.
pub open spec fn has_product<T>(entries: Seq<(String, T)>, id: Seq<char>) -> bool {
    exists|i: int| 0 <= i < entries.len() && #[trigger] entries[i].0@ == id
}

/// The product of `id` in a decoded AJAX answer, given as its entries (ids
/// are distinct, as the keys of a JSON object): the entry of `id`, or the
/// parse error "Failed to parse ajax json" when the answer has none.
pub fn product_of_answer<T>(entries: Vec<(String, T)>, id: &str) -> (r: Result<T, DlsiteError>)
    ensures
        !has_product(entries@, id@) ==> (r matches Err(DlsiteError::Parse(m)) && m@ == "Failed to parse ajax json"@),
        has_product(entries@, id@) ==> exists|i: int|
            0 <= i < entries@.len() && entries@[i].0@ == id@ && r == Ok::<T, DlsiteError>(#[trigger] entries@[i].1),
{
    let ghost all = entries@;
    let mut rest = entries;
    let mut k: usize = 0;
    assert(all.len() == rest.len());
    while rest.len() > 0
        invariant
            all == entries@,
            all.len() <= usize::MAX,
            k + rest@.len() == all.len(),
            rest@ == all.skip(k as int),
            forall|j: int| 0 <= j < k ==> all[j].0@ != id@,
        decreases rest.len(),
    {
        let (key, value) = rest.remove(0);
        assert(all[k as int] == (key, value));
        assert(rest@ =~= all.skip(k + 1));
        if str_eq(key.as_str(), id) {
            assert(all[k as int].0@ == id@);
            assert(all[k as int].1 == value);
            return Ok(value);
        }
        k = k + 1;
    }
    assert forall|j: int| 0 <= j < all.len() implies #[trigger] all[j].0@ != id@ by {}
    Err(DlsiteError::Parse(owned("Failed to parse ajax json")))
}

/// What the product is built from in the AJAX API's answer.
pub struct AjaxFields {
    /// `work_name`.
    pub work_name: String,
    /// `work_type`.
    pub work_type: WorkType,
    /// `price`.
    pub price: i32,
    /// `rate_count`.
    pub rate_count: Option<i32>,
    /// `dl_count`.
    pub dl_count: Option<i32>,
    /// `review_count`.
    pub review_count: Option<i32>,
}

/// A genre as the product API lists it, with a numeric id.
pub struct ApiGenre {
    /// Display name.
    pub name: String,
    /// Numeric id.
    pub id: i32,
}

/// What the product is built from in the product API's answer.
pub struct ApiFields {
    /// `age_category`.
    pub age_category: AgeCategory,
    /// `series_name`.
    pub series_name: Option<String>,
    /// `maker_id`.
    pub maker_id: String,
    /// `maker_name`.
    pub maker_name: String,
    /// `file_size`.
    pub file_size: Option<String>,
    /// `genres`.
    pub genres: Vec<ApiGenre>,
    /// `regist_date`.
    pub regist_date: Option<String>,
    /// `creators`.
    pub creators: Option<Creators>,
    /// The URLs of `image_samples`.
    pub image_samples: Option<Vec<String>>,
}

/// A product put together from the AJAX, product and review APIs: every
/// field of the client's product but the average rating.
pub struct ProductCore {
    /// Product id.
    pub id: String,
    /// Title.
    pub title: String,
    /// Work type.
    pub work_type: WorkType,
    /// Release date.
    pub released_at: Option<ReleaseDate>,
    /// Age rating.
    pub age_rating: Option<AgeCategory>,
    /// Genres.
    pub genre: Vec<Genre>,
    /// Circle id.
    pub circle_id: Option<String>,
    /// Circle name.
    pub circle_name: Option<String>,
    /// Price in JPY.
    pub price: i32,
    /// Series name.
    pub series: Option<String>,
    /// Number of sales.
    pub sale_count: Option<i32>,
    /// Number of reviews.
    pub review_count: Option<i32>,
    /// Number of ratings.
    pub rate_count: Option<i32>,
    /// Sample image URLs.
    pub images: Vec<String>,
    /// People credited.
    pub people: Option<ProductPeople>,
    /// Genres of the people who wrote reviews, with their counts.
    pub reviewer_genre: Vec<(Genre, i32)>,
    /// File size, as the API writes it.
    pub file_size: Option<String>,
}

/// The release date a registration date gives, as [`parse_date`] reads it.
pub open spec fn release_of(regist_date: Option<String>) -> Option<ReleaseDate> {
    match regist_date {
        Some(d) => match ymd_date(before_first(d@, ' ')) {
            Some((y, m, dd)) => Some(ReleaseDate { year: y, month: m, day: dd }),
            None => None,
        },
        None => None,
    }
}

/// Whether `g` is the API genre `a` with its id written in decimal.
pub open spec fn genre_of(g: Genre, a: ApiGenre) -> bool {
    g.name@ == a.name@ && g.id@ == signed_decimal(a.id as int)
}

fn genres_of(api: Vec<ApiGenre>) -> (r: Vec<Genre>)
    ensures
        r@.len() == api@.len(),
        forall|i: int| 0 <= i < api@.len() ==> genre_of(#[trigger] r@[i], api@[i]),
{
    let mut r: Vec<Genre> = Vec::new();
    let mut i: usize = 0;
    while i < api.len()
        invariant
            i <= api@.len(),
            r@.len() == i,
            forall|k: int| 0 <= k < i ==> genre_of(#[trigger] r@[k], api@[k]),
        decreases api.len() - i,
    {
        let id = i64_to_string(api[i].id as i64);
        r.push(Genre { name: api[i].name.clone(), id });
        i = i + 1;
    }
    r
}

/// Put one product together from the three API answers for `product_id`:
/// the title, work type, price and counts from the AJAX answer; the maker,
/// series, age rating, genres (ids in decimal), release date, sample images,
/// people and file size from the product API answer; the genres of those
/// who wrote reviews from the review answer, none when it has none.
pub fn product_of_parts(product_id: &str, ajax: AjaxFields, api: ApiFields, reviewer_genre: Option<Vec<(Genre, i32)>>) -> (p: ProductCore)
    ensures
        p.id@ == product_id@,
        p.title@ == ajax.work_name@,
        p.work_type == ajax.work_type,
        p.price == ajax.price,
        p.rate_count == ajax.rate_count,
        p.sale_count == ajax.dl_count,
        p.review_count == ajax.review_count,
        p.age_rating == Some(api.age_category),
        p.series == api.series_name,
        p.circle_id == Some(api.maker_id),
        p.circle_name == Some(api.maker_name),
        p.file_size == api.file_size,
        p.genre@.len() == api.genres@.len(),
        forall|i: int| 0 <= i < api.genres@.len() ==> genre_of(#[trigger] p.genre@[i], api.genres@[i]),
        p.released_at == release_of(api.regist_date),
        p.images@.map_values(|u: String| u@) == sample_views(api.image_samples),
        match api.creators {
            Some(c) => p.people matches Some(pp) && people_of(pp, c),
            None => p.people is None,
        },
        p.reviewer_genre@ == match reviewer_genre {
            Some(v) => v@,
            None => Seq::<(Genre, i32)>::empty(),
        },
{
    let released_at = match &api.regist_date {
        Some(d) => parse_date(d.as_str()),
        None => None,
    };
    let people = match api.creators {
        Some(c) => Some(ProductPeople::from_creators(c)),
        None => None,
    };
    let reviewer_genre = match reviewer_genre {
        Some(v) => v,
        None => Vec::new(),
    };
    ProductCore {
        id: owned(product_id),
        title: ajax.work_name,
        work_type: ajax.work_type,
        released_at,
        age_rating: Some(api.age_category),
        genre: genres_of(api.genres),
        circle_id: Some(api.maker_id),
        circle_name: Some(api.maker_name),
        price: ajax.price,
        series: api.series_name,
        sale_count: ajax.dl_count,
        review_count: ajax.review_count,
        rate_count: ajax.rate_count,
        images: urls_or_empty(api.image_samples),
        people,
        reviewer_genre,
        file_size: api.file_size,
    }
}

} // verus!
