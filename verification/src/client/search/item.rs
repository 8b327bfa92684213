//! Reading one product out of the HTML of a search result item.

use vstd::prelude::*;
use crate::client::search::selectors::{
    AGE_CATEGORY, AUTHOR, CREATOR_LINK, DL_COUNT, MAKER_NAME, ORIGINAL_PRICE, PRODUCT_ID_ELEMENT, RATING,
    REVIEW_COUNT, THUMBNAIL_IMAGE, WORK_CATEGORY, WORK_PRICE, WORK_TITLE,
};
use crate::error::DlsiteError;
use crate::html::{first_match_attr, first_match_text, nested_match_text, opt_opt_view, opt_view, select_first_attr, select_first_text, select_nested_first_text};
use crate::interface::product::{AgeCategory, WorkType};
use crate::text::{
    after_last, before_first, concat, float_text, has_prefix, lemma_split_has_word, word_at, is_float_text, owned, parse_i32, part_after_last,
    part_before_first, remove_chars, spec_parse_i32, split_char, split_on, str_eq, strip_prefix, without_chars,
};

verus! {

/// A single product in search results.
#[derive(Debug, Clone)]
pub struct SearchProductItem {
    /// Product ID (e.g., "RJ123456").
    pub id: String,
    /// Product title.
    pub title: String,
    /// Creator name, if different from circle name.
    pub creator: Option<String>,
    /// Whether the creator name was truncated/omitted.
    pub creator_omitted: Option<bool>,
    /// Circle/maker name.
    pub circle_name: String,
    /// Circle/maker ID (e.g., "RG24350").
    pub circle_id: String,
    /// Download count.
    pub dl_count: Option<i32>,
    /// Rating count.
    pub rate_count: Option<i32>,
    /// Review count.
    pub review_count: Option<i32>,
    /// Original price in JPY.
    pub price_original: i32,
    /// Sale price in JPY (if discounted).
    pub price_sale: Option<i32>,
    /// Age category (General, R-15, Adult).
    pub age_category: AgeCategory,
    /// Work type (RPG, ADV, SOU, etc.).
    pub work_type: WorkType,
    /// Thumbnail image URL.
    pub thumbnail_url: String,
    /// Average rating in tenths of a star, as the number after `star_` in
    /// the rating's classes is written (`45` is 4.5 stars); any text that
    /// `str::parse::<f32>` accepts.
    pub rating: Option<String>,
}

/// A product in search results, with its texts as character sequences and
/// its work type by name.
pub struct SearchItemView {
    pub id: Seq<char>,
    pub title: Seq<char>,
    pub creator: Option<Seq<char>>,
    pub creator_omitted: Option<bool>,
    pub circle_name: Seq<char>,
    pub circle_id: Seq<char>,
    pub dl_count: Option<i32>,
    pub rate_count: Option<i32>,
    pub review_count: Option<i32>,
    pub price_original: i32,
    pub price_sale: Option<i32>,
    pub age_category: AgeCategory,
    pub work_type: Seq<char>,
    pub thumbnail_url: Seq<char>,
    pub rating: Option<Seq<char>>,
}

impl View for SearchProductItem {
    type V = SearchItemView;

    open spec fn view(&self) -> SearchItemView {
        SearchItemView {
            id: self.id@,
            title: self.title@,
            creator: opt_view(self.creator),
            creator_omitted: self.creator_omitted,
            circle_name: self.circle_name@,
            circle_id: self.circle_id@,
            dl_count: self.dl_count,
            rate_count: self.rate_count,
            review_count: self.review_count,
            price_original: self.price_original,
            price_sale: self.price_sale,
            age_category: self.age_category,
            work_type: self.work_type.name(),
            thumbnail_url: self.thumbnail_url@,
            rating: opt_view(self.rating),
        }
    }
}

/// What the HTML of one search result item says, as read by the selectors
/// of [`crate::client::search::selectors`]. For each part, `None` means the
/// element is absent and `Some(None)` that it lacks the text or attribute.
pub struct SearchItemFacts {
    /// `data-product_id` of the product id element.
    pub product_id: Option<Option<String>>,
    /// First text of the circle link.
    pub maker_text: Option<Option<String>>,
    /// `href` of the circle link.
    pub maker_href: Option<Option<String>>,
    /// `class` of the author block.
    pub author_class: Option<Option<String>>,
    /// First text of the first creator link inside the author block.
    pub creator_text: Option<Option<String>>,
    /// First text of the current price.
    pub price_text: Option<Option<String>>,
    /// First text of the price before a discount.
    pub original_price_text: Option<Option<String>>,
    /// `title` of the title link.
    pub title: Option<Option<String>>,
    /// `title` of the age rating badge.
    pub age_title: Option<Option<String>>,
    /// First text of the download count.
    pub dl_count_text: Option<Option<String>>,
    /// First text of the review count.
    pub review_count_text: Option<Option<String>>,
    /// `class` of the work type element.
    pub work_category_class: Option<Option<String>>,
    /// `src` of the thumbnail image.
    pub thumbnail_src: Option<Option<String>>,
    /// `data-src` of the thumbnail image.
    pub thumbnail_data_src: Option<Option<String>>,
    /// `class` of the star rating.
    pub rating_class: Option<Option<String>>,
}

/// [`SearchItemFacts`] as character sequences.
pub struct SearchItemFactsView {
    pub product_id: Option<Option<Seq<char>>>,
    pub maker_text: Option<Option<Seq<char>>>,
    pub maker_href: Option<Option<Seq<char>>>,
    pub author_class: Option<Option<Seq<char>>>,
    pub creator_text: Option<Option<Seq<char>>>,
    pub price_text: Option<Option<Seq<char>>>,
    pub original_price_text: Option<Option<Seq<char>>>,
    pub title: Option<Option<Seq<char>>>,
    pub age_title: Option<Option<Seq<char>>>,
    pub dl_count_text: Option<Option<Seq<char>>>,
    pub review_count_text: Option<Option<Seq<char>>>,
    pub work_category_class: Option<Option<Seq<char>>>,
    pub thumbnail_src: Option<Option<Seq<char>>>,
    pub thumbnail_data_src: Option<Option<Seq<char>>>,
    pub rating_class: Option<Option<Seq<char>>>,
}

impl View for SearchItemFacts {
    type V = SearchItemFactsView;

    open spec fn view(&self) -> SearchItemFactsView {
        SearchItemFactsView {
            product_id: opt_opt_view(self.product_id),
            maker_text: opt_opt_view(self.maker_text),
            maker_href: opt_opt_view(self.maker_href),
            author_class: opt_opt_view(self.author_class),
            creator_text: opt_opt_view(self.creator_text),
            price_text: opt_opt_view(self.price_text),
            original_price_text: opt_opt_view(self.original_price_text),
            title: opt_opt_view(self.title),
            age_title: opt_opt_view(self.age_title),
            dl_count_text: opt_opt_view(self.dl_count_text),
            review_count_text: opt_opt_view(self.review_count_text),
            work_category_class: opt_opt_view(self.work_category_class),
            thumbnail_src: opt_opt_view(self.thumbnail_src),
            thumbnail_data_src: opt_opt_view(self.thumbnail_data_src),
            rating_class: opt_opt_view(self.rating_class),
        }
    }
}

/// What the selectors read out of the HTML of one search result item.
pub open spec fn item_facts(html: Seq<char>) -> SearchItemFactsView {
    SearchItemFactsView {
        product_id: first_match_attr(html, PRODUCT_ID_ELEMENT@, "data-product_id"@),
        maker_text: first_match_text(html, MAKER_NAME@),
        maker_href: first_match_attr(html, MAKER_NAME@, "href"@),
        author_class: first_match_attr(html, AUTHOR@, "class"@),
        creator_text: nested_match_text(html, AUTHOR@, CREATOR_LINK@),
        price_text: first_match_text(html, WORK_PRICE@),
        original_price_text: first_match_text(html, ORIGINAL_PRICE@),
        title: first_match_attr(html, WORK_TITLE@, "title"@),
        age_title: first_match_attr(html, AGE_CATEGORY@, "title"@),
        dl_count_text: first_match_text(html, DL_COUNT@),
        review_count_text: first_match_text(html, REVIEW_COUNT@),
        work_category_class: first_match_attr(html, WORK_CATEGORY@, "class"@),
        thumbnail_src: first_match_attr(html, THUMBNAIL_IMAGE@, "src"@),
        thumbnail_data_src: first_match_attr(html, THUMBNAIL_IMAGE@, "data-src"@),
        rating_class: first_match_attr(html, RATING@, "class"@),
    }
}


/// Whether `e` is a parse error with message `msg`.
pub open spec fn is_parse_error(e: DlsiteError, msg: Seq<char>) -> bool {
    e matches DlsiteError::Parse(m) && m@ == msg
}

/// The age rating a badge title stands for; no badge means adult.
pub open spec fn age_of(title: Option<Option<Seq<char>>>) -> Result<AgeCategory, Seq<char>> {
    match title {
        Some(Some(t)) => if t == "全年齢"@ {
            Ok(AgeCategory::General)
        } else if t == "R-15"@ {
            Ok(AgeCategory::R15)
        } else {
            Err("Age category parse error: invalid title"@)
        },
        Some(None) => Err("Age category parse error"@),
        None => Ok(AgeCategory::Adult),
    }
}

/// The circle id in a circle link: the last path segment up to its first dot.
pub open spec fn circle_id_of(href: Option<Option<Seq<char>>>) -> Result<Seq<char>, Seq<char>> {
    match href {
        Some(Some(h)) => Ok(before_first(after_last(h, '/'), '.')),
        _ => Err("Failed to get maker link"@),
    }
}

/// The creator named in the author block, when there is one.
pub open spec fn creator_of(author_class: Option<Option<Seq<char>>>, creator_text: Option<Option<Seq<char>>>) -> Result<Option<Seq<char>>, Seq<char>> {
    if author_class is Some {
        match creator_text {
            Some(Some(t)) => Ok(Some(t)),
            _ => Err("Failed to find creator"@),
        }
    } else {
        Ok(None)
    }
}

/// Whether the author block carries the class `omit`, when there is one.
pub open spec fn omitted_of(author_class: Option<Option<Seq<char>>>) -> Result<Option<bool>, Seq<char>> {
    match author_class {
        Some(Some(c)) => Ok(Some(split_on(c, ' ').contains("omit"@))),
        Some(None) => Err("Failed to find creator"@),
        None => Ok(None),
    }
}

/// The author block is marked omitted exactly when the word `omit` stands
/// on its own in its class attribute, between spaces or the ends (so the
/// class `author` alone is not omitted); without an author block nothing is
/// said, and a block without a class attribute cannot be read.
pub proof fn lemma_omitted_means_omit_word(author_class: Option<Option<Seq<char>>>)
    ensures
        author_class is None ==> omitted_of(author_class) == Ok::<Option<bool>, Seq<char>>(None),
        author_class == Some(None::<Seq<char>>) ==> omitted_of(author_class) is Err,
        author_class matches Some(Some(c)) ==> omitted_of(author_class) == Ok::<Option<bool>, Seq<char>>(
            Some(exists|i: int| word_at(c, "omit"@, ' ', i)),
        ),
{
    reveal_strlit("omit");
    if let Some(Some(c)) = author_class {
        lemma_split_has_word(c, ' ', "omit"@);
    }
}

/// A number written with thousands separators.
pub open spec fn number_of(t: Seq<char>) -> Option<int> {
    spec_parse_i32(without_chars(t, ","@))
}

/// A count written with thousands separators and in parentheses.
pub open spec fn count_of(t: Seq<char>) -> Option<int> {
    spec_parse_i32(without_chars(t, "(),"@))
}

/// The download count, when the element is there.
pub open spec fn dl_count_of(t: Option<Option<Seq<char>>>) -> Result<Option<i32>, Seq<char>> {
    match t {
        Some(Some(s)) => match number_of(s) {
            Some(v) => Ok(Some(v as i32)),
            None => Err("Invalid dl count"@),
        },
        Some(None) => Err("Failed to get dl count"@),
        None => Ok(None),
    }
}

/// The rating count, read from the download count element.
pub open spec fn rate_count_of(t: Option<Option<Seq<char>>>) -> Result<Option<i32>, Seq<char>> {
    match t {
        Some(Some(s)) => match count_of(s) {
            Some(v) => Ok(Some(v as i32)),
            None => Err("Failed to parse string to count"@),
        },
        Some(None) => Err("Failed to get rate count"@),
        None => Ok(None),
    }
}

/// The review count, when the element is there.
pub open spec fn review_count_of(t: Option<Option<Seq<char>>>) -> Result<Option<i32>, Seq<char>> {
    match t {
        Some(Some(s)) => match count_of(s) {
            Some(v) => Ok(Some(v as i32)),
            None => Err("Failed to parse string to count"@),
        },
        Some(None) => Err("Failed to get review count"@),
        None => Ok(None),
    }
}

/// A price read from a price element's text.
pub open spec fn price_of(t: Option<Seq<char>>) -> Result<i32, Seq<char>> {
    match t {
        Some(s) => match number_of(s) {
            Some(v) => Ok(v as i32),
            None => Err("Failed to parse string to number"@),
        },
        None => Err("Failed to find price"@),
    }
}

/// The undiscounted price: the struck-out price when the work is
/// discounted, the current price otherwise.
pub open spec fn price_original_of(price: Option<Option<Seq<char>>>, original: Option<Option<Seq<char>>>) -> Result<i32, Seq<char>> {
    match original {
        Some(o) => price_of(o),
        None => match price {
            Some(p) => price_of(p),
            None => Err("Failed to find price"@),
        },
    }
}

/// The discounted price, present only when the work is discounted.
pub open spec fn price_sale_of(price: Option<Option<Seq<char>>>, original: Option<Option<Seq<char>>>) -> Result<Option<i32>, Seq<char>> {
    if original is Some {
        match price {
            Some(p) => match price_of(p) {
                Ok(v) => Ok(Some(v)),
                Err(m) => Err(m),
            },
            None => Err("Failed to find price"@),
        }
    } else {
        Ok(None)
    }
}

/// The first class of the form `type_X` where `X` names a work type.
pub open spec fn first_type_name(tokens: Seq<Seq<char>>) -> Option<Seq<char>>
    decreases tokens.len(),
{
    if tokens.len() == 0 {
        None
    } else if has_prefix(tokens[0], "type_"@) && WorkType::is_known_name(tokens[0].skip("type_"@.len() as int)) {
        Some(tokens[0].skip("type_"@.len() as int))
    } else {
        first_type_name(tokens.drop_first())
    }
}

/// The name of the work type in a class list, `Err` when the element or the
/// class list is missing; `Ok(None)` stands for an unknown work type.
pub open spec fn work_type_of(class: Option<Option<Seq<char>>>) -> Result<Option<Seq<char>>, Seq<char>> {
    match class {
        Some(Some(c)) => Ok(first_type_name(split_on(c, ' '))),
        Some(None) => Err("Failed to find worktype"@),
        None => Err("Failed to find work category"@),
    }
}

/// The thumbnail URL: `https:` before `src`, or before `data-src` when
/// there is no `src`.
pub open spec fn thumbnail_of(src: Option<Option<Seq<char>>>, data_src: Option<Option<Seq<char>>>) -> Result<Seq<char>, Seq<char>> {
    match src {
        None => Err("Failed to find thumbnail"@),
        Some(Some(s)) => Ok("https:"@ + s),
        Some(None) => match data_src {
            Some(Some(d)) => Ok("https:"@ + d),
            _ => Err("Failed to find thumbnail"@),
        },
    }
}

/// The number `N` of the first class of the form `star_N` where `N` is a
/// number that `str::parse::<f32>` reads.
pub open spec fn first_star(tokens: Seq<Seq<char>>) -> Option<Seq<char>>
    decreases tokens.len(),
{
    if tokens.len() == 0 {
        None
    } else if has_prefix(tokens[0], "star_"@) && is_float_text(tokens[0].skip("star_"@.len() as int)) {
        Some(tokens[0].skip("star_"@.len() as int))
    } else {
        first_star(tokens.drop_first())
    }
}

/// The product a search result item describes: `Some(Ok(..))` when it is
/// read, `Some(Err(msg))` when a part is missing or malformed (the first
/// such part, in the order the fields are read), and `None` when the title
/// link has no title or the star rating no class, where the reading stops
/// without an answer.
pub open spec fn item_result(f: SearchItemFactsView) -> Option<Result<SearchItemView, Seq<char>>> {
    if f.product_id is None {
        Some(Err("Failed to find data element"@))
    } else if f.maker_text is None {
        Some(Err("Failed to find maker element"@))
    } else if f.price_text is None {
        Some(Err("Failed to find price element"@))
    } else if f.product_id.unwrap() is None {
        Some(Err("Failed to get product id"@))
    } else if f.title is None {
        Some(Err("Failed to get title"@))
    } else if f.title.unwrap() is None {
        None
    } else {
        match age_of(f.age_title) {
            Err(m) => Some(Err(m)),
            Ok(age) => match circle_id_of(f.maker_href) {
                Err(m) => Some(Err(m)),
                Ok(circle_id) => match creator_of(f.author_class, f.creator_text) {
                    Err(m) => Some(Err(m)),
                    Ok(creator) => match omitted_of(f.author_class) {
                        Err(m) => Some(Err(m)),
                        Ok(omitted) => match dl_count_of(f.dl_count_text) {
                            Err(m) => Some(Err(m)),
                            Ok(dl_count) => match rate_count_of(f.dl_count_text) {
                                Err(m) => Some(Err(m)),
                                Ok(rate_count) => match review_count_of(f.review_count_text) {
                                    Err(m) => Some(Err(m)),
                                    Ok(review_count) => match price_original_of(f.price_text, f.original_price_text) {
                                        Err(m) => Some(Err(m)),
                                        Ok(price_original) => match price_sale_of(f.price_text, f.original_price_text) {
                                            Err(m) => Some(Err(m)),
                                            Ok(price_sale) => match work_type_of(f.work_category_class) {
                                                Err(m) => Some(Err(m)),
                                                Ok(work_type) => match thumbnail_of(f.thumbnail_src, f.thumbnail_data_src) {
                                                    Err(m) => Some(Err(m)),
                                                    Ok(thumbnail_url) => match f.rating_class {
                                                        Some(None) => None,
                                                        _ => Some(Ok(SearchItemView {
                                                            id: f.product_id.unwrap().unwrap(),
                                                            title: f.title.unwrap().unwrap(),
                                                            creator,
                                                            creator_omitted: omitted,
                                                            circle_name: match f.maker_text.unwrap() {
                                                                Some(t) => t,
                                                                None => Seq::empty(),
                                                            },
                                                            circle_id,
                                                            dl_count,
                                                            rate_count,
                                                            review_count,
                                                            price_original,
                                                            price_sale,
                                                            age_category: age,
                                                            work_type: match work_type {
                                                                Some(w) => w,
                                                                None => Seq::empty(),
                                                            },
                                                            thumbnail_url,
                                                            rating: match f.rating_class {
                                                                Some(Some(c)) => first_star(split_on(c, ' ')),
                                                                _ => None,
                                                            },
                                                        })),
                                                    },
                                                },
                                            },
                                        },
                                    },
                                },
                            },
                        },
                    },
                },
            },
        }
    }
}

/// Whether reading the item stops without an answer.
pub open spec fn item_stops(f: SearchItemFactsView) -> bool {
    item_result(f) is None
}

/// Whether the work type of a read item is the unknown one.
pub open spec fn item_work_type_unknown(f: SearchItemFactsView) -> bool {
    match f.work_category_class {
        Some(Some(c)) => first_type_name(split_on(c, ' ')) is None,
        _ => false,
    }
}

/// Whether `r` is what [`item_result`] says of `f`.
pub open spec fn item_matches(r: Result<SearchProductItem, DlsiteError>, f: SearchItemFactsView) -> bool {
    match item_result(f) {
        Some(Ok(v)) => r matches Ok(item) && item@ == v
            && ((item.work_type is Unknown) == item_work_type_unknown(f)),
        Some(Err(m)) => r matches Err(e) && is_parse_error(e, m),
        None => false,
    }
}


/// The parse error carrying `msg`.
fn fail<T>(msg: &str) -> (r: Result<T, DlsiteError>)
    ensures
        r matches Err(e) && is_parse_error(e, msg@),
{
    Err(DlsiteError::Parse(owned(msg)))
}

fn read_age(title: &Option<Option<String>>) -> (r: Result<AgeCategory, DlsiteError>)
    ensures
        match age_of(opt_opt_view(*title)) {
            Ok(a) => r matches Ok(x) && x == a,
            Err(m) => r matches Err(e) && is_parse_error(e, m),
        },
{
    match title {
        Some(Some(t)) => {
            if str_eq(t.as_str(), "全年齢") {
                Ok(AgeCategory::General)
            } else if str_eq(t.as_str(), "R-15") {
                Ok(AgeCategory::R15)
            } else {
                fail("Age category parse error: invalid title")
            }
        },
        Some(None) => fail("Age category parse error"),
        None => Ok(AgeCategory::Adult),
    }
}

fn read_circle_id(href: &Option<Option<String>>) -> (r: Result<String, DlsiteError>)
    ensures
        match circle_id_of(opt_opt_view(*href)) {
            Ok(v) => r matches Ok(x) && x@ == v,
            Err(m) => r matches Err(e) && is_parse_error(e, m),
        },
{
    match href {
        Some(Some(h)) => {
            let last = part_after_last(h.as_str(), '/');
            Ok(owned(part_before_first(last, '.')))
        },
        _ => fail("Failed to get maker link"),
    }
}

fn read_creator(author_class: &Option<Option<String>>, creator_text: &Option<Option<String>>) -> (r: Result<Option<String>, DlsiteError>)
    ensures
        match creator_of(opt_opt_view(*author_class), opt_opt_view(*creator_text)) {
            Ok(v) => r matches Ok(x) && opt_view(x) == v,
            Err(m) => r matches Err(e) && is_parse_error(e, m),
        },
{
    if author_class.is_some() {
        match creator_text {
            Some(Some(t)) => Ok(Some(t.clone())),
            _ => fail("Failed to find creator"),
        }
    } else {
        Ok(None)
    }
}

/// Whether one of `tokens` equals `target`.
fn any_equals(tokens: &Vec<String>, target: &str) -> (r: bool)
    ensures
        r == tokens@.map_values(|t: String| t@).contains(target@),
{
    let ghost views = tokens@.map_values(|t: String| t@);
    let mut i: usize = 0;
    while i < tokens.len()
        invariant
            i <= tokens@.len(),
            views == tokens@.map_values(|t: String| t@),
            forall|k: int| 0 <= k < i ==> views[k] != target@,
        decreases tokens.len() - i,
    {
        if str_eq(tokens[i].as_str(), target) {
            assert(views[i as int] == target@);
            return true;
        }
        i = i + 1;
    }
    false
}

fn read_omitted(author_class: &Option<Option<String>>) -> (r: Result<Option<bool>, DlsiteError>)
    ensures
        match omitted_of(opt_opt_view(*author_class)) {
            Ok(v) => r matches Ok(x) && x == v,
            Err(m) => r matches Err(e) && is_parse_error(e, m),
        },
{
    match author_class {
        Some(Some(c)) => {
            let tokens = split_char(c.as_str(), ' ');
            Ok(Some(any_equals(&tokens, "omit")))
        },
        Some(None) => fail("Failed to find creator"),
        None => Ok(None),
    }
}

fn read_number(t: &str) -> (r: Option<i32>)
    ensures
        match r {
            Some(v) => number_of(t@) == Some(v as int),
            None => number_of(t@) is None,
        },
{
    let digits = remove_chars(t, ",");
    parse_i32(digits.as_str())
}

fn read_count(t: &str) -> (r: Option<i32>)
    ensures
        match r {
            Some(v) => count_of(t@) == Some(v as int),
            None => count_of(t@) is None,
        },
{
    let digits = remove_chars(t, "(),");
    parse_i32(digits.as_str())
}

fn read_dl_count(t: &Option<Option<String>>) -> (r: Result<Option<i32>, DlsiteError>)
    ensures
        match dl_count_of(opt_opt_view(*t)) {
            Ok(v) => r matches Ok(x) && x == v,
            Err(m) => r matches Err(e) && is_parse_error(e, m),
        },
{
    match t {
        Some(Some(s)) => match read_number(s.as_str()) {
            Some(v) => Ok(Some(v)),
            None => fail("Invalid dl count"),
        },
        Some(None) => fail("Failed to get dl count"),
        None => Ok(None),
    }
}

fn read_rate_count(t: &Option<Option<String>>) -> (r: Result<Option<i32>, DlsiteError>)
    ensures
        match rate_count_of(opt_opt_view(*t)) {
            Ok(v) => r matches Ok(x) && x == v,
            Err(m) => r matches Err(e) && is_parse_error(e, m),
        },
{
    match t {
        Some(Some(s)) => match read_count(s.as_str()) {
            Some(v) => Ok(Some(v)),
            None => fail("Failed to parse string to count"),
        },
        Some(None) => fail("Failed to get rate count"),
        None => Ok(None),
    }
}

fn read_review_count(t: &Option<Option<String>>) -> (r: Result<Option<i32>, DlsiteError>)
    ensures
        match review_count_of(opt_opt_view(*t)) {
            Ok(v) => r matches Ok(x) && x == v,
            Err(m) => r matches Err(e) && is_parse_error(e, m),
        },
{
    match t {
        Some(Some(s)) => match read_count(s.as_str()) {
            Some(v) => Ok(Some(v)),
            None => fail("Failed to parse string to count"),
        },
        Some(None) => fail("Failed to get review count"),
        None => Ok(None),
    }
}

fn read_price(t: &Option<String>) -> (r: Result<i32, DlsiteError>)
    ensures
        match price_of(opt_view(*t)) {
            Ok(v) => r matches Ok(x) && x == v,
            Err(m) => r matches Err(e) && is_parse_error(e, m),
        },
{
    match t {
        Some(s) => match read_number(s.as_str()) {
            Some(v) => Ok(v),
            None => fail("Failed to parse string to number"),
        },
        None => fail("Failed to find price"),
    }
}

fn read_price_original(price: &Option<Option<String>>, original: &Option<Option<String>>) -> (r: Result<i32, DlsiteError>)
    ensures
        match price_original_of(opt_opt_view(*price), opt_opt_view(*original)) {
            Ok(v) => r matches Ok(x) && x == v,
            Err(m) => r matches Err(e) && is_parse_error(e, m),
        },
{
    match original {
        Some(o) => read_price(o),
        None => match price {
            Some(p) => read_price(p),
            None => fail("Failed to find price"),
        },
    }
}

fn read_price_sale(price: &Option<Option<String>>, original: &Option<Option<String>>) -> (r: Result<Option<i32>, DlsiteError>)
    ensures
        match price_sale_of(opt_opt_view(*price), opt_opt_view(*original)) {
            Ok(v) => r matches Ok(x) && x == v,
            Err(m) => r matches Err(e) && is_parse_error(e, m),
        },
{
    if original.is_some() {
        match price {
            Some(p) => match read_price(p) {
                Ok(v) => Ok(Some(v)),
                Err(e) => Err(e),
            },
            None => fail("Failed to find price"),
        }
    } else {
        Ok(None)
    }
}

fn find_work_type(tokens: &Vec<String>) -> (r: Option<WorkType>)
    ensures
        match first_type_name(tokens@.map_values(|t: String| t@)) {
            Some(name) => r matches Some(w) && w.name() == name && !(w is Unknown),
            None => r is None,
        },
{
    let ghost views = tokens@.map_values(|t: String| t@);
    let mut i: usize = 0;
    assert(views.skip(0) =~= views);
    while i < tokens.len()
        invariant
            i <= tokens@.len(),
            views == tokens@.map_values(|t: String| t@),
            first_type_name(views) == first_type_name(views.skip(i as int)),
        decreases tokens.len() - i,
    {
        proof {
            assert(views.skip(i as int).drop_first() =~= views.skip(i + 1));
            assert(views.skip(i as int)[0] == tokens@[i as int]@);
        }
        match strip_prefix(tokens[i].as_str(), "type_") {
            Some(rest) => {
                let w = WorkType::parse(rest);
                if !w.is_unknown() {
                    return Some(w);
                }
            },
            None => {},
        }
        i = i + 1;
    }
    proof {
        assert(views.skip(i as int).len() == 0);
    }
    None
}

fn read_work_type(class: &Option<Option<String>>) -> (r: Result<WorkType, DlsiteError>)
    ensures
        match work_type_of(opt_opt_view(*class)) {
            Ok(Some(name)) => r matches Ok(w) && w.name() == name && !(w is Unknown),
            Ok(None) => r matches Ok(w) && w.name() == Seq::<char>::empty() && w is Unknown,
            Err(m) => r matches Err(e) && is_parse_error(e, m),
        },
{
    match class {
        Some(Some(c)) => {
            let tokens = split_char(c.as_str(), ' ');
            match find_work_type(&tokens) {
                Some(w) => Ok(w),
                None => Ok(WorkType::Unknown(String::new())),
            }
        },
        Some(None) => fail("Failed to find worktype"),
        None => fail("Failed to find work category"),
    }
}

fn read_thumbnail(src: &Option<Option<String>>, data_src: &Option<Option<String>>) -> (r: Result<String, DlsiteError>)
    ensures
        match thumbnail_of(opt_opt_view(*src), opt_opt_view(*data_src)) {
            Ok(v) => r matches Ok(x) && x@ == v,
            Err(m) => r matches Err(e) && is_parse_error(e, m),
        },
{
    match src {
        None => fail("Failed to find thumbnail"),
        Some(Some(s)) => Ok(concat("https:", s.as_str())),
        Some(None) => match data_src {
            Some(Some(d)) => Ok(concat("https:", d.as_str())),
            _ => fail("Failed to find thumbnail"),
        },
    }
}

fn find_star(tokens: &Vec<String>) -> (r: Option<String>)
    ensures
        opt_view(r) == first_star(tokens@.map_values(|t: String| t@)),
{
    let ghost views = tokens@.map_values(|t: String| t@);
    let mut i: usize = 0;
    assert(views.skip(0) =~= views);
    while i < tokens.len()
        invariant
            i <= tokens@.len(),
            views == tokens@.map_values(|t: String| t@),
            first_star(views) == first_star(views.skip(i as int)),
        decreases tokens.len() - i,
    {
        proof {
            assert(views.skip(i as int).drop_first() =~= views.skip(i + 1));
            assert(views.skip(i as int)[0] == tokens@[i as int]@);
        }
        match strip_prefix(tokens[i].as_str(), "star_") {
            Some(rest) => {
                if float_text(rest) {
                    return Some(owned(rest));
                }
            },
            None => {},
        }
        i = i + 1;
    }
    proof {
        assert(views.skip(i as int).len() == 0);
    }
    None
}

/// Builds the product of one search result item from what its HTML says,
/// or `None` where the reading stops without an answer.
pub fn build_or_stop(f: &SearchItemFacts) -> (r: Option<Result<SearchProductItem, DlsiteError>>)
    ensures
        r is None <==> item_stops(f@),
        r matches Some(x) ==> item_matches(x, f@),
{
    let id = match &f.product_id {
        None => return Some(fail("Failed to find data element")),
        Some(p) => p,
    };
    let maker_text = match &f.maker_text {
        None => return Some(fail("Failed to find maker element")),
        Some(m) => m,
    };
    if f.price_text.is_none() {
        return Some(fail("Failed to find price element"));
    }
    let id = match id {
        None => return Some(fail("Failed to get product id")),
        Some(i) => i.clone(),
    };
    let title = match &f.title {
        None => return Some(fail("Failed to get title")),
        Some(Some(t)) => t.clone(),
        Some(None) => return None,
    };
    let age_category = match read_age(&f.age_title) {
        Ok(a) => a,
        Err(e) => return Some(Err(e)),
    };
    let circle_name = match maker_text {
        Some(t) => t.clone(),
        None => String::new(),
    };
    let circle_id = match read_circle_id(&f.maker_href) {
        Ok(c) => c,
        Err(e) => return Some(Err(e)),
    };
    let creator = match read_creator(&f.author_class, &f.creator_text) {
        Ok(c) => c,
        Err(e) => return Some(Err(e)),
    };
    let creator_omitted = match read_omitted(&f.author_class) {
        Ok(c) => c,
        Err(e) => return Some(Err(e)),
    };
    let dl_count = match read_dl_count(&f.dl_count_text) {
        Ok(c) => c,
        Err(e) => return Some(Err(e)),
    };
    let rate_count = match read_rate_count(&f.dl_count_text) {
        Ok(c) => c,
        Err(e) => return Some(Err(e)),
    };
    let review_count = match read_review_count(&f.review_count_text) {
        Ok(c) => c,
        Err(e) => return Some(Err(e)),
    };
    let price_original = match read_price_original(&f.price_text, &f.original_price_text) {
        Ok(p) => p,
        Err(e) => return Some(Err(e)),
    };
    let price_sale = match read_price_sale(&f.price_text, &f.original_price_text) {
        Ok(p) => p,
        Err(e) => return Some(Err(e)),
    };
    let work_type = match read_work_type(&f.work_category_class) {
        Ok(w) => w,
        Err(e) => return Some(Err(e)),
    };
    let thumbnail_url = match read_thumbnail(&f.thumbnail_src, &f.thumbnail_data_src) {
        Ok(t) => t,
        Err(e) => return Some(Err(e)),
    };
    let rating = match &f.rating_class {
        None => None,
        Some(Some(c)) => {
            let tokens = split_char(c.as_str(), ' ');
            find_star(&tokens)
        },
        Some(None) => return None,
    };
    Some(Ok(SearchProductItem {
        id,
        title,
        creator,
        creator_omitted,
        circle_name,
        circle_id,
        dl_count,
        rate_count,
        review_count,
        price_original,
        price_sale,
        age_category,
        work_type,
        thumbnail_url,
        rating,
    }))
}

/// Builds the product of one search result item from what its HTML says;
/// the result is what [`item_result`] gives for `f`.
pub fn build_search_item(f: &SearchItemFacts) -> (r: Result<SearchProductItem, DlsiteError>)
    requires
        !item_stops(f@),
    ensures
        item_matches(r, f@),
{
    match build_or_stop(f) {
        Some(r) => r,
        None => fail("Failed to find data element"),
    }
}

/// Reads the parts of one search result item that its product is built from.
pub fn extract_search_item_facts(item_html: &str) -> (f: SearchItemFacts)
    ensures
        f@ == item_facts(item_html@),
{
    SearchItemFacts {
        product_id: select_first_attr(item_html, PRODUCT_ID_ELEMENT, "data-product_id"),
        maker_text: select_first_text(item_html, MAKER_NAME),
        maker_href: select_first_attr(item_html, MAKER_NAME, "href"),
        author_class: select_first_attr(item_html, AUTHOR, "class"),
        creator_text: select_nested_first_text(item_html, AUTHOR, CREATOR_LINK),
        price_text: select_first_text(item_html, WORK_PRICE),
        original_price_text: select_first_text(item_html, ORIGINAL_PRICE),
        title: select_first_attr(item_html, WORK_TITLE, "title"),
        age_title: select_first_attr(item_html, AGE_CATEGORY, "title"),
        dl_count_text: select_first_text(item_html, DL_COUNT),
        review_count_text: select_first_text(item_html, REVIEW_COUNT),
        work_category_class: select_first_attr(item_html, WORK_CATEGORY, "class"),
        thumbnail_src: select_first_attr(item_html, THUMBNAIL_IMAGE, "src"),
        thumbnail_data_src: select_first_attr(item_html, THUMBNAIL_IMAGE, "data-src"),
        rating_class: select_first_attr(item_html, RATING, "class"),
    }
}


/// Parses a single search result item from its HTML.
pub fn parse_search_item_html(item_html: &str) -> (r: Result<SearchProductItem, DlsiteError>)
    requires
        !item_stops(item_facts(item_html@)),
    ensures
        item_matches(r, item_facts(item_html@)),
{
    let f = extract_search_item_facts(item_html);
    build_search_item(&f)
}

/// Parses a single search result item from its HTML, or gives `None` where
/// the item's title link has no title or its star rating no class and the
/// reading stops without an answer.
pub fn checked_parse_search_item_html(item_html: &str) -> (r: Option<Result<SearchProductItem, DlsiteError>>)
    ensures
        r is None <==> item_stops(item_facts(item_html@)),
        r matches Some(x) ==> item_matches(x, item_facts(item_html@)),
{
    let f = extract_search_item_facts(item_html);
    if build_or_stop(&f).is_none() {
        None
    } else {
        Some(parse_search_item_html(item_html))
    }
}

} // verus!
