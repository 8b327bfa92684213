//! Search query builder for DLsite product search.

use vstd::prelude::*;
use crate::interface::product::{AgeCategory, FileType, WorkCategory, WorkType, WorkTypeCategory};
use crate::interface::query::{AnaFlg, Language, OptionAndOr, Order, ReleaseTerm, SexCategory};
use crate::path::{
    array_segments, flag_segment, has_part, indexed_key_value, key_value, lemma_array_parts, lemma_part_in_left,
    lemma_part_in_right, lemma_part_of_whole, opt_array_segments, opt_key_value, push_flag, push_key_value, push_opt,
    push_opt_array, PathSegment,
};
use crate::text::{decimal, owned};

verus! {

/// Search query parameters for DLsite product search. Every field is optional
/// and [`Default::default()`] gives a query in Japanese with no filters.
#[derive(Default)]
pub struct SearchProductQuery {
    /// Display language for the search interface.
    pub language: Language,
    /// Filter by creator/circle name.
    pub keyword_creator: Option<String>,
    /// Filter by target audience sex category.
    pub sex_category: Option<Vec<SexCategory>>,
    /// Free-text keyword search.
    pub keyword: Option<String>,
    /// End date for registration date filter (format: "YYYY-MM-DD").
    pub regist_date_end: Option<String>,
    /// Start date for registration date filter (format: "YYYY-MM-DD").
    pub regist_date_start: Option<String>,
    /// Minimum price filter (in JPY).
    pub price_low: Option<u32>,
    /// Maximum price filter (in JPY).
    pub price_high: Option<u32>,
    /// Sales status filter.
    pub ana_flg: Option<AnaFlg>,
    /// Age category filter.
    pub age_category: Option<Vec<AgeCategory>>,
    /// Work category filter.
    pub work_category: Option<Vec<WorkCategory>>,
    /// Sort order for results.
    pub order: Option<Order>,
    /// Individual work type filter.
    pub work_type: Option<Vec<WorkType>>,
    /// Work type category filter.
    pub work_type_category: Option<Vec<WorkTypeCategory>>,
    /// Work type category display names.
    pub work_type_category_name: Option<Vec<String>>,
    /// Genre IDs to filter by.
    pub genre: Option<Vec<u32>>,
    /// Genre display names.
    pub genre_name: Option<Vec<String>>,
    /// Logical operator for combining options.
    pub options_and_or: Option<OptionAndOr>,
    /// Product options to include (e.g., "JPN").
    pub options: Option<Vec<String>>,
    /// Product options to exclude (e.g., "AIG").
    pub options_not: Option<Vec<String>>,
    /// Option display names.
    pub options_name: Option<Vec<String>>,
    /// File type filter.
    pub file_type: Option<Vec<FileType>>,
    /// Minimum average rating filter (1-5).
    pub rate_average: Option<u32>,
    /// Number of results per page (30, 50, or 100).
    pub per_page: Option<u32>,
    /// Page number for pagination (1-indexed).
    pub page: Option<u32>,
    /// Filter to products in campaigns/sales.
    pub campaign: Option<bool>,
    /// Filter to products with sale ending within 24 hours.
    pub soon: Option<bool>,
    /// Filter to DLsite-exclusive products.
    pub dlsite_only: Option<bool>,
    /// Filter to products currently offering bonus points.
    pub is_pointup: Option<bool>,
    /// Filter to free products.
    pub is_free: Option<bool>,
    /// Release date range filter.
    pub release_term: Option<ReleaseTerm>,
    /// Price category filter.
    pub price_category: Option<u32>,
    /// Show type filter.
    pub show_type: Option<u32>,
    /// Referral source tracking parameter.
    pub from: Option<String>,
}

impl SearchProductQuery {
    /// The request path of the query: `/fsr/ajax/=` followed by one segment per
    /// set field, in declaration order; lists give one indexed segment per item,
    /// and flags appear only when set to true.
    pub open spec fn spec_path(&self) -> Seq<char> {
        "/fsr/ajax/="@
            + key_value("language"@, self.language.name())
            + opt_key_value("keyword_creator"@, self.keyword_creator)
            + opt_array_segments("sex_category"@, self.sex_category)
            + opt_key_value("keyword"@, self.keyword)
            + opt_key_value("regist_date_end"@, self.regist_date_end)
            + opt_key_value("regist_date_start"@, self.regist_date_start)
            + opt_key_value("price_low"@, self.price_low)
            + opt_key_value("price_high"@, self.price_high)
            + opt_key_value("ana_flg"@, self.ana_flg)
            + opt_array_segments("age_category"@, self.age_category)
            + opt_array_segments("work_category"@, self.work_category)
            + opt_key_value("order"@, self.order)
            + opt_array_segments("work_type"@, self.work_type)
            + opt_array_segments("work_type_category"@, self.work_type_category)
            + opt_array_segments("work_type_category_name"@, self.work_type_category_name)
            + opt_array_segments("genre"@, self.genre)
            + opt_array_segments("genre_name"@, self.genre_name)
            + opt_key_value("options_and_or"@, self.options_and_or)
            + opt_array_segments("options"@, self.options)
            + opt_array_segments("options_not"@, self.options_not)
            + opt_array_segments("options_name"@, self.options_name)
            + opt_array_segments("file_type"@, self.file_type)
            + opt_key_value("rate_average"@, self.rate_average)
            + opt_key_value("per_page"@, self.per_page)
            + opt_key_value("page"@, self.page)
            + (if self.campaign == Some(true) { "/campaign/campaign"@ } else { Seq::empty() })
            + flag_segment("soon"@, self.soon)
            + flag_segment("dlsite_only"@, self.dlsite_only)
            + flag_segment("is_pointup"@, self.is_pointup)
            + flag_segment("is_free"@, self.is_free)
            + opt_key_value("release_term"@, self.release_term)
            + opt_key_value("price_category"@, self.price_category)
            + opt_key_value("show_type"@, self.show_type)
            + opt_key_value("from"@, self.from)
    }

    /// Convert the query to the path of a DLsite search request.
    pub fn to_path(&self) -> (path: String)
        ensures
            path@ == self.spec_path(),
    {
        let mut path = owned("/fsr/ajax/=");
        let language = self.language.to_string();
        push_key_value(&mut path, "language", language.as_str());
        push_opt(&mut path, "keyword_creator", &self.keyword_creator);
        push_opt_array(&mut path, "sex_category", &self.sex_category);
        push_opt(&mut path, "keyword", &self.keyword);
        push_opt(&mut path, "regist_date_end", &self.regist_date_end);
        push_opt(&mut path, "regist_date_start", &self.regist_date_start);
        push_opt(&mut path, "price_low", &self.price_low);
        push_opt(&mut path, "price_high", &self.price_high);
        push_opt(&mut path, "ana_flg", &self.ana_flg);
        push_opt_array(&mut path, "age_category", &self.age_category);
        push_opt_array(&mut path, "work_category", &self.work_category);
        push_opt(&mut path, "order", &self.order);
        push_opt_array(&mut path, "work_type", &self.work_type);
        push_opt_array(&mut path, "work_type_category", &self.work_type_category);
        push_opt_array(&mut path, "work_type_category_name", &self.work_type_category_name);
        push_opt_array(&mut path, "genre", &self.genre);
        push_opt_array(&mut path, "genre_name", &self.genre_name);
        push_opt(&mut path, "options_and_or", &self.options_and_or);
        push_opt_array(&mut path, "options", &self.options);
        push_opt_array(&mut path, "options_not", &self.options_not);
        push_opt_array(&mut path, "options_name", &self.options_name);
        push_opt_array(&mut path, "file_type", &self.file_type);
        push_opt(&mut path, "rate_average", &self.rate_average);
        push_opt(&mut path, "per_page", &self.per_page);
        push_opt(&mut path, "page", &self.page);
        if let Some(true) = &self.campaign {
            path.append("/campaign/campaign");
        } else {
            assert(path@ + Seq::<char>::empty() =~= path@);
        }
        push_flag(&mut path, "soon", &self.soon);
        push_flag(&mut path, "dlsite_only", &self.dlsite_only);
        push_flag(&mut path, "is_pointup", &self.is_pointup);
        push_flag(&mut path, "is_free", &self.is_free);
        push_opt(&mut path, "release_term", &self.release_term);
        push_opt(&mut path, "price_category", &self.price_category);
        push_opt(&mut path, "show_type", &self.show_type);
        push_opt(&mut path, "from", &self.from);
        path
    }
}

/// A piece of either side of a concatenation is a piece of it.
proof fn lemma_parts_of_sums()
    ensures
        forall|x: Seq<char>, y: Seq<char>, p: Seq<char>| has_part(x, p) ==> #[trigger] has_part(x + y, p),
        forall|x: Seq<char>, y: Seq<char>, p: Seq<char>| has_part(y, p) ==> #[trigger] has_part(x + y, p),
{
    assert forall|x: Seq<char>, y: Seq<char>, p: Seq<char>| has_part(x, p) implies #[trigger] has_part(x + y, p) by {
        lemma_part_in_left(x, y, p);
    }
    assert forall|x: Seq<char>, y: Seq<char>, p: Seq<char>| has_part(y, p) implies #[trigger] has_part(x + y, p) by {
        lemma_part_in_right(x, y, p);
    }
}

proof fn lemma_keyword_creator_in_path(q: SearchProductQuery)
    ensures
        q.keyword_creator matches Some(v) ==> has_part(q.spec_path(), "/keyword_creator/"@ + v.segment()),
{
    if let Some(v) = q.keyword_creator {
        reveal_strlit("/keyword_creator/");
        reveal_strlit("keyword_creator");
        let part = "/keyword_creator/"@ + v.segment();
        assert(key_value("keyword_creator"@, v.segment()) =~= part);
        lemma_part_of_whole(part);
        lemma_parts_of_sums();
    }
}

proof fn lemma_keyword_in_path(q: SearchProductQuery)
    ensures
        q.keyword matches Some(v) ==> has_part(q.spec_path(), "/keyword/"@ + v.segment()),
{
    if let Some(v) = q.keyword {
        reveal_strlit("/keyword/");
        reveal_strlit("keyword");
        let part = "/keyword/"@ + v.segment();
        assert(key_value("keyword"@, v.segment()) =~= part);
        lemma_part_of_whole(part);
        lemma_parts_of_sums();
    }
}

proof fn lemma_regist_date_end_in_path(q: SearchProductQuery)
    ensures
        q.regist_date_end matches Some(v) ==> has_part(q.spec_path(), "/regist_date_end/"@ + v.segment()),
{
    if let Some(v) = q.regist_date_end {
        reveal_strlit("/regist_date_end/");
        reveal_strlit("regist_date_end");
        let part = "/regist_date_end/"@ + v.segment();
        assert(key_value("regist_date_end"@, v.segment()) =~= part);
        lemma_part_of_whole(part);
        lemma_parts_of_sums();
    }
}

proof fn lemma_regist_date_start_in_path(q: SearchProductQuery)
    ensures
        q.regist_date_start matches Some(v) ==> has_part(q.spec_path(), "/regist_date_start/"@ + v.segment()),
{
    if let Some(v) = q.regist_date_start {
        reveal_strlit("/regist_date_start/");
        reveal_strlit("regist_date_start");
        let part = "/regist_date_start/"@ + v.segment();
        assert(key_value("regist_date_start"@, v.segment()) =~= part);
        lemma_part_of_whole(part);
        lemma_parts_of_sums();
    }
}

proof fn lemma_price_low_in_path(q: SearchProductQuery)
    ensures
        q.price_low matches Some(v) ==> has_part(q.spec_path(), "/price_low/"@ + v.segment()),
{
    if let Some(v) = q.price_low {
        reveal_strlit("/price_low/");
        reveal_strlit("price_low");
        let part = "/price_low/"@ + v.segment();
        assert(key_value("price_low"@, v.segment()) =~= part);
        lemma_part_of_whole(part);
        lemma_parts_of_sums();
    }
}

proof fn lemma_price_high_in_path(q: SearchProductQuery)
    ensures
        q.price_high matches Some(v) ==> has_part(q.spec_path(), "/price_high/"@ + v.segment()),
{
    if let Some(v) = q.price_high {
        reveal_strlit("/price_high/");
        reveal_strlit("price_high");
        let part = "/price_high/"@ + v.segment();
        assert(key_value("price_high"@, v.segment()) =~= part);
        lemma_part_of_whole(part);
        lemma_parts_of_sums();
    }
}

proof fn lemma_ana_flg_in_path(q: SearchProductQuery)
    ensures
        q.ana_flg matches Some(v) ==> has_part(q.spec_path(), "/ana_flg/"@ + v.segment()),
{
    if let Some(v) = q.ana_flg {
        reveal_strlit("/ana_flg/");
        reveal_strlit("ana_flg");
        let part = "/ana_flg/"@ + v.segment();
        assert(key_value("ana_flg"@, v.segment()) =~= part);
        lemma_part_of_whole(part);
        lemma_parts_of_sums();
    }
}

proof fn lemma_order_in_path(q: SearchProductQuery)
    ensures
        q.order matches Some(v) ==> has_part(q.spec_path(), "/order/"@ + v.segment()),
{
    if let Some(v) = q.order {
        reveal_strlit("/order/");
        reveal_strlit("order");
        let part = "/order/"@ + v.segment();
        assert(key_value("order"@, v.segment()) =~= part);
        lemma_part_of_whole(part);
        lemma_parts_of_sums();
    }
}

proof fn lemma_options_and_or_in_path(q: SearchProductQuery)
    ensures
        q.options_and_or matches Some(v) ==> has_part(q.spec_path(), "/options_and_or/"@ + v.segment()),
{
    if let Some(v) = q.options_and_or {
        reveal_strlit("/options_and_or/");
        reveal_strlit("options_and_or");
        let part = "/options_and_or/"@ + v.segment();
        assert(key_value("options_and_or"@, v.segment()) =~= part);
        lemma_part_of_whole(part);
        lemma_parts_of_sums();
    }
}

proof fn lemma_rate_average_in_path(q: SearchProductQuery)
    ensures
        q.rate_average matches Some(v) ==> has_part(q.spec_path(), "/rate_average/"@ + v.segment()),
{
    if let Some(v) = q.rate_average {
        reveal_strlit("/rate_average/");
        reveal_strlit("rate_average");
        let part = "/rate_average/"@ + v.segment();
        assert(key_value("rate_average"@, v.segment()) =~= part);
        lemma_part_of_whole(part);
        lemma_parts_of_sums();
    }
}

proof fn lemma_per_page_in_path(q: SearchProductQuery)
    ensures
        q.per_page matches Some(v) ==> has_part(q.spec_path(), "/per_page/"@ + v.segment()),
{
    if let Some(v) = q.per_page {
        reveal_strlit("/per_page/");
        reveal_strlit("per_page");
        let part = "/per_page/"@ + v.segment();
        assert(key_value("per_page"@, v.segment()) =~= part);
        lemma_part_of_whole(part);
        lemma_parts_of_sums();
    }
}

proof fn lemma_page_in_path(q: SearchProductQuery)
    ensures
        q.page matches Some(v) ==> has_part(q.spec_path(), "/page/"@ + v.segment()),
{
    if let Some(v) = q.page {
        reveal_strlit("/page/");
        reveal_strlit("page");
        let part = "/page/"@ + v.segment();
        assert(key_value("page"@, v.segment()) =~= part);
        lemma_part_of_whole(part);
        lemma_parts_of_sums();
    }
}

proof fn lemma_release_term_in_path(q: SearchProductQuery)
    ensures
        q.release_term matches Some(v) ==> has_part(q.spec_path(), "/release_term/"@ + v.segment()),
{
    if let Some(v) = q.release_term {
        reveal_strlit("/release_term/");
        reveal_strlit("release_term");
        let part = "/release_term/"@ + v.segment();
        assert(key_value("release_term"@, v.segment()) =~= part);
        lemma_part_of_whole(part);
        lemma_parts_of_sums();
    }
}

proof fn lemma_price_category_in_path(q: SearchProductQuery)
    ensures
        q.price_category matches Some(v) ==> has_part(q.spec_path(), "/price_category/"@ + v.segment()),
{
    if let Some(v) = q.price_category {
        reveal_strlit("/price_category/");
        reveal_strlit("price_category");
        let part = "/price_category/"@ + v.segment();
        assert(key_value("price_category"@, v.segment()) =~= part);
        lemma_part_of_whole(part);
        lemma_parts_of_sums();
    }
}

proof fn lemma_show_type_in_path(q: SearchProductQuery)
    ensures
        q.show_type matches Some(v) ==> has_part(q.spec_path(), "/show_type/"@ + v.segment()),
{
    if let Some(v) = q.show_type {
        reveal_strlit("/show_type/");
        reveal_strlit("show_type");
        let part = "/show_type/"@ + v.segment();
        assert(key_value("show_type"@, v.segment()) =~= part);
        lemma_part_of_whole(part);
        lemma_parts_of_sums();
    }
}

proof fn lemma_from_in_path(q: SearchProductQuery)
    ensures
        q.from matches Some(v) ==> has_part(q.spec_path(), "/from/"@ + v.segment()),
{
    if let Some(v) = q.from {
        reveal_strlit("/from/");
        reveal_strlit("from");
        let part = "/from/"@ + v.segment();
        assert(key_value("from"@, v.segment()) =~= part);
        lemma_part_of_whole(part);
        lemma_parts_of_sums();
    }
}

proof fn lemma_sex_category_in_path(q: SearchProductQuery)
    ensures
        q.sex_category matches Some(v) ==> forall|i: int| #![trigger v@[i]] 0 <= i < v@.len() ==> has_part(
            q.spec_path(),
            "/sex_category["@ + decimal(i as nat) + "]/"@ + v@[i].segment(),
        ),
{
    if let Some(v) = q.sex_category {
        reveal_strlit("/sex_category[");
        reveal_strlit("sex_category");
        reveal_strlit("]/");
        assert forall|i: int| #![trigger v@[i]] 0 <= i < v@.len() implies has_part(
            q.spec_path(),
            "/sex_category["@ + decimal(i as nat) + "]/"@ + v@[i].segment(),
        ) by {
            lemma_array_parts("sex_category"@, v@, i);
            assert(indexed_key_value("sex_category"@, i as nat, v@[i].segment()) =~= "/sex_category["@ + decimal(i as nat) + "]/"@
                + v@[i].segment());
            lemma_parts_of_sums();
        }
    }
}

proof fn lemma_age_category_in_path(q: SearchProductQuery)
    ensures
        q.age_category matches Some(v) ==> forall|i: int| #![trigger v@[i]] 0 <= i < v@.len() ==> has_part(
            q.spec_path(),
            "/age_category["@ + decimal(i as nat) + "]/"@ + v@[i].segment(),
        ),
{
    if let Some(v) = q.age_category {
        reveal_strlit("/age_category[");
        reveal_strlit("age_category");
        reveal_strlit("]/");
        assert forall|i: int| #![trigger v@[i]] 0 <= i < v@.len() implies has_part(
            q.spec_path(),
            "/age_category["@ + decimal(i as nat) + "]/"@ + v@[i].segment(),
        ) by {
            lemma_array_parts("age_category"@, v@, i);
            assert(indexed_key_value("age_category"@, i as nat, v@[i].segment()) =~= "/age_category["@ + decimal(i as nat) + "]/"@
                + v@[i].segment());
            lemma_parts_of_sums();
        }
    }
}

proof fn lemma_work_category_in_path(q: SearchProductQuery)
    ensures
        q.work_category matches Some(v) ==> forall|i: int| #![trigger v@[i]] 0 <= i < v@.len() ==> has_part(
            q.spec_path(),
            "/work_category["@ + decimal(i as nat) + "]/"@ + v@[i].segment(),
        ),
{
    if let Some(v) = q.work_category {
        reveal_strlit("/work_category[");
        reveal_strlit("work_category");
        reveal_strlit("]/");
        assert forall|i: int| #![trigger v@[i]] 0 <= i < v@.len() implies has_part(
            q.spec_path(),
            "/work_category["@ + decimal(i as nat) + "]/"@ + v@[i].segment(),
        ) by {
            lemma_array_parts("work_category"@, v@, i);
            assert(indexed_key_value("work_category"@, i as nat, v@[i].segment()) =~= "/work_category["@ + decimal(i as nat) + "]/"@
                + v@[i].segment());
            lemma_parts_of_sums();
        }
    }
}

proof fn lemma_work_type_in_path(q: SearchProductQuery)
    ensures
        q.work_type matches Some(v) ==> forall|i: int| #![trigger v@[i]] 0 <= i < v@.len() ==> has_part(
            q.spec_path(),
            "/work_type["@ + decimal(i as nat) + "]/"@ + v@[i].segment(),
        ),
{
    if let Some(v) = q.work_type {
        reveal_strlit("/work_type[");
        reveal_strlit("work_type");
        reveal_strlit("]/");
        assert forall|i: int| #![trigger v@[i]] 0 <= i < v@.len() implies has_part(
            q.spec_path(),
            "/work_type["@ + decimal(i as nat) + "]/"@ + v@[i].segment(),
        ) by {
            lemma_array_parts("work_type"@, v@, i);
            assert(indexed_key_value("work_type"@, i as nat, v@[i].segment()) =~= "/work_type["@ + decimal(i as nat) + "]/"@
                + v@[i].segment());
            lemma_parts_of_sums();
        }
    }
}

proof fn lemma_work_type_category_in_path(q: SearchProductQuery)
    ensures
        q.work_type_category matches Some(v) ==> forall|i: int| #![trigger v@[i]] 0 <= i < v@.len() ==> has_part(
            q.spec_path(),
            "/work_type_category["@ + decimal(i as nat) + "]/"@ + v@[i].segment(),
        ),
{
    if let Some(v) = q.work_type_category {
        reveal_strlit("/work_type_category[");
        reveal_strlit("work_type_category");
        reveal_strlit("]/");
        assert forall|i: int| #![trigger v@[i]] 0 <= i < v@.len() implies has_part(
            q.spec_path(),
            "/work_type_category["@ + decimal(i as nat) + "]/"@ + v@[i].segment(),
        ) by {
            lemma_array_parts("work_type_category"@, v@, i);
            assert(indexed_key_value("work_type_category"@, i as nat, v@[i].segment()) =~= "/work_type_category["@ + decimal(i as nat) + "]/"@
                + v@[i].segment());
            lemma_parts_of_sums();
        }
    }
}

proof fn lemma_work_type_category_name_in_path(q: SearchProductQuery)
    ensures
        q.work_type_category_name matches Some(v) ==> forall|i: int| #![trigger v@[i]] 0 <= i < v@.len() ==> has_part(
            q.spec_path(),
            "/work_type_category_name["@ + decimal(i as nat) + "]/"@ + v@[i].segment(),
        ),
{
    if let Some(v) = q.work_type_category_name {
        reveal_strlit("/work_type_category_name[");
        reveal_strlit("work_type_category_name");
        reveal_strlit("]/");
        assert forall|i: int| #![trigger v@[i]] 0 <= i < v@.len() implies has_part(
            q.spec_path(),
            "/work_type_category_name["@ + decimal(i as nat) + "]/"@ + v@[i].segment(),
        ) by {
            lemma_array_parts("work_type_category_name"@, v@, i);
            assert(indexed_key_value("work_type_category_name"@, i as nat, v@[i].segment()) =~= "/work_type_category_name["@ + decimal(i as nat) + "]/"@
                + v@[i].segment());
            lemma_parts_of_sums();
        }
    }
}

proof fn lemma_genre_in_path(q: SearchProductQuery)
    ensures
        q.genre matches Some(v) ==> forall|i: int| #![trigger v@[i]] 0 <= i < v@.len() ==> has_part(
            q.spec_path(),
            "/genre["@ + decimal(i as nat) + "]/"@ + v@[i].segment(),
        ),
{
    if let Some(v) = q.genre {
        reveal_strlit("/genre[");
        reveal_strlit("genre");
        reveal_strlit("]/");
        assert forall|i: int| #![trigger v@[i]] 0 <= i < v@.len() implies has_part(
            q.spec_path(),
            "/genre["@ + decimal(i as nat) + "]/"@ + v@[i].segment(),
        ) by {
            lemma_array_parts("genre"@, v@, i);
            assert(indexed_key_value("genre"@, i as nat, v@[i].segment()) =~= "/genre["@ + decimal(i as nat) + "]/"@
                + v@[i].segment());
            lemma_parts_of_sums();
        }
    }
}

proof fn lemma_genre_name_in_path(q: SearchProductQuery)
    ensures
        q.genre_name matches Some(v) ==> forall|i: int| #![trigger v@[i]] 0 <= i < v@.len() ==> has_part(
            q.spec_path(),
            "/genre_name["@ + decimal(i as nat) + "]/"@ + v@[i].segment(),
        ),
{
    if let Some(v) = q.genre_name {
        reveal_strlit("/genre_name[");
        reveal_strlit("genre_name");
        reveal_strlit("]/");
        assert forall|i: int| #![trigger v@[i]] 0 <= i < v@.len() implies has_part(
            q.spec_path(),
            "/genre_name["@ + decimal(i as nat) + "]/"@ + v@[i].segment(),
        ) by {
            lemma_array_parts("genre_name"@, v@, i);
            assert(indexed_key_value("genre_name"@, i as nat, v@[i].segment()) =~= "/genre_name["@ + decimal(i as nat) + "]/"@
                + v@[i].segment());
            lemma_parts_of_sums();
        }
    }
}

proof fn lemma_options_in_path(q: SearchProductQuery)
    ensures
        q.options matches Some(v) ==> forall|i: int| #![trigger v@[i]] 0 <= i < v@.len() ==> has_part(
            q.spec_path(),
            "/options["@ + decimal(i as nat) + "]/"@ + v@[i].segment(),
        ),
{
    if let Some(v) = q.options {
        reveal_strlit("/options[");
        reveal_strlit("options");
        reveal_strlit("]/");
        assert forall|i: int| #![trigger v@[i]] 0 <= i < v@.len() implies has_part(
            q.spec_path(),
            "/options["@ + decimal(i as nat) + "]/"@ + v@[i].segment(),
        ) by {
            lemma_array_parts("options"@, v@, i);
            assert(indexed_key_value("options"@, i as nat, v@[i].segment()) =~= "/options["@ + decimal(i as nat) + "]/"@
                + v@[i].segment());
            lemma_parts_of_sums();
        }
    }
}

proof fn lemma_options_not_in_path(q: SearchProductQuery)
    ensures
        q.options_not matches Some(v) ==> forall|i: int| #![trigger v@[i]] 0 <= i < v@.len() ==> has_part(
            q.spec_path(),
            "/options_not["@ + decimal(i as nat) + "]/"@ + v@[i].segment(),
        ),
{
    if let Some(v) = q.options_not {
        reveal_strlit("/options_not[");
        reveal_strlit("options_not");
        reveal_strlit("]/");
        assert forall|i: int| #![trigger v@[i]] 0 <= i < v@.len() implies has_part(
            q.spec_path(),
            "/options_not["@ + decimal(i as nat) + "]/"@ + v@[i].segment(),
        ) by {
            lemma_array_parts("options_not"@, v@, i);
            assert(indexed_key_value("options_not"@, i as nat, v@[i].segment()) =~= "/options_not["@ + decimal(i as nat) + "]/"@
                + v@[i].segment());
            lemma_parts_of_sums();
        }
    }
}

proof fn lemma_options_name_in_path(q: SearchProductQuery)
    ensures
        q.options_name matches Some(v) ==> forall|i: int| #![trigger v@[i]] 0 <= i < v@.len() ==> has_part(
            q.spec_path(),
            "/options_name["@ + decimal(i as nat) + "]/"@ + v@[i].segment(),
        ),
{
    if let Some(v) = q.options_name {
        reveal_strlit("/options_name[");
        reveal_strlit("options_name");
        reveal_strlit("]/");
        assert forall|i: int| #![trigger v@[i]] 0 <= i < v@.len() implies has_part(
            q.spec_path(),
            "/options_name["@ + decimal(i as nat) + "]/"@ + v@[i].segment(),
        ) by {
            lemma_array_parts("options_name"@, v@, i);
            assert(indexed_key_value("options_name"@, i as nat, v@[i].segment()) =~= "/options_name["@ + decimal(i as nat) + "]/"@
                + v@[i].segment());
            lemma_parts_of_sums();
        }
    }
}

proof fn lemma_file_type_in_path(q: SearchProductQuery)
    ensures
        q.file_type matches Some(v) ==> forall|i: int| #![trigger v@[i]] 0 <= i < v@.len() ==> has_part(
            q.spec_path(),
            "/file_type["@ + decimal(i as nat) + "]/"@ + v@[i].segment(),
        ),
{
    if let Some(v) = q.file_type {
        reveal_strlit("/file_type[");
        reveal_strlit("file_type");
        reveal_strlit("]/");
        assert forall|i: int| #![trigger v@[i]] 0 <= i < v@.len() implies has_part(
            q.spec_path(),
            "/file_type["@ + decimal(i as nat) + "]/"@ + v@[i].segment(),
        ) by {
            lemma_array_parts("file_type"@, v@, i);
            assert(indexed_key_value("file_type"@, i as nat, v@[i].segment()) =~= "/file_type["@ + decimal(i as nat) + "]/"@
                + v@[i].segment());
            lemma_parts_of_sums();
        }
    }
}

proof fn lemma_soon_in_path(q: SearchProductQuery)
    ensures
        q.soon == Some(true) ==> has_part(q.spec_path(), "/soon/1"@),
{
    if q.soon == Some(true) {
        reveal_strlit("/soon/1");
        reveal_strlit("soon");
        assert(flag_segment("soon"@, q.soon) =~= "/soon/1"@);
        lemma_part_of_whole("/soon/1"@);
        lemma_parts_of_sums();
    }
}

proof fn lemma_dlsite_only_in_path(q: SearchProductQuery)
    ensures
        q.dlsite_only == Some(true) ==> has_part(q.spec_path(), "/dlsite_only/1"@),
{
    if q.dlsite_only == Some(true) {
        reveal_strlit("/dlsite_only/1");
        reveal_strlit("dlsite_only");
        assert(flag_segment("dlsite_only"@, q.dlsite_only) =~= "/dlsite_only/1"@);
        lemma_part_of_whole("/dlsite_only/1"@);
        lemma_parts_of_sums();
    }
}

proof fn lemma_is_pointup_in_path(q: SearchProductQuery)
    ensures
        q.is_pointup == Some(true) ==> has_part(q.spec_path(), "/is_pointup/1"@),
{
    if q.is_pointup == Some(true) {
        reveal_strlit("/is_pointup/1");
        reveal_strlit("is_pointup");
        assert(flag_segment("is_pointup"@, q.is_pointup) =~= "/is_pointup/1"@);
        lemma_part_of_whole("/is_pointup/1"@);
        lemma_parts_of_sums();
    }
}

proof fn lemma_is_free_in_path(q: SearchProductQuery)
    ensures
        q.is_free == Some(true) ==> has_part(q.spec_path(), "/is_free/1"@),
{
    if q.is_free == Some(true) {
        reveal_strlit("/is_free/1");
        reveal_strlit("is_free");
        assert(flag_segment("is_free"@, q.is_free) =~= "/is_free/1"@);
        lemma_part_of_whole("/is_free/1"@);
        lemma_parts_of_sums();
    }
}

proof fn lemma_campaign_and_language_in_path(q: SearchProductQuery)
    ensures
        q.campaign == Some(true) ==> has_part(q.spec_path(), "/campaign/campaign"@),
        has_part(q.spec_path(), "/language/"@ + q.language.name()),
{
    reveal_strlit("/language/");
    reveal_strlit("language");
    let part = "/language/"@ + q.language.name();
    assert(key_value("language"@, q.language.name()) =~= part);
    lemma_part_of_whole(part);
    lemma_part_of_whole("/campaign/campaign"@);
    lemma_parts_of_sums();
}

/// Every filter set on a query reaches its request path under its own
/// name: a set field `f` with value `v` puts `/f/v` in the path (numbers in
/// decimal, names of values as they are written), the `i`-th item `x` of a
/// set list `f` puts `/f[i]/x`, a flag set to true puts `/f/1`, the
/// campaign flag puts `/campaign/campaign`, and the language always stands
/// as `/language/l`.
pub proof fn lemma_set_fields_in_path(q: SearchProductQuery)
    ensures
        q.keyword_creator matches Some(v) ==> has_part(q.spec_path(), "/keyword_creator/"@ + v.segment()),
        q.keyword matches Some(v) ==> has_part(q.spec_path(), "/keyword/"@ + v.segment()),
        q.regist_date_end matches Some(v) ==> has_part(q.spec_path(), "/regist_date_end/"@ + v.segment()),
        q.regist_date_start matches Some(v) ==> has_part(q.spec_path(), "/regist_date_start/"@ + v.segment()),
        q.price_low matches Some(v) ==> has_part(q.spec_path(), "/price_low/"@ + v.segment()),
        q.price_high matches Some(v) ==> has_part(q.spec_path(), "/price_high/"@ + v.segment()),
        q.ana_flg matches Some(v) ==> has_part(q.spec_path(), "/ana_flg/"@ + v.segment()),
        q.order matches Some(v) ==> has_part(q.spec_path(), "/order/"@ + v.segment()),
        q.options_and_or matches Some(v) ==> has_part(q.spec_path(), "/options_and_or/"@ + v.segment()),
        q.rate_average matches Some(v) ==> has_part(q.spec_path(), "/rate_average/"@ + v.segment()),
        q.per_page matches Some(v) ==> has_part(q.spec_path(), "/per_page/"@ + v.segment()),
        q.page matches Some(v) ==> has_part(q.spec_path(), "/page/"@ + v.segment()),
        q.release_term matches Some(v) ==> has_part(q.spec_path(), "/release_term/"@ + v.segment()),
        q.price_category matches Some(v) ==> has_part(q.spec_path(), "/price_category/"@ + v.segment()),
        q.show_type matches Some(v) ==> has_part(q.spec_path(), "/show_type/"@ + v.segment()),
        q.from matches Some(v) ==> has_part(q.spec_path(), "/from/"@ + v.segment()),
        q.sex_category matches Some(v) ==> forall|i: int| #![trigger v@[i]] 0 <= i < v@.len() ==> has_part(
            q.spec_path(),
            "/sex_category["@ + decimal(i as nat) + "]/"@ + v@[i].segment(),
        ),
        q.age_category matches Some(v) ==> forall|i: int| #![trigger v@[i]] 0 <= i < v@.len() ==> has_part(
            q.spec_path(),
            "/age_category["@ + decimal(i as nat) + "]/"@ + v@[i].segment(),
        ),
        q.work_category matches Some(v) ==> forall|i: int| #![trigger v@[i]] 0 <= i < v@.len() ==> has_part(
            q.spec_path(),
            "/work_category["@ + decimal(i as nat) + "]/"@ + v@[i].segment(),
        ),
        q.work_type matches Some(v) ==> forall|i: int| #![trigger v@[i]] 0 <= i < v@.len() ==> has_part(
            q.spec_path(),
            "/work_type["@ + decimal(i as nat) + "]/"@ + v@[i].segment(),
        ),
        q.work_type_category matches Some(v) ==> forall|i: int| #![trigger v@[i]] 0 <= i < v@.len() ==> has_part(
            q.spec_path(),
            "/work_type_category["@ + decimal(i as nat) + "]/"@ + v@[i].segment(),
        ),
        q.work_type_category_name matches Some(v) ==> forall|i: int| #![trigger v@[i]] 0 <= i < v@.len() ==> has_part(
            q.spec_path(),
            "/work_type_category_name["@ + decimal(i as nat) + "]/"@ + v@[i].segment(),
        ),
        q.genre matches Some(v) ==> forall|i: int| #![trigger v@[i]] 0 <= i < v@.len() ==> has_part(
            q.spec_path(),
            "/genre["@ + decimal(i as nat) + "]/"@ + v@[i].segment(),
        ),
        q.genre_name matches Some(v) ==> forall|i: int| #![trigger v@[i]] 0 <= i < v@.len() ==> has_part(
            q.spec_path(),
            "/genre_name["@ + decimal(i as nat) + "]/"@ + v@[i].segment(),
        ),
        q.options matches Some(v) ==> forall|i: int| #![trigger v@[i]] 0 <= i < v@.len() ==> has_part(
            q.spec_path(),
            "/options["@ + decimal(i as nat) + "]/"@ + v@[i].segment(),
        ),
        q.options_not matches Some(v) ==> forall|i: int| #![trigger v@[i]] 0 <= i < v@.len() ==> has_part(
            q.spec_path(),
            "/options_not["@ + decimal(i as nat) + "]/"@ + v@[i].segment(),
        ),
        q.options_name matches Some(v) ==> forall|i: int| #![trigger v@[i]] 0 <= i < v@.len() ==> has_part(
            q.spec_path(),
            "/options_name["@ + decimal(i as nat) + "]/"@ + v@[i].segment(),
        ),
        q.file_type matches Some(v) ==> forall|i: int| #![trigger v@[i]] 0 <= i < v@.len() ==> has_part(
            q.spec_path(),
            "/file_type["@ + decimal(i as nat) + "]/"@ + v@[i].segment(),
        ),
        q.soon == Some(true) ==> has_part(q.spec_path(), "/soon/1"@),
        q.dlsite_only == Some(true) ==> has_part(q.spec_path(), "/dlsite_only/1"@),
        q.is_pointup == Some(true) ==> has_part(q.spec_path(), "/is_pointup/1"@),
        q.is_free == Some(true) ==> has_part(q.spec_path(), "/is_free/1"@),
        q.campaign == Some(true) ==> has_part(q.spec_path(), "/campaign/campaign"@),
        has_part(q.spec_path(), "/language/"@ + q.language.name()),
{
    lemma_keyword_creator_in_path(q);
    lemma_keyword_in_path(q);
    lemma_regist_date_end_in_path(q);
    lemma_regist_date_start_in_path(q);
    lemma_price_low_in_path(q);
    lemma_price_high_in_path(q);
    lemma_ana_flg_in_path(q);
    lemma_order_in_path(q);
    lemma_options_and_or_in_path(q);
    lemma_rate_average_in_path(q);
    lemma_per_page_in_path(q);
    lemma_page_in_path(q);
    lemma_release_term_in_path(q);
    lemma_price_category_in_path(q);
    lemma_show_type_in_path(q);
    lemma_from_in_path(q);
    lemma_sex_category_in_path(q);
    lemma_age_category_in_path(q);
    lemma_work_category_in_path(q);
    lemma_work_type_in_path(q);
    lemma_work_type_category_in_path(q);
    lemma_work_type_category_name_in_path(q);
    lemma_genre_in_path(q);
    lemma_genre_name_in_path(q);
    lemma_options_in_path(q);
    lemma_options_not_in_path(q);
    lemma_options_name_in_path(q);
    lemma_file_type_in_path(q);
    lemma_soon_in_path(q);
    lemma_dlsite_only_in_path(q);
    lemma_is_pointup_in_path(q);
    lemma_is_free_in_path(q);
    lemma_campaign_and_language_in_path(q);
}

} // verus!
