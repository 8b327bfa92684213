//! Circle pages: product lists, profiles and name resolution.

pub mod query;

use vstd::prelude::*;
use crate::client::search::item::{SearchItemView, SearchProductItem};
use crate::client::search::page::{
    checked_parse_search_html, items_view, page_items, page_stops, parse_search_html, read_items, SearchResult,
};
use crate::error::DlsiteError;
use crate::html::{
    all_matches_html, document_matches, document_select_text_attr, first_match_all_text, first_match_attr,
    first_match_text, opt_view, select_all_html, select_first_all_text, select_first_attr, select_first_text,
    strings_view,
};
use crate::text::{
    after_last, concat, has_suffix, owned, parse_i32, part_after_last, spec_parse_i32, str_eq, strip_suffix, trim,
    trimmed,
};

pub use self::query::CircleQuery;

verus! {

/// The bucket of the circle list a name is found in, by its first character:
/// the first kana of its row for hiragana and katakana, `a` for Latin
/// letters, `0` for digits, and `a` for anything else.
pub open spec fn bucket_of(c: char) -> Seq<char> {
    if 'あ' <= c && c <= 'お' {
        "あ"@
    } else if 'か' <= c && c <= 'ご' {
        "か"@
    } else if 'さ' <= c && c <= 'ぞ' {
        "さ"@
    } else if 'た' <= c && c <= 'ど' {
        "た"@
    } else if 'な' <= c && c <= 'の' {
        "な"@
    } else if 'は' <= c && c <= 'ぽ' {
        "は"@
    } else if 'ま' <= c && c <= 'も' {
        "ま"@
    } else if c == 'や' || c == 'ゆ' || c == 'よ' {
        "や"@
    } else if 'ら' <= c && c <= 'ろ' {
        "ら"@
    } else if 'わ' <= c && c <= 'ん' {
        "わ"@
    } else if 'ア' <= c && c <= 'オ' {
        "ア"@
    } else if 'カ' <= c && c <= 'ゴ' {
        "カ"@
    } else if 'サ' <= c && c <= 'ゾ' {
        "サ"@
    } else if 'タ' <= c && c <= 'ド' {
        "タ"@
    } else if 'ナ' <= c && c <= 'ノ' {
        "ナ"@
    } else if 'ハ' <= c && c <= 'ポ' {
        "ハ"@
    } else if 'マ' <= c && c <= 'モ' {
        "マ"@
    } else if c == 'ヤ' || c == 'ユ' || c == 'ヨ' {
        "ヤ"@
    } else if 'ラ' <= c && c <= 'ロ' {
        "ラ"@
    } else if 'ワ' <= c && c <= 'ン' {
        "ワ"@
    } else if ('a' <= c && c <= 'z') || ('A' <= c && c <= 'Z') {
        "a"@
    } else if '0' <= c && c <= '9' {
        "0"@
    } else {
        "a"@
    }
}

/// The bucket of a circle name; an empty name counts as starting with `a`.
pub open spec fn name_bucket(name: Seq<char>) -> Seq<char> {
    bucket_of(if name.len() == 0 { 'a' } else { name[0] })
}

/// Whether `h` begins a row of the hiragana syllabary.
pub open spec fn hiragana_row_head(h: char) -> bool {
    h == 'あ' || h == 'か' || h == 'さ' || h == 'た' || h == 'な' || h == 'は' || h == 'ま' || h == 'や' || h == 'ら' || h == 'わ'
}

/// Whether `h` begins a row of the katakana syllabary.
pub open spec fn katakana_row_head(h: char) -> bool {
    h == 'ア' || h == 'カ' || h == 'サ' || h == 'タ' || h == 'ナ' || h == 'ハ' || h == 'マ' || h == 'ヤ' || h == 'ラ' || h == 'ワ'
}

/// A name that starts with a hiragana of one of the rows (the small
/// `ゃ`, `ゅ`, `ょ` and `ゎ` aside) is listed under the head of that row:
/// the last row head that does not come after its first character.
pub proof fn lemma_hiragana_bucket(name: Seq<char>)
    requires
        name.len() > 0,
        'あ' <= name[0] && name[0] <= 'ん',
        name[0] != 'ゃ' && name[0] != 'ゅ' && name[0] != 'ょ' && name[0] != 'ゎ',
    ensures
        name_bucket(name).len() == 1,
        hiragana_row_head(name_bucket(name)[0]),
        name_bucket(name)[0] <= name[0],
        forall|h: char| hiragana_row_head(h) && h <= name[0] ==> h <= name_bucket(name)[0],
{
    reveal_strlit("あ");
    reveal_strlit("か");
    reveal_strlit("さ");
    reveal_strlit("た");
    reveal_strlit("な");
    reveal_strlit("は");
    reveal_strlit("ま");
    reveal_strlit("や");
    reveal_strlit("ら");
    reveal_strlit("わ");
    reveal_strlit("ア");
    reveal_strlit("カ");
    reveal_strlit("サ");
    reveal_strlit("タ");
    reveal_strlit("ナ");
    reveal_strlit("ハ");
    reveal_strlit("マ");
    reveal_strlit("ヤ");
    reveal_strlit("ラ");
    reveal_strlit("ワ");
    reveal_strlit("a");
    reveal_strlit("0");
}

/// A name that starts with a katakana of one of the rows (the small
/// `ャ`, `ュ`, `ョ` and `ヮ` aside) is listed under the head of that row:
/// the last row head that does not come after its first character.
pub proof fn lemma_katakana_bucket(name: Seq<char>)
    requires
        name.len() > 0,
        'ア' <= name[0] && name[0] <= 'ン',
        name[0] != 'ャ' && name[0] != 'ュ' && name[0] != 'ョ' && name[0] != 'ヮ',
    ensures
        name_bucket(name).len() == 1,
        katakana_row_head(name_bucket(name)[0]),
        name_bucket(name)[0] <= name[0],
        forall|h: char| katakana_row_head(h) && h <= name[0] ==> h <= name_bucket(name)[0],
{
    reveal_strlit("あ");
    reveal_strlit("か");
    reveal_strlit("さ");
    reveal_strlit("た");
    reveal_strlit("な");
    reveal_strlit("は");
    reveal_strlit("ま");
    reveal_strlit("や");
    reveal_strlit("ら");
    reveal_strlit("わ");
    reveal_strlit("ア");
    reveal_strlit("カ");
    reveal_strlit("サ");
    reveal_strlit("タ");
    reveal_strlit("ナ");
    reveal_strlit("ハ");
    reveal_strlit("マ");
    reveal_strlit("ヤ");
    reveal_strlit("ラ");
    reveal_strlit("ワ");
    reveal_strlit("a");
    reveal_strlit("0");
}

/// Names that start with a Latin letter are listed under `a`, names that
/// start with a digit under `0`.
pub proof fn lemma_latin_and_digit_buckets(name: Seq<char>)
    requires
        name.len() > 0,
    ensures
        ('a' <= name[0] && name[0] <= 'z') || ('A' <= name[0] && name[0] <= 'Z') ==> name_bucket(name) == "a"@,
        '0' <= name[0] && name[0] <= '9' ==> name_bucket(name) == "0"@,
{
}

/// Determine the name bucket for circle name resolution.
pub fn get_name_bucket(name: &str) -> (r: &'static str)
    ensures
        r@ == name_bucket(name@),
{
    let c = if name.unicode_len() == 0 { 'a' } else { name.get_char(0) };
    if 'あ' <= c && c <= 'お' {
        "あ"
    } else if 'か' <= c && c <= 'ご' {
        "か"
    } else if 'さ' <= c && c <= 'ぞ' {
        "さ"
    } else if 'た' <= c && c <= 'ど' {
        "た"
    } else if 'な' <= c && c <= 'の' {
        "な"
    } else if 'は' <= c && c <= 'ぽ' {
        "は"
    } else if 'ま' <= c && c <= 'も' {
        "ま"
    } else if c == 'や' || c == 'ゆ' || c == 'よ' {
        "や"
    } else if 'ら' <= c && c <= 'ろ' {
        "ら"
    } else if 'わ' <= c && c <= 'ん' {
        "わ"
    } else if 'ア' <= c && c <= 'オ' {
        "ア"
    } else if 'カ' <= c && c <= 'ゴ' {
        "カ"
    } else if 'サ' <= c && c <= 'ゾ' {
        "サ"
    } else if 'タ' <= c && c <= 'ド' {
        "タ"
    } else if 'ナ' <= c && c <= 'ノ' {
        "ナ"
    } else if 'ハ' <= c && c <= 'ポ' {
        "ハ"
    } else if 'マ' <= c && c <= 'モ' {
        "マ"
    } else if c == 'ヤ' || c == 'ユ' || c == 'ヨ' {
        "ヤ"
    } else if 'ラ' <= c && c <= 'ロ' {
        "ラ"
    } else if 'ワ' <= c && c <= 'ン' {
        "ワ"
    } else if ('a' <= c && c <= 'z') || ('A' <= c && c <= 'Z') {
        "a"
    } else if '0' <= c && c <= '9' {
        "0"
    } else {
        "a"
    }
}


/// The product list block of a circle page.
pub const PRODUCT_LIST: &'static str = "#search_result_list";
/// The total number of products on a circle page.
pub const TOTAL_COUNT: &'static str = ".page_total > strong";
/// The circle's name on its profile page.
pub const PROFILE_NAME: &'static str = ".maker_name";
/// The circle's introduction on its profile page.
pub const PROFILE_INTRODUCTION: &'static str = ".maker_introduction";
/// The banner image on a circle's profile page.
pub const PROFILE_BANNER: &'static str = ".maker_header img";
/// Circle links on a circle list page.
pub const CIRCLE_LINKS: &'static str = ".circle_list a, .maker_list a";

/// The HTML of the first product list block of a circle page.
pub open spec fn circle_list_html(html: Seq<char>) -> Option<Seq<char>> {
    let lists = all_matches_html(html, PRODUCT_LIST@);
    if lists.len() == 0 {
        None
    } else {
        Some(lists[0])
    }
}

/// The total product count shown on a circle page.
pub open spec fn circle_count_of(html: Seq<char>) -> Result<i32, Seq<char>> {
    match first_match_text(html, TOTAL_COUNT@) {
        None => Err("No total item count found"@),
        Some(None) => Err("No total item count found 2"@),
        Some(Some(t)) => match spec_parse_i32(t) {
            Some(v) => Ok(v as i32),
            None => Err("Failed to parse total item count"@),
        },
    }
}

/// Whether reading a circle page stops without an answer: its product list
/// and count are found and some product of the list cannot be read.
pub open spec fn circle_page_stops(html: Seq<char>) -> bool {
    circle_list_html(html) matches Some(list) && circle_count_of(html) is Ok && page_stops(list)
}

/// Whether `e` is a parse error with message `msg`.
pub open spec fn is_parse_error(e: DlsiteError, msg: Seq<char>) -> bool {
    e matches DlsiteError::Parse(m) && m@ == msg
}

/// Whether `r` is the result of reading the circle page `html`.
pub open spec fn circle_page_matches(r: Result<SearchResult, DlsiteError>, html: Seq<char>, query_path: Seq<char>) -> bool {
    match circle_list_html(html) {
        None => r matches Err(e) && is_parse_error(e, "Product list not found"@),
        Some(list) => match circle_count_of(html) {
            Err(m) => r matches Err(e) && is_parse_error(e, m),
            Ok(count) => r matches Ok(res) && res.count == count && res.query_path@ == query_path
                && items_view(res.products@) == read_items(page_items(list)),
        },
    }
}

fn read_total_count(html: &str) -> (r: Result<i32, DlsiteError>)
    ensures
        match circle_count_of(html@) {
            Ok(v) => r matches Ok(x) && x == v,
            Err(m) => r matches Err(e) && is_parse_error(e, m),
        },
{
    match select_first_text(html, TOTAL_COUNT) {
        None => Err(DlsiteError::Parse(owned("No total item count found"))),
        Some(None) => Err(DlsiteError::Parse(owned("No total item count found 2"))),
        Some(Some(t)) => match parse_i32(t.as_str()) {
            Some(v) => Ok(v),
            None => Err(DlsiteError::Parse(owned("Failed to parse total item count"))),
        },
    }
}

/// Read the products and total count of a circle page fetched with
/// `query_path`.
pub fn read_circle_page(html: &str, query_path: String) -> (r: Result<SearchResult, DlsiteError>)
    requires
        !circle_page_stops(html@),
    ensures
        circle_page_matches(r, html@, query_path@),
{
    let lists = select_all_html(html, PRODUCT_LIST);
    if lists.len() == 0 {
        return Err(DlsiteError::Parse(owned("Product list not found")));
    }
    assert(strings_view(lists@)[0] == lists@[0]@);
    let count = match read_total_count(html) {
        Ok(c) => c,
        Err(e) => return Err(e),
    };
    let products = match parse_search_html(lists[0].as_str()) {
        Ok(p) => p,
        Err(e) => return Err(e),
    };
    Ok(SearchResult { products, count, query_path })
}

/// Read the products and total count of a circle page, or give `None` when
/// reading one of its products stops without an answer.
pub fn checked_read_circle_page(html: &str, query_path: String) -> (r: Option<Result<SearchResult, DlsiteError>>)
    ensures
        r is None <==> circle_page_stops(html@),
        r matches Some(x) ==> circle_page_matches(x, html@, query_path@),
{
    let lists = select_all_html(html, PRODUCT_LIST);
    if lists.len() > 0 {
        assert(strings_view(lists@)[0] == lists@[0]@);
        if read_total_count(html).is_ok() && checked_parse_search_html(lists[0].as_str()).is_none() {
            return None;
        }
    }
    Some(read_circle_page(html, query_path))
}

/// The products of a list whose work type is a game, in order.
pub open spec fn game_items(items: Seq<SearchProductItem>) -> Seq<SearchProductItem>
    decreases items.len(),
{
    if items.len() == 0 {
        Seq::empty()
    } else if items.last().work_type.spec_is_game() {
        game_items(items.drop_last()).push(items.last())
    } else {
        game_items(items.drop_last())
    }
}

/// Keep only the products whose work type is a game, in order.
pub fn games_only(products: Vec<SearchProductItem>) -> (r: Vec<SearchProductItem>)
    ensures
        r@ == game_items(products@),
{
    let ghost all = products@;
    let total = products.len();
    let mut rest = products;
    let mut result: Vec<SearchProductItem> = Vec::new();
    let mut i: usize = 0;
    while rest.len() > 0
        invariant
            i <= all.len(),
            i + rest@.len() == all.len(),
            all.len() == total,
            rest@ == all.skip(i as int),
            result@ == game_items(all.take(i as int)),
        decreases rest.len(),
    {
        let item = rest.remove(0);
        proof {
            assert(all.take(i + 1).drop_last() =~= all.take(i as int));
            assert(all.take(i + 1).last() == item);
            assert(rest@ =~= all.skip(i + 1));
        }
        if item.work_type.is_game() {
            result.push(item);
        }
        i = i + 1;
    }
    assert(all.take(i as int) =~= all);
    result
}

/// Basic profile metadata for a DLsite circle (maker).
#[derive(Debug, Clone)]
pub struct CircleProfile {
    /// The circle id.
    pub id: String,
    /// The circle's name.
    pub name: String,
    /// The circle's introduction.
    pub description: Option<String>,
    /// The banner image URL.
    pub banner_url: Option<String>,
}

/// The trimmed text when it is not empty.
pub open spec fn nonempty_trimmed(t: Option<Seq<char>>) -> Option<Seq<char>> {
    match t {
        Some(s) => if trimmed(s).len() > 0 { Some(trimmed(s)) } else { None },
        None => None,
    }
}

/// Read the profile of circle `circle_id` from its page: the trimmed first
/// text of the name (the id when there is none), the trimmed introduction
/// when it is not empty, and the banner image's `src`.
pub fn read_circle_profile(circle_id: &str, html: &str) -> (p: CircleProfile)
    ensures
        p.id@ == circle_id@,
        p.name@ == (match first_match_text(html@, PROFILE_NAME@) {
            Some(Some(t)) => trimmed(t),
            _ => circle_id@,
        }),
        opt_view(p.description) == nonempty_trimmed(first_match_all_text(html@, PROFILE_INTRODUCTION@)),
        opt_view(p.banner_url) == (match first_match_attr(html@, PROFILE_BANNER@, "src"@) {
            Some(Some(s)) => Some(s),
            _ => None,
        }),
{
    let name = match select_first_text(html, PROFILE_NAME) {
        Some(Some(t)) => owned(trim(t.as_str())),
        _ => owned(circle_id),
    };
    let description = match select_first_all_text(html, PROFILE_INTRODUCTION) {
        Some(t) => {
            let d = trim(t.as_str());
            if d.unicode_len() > 0 {
                Some(owned(d))
            } else {
                None
            }
        },
        None => None,
    };
    let banner_url = match select_first_attr(html, PROFILE_BANNER, "src") {
        Some(Some(s)) => Some(s),
        _ => None,
    };
    CircleProfile { id: owned(circle_id), name, description, banner_url }
}

/// The path of the circle list page where a circle name is looked up.
pub fn circle_list_path(circle_name: &str) -> (path: String)
    ensures
        path@ == "/home/circle/list/=/name_header/"@ + name_bucket(circle_name@),
{
    concat("/home/circle/list/=/name_header/", get_name_bucket(circle_name))
}

/// The root of the DLsite web site, above every floor.
pub open spec fn site_root() -> Seq<char> {
    "https://www.dlsite.com"@
}

/// The full URL of the circle list page where a circle name is looked up:
/// the list path under the site root, whatever floor the client targets.
pub fn circle_list_url(circle_name: &str) -> (url: String)
    ensures
        url@ == site_root() + "/home/circle/list/=/name_header/"@ + name_bucket(circle_name@),
{
    let path = circle_list_path(circle_name);
    let url = concat("https://www.dlsite.com", path.as_str());
    assert(url@ =~= site_root() + ("/home/circle/list/=/name_header/"@ + name_bucket(circle_name@)));
    url
}

/// The maker id in a link to a circle profile: the last path segment
/// without its `.html` ending, when it has one.
pub open spec fn maker_id_of(href: Seq<char>) -> Option<Seq<char>> {
    let last = after_last(href, '/');
    if has_suffix(last, ".html"@) {
        Some(last.take(last.len() - ".html"@.len()))
    } else {
        None
    }
}

/// The maker id of the first link whose trimmed first text is `name` and
/// whose target has a maker id.
pub open spec fn first_maker_id(links: Seq<(Option<Seq<char>>, Option<Seq<char>>)>, name: Seq<char>) -> Option<Seq<char>>
    decreases links.len(),
{
    if links.len() == 0 {
        None
    } else {
        let (text, href) = links[0];
        if text is Some && trimmed(text.unwrap()) == name && href is Some && maker_id_of(href.unwrap()) is Some {
            maker_id_of(href.unwrap())
        } else {
            first_maker_id(links.drop_first(), name)
        }
    }
}

/// The maker id of the circle named exactly `circle_name` on the circle
/// list page `html`, if it is listed there.
pub fn find_maker_id(html: &str, circle_name: &str) -> (r: Option<String>)
    ensures
        opt_view(r) == first_maker_id(document_matches(html@, CIRCLE_LINKS@, "href"@), circle_name@),
{
    let links = document_select_text_attr(html, CIRCLE_LINKS, "href");
    let ghost views = links@.map_values(|p: (Option<String>, Option<String>)| (opt_view(p.0), opt_view(p.1)));
    let mut i: usize = 0;
    assert(views.skip(0) =~= views);
    while i < links.len()
        invariant
            i <= links@.len(),
            views == links@.map_values(|p: (Option<String>, Option<String>)| (opt_view(p.0), opt_view(p.1))),
            views == document_matches(html@, CIRCLE_LINKS@, "href"@),
            first_maker_id(views, circle_name@) == first_maker_id(views.skip(i as int), circle_name@),
        decreases links.len() - i,
    {
        proof {
            assert(views.skip(i as int).drop_first() =~= views.skip(i + 1));
            assert(views.skip(i as int)[0] == views[i as int]);
        }
        let (text, href) = &links[i];
        if let Some(t) = text {
            if str_eq(trim(t.as_str()), circle_name) {
                if let Some(h) = href {
                    if let Some(id) = strip_suffix(part_after_last(h.as_str(), '/'), ".html") {
                        return Some(owned(id));
                    }
                }
            }
        }
        i = i + 1;
    }
    assert(views.skip(i as int).len() == 0);
    None
}

} // verus!
