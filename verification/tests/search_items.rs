use dlsite_gamebox::client::search::item::{checked_parse_search_item_html, parse_search_item_html};
use dlsite_gamebox::client::search::page::{
    all_or_first_error, checked_parse_all_search_items, checked_parse_search_html, parse_all_search_items,
    parse_search_html, search_item_htmls,
};
use dlsite_gamebox::error::DlsiteError;
use dlsite_gamebox::interface::product::{AgeCategory, WorkType};

fn item(body: &str) -> String {
    format!(r#"<ul id="search_result_img_box"><li>{body}</li></ul>"#)
}

fn minimal_body(product_id: &str, title: &str) -> String {
    format!(
        r#"<div class="work_thumb_inner"><img src="//img.dlsite.jp/test.jpg"></div>
        <div data-product_id="{product_id}">
            <div class="work_name"><a title="{title}">{title}</a></div>
            <div class="work_genre"><span title="全年齢">全年齢</span></div>
            <div class="maker_name"><a href="//www.dlsite.com/maniax/circle/profile/=/maker_code/RG00001.html">Test Circle</a></div>
            <div class="work_price_wrap"><span class="work_price"><span class="work_price_base">1,000</span></span></div>
            <div class="work_category type_SOU"></div>
        </div>"#
    )
}

fn parse_err(r: Result<impl std::fmt::Debug, DlsiteError>) -> String {
    match r {
        Err(DlsiteError::Parse(m)) => m,
        other => panic!("expected a parse error, got {other:?}"),
    }
}

#[test]
fn minimal_item_is_read() {
    let html = item(&minimal_body("RJ123456", "Test Product"));
    let products = parse_search_html(&html).unwrap();
    assert_eq!(products.len(), 1);
    let p = &products[0];
    assert_eq!(p.id, "RJ123456");
    assert_eq!(p.title, "Test Product");
    assert_eq!(p.circle_name, "Test Circle");
    assert_eq!(p.circle_id, "RG00001");
    assert_eq!(p.price_original, 1000);
    assert_eq!(p.price_sale, None);
    assert_eq!(p.age_category, AgeCategory::General);
    assert_eq!(p.work_type, WorkType::SOU);
    assert_eq!(p.thumbnail_url, "https://img.dlsite.jp/test.jpg");
    assert_eq!(p.creator, None);
    assert_eq!(p.creator_omitted, None);
    assert_eq!(p.dl_count, None);
    assert_eq!(p.rate_count, None);
    assert_eq!(p.review_count, None);
    assert_eq!(p.rating, None);
}

#[test]
fn discounted_adult_item_with_counts() {
    let body = r#"<div class="work_thumb_inner"><img data-src="//img.dlsite.jp/lazy.jpg"></div>
        <div data-product_id="RJ500123">
            <div class="work_name"><a title="Discounted Work">Discounted Work</a></div>
            <div class="maker_name"><a href="/maniax/circle/profile/=/maker_id/RG24350.html">Circle</a></div>
            <div class="author omit"><a href="/x">Creator A</a><a href="/x">Creator B</a></div>
            <div class="work_price_wrap"><span class="work_price">1,100</span><span class="strike">2,200</span></div>
            <div class="work_dl"><span>1,234</span></div>
            <div class="work_review"><a>(56)</a></div>
            <div class="star_rating star_45 mini"></div>
            <div class="work_category work_dl type_RPG"></div>
        </div>"#;
    let p = checked_parse_search_item_html(&item(body)).unwrap().unwrap();
    assert_eq!(p.age_category, AgeCategory::Adult);
    assert_eq!(p.price_original, 2200);
    assert_eq!(p.price_sale, Some(1100));
    assert_eq!(p.creator.as_deref(), Some("Creator A"));
    assert_eq!(p.creator_omitted, Some(true));
    assert_eq!(p.dl_count, Some(1234));
    assert_eq!(p.rate_count, Some(1234));
    assert_eq!(p.review_count, Some(56));
    assert_eq!(p.rating.as_deref(), Some("45"));
    assert_eq!(p.work_type, WorkType::RPG);
    assert_eq!(p.thumbnail_url, "https://img.dlsite.jp/lazy.jpg");
    assert_eq!(p.circle_id, "RG24350");
}

#[test]
fn r15_item_and_unknown_work_type() {
    let body = minimal_body("RJ150888", "Teen")
        .replace("全年齢", "R-15")
        .replace("type_SOU", "type_XYZ foo");
    let p = parse_search_item_html(&item(&body)).unwrap();
    assert_eq!(p.age_category, AgeCategory::R15);
    assert_eq!(p.work_type, WorkType::Unknown(String::new()));
}

#[test]
fn invalid_age_title_is_an_error() {
    let body = minimal_body("RJ1", "T").replace("title=\"全年齢\"", "title=\"R-18\"");
    let r = parse_search_item_html(&item(&body));
    assert_eq!(parse_err(r), "Age category parse error: invalid title");
}

#[test]
fn missing_parts_are_errors_in_order() {
    let no_id = minimal_body("RJ1", "T").replace("data-product_id=\"RJ1\"", "class=\"x\"");
    assert_eq!(parse_err(parse_search_item_html(&item(&no_id))), "Failed to find data element");
    let no_maker = minimal_body("RJ1", "T").replace("maker_name", "maker");
    assert_eq!(parse_err(parse_search_item_html(&item(&no_maker))), "Failed to find maker element");
    let no_price = minimal_body("RJ1", "T").replace("work_price", "price");
    assert_eq!(parse_err(parse_search_item_html(&item(&no_price))), "Failed to find price element");
    let no_title = minimal_body("RJ1", "T").replace("work_name", "name");
    assert_eq!(parse_err(parse_search_item_html(&item(&no_title))), "Failed to get title");
    let bad_price = minimal_body("RJ1", "T").replace("1,000", "free");
    assert_eq!(parse_err(parse_search_item_html(&item(&bad_price))), "Failed to parse string to number");
    let no_category = minimal_body("RJ1", "T").replace("work_category type_SOU", "other");
    assert_eq!(parse_err(parse_search_item_html(&item(&no_category))), "Failed to find work category");
    let no_thumb = minimal_body("RJ1", "T").replace("work_thumb_inner", "thumb");
    assert_eq!(parse_err(parse_search_item_html(&item(&no_thumb))), "Failed to find thumbnail");
}

#[test]
fn title_link_without_title_stops_reading() {
    let body = minimal_body("RJ1", "T").replace("<a title=\"T\">", "<a>");
    assert!(checked_parse_search_item_html(&item(&body)).is_none());
    assert!(checked_parse_search_html(&item(&body)).is_none());
}

#[test]
fn test_parse_empty_html() {
    let products = parse_search_html("").unwrap();
    assert!(products.is_empty(), "Should handle empty HTML");
}

#[test]
fn test_parse_invalid_item_continues_on_error() {
    let html = format!(
        r#"<ul id="search_result_img_box"><li><div>broken</div></li><li>{}</li></ul>"#,
        minimal_body("RJ222222", "Second")
    );
    let products = checked_parse_search_html(&html).unwrap().unwrap();
    assert_eq!(products.len(), 1, "Should handle invalid items");
    assert_eq!(products[0].id, "RJ222222");
}

#[test]
fn items_keep_page_order() {
    let html = format!(
        r#"<ul id="search_result_img_box"><li>{}</li><li>{}</li></ul>"#,
        minimal_body("RJ111111", "First"),
        minimal_body("RJ222222", "Second")
    );
    let products = parse_search_html(&html).unwrap();
    let ids: Vec<&str> = products.iter().map(|p| p.id.as_str()).collect();
    assert_eq!(ids, vec!["RJ111111", "RJ222222"]);
}

#[test]
fn strict_reading_fails_on_first_bad_item() {
    let html = format!(
        r#"<ul id="search_result_img_box"><li>{}</li><li><div>broken</div></li><li>{}</li></ul>"#,
        minimal_body("RJ111111", "First"),
        minimal_body("RJ222222", "Second")
    );
    let r = checked_parse_all_search_items(&html).unwrap();
    assert_eq!(parse_err(r), "Failed to find data element");
}

#[test]
fn strict_and_lenient_reading_agree_on_good_pages() {
    let html = format!(
        r#"<ul id="search_result_img_box"><li>{}</li><li>{}</li></ul>"#,
        minimal_body("RJ111111", "First"),
        minimal_body("RJ222222", "Second")
    );
    let strict = parse_all_search_items(&html).unwrap();
    let lenient = parse_search_html(&html).unwrap();
    assert_eq!(strict.len(), lenient.len());
    for (a, b) in strict.iter().zip(lenient.iter()) {
        assert_eq!(a.id, b.id);
        assert_eq!(a.title, b.title);
        assert_eq!(a.price_original, b.price_original);
    }
}

#[test]
fn item_htmls_are_split_in_order() {
    let html = format!(
        r#"<ul id="search_result_img_box"><li>{}</li><li>{}</li></ul>"#,
        minimal_body("RJ111111", "First"),
        minimal_body("RJ222222", "Second")
    );
    let items = search_item_htmls(&html);
    assert_eq!(items.len(), 2);
    assert!(items[0].contains("RJ111111"));
    assert!(items[1].contains("RJ222222"));
}

#[test]
fn first_error_of_item_results() {
    let ok: Vec<Result<u8, DlsiteError>> = vec![Ok(1), Ok(2)];
    assert_eq!(all_or_first_error(ok).unwrap(), vec![1, 2]);
    let bad: Vec<Result<u8, DlsiteError>> =
        vec![Ok(1), Err(DlsiteError::Parse("first".to_string())), Err(DlsiteError::Parse("second".to_string()))];
    assert_eq!(parse_err(all_or_first_error(bad)), "first");
    let none: Vec<Result<u8, DlsiteError>> = vec![];
    assert!(all_or_first_error(none).unwrap().is_empty());
}

struct Fixture<'a> {
    id: &'a str,
    title: &'a str,
    age: Option<&'a str>,
    circle: &'a str,
    circle_id: &'a str,
    creator: Option<&'a str>,
    price: &'a str,
    strike: Option<&'a str>,
    dl: Option<&'a str>,
    review: Option<&'a str>,
    star: Option<&'a str>,
    work_type: &'a str,
}

fn fixture_item(f: &Fixture) -> String {
    let age = f.age.map(|a| format!(r#"<div class="work_genre"><span title="{a}">{a}</span></div>"#)).unwrap_or_default();
    let creator = f.creator.map(|c| format!(r#"<div class="author"><a href="/x">{c}</a></div>"#)).unwrap_or_default();
    let strike = f.strike.map(|s| format!(r#"<span class="strike">{s}</span>"#)).unwrap_or_default();
    let dl = f.dl.map(|d| format!(r#"<div class="work_dl"><span>{d}</span></div>"#)).unwrap_or_default();
    let review = f.review.map(|r| format!(r#"<div class="work_review"><a>{r}</a></div>"#)).unwrap_or_default();
    let star = f.star.map(|s| format!(r#"<div class="star_rating {s} mini"></div>"#)).unwrap_or_default();
    format!(
        r#"<div class="work_thumb_inner"><img src="//img.dlsite.jp/modpub/images2/work/doujin/{id}_img_sam.jpg"></div>
        <div data-product_id="{id}">
            <div class="work_name"><a title="{title}">{title}</a></div>
            {age}
            <div class="maker_name"><a href="https://www.dlsite.com/maniax/circle/profile/=/maker_id/{circle_id}.html">{circle}</a></div>
            {creator}
            <div class="work_price_wrap"><span class="work_price">{price}</span>{strike}</div>
            {dl}{review}{star}
            <div class="work_category type_{work_type}"></div>
        </div>"#,
        id = f.id,
        title = f.title,
        circle_id = f.circle_id,
        circle = f.circle,
        price = f.price,
        work_type = f.work_type,
    )
}

fn stars(rating: Option<String>) -> Option<f32> {
    rating.map(|tenths| tenths.parse::<f32>().unwrap() / 10.0)
}

fn normal_fixture() -> Fixture<'static> {
    Fixture {
        id: "RJ403038",
        title: "Example Work Title",
        age: Some("全年齢"),
        circle: "Example Circle",
        circle_id: "RG24350",
        creator: Some("Example Author"),
        price: "1,100",
        strike: None,
        dl: Some("1,234"),
        review: Some("(56)"),
        star: Some("star_45"),
        work_type: "SOU",
    }
}

fn search_result_list() -> String {
    let first = Fixture { title: "First Product", creator: None, ..normal_fixture() };
    let second = Fixture {
        id: "RJ404567",
        title: "Second Product",
        age: Some("R-15"),
        creator: Some("Creator B"),
        price: "750",
        strike: Some("1,500"),
        ..normal_fixture()
    };
    let third = Fixture { id: "RJ405999", title: "Third Product Adult", age: None, creator: None, ..normal_fixture() };
    format!(
        r#"<ul id="search_result_img_box"><li>{}</li><li>{}</li><li>{}</li></ul>"#,
        fixture_item(&first),
        fixture_item(&second),
        fixture_item(&third)
    )
}

#[test]
fn test_parse_normal_product() {
    let html = item(&fixture_item(&normal_fixture()));
    let result = parse_search_item_html(&html).expect("Failed to parse normal product");

    assert_eq!(result.id, "RJ403038");
    assert_eq!(result.title, "Example Work Title");
    assert_eq!(result.circle_name, "Example Circle");
    assert_eq!(result.circle_id, "RG24350");
    assert_eq!(result.age_category, AgeCategory::General);
    assert_eq!(result.work_type, WorkType::SOU);

    assert_eq!(result.creator, Some("Example Author".to_string()));
    assert_eq!(result.dl_count, Some(1234));
    assert_eq!(result.review_count, Some(56));
    assert_eq!(result.price_original, 1100);
    assert_eq!(result.price_sale, None);
    assert_eq!(stars(result.rating), Some(4.5));
    assert!(result.thumbnail_url.starts_with("https://"));
}

#[test]
fn test_parse_discounted_product() {
    let f = Fixture {
        id: "RJ500123",
        title: "Discounted Work",
        price: "1,100",
        strike: Some("2,200"),
        star: Some("star_40"),
        ..normal_fixture()
    };
    let result = parse_search_item_html(&item(&fixture_item(&f))).expect("Failed to parse discounted product");

    assert_eq!(result.id, "RJ500123");
    assert_eq!(result.title, "Discounted Work");
    assert_eq!(result.price_original, 2200);
    assert_eq!(result.price_sale, Some(1100));
    assert_eq!(stars(result.rating), Some(4.0));
}

#[test]
fn test_parse_no_creator_product() {
    let f = Fixture { id: "RJ400456", circle: "Solo Circle", creator: None, ..normal_fixture() };
    let result =
        parse_search_item_html(&item(&fixture_item(&f))).expect("Failed to parse product without creator");

    assert_eq!(result.id, "RJ400456");
    assert_eq!(result.creator, None);
    assert_eq!(result.creator_omitted, None);
    assert_eq!(result.circle_name, "Solo Circle");
}

#[test]
fn test_parse_no_review_no_rating_product() {
    let f = Fixture { id: "RJ300789", review: None, star: None, ..normal_fixture() };
    let result = parse_search_item_html(&item(&fixture_item(&f)))
        .expect("Failed to parse product without review/rating");

    assert_eq!(result.id, "RJ300789");
    assert_eq!(result.review_count, None);
    assert_eq!(result.rating, None);
}

#[test]
fn test_parse_adult_product() {
    let f = Fixture { id: "RJ200555", age: None, dl: Some("10,000"), review: Some("(200)"), ..normal_fixture() };
    let result = parse_search_item_html(&item(&fixture_item(&f))).expect("Failed to parse adult product");

    assert_eq!(result.id, "RJ200555");
    assert_eq!(result.age_category, AgeCategory::Adult);
    assert_eq!(result.dl_count, Some(10000));
    assert_eq!(result.review_count, Some(200));
}

#[test]
fn test_parse_r15_product() {
    let f = Fixture { id: "RJ150888", age: Some("R-15"), star: Some("star_42"), ..normal_fixture() };
    let result = parse_search_item_html(&item(&fixture_item(&f))).expect("Failed to parse R-15 product");

    assert_eq!(result.id, "RJ150888");
    assert_eq!(result.age_category, AgeCategory::R15);
    assert_eq!(stars(result.rating), Some(4.2));
}

#[test]
fn test_parse_search_html_list() {
    let html = search_result_list();
    let results = parse_search_html(&html).expect("Failed to parse search result list");

    assert_eq!(results.len(), 3);

    assert_eq!(results[0].id, "RJ403038");
    assert_eq!(results[0].title, "First Product");
    assert_eq!(results[0].age_category, AgeCategory::General);

    assert_eq!(results[1].id, "RJ404567");
    assert_eq!(results[1].title, "Second Product");
    assert_eq!(results[1].age_category, AgeCategory::R15);
    assert_eq!(results[1].price_sale, Some(750));
    assert_eq!(results[1].creator, Some("Creator B".to_string()));

    assert_eq!(results[2].id, "RJ405999");
    assert_eq!(results[2].title, "Third Product Adult");
    assert_eq!(results[2].age_category, AgeCategory::Adult);
    assert_eq!(results[2].creator, None);
}

#[test]
fn test_parse_search_html_parallel_produces_same_results() {
    let html = search_result_list();

    let sequential = parse_search_html(&html).expect("Sequential parse failed");
    let parallel = parse_all_search_items(&html).expect("Parallel parse failed");

    assert_eq!(sequential.len(), parallel.len());

    let mut seq_sorted: Vec<_> = sequential.into_iter().map(|i| i.id).collect();
    let mut par_sorted: Vec<_> = parallel.into_iter().map(|i| i.id).collect();
    seq_sorted.sort();
    par_sorted.sort();
    assert_eq!(seq_sorted, par_sorted);
}

#[test]
fn decimal_star_classes_are_read() {
    let f = Fixture { id: "RJ777777", star: Some("star_x star_ star_4.5"), ..normal_fixture() };
    let result = parse_search_item_html(&item(&fixture_item(&f))).unwrap();
    assert_eq!(result.rating.as_deref(), Some("4.5"));
    assert_eq!(stars(result.rating), Some(0.45));
}

#[test]
fn float_text_agrees_with_std() {
    let samples = [
        "45", "4.5", "+4.5", "-4.5", "4.", ".5", ".", "", "+", "-", "1e1", "1E+2", "1e-3", "1e", "1e+",
        "e1", "inf", "INF", "-Infinity", "infinity", "nan", "NaN", "+nan", "infin", "1.2.3", "0x10", "1_000",
        " 1", "1 ", "4,5", "١", "０", "5e0.5", "..5", "00042", "-0", "1.e5", ".e5",
    ];
    for s in samples {
        assert_eq!(dlsite_gamebox::text::float_text(s), s.parse::<f32>().is_ok(), "{s:?}");
    }
}
