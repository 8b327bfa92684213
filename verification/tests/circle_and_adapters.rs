use dlsite_gamebox::adapters::download::download_target_url;
use dlsite_gamebox::adapters::play_library::{library_count_url, library_sales_url, works_lookup_unsupported};
use dlsite_gamebox::adapters::viewer::{manifest_token_url, viewer_session_unsupported};
use dlsite_gamebox::client::circle::{
    checked_read_circle_page, circle_list_path, circle_list_url, find_maker_id, games_only, get_name_bucket, read_circle_page,
    read_circle_profile,
};
use dlsite_gamebox::client::search::SearchProductItem;
use dlsite_gamebox::error::DlsiteError;
use dlsite_gamebox::interface::product::{AgeCategory, WorkType};

fn parse_message(e: DlsiteError) -> String {
    match e {
        DlsiteError::Parse(m) => m,
        other => panic!("expected a parse error, got {other:?}"),
    }
}

fn item_body(product_id: &str, work_type: &str) -> String {
    format!(
        r#"<div class="work_thumb_inner"><img src="//img.dlsite.jp/t.jpg"></div>
        <div data-product_id="{product_id}">
            <div class="work_name"><a title="Work {product_id}">Work</a></div>
            <div class="work_genre"><span title="全年齢">全年齢</span></div>
            <div class="maker_name"><a href="/maniax/circle/profile/=/maker_id/RG24350.html">Circle</a></div>
            <div class="work_price_wrap"><span class="work_price">550</span></div>
            <div class="work_category type_{work_type}"></div>
        </div>"#
    )
}

fn product(id: &str, work_type: WorkType) -> SearchProductItem {
    SearchProductItem {
        id: id.to_string(),
        title: String::new(),
        creator: None,
        creator_omitted: None,
        circle_name: String::new(),
        circle_id: String::new(),
        dl_count: None,
        rate_count: None,
        review_count: None,
        price_original: 0,
        price_sale: None,
        age_category: AgeCategory::General,
        work_type,
        thumbnail_url: String::new(),
        rating: None,
    }
}

#[test]
fn name_buckets() {
    assert_eq!(get_name_bucket("あいう"), "あ");
    assert_eq!(get_name_bucket("ごはん"), "か");
    assert_eq!(get_name_bucket("ぽぷら"), "は");
    assert_eq!(get_name_bucket("ゆめ"), "や");
    assert_eq!(get_name_bucket("ん"), "わ");
    assert_eq!(get_name_bucket("サークル"), "サ");
    assert_eq!(get_name_bucket("ヨル"), "ヤ");
    assert_eq!(get_name_bucket("Zeta"), "a");
    assert_eq!(get_name_bucket("7th"), "0");
    assert_eq!(get_name_bucket("漢字"), "a");
    assert_eq!(get_name_bucket(""), "a");
}

#[test]
fn circle_list_path_uses_bucket() {
    assert_eq!(circle_list_path("サークル"), "/home/circle/list/=/name_header/サ");
    assert_eq!(circle_list_path("abc"), "/home/circle/list/=/name_header/a");
}

#[test]
fn circle_profile_is_read() {
    let html = r#"<div class="maker_header"><img src="https://img.dlsite.jp/banner.jpg"></div>
        <div class="maker_name">  Example Circle  </div>
        <div class="maker_introduction"> Hello <b>world</b> </div>"#;
    let p = read_circle_profile("RG24350", html);
    assert_eq!(p.id, "RG24350");
    assert_eq!(p.name, "Example Circle");
    assert_eq!(p.description.as_deref(), Some("Hello world"));
    assert_eq!(p.banner_url.as_deref(), Some("https://img.dlsite.jp/banner.jpg"));
}

#[test]
fn circle_profile_falls_back() {
    let p = read_circle_profile("RG1", r#"<div class="maker_introduction">   </div>"#);
    assert_eq!(p.name, "RG1");
    assert_eq!(p.description, None);
    assert_eq!(p.banner_url, None);
}

#[test]
fn maker_id_of_named_circle() {
    let html = r#"<html><body><ul class="circle_list">
        <li><a href="/home/circle/profile/=/maker_id/RG00001.html">Other</a></li>
        <li><a href="/home/circle/profile/=/maker_id/RG24350.html"> Example Circle </a></li>
        </ul></body></html>"#;
    assert_eq!(find_maker_id(html, "Example Circle").as_deref(), Some("RG24350"));
    assert_eq!(find_maker_id(html, "Missing"), None);
    let no_html_suffix = r#"<ul class="maker_list"><li><a href="/profile/RG9">Example Circle</a></li></ul>"#;
    assert_eq!(find_maker_id(no_html_suffix, "Example Circle"), None);
}

#[test]
fn circle_page_is_read() {
    let html = format!(
        r#"<div class="page_total"><strong>2</strong></div>
        <div id="search_result_list"><ul id="search_result_img_box"><li>{}</li><li>{}</li></ul></div>"#,
        item_body("RJ000001", "RPG"),
        item_body("RJ000002", "SOU")
    );
    let r = checked_read_circle_page(&html, "/circle/profile".to_string()).unwrap().unwrap();
    assert_eq!(r.count, 2);
    assert_eq!(r.query_path, "/circle/profile");
    let ids: Vec<&str> = r.products.iter().map(|p| p.id.as_str()).collect();
    assert_eq!(ids, vec!["RJ000001", "RJ000002"]);
}

#[test]
fn circle_page_errors() {
    let no_list = r#"<div class="page_total"><strong>2</strong></div>"#;
    assert_eq!(parse_message(read_circle_page(no_list, String::new()).unwrap_err()), "Product list not found");
    let no_count = r#"<div id="search_result_list"></div>"#;
    assert_eq!(parse_message(read_circle_page(no_count, String::new()).unwrap_err()), "No total item count found");
    let empty_count = r#"<div id="search_result_list"></div><div class="page_total"><strong></strong></div>"#;
    assert_eq!(parse_message(read_circle_page(empty_count, String::new()).unwrap_err()), "No total item count found 2");
    let bad_count = r#"<div id="search_result_list"></div><div class="page_total"><strong>many</strong></div>"#;
    assert_eq!(parse_message(read_circle_page(bad_count, String::new()).unwrap_err()), "Failed to parse total item count");
}

#[test]
fn only_games_are_kept() {
    let products = vec![
        product("RJ1", WorkType::RPG),
        product("RJ2", WorkType::SOU),
        product("RJ3", WorkType::ADV),
        product("RJ4", WorkType::MNG),
    ];
    let ids: Vec<String> = games_only(products).into_iter().map(|p| p.id).collect();
    assert_eq!(ids, vec!["RJ1".to_string(), "RJ3".to_string()]);
}

#[test]
fn play_api_urls() {
    assert_eq!(download_target_url("RJ403038"), "https://play.dlsite.com/api/v3/download?workno=RJ403038");
    assert_eq!(library_count_url(None), "https://play.dlsite.com/api/v3/content/count");
    assert_eq!(library_count_url(Some(42)), "https://play.dlsite.com/api/v3/content/count?last=42");
    assert_eq!(library_sales_url(Some(-3)), "https://play.dlsite.com/api/v3/content/sales?last=-3");
    assert_eq!(library_sales_url(None), "https://play.dlsite.com/api/v3/content/sales");
    assert_eq!(
        manifest_token_url("RJ403038"),
        "https://play.dl.dlsite.com/api/v3/download/sign/cookie?workno=RJ403038"
    );
}

#[test]
fn post_endpoints_are_unsupported() {
    assert_eq!(
        parse_message(works_lookup_unsupported()),
        "POST /api/v3/content/works not yet implemented - requires POST support"
    );
    assert_eq!(
        parse_message(viewer_session_unsupported("RJ1")),
        "POST /api/v3/viewer/token/RJ1 not yet implemented - requires POST support"
    );
}

#[test]
fn circle_list_url_is_under_the_site_root() {
    assert_eq!(circle_list_url("Zebra"), "https://www.dlsite.com/home/circle/list/=/name_header/a");
    assert_eq!(circle_list_url("サークル"), "https://www.dlsite.com/home/circle/list/=/name_header/サ");
}
