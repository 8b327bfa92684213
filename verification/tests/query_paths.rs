use dlsite_gamebox::client::circle::CircleQuery;
use dlsite_gamebox::client::search::SearchProductQuery;
use dlsite_gamebox::interface::product::FileType;
use dlsite_gamebox::interface::query::{Language, Order, SexCategory};

#[test]
fn circle_param() {
    assert_eq!(
        "/circle/profile/=/show_type/3/hd/1/without_order/1/maker_id/RG24350.html",
        CircleQuery::default().to_path("RG24350")
    );
}

#[test]
fn circle_param_1() {
    assert_eq!(
        "/circle/profile/=/show_type/3/hd/1/without_order/1/page/2/maker_id/RG24350.html",
        CircleQuery {
            page: Some(2),
            ..Default::default()
        }
        .to_path("RG24350")
    );
}

#[test]
fn circle_param_2() {
    assert_eq!(
        "/circle/profile/=/show_type/3/hd/1/without_order/1/page/2/maker_id/RG24350.html/order/price",
        CircleQuery {
            page: Some(2),
            order: Some(Order::Price),
            ..Default::default()
        }
        .to_path("RG24350")
    );
}

#[test]
fn per_page_appears_exactly_once() {
    let path = CircleQuery {
        per_page: Some(30),
        ..Default::default()
    }
    .to_path("RG24350");
    let count = path.matches("/per_page/").count();
    assert_eq!(1, count, "per_page should appear exactly once, got: {path}");
}

#[test]
fn circle_options_are_indexed() {
    let path = CircleQuery {
        options: Some(vec!["JPN".to_string(), "NM".to_string()]),
        per_page: Some(50),
        ..Default::default()
    }
    .to_path("RG1");
    assert_eq!(
        "/circle/profile/=/options[0]/JPN/options[1]/NM/per_page/50/show_type/3/hd/1/without_order/1/maker_id/RG1.html",
        path
    );
}

#[test]
fn product_search_param_default() {
    assert_eq!(
        "/fsr/ajax/=/language/jp",
        SearchProductQuery::default().to_path()
    );
}

#[test]
fn product_search_param_1() {
    assert_eq!(
        "/fsr/ajax/=/language/jp/sex_category[0]/male/price_low/801/file_type[0]/PNG/file_type[1]/EXE/soon/1",
        SearchProductQuery {
            sex_category: Some(vec![SexCategory::Male]),
            price_low: Some(801),
            file_type: Some(vec![FileType::PNG, FileType::EXE]),
            soon: Some(true),
            is_free: Some(false),
            ..Default::default()
        }
        .to_path()
    );
}

#[test]
fn campaign_true_produces_path_segment() {
    let path = SearchProductQuery {
        campaign: Some(true),
        ..Default::default()
    }
    .to_path();
    assert!(
        path.contains("/campaign/campaign"),
        "expected /campaign/campaign in {path}"
    );
}

#[test]
fn campaign_false_omits_path_segment() {
    let path = SearchProductQuery {
        campaign: Some(false),
        ..Default::default()
    }
    .to_path();
    assert!(
        !path.contains("campaign"),
        "expected no campaign segment in {path}"
    );
}

#[test]
fn campaign_none_omits_path_segment() {
    let path = SearchProductQuery {
        campaign: None,
        ..Default::default()
    }
    .to_path();
    assert!(
        !path.contains("campaign"),
        "expected no campaign segment in {path}"
    );
}

#[test]
fn regist_date_start_in_path() {
    let path = SearchProductQuery {
        regist_date_start: Some("2022-01-01".to_string()),
        ..Default::default()
    }
    .to_path();
    assert!(
        path.contains("/regist_date_start/2022-01-01"),
        "got: {path}"
    );
}

#[test]
fn genre_name_array_in_path() {
    let path = SearchProductQuery {
        genre_name: Some(vec!["ASMR".to_string()]),
        ..Default::default()
    }
    .to_path();
    assert!(path.contains("/genre_name[0]/ASMR"), "got: {path}");
}

#[test]
fn options_name_array_in_path() {
    let path = SearchProductQuery {
        options_name: Some(vec!["日本語作品".to_string()]),
        ..Default::default()
    }
    .to_path();
    assert!(path.contains("/options_name[0]/日本語作品"), "got: {path}");
}

#[test]
fn work_type_category_name_array_in_path() {
    let path = SearchProductQuery {
        work_type_category_name: Some(vec!["ボイス・ASMR".to_string()]),
        ..Default::default()
    }
    .to_path();
    assert!(
        path.contains("/work_type_category_name[0]/ボイス・ASMR"),
        "got: {path}"
    );
}

#[test]
fn show_type_in_path() {
    let path = SearchProductQuery {
        show_type: Some(1),
        ..Default::default()
    }
    .to_path();
    assert!(path.contains("/show_type/1"), "got: {path}");
}

#[test]
fn from_in_path() {
    let path = SearchProductQuery {
        from: Some("fs.detail".to_string()),
        ..Default::default()
    }
    .to_path();
    assert!(path.contains("/from/fs.detail"), "got: {path}");
}

#[test]
fn dlsite_only_true_in_path() {
    let path = SearchProductQuery {
        dlsite_only: Some(true),
        ..Default::default()
    }
    .to_path();
    assert!(path.contains("/dlsite_only/1"), "got: {path}");
}

#[test]
fn dlsite_only_false_omitted() {
    let path = SearchProductQuery {
        dlsite_only: Some(false),
        ..Default::default()
    }
    .to_path();
    assert!(!path.contains("dlsite_only"), "got: {path}");
}

#[test]
fn price_category_in_path() {
    let path = SearchProductQuery {
        price_category: Some(4),
        ..Default::default()
    }
    .to_path();
    assert!(path.contains("/price_category/4"), "got: {path}");
}

#[test]
fn language_en_produces_en_segment() {
    let path = SearchProductQuery {
        language: Language::En,
        ..Default::default()
    }
    .to_path();
    assert_eq!("/fsr/ajax/=/language/en", path);
}

#[test]
fn search_path_keeps_field_order() {
    let path = SearchProductQuery {
        keyword: Some("ASMR".to_string()),
        order: Some(Order::ReleaseD),
        genre: Some(vec![497, 60]),
        page: Some(2),
        is_pointup: Some(true),
        from: Some("fs.detail".to_string()),
        ..Default::default()
    }
    .to_path();
    assert_eq!(
        "/fsr/ajax/=/language/jp/keyword/ASMR/order/release_d/genre[0]/497/genre[1]/60/page/2/is_pointup/1/from/fs.detail",
        path
    );
}

#[test]
fn search_path_index_reaches_two_digits() {
    let names: Vec<String> = (0..11).map(|i| format!("n{i}")).collect();
    let path = SearchProductQuery {
        options: Some(names),
        ..Default::default()
    }
    .to_path();
    assert!(path.ends_with("/options[9]/n9/options[10]/n10"), "got: {path}");
}
