use dlsite_gamebox::client::product::{ajax_path, review_path, ProductPeople, ReviewSortOrder};
use dlsite_gamebox::client::product_api::interface::{Creator, Creators};
use dlsite_gamebox::client::product_api::product_api_path;
use dlsite_gamebox::interface::query::Language;
use dlsite_gamebox::retry::RetryConfig;

const VALID_PREFIXES: &[&str] = &["RJ", "VJ", "BJ", "RG"];

fn is_valid_work_id_format(id: &str) -> bool {
    if id.len() < 7 {
        return false;
    }
    let prefix = &id[..2].to_uppercase();
    if !VALID_PREFIXES.contains(&prefix.as_str()) {
        return false;
    }
    id[2..].chars().all(|c| c.is_ascii_digit())
}

fn normalize_work_id(id: &str) -> String {
    id.to_uppercase()
}

fn creator(id: &str, name: &str, classification: &str) -> Creator {
    Creator {
        id: id.to_string(),
        name: name.to_string(),
        classification: classification.to_string(),
        sub_classification: None,
    }
}

fn basic_creators() -> Creators {
    Creators {
        created_by: Some(vec![creator("123", "桃鳥", "author")]),
        voice_by: Some(vec![creator("456", "丹羽うさぎ", "voice"), creator("457", "藤堂れんげ", "voice")]),
        illust_by: None,
        scenario_by: None,
    }
}

fn all_field_creators() -> Creators {
    Creators {
        created_by: Some(vec![creator("1", "Author Name", "author")]),
        voice_by: Some(vec![creator("2", "Voice Actor", "voice")]),
        illust_by: Some(vec![creator("3", "Illustrator", "illustration")]),
        scenario_by: Some(vec![creator("4", "Scenario Writer", "scenario")]),
    }
}

fn no_creators() -> Creators {
    Creators { created_by: None, voice_by: None, illust_by: None, scenario_by: None }
}

fn test_retry_config() -> RetryConfig {
    RetryConfig { max_retries: 3, initial_delay_ms: 0, max_delay_ms: 0, backoff_multiplier_milli: 1000 }
}

#[test]
fn test_valid_rj_id_format() {
    assert!(is_valid_work_id_format("RJ403038"));
    assert!(is_valid_work_id_format("RJ01017217"));
    assert!(is_valid_work_id_format("RJ291224"));
}

#[test]
fn test_valid_vj_id_format() {
    assert!(is_valid_work_id_format("VJ01000513"));
    assert!(is_valid_work_id_format("VJ123456"));
}

#[test]
fn test_valid_bj_id_format() {
    assert!(is_valid_work_id_format("BJ123456"));
}

#[test]
fn test_valid_rg_id_format() {
    assert!(is_valid_work_id_format("RG62982"));
    assert!(is_valid_work_id_format("RG24350"));
}

#[test]
fn test_invalid_id_too_short() {
    assert!(!is_valid_work_id_format("RJ1234"));
    assert!(!is_valid_work_id_format("RJ"));
    assert!(!is_valid_work_id_format(""));
}

#[test]
fn test_invalid_id_wrong_prefix() {
    assert!(!is_valid_work_id_format("XX123456"));
    assert!(!is_valid_work_id_format("12345678"));
}

#[test]
fn test_invalid_id_non_numeric_suffix() {
    assert!(!is_valid_work_id_format("RJABCDE"));
    assert!(!is_valid_work_id_format("RJ123ABC"));
}

#[test]
fn test_normalize_lowercase_to_uppercase() {
    assert_eq!(normalize_work_id("rj403038"), "RJ403038");
    assert_eq!(normalize_work_id("vj01000513"), "VJ01000513");
}

#[test]
fn test_normalize_preserves_uppercase() {
    assert_eq!(normalize_work_id("RJ403038"), "RJ403038");
}

#[test]
fn test_product_api_url_japanese() {
    let url = product_api_path("RJ403038", &Language::Jp);
    assert_eq!(url, "/api/=/product.json?workno=RJ403038&locale=ja_JP");
}

#[test]
fn test_product_api_url_english() {
    let url = product_api_path("RJ403038", &Language::En);
    assert_eq!(url, "/api/=/product.json?workno=RJ403038&locale=en_US");
}

#[test]
fn test_product_api_url_korean() {
    let url = product_api_path("RJ403038", &Language::Ko);
    assert_eq!(url, "/api/=/product.json?workno=RJ403038&locale=ko_KR");
}

#[test]
fn test_product_api_url_chinese_simplified() {
    let url = product_api_path("RJ403038", &Language::ZhCn);
    assert_eq!(url, "/api/=/product.json?workno=RJ403038&locale=zh_CN");
}

#[test]
fn test_product_api_url_chinese_traditional() {
    let url = product_api_path("RJ403038", &Language::ZhTw);
    assert_eq!(url, "/api/=/product.json?workno=RJ403038&locale=zh_TW");
}

#[test]
fn test_ajax_url_single_product() {
    let url = ajax_path(&["RJ403038"]);
    assert_eq!(url, "/product/info/ajax?product_id=RJ403038");
}

#[test]
fn test_ajax_url_multiple_products() {
    let url = ajax_path(&["RJ403038", "RJ01017217", "RJ291224"]);
    assert_eq!(url, "/product/info/ajax?product_id=RJ403038,RJ01017217,RJ291224");
}

#[test]
fn ajax_url_without_products() {
    assert_eq!(ajax_path(&[]), "/product/info/ajax?product_id=");
}

#[test]
fn test_review_url_basic() {
    let url = review_path("RJ403038", 6, 1, true, &ReviewSortOrder::New, &Language::Jp);
    assert!(url.contains("product_id=RJ403038"));
    assert!(url.contains("limit=6"));
    assert!(url.contains("page=1"));
    assert!(url.contains("locale=ja_JP"));
}

#[test]
fn test_review_url_pagination() {
    let url = review_path("RJ403038", 10, 5, true, &ReviewSortOrder::New, &Language::En);
    assert!(url.contains("limit=10"));
    assert!(url.contains("page=5"));
    assert!(url.contains("locale=en_US"));
}

#[test]
fn review_url_exact() {
    let url = review_path("RJ403038", 6, 1, true, &ReviewSortOrder::New, &Language::Jp);
    assert_eq!(url, "/api/review?product_id=RJ403038&limit=6&mix_pickup=true&page=1&order=regist_d&locale=ja_JP");
    let top = review_path("RJ1", 0, 12, false, &ReviewSortOrder::Top, &Language::Ko);
    assert_eq!(top, "/api/review?product_id=RJ1&limit=0&mix_pickup=false&page=12&order=top&locale=ko_KR");
}

#[test]
fn test_language_default_is_japanese() {
    assert_eq!(Language::default(), Language::Jp);
}

#[test]
fn test_language_display() {
    assert_eq!(Language::Jp.to_string(), "jp");
    assert_eq!(Language::En.to_string(), "en");
    assert_eq!(Language::Ko.to_string(), "ko");
    assert_eq!(Language::ZhCn.to_string(), "zh_cn");
    assert_eq!(Language::ZhTw.to_string(), "zh_tw");
}

#[test]
fn test_review_locale_format() {
    assert_eq!(Language::Jp.to_review_locale(), "ja_JP");
    assert_eq!(Language::En.to_review_locale(), "en_US");
    assert_eq!(Language::Ko.to_review_locale(), "ko_KR");
    assert_eq!(Language::ZhCn.to_review_locale(), "zh_CN");
    assert_eq!(Language::ZhTw.to_review_locale(), "zh_TW");
}

#[test]
fn unit_test_creators_to_product_people_basic() {
    let people = ProductPeople::from(basic_creators());

    let author = people.author.expect("author should be set");
    assert_eq!(author.len(), 1);
    assert_eq!(author[0], "桃鳥");

    let voice_actor = people.voice_actor.expect("voice_actor should be set");
    assert_eq!(voice_actor.len(), 2);
    assert!(voice_actor.contains(&"丹羽うさぎ".to_string()));
    assert!(voice_actor.contains(&"藤堂れんげ".to_string()));
}

#[test]
fn public_catalog_mock_test_creators_to_product_people_basic() {
    let people = ProductPeople::from(basic_creators());

    let author = people.author.expect("author should be set");
    assert_eq!(author.len(), 1);
    assert_eq!(author[0], "桃鳥");

    let voice_actor = people.voice_actor.expect("voice_actor should be set");
    assert_eq!(voice_actor.len(), 2);
    assert!(voice_actor.contains(&"丹羽うさぎ".to_string()));
    assert!(voice_actor.contains(&"藤堂れんげ".to_string()));
}

#[test]
fn unit_test_creators_to_product_people_empty() {
    let people = ProductPeople::from(no_creators());

    assert!(people.author.is_none());
    assert!(people.voice_actor.is_none());
    assert!(people.scenario.is_none());
    assert!(people.illustrator.is_none());
}

#[test]
fn public_catalog_mock_test_creators_to_product_people_empty() {
    let people = ProductPeople::from(no_creators());

    assert!(people.author.is_none());
    assert!(people.voice_actor.is_none());
    assert!(people.illustrator.is_none());
    assert!(people.scenario.is_none());
}

#[test]
fn unit_test_creators_to_product_people_all_fields() {
    let people = ProductPeople::from(all_field_creators());

    assert_eq!(people.author.as_ref().unwrap()[0], "Author Name");
    assert_eq!(people.voice_actor.as_ref().unwrap()[0], "Voice Actor");
    assert_eq!(people.illustrator.as_ref().unwrap()[0], "Illustrator");
    assert_eq!(people.scenario.as_ref().unwrap()[0], "Scenario Writer");
}

#[test]
fn public_catalog_mock_test_creators_to_product_people_all_fields() {
    let people = ProductPeople::from(all_field_creators());

    assert_eq!(people.author.as_ref().unwrap()[0], "Author Name");
    assert_eq!(people.voice_actor.as_ref().unwrap()[0], "Voice Actor");
    assert_eq!(people.illustrator.as_ref().unwrap()[0], "Illustrator");
    assert_eq!(people.scenario.as_ref().unwrap()[0], "Scenario Writer");
}

#[test]
fn test_product_people_default() {
    let people = ProductPeople::default();

    assert!(people.author.is_none());
    assert!(people.scenario.is_none());
    assert!(people.illustrator.is_none());
    assert!(people.voice_actor.is_none());
}

#[test]
fn test_creator_multiple_same_role() {
    let creators = Creators {
        created_by: Some(vec![
            creator("1", "First Author", "author"),
            creator("2", "Second Author", "author"),
            creator("3", "Third Author", "author"),
        ]),
        voice_by: None,
        illust_by: None,
        scenario_by: None,
    };

    let people = ProductPeople::from(creators);

    let authors = people.author.unwrap();
    assert_eq!(authors.len(), 3);
    assert!(authors.contains(&"First Author".to_string()));
    assert!(authors.contains(&"Second Author".to_string()));
    assert!(authors.contains(&"Third Author".to_string()));
}

#[test]
fn creators_keep_their_order() {
    let people = ProductPeople::from_creators(basic_creators());
    assert_eq!(people.voice_actor.unwrap(), vec!["丹羽うさぎ".to_string(), "藤堂れんげ".to_string()]);
}

#[test]
fn test_test_retry_config_has_zero_delay() {
    let config = test_retry_config();
    assert_eq!(config.initial_delay_ms, 0);
    assert_eq!(config.max_delay_ms, 0);
    assert_eq!(config.max_retries, 3);
}

#[test]
fn test_search_module_requires_feature() {
    assert!(true);
}
