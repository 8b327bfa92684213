use std::str::FromStr;

use dlsite_gamebox::interface::product::{AgeCategory, WorkCategory, WorkType, WorkTypeCategory};
use dlsite_gamebox::interface::query::{Language, Order, ReleaseTerm};
use dlsite_gamebox::interface::site::Site;

#[test]
fn language_display_jp() {
    assert_eq!("jp", Language::Jp.to_string());
}

#[test]
fn language_display_en() {
    assert_eq!("en", Language::En.to_string());
}

#[test]
fn language_display_ko() {
    assert_eq!("ko", Language::Ko.to_string());
}

#[test]
fn language_display_zh_cn() {
    assert_eq!("zh_cn", Language::ZhCn.to_string());
}

#[test]
fn language_display_zh_tw() {
    assert_eq!("zh_tw", Language::ZhTw.to_string());
}

#[test]
fn review_locale_jp() {
    assert_eq!("ja_JP", Language::Jp.to_review_locale());
}

#[test]
fn review_locale_en() {
    assert_eq!("en_US", Language::En.to_review_locale());
}

#[test]
fn review_locale_ko() {
    assert_eq!("ko_KR", Language::Ko.to_review_locale());
}

#[test]
fn review_locale_zh_cn() {
    assert_eq!("zh_CN", Language::ZhCn.to_review_locale());
}

#[test]
fn review_locale_zh_tw() {
    assert_eq!("zh_TW", Language::ZhTw.to_review_locale());
}

#[test]
fn default_language_is_jp() {
    assert_eq!(Language::Jp, Language::default());
}

#[test]
fn maniax_base_url() {
    assert_eq!("https://www.dlsite.com/maniax", Site::Maniax.base_url());
}

#[test]
fn home_base_url() {
    assert_eq!("https://www.dlsite.com/home", Site::Home.base_url());
}

#[test]
fn books_base_url() {
    assert_eq!("https://www.dlsite.com/books", Site::Books.base_url());
}

#[test]
fn soft_base_url() {
    assert_eq!("https://www.dlsite.com/soft", Site::Soft.base_url());
}

#[test]
fn pro_base_url() {
    assert_eq!("https://www.dlsite.com/pro", Site::Pro.base_url());
}

#[test]
fn appx_base_url() {
    assert_eq!("https://www.dlsite.com/appx", Site::Appx.base_url());
}

#[test]
fn comic_base_url() {
    assert_eq!("https://www.dlsite.com/comic", Site::Comic.base_url());
}

#[test]
fn custom_base_url() {
    assert_eq!(
        "https://www.dlsite.com/girls",
        Site::Custom("girls".to_string()).base_url()
    );
}

#[test]
fn default_is_maniax() {
    assert_eq!(Site::Maniax, Site::default());
}

#[test]
fn test_work_type_from_str() {
    assert_eq!(WorkType::from_str("SOU").unwrap(), WorkType::SOU);
    assert_eq!(WorkType::from_str("ACN").unwrap(), WorkType::ACN);
    assert_eq!(WorkType::from_str("ADV").unwrap(), WorkType::ADV);
    assert_eq!(WorkType::from_str("RPG").unwrap(), WorkType::RPG);
    assert_eq!(WorkType::from_str("MNG").unwrap(), WorkType::MNG);
    assert_eq!(WorkType::from_str("ICG").unwrap(), WorkType::ICG);
    assert_eq!(WorkType::from_str("MOV").unwrap(), WorkType::MOV);
    assert_eq!(WorkType::from_str("MUS").unwrap(), WorkType::MUS);
    assert_eq!(WorkType::from_str("TOL").unwrap(), WorkType::TOL);
}

#[test]
fn test_work_type_unknown() {
    let unknown = WorkType::from_str("XYZ").unwrap();
    match unknown {
        WorkType::Unknown(s) => assert_eq!(s, "XYZ"),
        _ => panic!("Expected Unknown variant"),
    }
}

#[test]
fn test_work_type_case_sensitive() {
    assert!(WorkType::from_str("sou").is_ok());
    match WorkType::from_str("sou") {
        Ok(WorkType::Unknown(s)) => assert_eq!(s, "sou"),
        Ok(_) => panic!("Expected Unknown for lowercase"),
        Err(_) => panic!("Should parse to Unknown"),
    }
}

#[test]
fn test_work_type_from_str_valid() {
    assert_eq!(WorkType::from_str("SOU").unwrap(), WorkType::SOU);
    assert_eq!(WorkType::from_str("TOL").unwrap(), WorkType::TOL);
    assert_eq!(WorkType::from_str("ET3").unwrap(), WorkType::ET3);
}

#[test]
fn test_work_type_from_str_unknown() {
    match WorkType::from_str("XYZ").unwrap() {
        WorkType::Unknown(s) => assert_eq!(s, "XYZ"),
        _ => panic!("Expected Unknown variant"),
    }
}

#[test]
fn work_type_name_round_trips() {
    for w in [WorkType::ACN, WorkType::VCM, WorkType::ET3, WorkType::Unknown("ZZZ".to_string())] {
        assert_eq!(WorkType::from_str(&w.to_string()).unwrap(), w);
    }
}

#[test]
fn work_type_is_game() {
    assert!(WorkType::RPG.is_game());
    assert!(WorkType::ADV.is_game());
    assert!(WorkType::ETC.is_game());
    assert!(!WorkType::SOU.is_game());
    assert!(!WorkType::MNG.is_game());
    assert!(!WorkType::Unknown("RPG".to_string()).is_game());
}

#[test]
fn category_names_are_snake_case() {
    assert_eq!("game", WorkTypeCategory::Game.to_string());
    assert_eq!("etc", WorkTypeCategory::Etc.to_string());
    assert_eq!(WorkTypeCategory::Audio, WorkTypeCategory::from_str("audio").unwrap());
    assert_eq!("r15", AgeCategory::R15.to_string());
    assert_eq!("pc", WorkCategory::Pc.to_string());
    assert_eq!(WorkCategory::Unknown("x".to_string()), WorkCategory::from_str("x").unwrap());
    assert_eq!("review_d", Order::ReviewD.to_string());
    assert_eq!("dl_d", Order::DlD.to_string());
    assert_eq!("Old", ReleaseTerm::Old.to_string());
}
