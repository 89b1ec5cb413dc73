use passhash::ApplicationError;
use passhash::Language;

#[test]
fn parse_known_code() {
    assert_eq!(Language::from_str("en").unwrap(), Language::English);
}

#[test]
fn parse_unknown_code() {
    let err = Language::from_str("xx").unwrap_err();
    assert!(matches!(err, ApplicationError::LanguageNotFound));
}

#[test]
fn every_code_round_trips() {
    let languages = vec![
        Language::English,
        Language::Chinese,
        Language::Spanish,
        Language::French,
        Language::German,
        Language::Japanese,
        Language::Portuguese,
        Language::Russian,
        Language::Arabic,
        Language::Korean,
    ];
    let codes = vec!["en", "zh", "es", "fr", "de", "ja", "pt", "ru", "ar", "ko"];
    for (language, code) in languages.iter().zip(codes.iter()) {
        assert_eq!(language.code(), *code);
        assert_eq!(Language::from_str(code).unwrap(), language.clone());
    }
}

#[test]
fn near_misses_are_rejected() {
    for code in ["EN", "e", "eng", "", " en", "en "] {
        assert!(matches!(
            Language::from_str(code),
            Err(ApplicationError::LanguageNotFound)
        ));
    }
}

#[test]
fn not_found_message() {
    assert_eq!(
        ApplicationError::LanguageNotFound.message(),
        "Language Not Found"
    );
}
