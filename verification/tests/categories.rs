use finnhub::{NewsCategory, ParseNewsCategoryError};

#[test]
fn the_four_lowercase_names_parse() {
    assert_eq!(NewsCategory::parse("general"), Ok(NewsCategory::General));
    assert_eq!(NewsCategory::parse("forex"), Ok(NewsCategory::Forex));
    assert_eq!(NewsCategory::parse("crypto"), Ok(NewsCategory::Crypto));
    assert_eq!(NewsCategory::parse("merger"), Ok(NewsCategory::Merger));
}

#[test]
fn any_other_text_is_no_category() {
    let bad = [
        "", "General", "GENERAL", "Forex", "Crypto", "Merger", "MERGER", "general ", " general",
        "mergers", "merge", "news", "g", "généra", "forex\n",
    ];
    for text in bad {
        assert_eq!(NewsCategory::parse(text), Err(ParseNewsCategoryError), "{:?}", text);
    }
}

#[test]
fn from_str_reads_as_parse_does() {
    assert_eq!("crypto".parse::<NewsCategory>(), Ok(NewsCategory::Crypto));
    assert_eq!("Crypto".parse::<NewsCategory>(), Err(ParseNewsCategoryError));
}

#[test]
fn wire_names() {
    assert_eq!(NewsCategory::General.as_str(), "general");
    assert_eq!(NewsCategory::Forex.as_str(), "forex");
    assert_eq!(NewsCategory::Crypto.as_str(), "crypto");
    assert_eq!(NewsCategory::Merger.as_str(), "Merger");
}

#[test]
fn wire_names_read_back_but_for_merger() {
    for category in [NewsCategory::General, NewsCategory::Forex, NewsCategory::Crypto] {
        assert_eq!(NewsCategory::parse(category.as_str()), Ok(category));
    }
    assert_eq!(NewsCategory::parse(NewsCategory::Merger.as_str()), Err(ParseNewsCategoryError));
}

#[test]
fn the_error_has_a_message() {
    assert_eq!(ParseNewsCategoryError.message(), "not a valid news category");
}

#[test]
fn owned_texts() {
    assert_eq!(NewsCategory::Merger.to_string(), "Merger");
    assert_eq!(NewsCategory::General.to_string(), "general");
    assert_eq!(ParseNewsCategoryError.to_string(), "not a valid news category");
    assert_eq!(finnhub::DeserializeError::new("m").to_string(), "m");
}
