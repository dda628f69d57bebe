//! News categories and their wire names.

use crate::text::str_eq;
use vstd::prelude::*;
use vstd::string::*;

verus! {

/// The categories of general market news that the service offers.
#[derive(Debug, Clone, Copy, PartialEq, Eq, Structural)]
pub enum NewsCategory {
    General,
    Forex,
    Crypto,
    Merger,
}

/// The failure to read a news category from text.
#[derive(Debug, Clone, Copy, PartialEq, Eq, Structural)]
pub struct ParseNewsCategoryError;

/// The category that a piece of text names, if it names one.
///
/// Only the four lowercase names are categories; the match is case-sensitive.
pub open spec fn category_named(s: Seq<char>) -> Option<NewsCategory> {
    if s == "general"@ {
        Some(NewsCategory::General)
    } else if s == "forex"@ {
        Some(NewsCategory::Forex)
    } else if s == "crypto"@ {
        Some(NewsCategory::Crypto)
    } else if s == "merger"@ {
        Some(NewsCategory::Merger)
    } else {
        None
    }
}

impl NewsCategory {
    /// The text sent to the service for this category.
    ///
    /// The service is addressed with `Merger` capitalised, unlike the other
    /// three, so that name is not one that `parse` accepts.
    pub open spec fn wire_name(self) -> Seq<char> {
        match self {
            NewsCategory::General => "general"@,
            NewsCategory::Forex => "forex"@,
            NewsCategory::Crypto => "crypto"@,
            NewsCategory::Merger => "Merger"@,
        }
    }

    /// The text sent to the service for this category.
    pub fn as_str(&self) -> (name: &'static str)
        ensures
            name@ == self.wire_name(),
    {
        match self {
            NewsCategory::General => "general",
            NewsCategory::Forex => "forex",
            NewsCategory::Crypto => "crypto",
            NewsCategory::Merger => "Merger",
        }
    }

    /// The text sent to the service for this category, as an owned string.
    pub fn to_string(&self) -> (name: String)
        ensures
            name@ == self.wire_name(),
    {
        String::from_str(self.as_str())
    }

    /// Reads a category from its lowercase name.
    pub fn parse(s: &str) -> (parsed: Result<NewsCategory, ParseNewsCategoryError>)
        ensures
            parsed == match category_named(s@) {
                Some(category) => Ok::<NewsCategory, ParseNewsCategoryError>(category),
                None => Err(ParseNewsCategoryError),
            },
    {
        if str_eq(s, "general") {
            Ok(NewsCategory::General)
        } else if str_eq(s, "forex") {
            Ok(NewsCategory::Forex)
        } else if str_eq(s, "crypto") {
            Ok(NewsCategory::Crypto)
        } else if str_eq(s, "merger") {
            Ok(NewsCategory::Merger)
        } else {
            Err(ParseNewsCategoryError)
        }
    }
}

impl ParseNewsCategoryError {
    /// The text shown for this error.
    pub fn message(&self) -> (text: &'static str)
        ensures
            text@ == "not a valid news category"@,
    {
        "not a valid news category"
    }

    /// The text shown for this error, as an owned string.
    pub fn to_string(&self) -> (text: String)
        ensures
            text@ == "not a valid news category"@,
    {
        String::from_str(self.message())
    }
}

impl std::str::FromStr for NewsCategory {
    type Err = ParseNewsCategoryError;

    /// Reads a category from its lowercase name, as `parse` does.
    fn from_str(s: &str) -> (parsed: Result<Self, Self::Err>)
        ensures
            parsed == match category_named(s@) {
                Some(category) => Ok::<NewsCategory, ParseNewsCategoryError>(category),
                None => Err(ParseNewsCategoryError),
            },
    {
        NewsCategory::parse(s)
    }
}

/// The four lowercase names, and no other text, name a category.
pub proof fn lemma_category_names(s: Seq<char>)
    ensures
        category_named(s) is Some <==> (s == "general"@ || s == "forex"@ || s == "crypto"@ || s
            == "merger"@),
        category_named("general"@) == Some(NewsCategory::General),
        category_named("forex"@) == Some(NewsCategory::Forex),
        category_named("crypto"@) == Some(NewsCategory::Crypto),
        category_named("merger"@) == Some(NewsCategory::Merger),
{
    reveal_strlit("general");
    reveal_strlit("forex");
    reveal_strlit("crypto");
    reveal_strlit("merger");
    assert("general"@.len() == 7 && "forex"@.len() == 5);
    assert("crypto"@.len() == 6 && "merger"@.len() == 6);
    assert("merger"@[0] != "crypto"@[0]);
}

/// Every category but `Merger` is read back from the text that stands for
/// it on the wire; the capitalised `Merger` names no category.
pub proof fn lemma_wire_name_round_trip(category: NewsCategory)
    ensures
        category != NewsCategory::Merger ==> category_named(category.wire_name()) == Some(
            category,
        ),
        category_named(NewsCategory::Merger.wire_name()) is None,
{
    lemma_category_names(category.wire_name());
    reveal_strlit("general");
    reveal_strlit("forex");
    reveal_strlit("crypto");
    reveal_strlit("merger");
    reveal_strlit("Merger");
    assert("general"@.len() == 7 && "forex"@.len() == 5);
    assert("Merger"@.len() == 6);
    assert("Merger"@[0] != "merger"@[0]);
    assert("Merger"@[0] != "crypto"@[0]);
}

} // verus!
