use vstd::prelude::*;

use crate::error::ApplicationError;

verus! {

/// The closed set of languages a user record can carry, each identified by a
/// fixed two-letter code.
#[derive(Debug, Clone, PartialEq, Eq, Structural)]
pub enum Language {
    English,
    Chinese,
    Spanish,
    French,
    German,
    Japanese,
    Portuguese,
    Russian,
    Arabic,
    Korean,
}

impl Language {
    /// The two-letter code that identifies this language.
    pub open spec fn spec_code(self) -> Seq<char> {
        match self {
            Language::English => "en"@,
            Language::Chinese => "zh"@,
            Language::Spanish => "es"@,
            Language::French => "fr"@,
            Language::German => "de"@,
            Language::Japanese => "ja"@,
            Language::Portuguese => "pt"@,
            Language::Russian => "ru"@,
            Language::Arabic => "ar"@,
            Language::Korean => "ko"@,
        }
    }

    /// The code string of this language.
    pub fn code(&self) -> (r: &'static str)
        ensures
            r@ == self.spec_code(),
    {
        match self {
            Language::English => "en",
            Language::Chinese => "zh",
            Language::Spanish => "es",
            Language::French => "fr",
            Language::German => "de",
            Language::Japanese => "ja",
            Language::Portuguese => "pt",
            Language::Russian => "ru",
            Language::Arabic => "ar",
            Language::Korean => "ko",
        }
    }

    /// The language, if any, whose code is exactly `s`.
    pub open spec fn spec_language_of_code(s: Seq<char>) -> Option<Language> {
        if s == "en"@ {
            Some(Language::English)
        } else if s == "zh"@ {
            Some(Language::Chinese)
        } else if s == "es"@ {
            Some(Language::Spanish)
        } else if s == "fr"@ {
            Some(Language::French)
        } else if s == "de"@ {
            Some(Language::German)
        } else if s == "ja"@ {
            Some(Language::Japanese)
        } else if s == "pt"@ {
            Some(Language::Portuguese)
        } else if s == "ru"@ {
            Some(Language::Russian)
        } else if s == "ar"@ {
            Some(Language::Arabic)
        } else if s == "ko"@ {
            Some(Language::Korean)
        } else {
            None
        }
    }

    /// Parses a language from its two-letter code. Succeeds exactly on the
    /// codes of the fixed set, yielding the language that carries the code;
    /// any other string fails with `LanguageNotFound`.
    pub fn from_str(s: &str) -> (r: Result<Language, ApplicationError>)
        ensures
            match r {
                Ok(l) => l.spec_code() == s@,
                Err(e) => e is LanguageNotFound && (forall|l: Language| l.spec_code() != s@),
            },
    {
        if str_eq(s, "en") {
            Ok(Language::English)
        } else if str_eq(s, "zh") {
            Ok(Language::Chinese)
        } else if str_eq(s, "es") {
            Ok(Language::Spanish)
        } else if str_eq(s, "fr") {
            Ok(Language::French)
        } else if str_eq(s, "de") {
            Ok(Language::German)
        } else if str_eq(s, "ja") {
            Ok(Language::Japanese)
        } else if str_eq(s, "pt") {
            Ok(Language::Portuguese)
        } else if str_eq(s, "ru") {
            Ok(Language::Russian)
        } else if str_eq(s, "ar") {
            Ok(Language::Arabic)
        } else if str_eq(s, "ko") {
            Ok(Language::Korean)
        } else {
            Err(ApplicationError::LanguageNotFound)
        }
    }
}

/// Decoding a language's own code gives back that language.
pub proof fn lemma_code_round_trip(l: Language)
    ensures
        Language::spec_language_of_code(l.spec_code()) == Some(l),
{
    reveal_strlit("en");
    reveal_strlit("zh");
    reveal_strlit("es");
    reveal_strlit("fr");
    reveal_strlit("de");
    reveal_strlit("ja");
    reveal_strlit("pt");
    reveal_strlit("ru");
    reveal_strlit("ar");
    reveal_strlit("ko");
    assert(("en"@).len() == 2 && ("en"@)[0] == 'e' && ("en"@)[1] == 'n');
    assert(("zh"@).len() == 2 && ("zh"@)[0] == 'z' && ("zh"@)[1] == 'h');
    assert(("es"@).len() == 2 && ("es"@)[0] == 'e' && ("es"@)[1] == 's');
    assert(("fr"@).len() == 2 && ("fr"@)[0] == 'f' && ("fr"@)[1] == 'r');
    assert(("de"@).len() == 2 && ("de"@)[0] == 'd' && ("de"@)[1] == 'e');
    assert(("ja"@).len() == 2 && ("ja"@)[0] == 'j' && ("ja"@)[1] == 'a');
    assert(("pt"@).len() == 2 && ("pt"@)[0] == 'p' && ("pt"@)[1] == 't');
    assert(("ru"@).len() == 2 && ("ru"@)[0] == 'r' && ("ru"@)[1] == 'u');
    assert(("ar"@).len() == 2 && ("ar"@)[0] == 'a' && ("ar"@)[1] == 'r');
    assert(("ko"@).len() == 2 && ("ko"@)[0] == 'k' && ("ko"@)[1] == 'o');
    match l {
        Language::English => {
            assert(Language::spec_language_of_code("en"@) == Some(Language::English));
        },
        Language::Chinese => {
            assert(Language::spec_language_of_code("zh"@) == Some(Language::Chinese));
        },
        Language::Spanish => {
            assert(Language::spec_language_of_code("es"@) == Some(Language::Spanish));
        },
        Language::French => {
            assert(Language::spec_language_of_code("fr"@) == Some(Language::French));
        },
        Language::German => {
            assert(Language::spec_language_of_code("de"@) == Some(Language::German));
        },
        Language::Japanese => {
            assert(Language::spec_language_of_code("ja"@) == Some(Language::Japanese));
        },
        Language::Portuguese => {
            assert(Language::spec_language_of_code("pt"@) == Some(Language::Portuguese));
        },
        Language::Russian => {
            assert(Language::spec_language_of_code("ru"@) == Some(Language::Russian));
        },
        Language::Arabic => {
            assert(Language::spec_language_of_code("ar"@) == Some(Language::Arabic));
        },
        Language::Korean => {
            assert(Language::spec_language_of_code("ko"@) == Some(Language::Korean));
        },
    }
}

/// No two distinct languages share a code, so a code identifies its language.
pub proof fn lemma_code_identifies_language(a: Language, b: Language)
    requires
        a.spec_code() == b.spec_code(),
    ensures
        a == b,
{
    lemma_code_round_trip(a);
    lemma_code_round_trip(b);
}

/// Exact string comparison through owned copies, whose equality vstd relates
/// to the views.
fn str_eq(a: &str, b: &str) -> (r: bool)
    ensures
        r == (a@ == b@),
{
    a.to_owned() == b.to_owned()
}

} // verus!
