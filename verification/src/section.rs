//! The closed vocabulary of sections that the top-stories feed accepts.

use vstd::prelude::*;

verus! {

/// A section of the paper, as the top-stories feed names them.
#[derive(Clone, Copy, Debug, PartialEq, Eq, Structural)]
pub enum NYTSectionEnum {
    Arts,
    Automobiles,
    BooksReview,
    Business,
    Fashion,
    Food,
    Health,
    Home,
    Insider,
    Magazine,
    Movies,
    NYRegion,
    Obituaries,
    Opinion,
    Politics,
    RealEstate,
    Science,
    Sports,
    SundayReview,
    Technology,
    Theater,
    TMagazine,
    Travel,
    Upshot,
    UnitedStates,
    World,
}

/// Whether `c` may stand in a token: a lower-case letter of the English alphabet,
/// or an underscore. Such a character stands for itself in the path of a URL.
pub open spec fn is_token_char(c: char) -> bool {
    ('a' <= c && c <= 'z') || c == '_'
}

/// Whether `text` can be a token: not empty, and made of token characters alone.
pub open spec fn is_path_token(text: Seq<char>) -> bool {
    &&& text.len() > 0
    &&& forall|i: int| 0 <= i < text.len() ==> is_token_char(#[trigger] text[i])
}

impl NYTSectionEnum {
    /// The token of the section: the path segment that stands for it in a request.
    pub open spec fn token(self) -> Seq<char> {
        match self {
            NYTSectionEnum::Arts => "arts"@,
            NYTSectionEnum::Automobiles => "automobiles"@,
            NYTSectionEnum::BooksReview => "books_review"@,
            NYTSectionEnum::Business => "business"@,
            NYTSectionEnum::Fashion => "fashion"@,
            NYTSectionEnum::Food => "food"@,
            NYTSectionEnum::Health => "health"@,
            NYTSectionEnum::Home => "home"@,
            NYTSectionEnum::Insider => "insider"@,
            NYTSectionEnum::Magazine => "magazine"@,
            NYTSectionEnum::Movies => "movies"@,
            NYTSectionEnum::NYRegion => "nyregion"@,
            NYTSectionEnum::Obituaries => "obituaries"@,
            NYTSectionEnum::Opinion => "opinion"@,
            NYTSectionEnum::Politics => "politics"@,
            NYTSectionEnum::RealEstate => "realestate"@,
            NYTSectionEnum::Science => "science"@,
            NYTSectionEnum::Sports => "sports"@,
            NYTSectionEnum::SundayReview => "sundayreview"@,
            NYTSectionEnum::Technology => "technology"@,
            NYTSectionEnum::Theater => "theater"@,
            NYTSectionEnum::TMagazine => "t_magazine"@,
            NYTSectionEnum::Travel => "travel"@,
            NYTSectionEnum::Upshot => "upshot"@,
            NYTSectionEnum::UnitedStates => "us"@,
            NYTSectionEnum::World => "world"@,
        }
    }

    /// Returns the section's token.
    pub fn as_str(&self) -> (token: &'static str)
        ensures
            token@ == self.token(),
            is_path_token(token@),
    {
        proof {
            lemma_token_is_path_token(*self);
        }
        match self {
            NYTSectionEnum::Arts => "arts",
            NYTSectionEnum::Automobiles => "automobiles",
            NYTSectionEnum::BooksReview => "books_review",
            NYTSectionEnum::Business => "business",
            NYTSectionEnum::Fashion => "fashion",
            NYTSectionEnum::Food => "food",
            NYTSectionEnum::Health => "health",
            NYTSectionEnum::Home => "home",
            NYTSectionEnum::Insider => "insider",
            NYTSectionEnum::Magazine => "magazine",
            NYTSectionEnum::Movies => "movies",
            NYTSectionEnum::NYRegion => "nyregion",
            NYTSectionEnum::Obituaries => "obituaries",
            NYTSectionEnum::Opinion => "opinion",
            NYTSectionEnum::Politics => "politics",
            NYTSectionEnum::RealEstate => "realestate",
            NYTSectionEnum::Science => "science",
            NYTSectionEnum::Sports => "sports",
            NYTSectionEnum::SundayReview => "sundayreview",
            NYTSectionEnum::Technology => "technology",
            NYTSectionEnum::Theater => "theater",
            NYTSectionEnum::TMagazine => "t_magazine",
            NYTSectionEnum::Travel => "travel",
            NYTSectionEnum::Upshot => "upshot",
            NYTSectionEnum::UnitedStates => "us",
            NYTSectionEnum::World => "world",
        }
    }
}

/// Every section's token is a path token: it is not empty, it holds no
/// upper-case letter, and nothing in it needs escaping in a URL.
pub proof fn lemma_token_is_path_token(section: NYTSectionEnum)
    ensures
        is_path_token(section.token()),
{
    reveal_strlit("arts");
    reveal_strlit("automobiles");
    reveal_strlit("books_review");
    reveal_strlit("business");
    reveal_strlit("fashion");
    reveal_strlit("food");
    reveal_strlit("health");
    reveal_strlit("home");
    reveal_strlit("insider");
    reveal_strlit("magazine");
    reveal_strlit("movies");
    reveal_strlit("nyregion");
    reveal_strlit("obituaries");
    reveal_strlit("opinion");
    reveal_strlit("politics");
    reveal_strlit("realestate");
    reveal_strlit("science");
    reveal_strlit("sports");
    reveal_strlit("sundayreview");
    reveal_strlit("technology");
    reveal_strlit("theater");
    reveal_strlit("t_magazine");
    reveal_strlit("travel");
    reveal_strlit("upshot");
    reveal_strlit("us");
    reveal_strlit("world");
}

/// No two sections share a token.
pub proof fn lemma_token_injective(a: NYTSectionEnum, b: NYTSectionEnum)
    requires
        a != b,
    ensures
        a.token() != b.token(),
{
    reveal_strlit("arts");
    reveal_strlit("automobiles");
    reveal_strlit("books_review");
    reveal_strlit("business");
    reveal_strlit("fashion");
    reveal_strlit("food");
    reveal_strlit("health");
    reveal_strlit("home");
    reveal_strlit("insider");
    reveal_strlit("magazine");
    reveal_strlit("movies");
    reveal_strlit("nyregion");
    reveal_strlit("obituaries");
    reveal_strlit("opinion");
    reveal_strlit("politics");
    reveal_strlit("realestate");
    reveal_strlit("science");
    reveal_strlit("sports");
    reveal_strlit("sundayreview");
    reveal_strlit("technology");
    reveal_strlit("theater");
    reveal_strlit("t_magazine");
    reveal_strlit("travel");
    reveal_strlit("upshot");
    reveal_strlit("us");
    reveal_strlit("world");
    // Equal tokens would agree in length and in their first two characters,
    // and no two tokens do.
    if a.token() == b.token() {
        assert(a.token().len() == b.token().len());
        assert(a.token()[0] == b.token()[0]);
        assert(a.token()[1] == b.token()[1]);
    }
}

} // verus!
