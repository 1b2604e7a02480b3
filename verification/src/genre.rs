//! The genre tags: a closed enumeration of named genres.
//!
//! A genre is serialized by its tag name ([`Genre::tag`]); the selection
//! list shows a friendlier display name ([`Genre::display_name`]), which
//! differs from the tag for three variants.

use vstd::prelude::*;

verus! {

/// A genre tag. Serialized by its tag name, e.g. `"SciFi"`; shown to the
/// operator under its display name, e.g. `"Sci-Fi"`.
#[derive(Debug, Clone, Copy, PartialEq, Eq, Structural)]
pub enum Genre {
    Unknown,
    Action,
    Adventure,
    Comedy,
    Drama,
    Ecchi,
    Fantasy,
    Hentai,
    Horror,
    MahouShoujo,
    Mecha,
    Music,
    Mystery,
    Psychological,
    Romance,
    SciFi,
    SlifeOfLife,
    Sports,
    Supernatural,
    Thriller,
}

impl Genre {
    /// The tag name under which this genre is serialized.
    pub open spec fn spec_tag(self) -> Seq<char> {
        match self {
            Genre::Unknown => "Unknown"@,
            Genre::Action => "Action"@,
            Genre::Adventure => "Adventure"@,
            Genre::Comedy => "Comedy"@,
            Genre::Drama => "Drama"@,
            Genre::Ecchi => "Ecchi"@,
            Genre::Fantasy => "Fantasy"@,
            Genre::Hentai => "Hentai"@,
            Genre::Horror => "Horror"@,
            Genre::MahouShoujo => "MahouShoujo"@,
            Genre::Mecha => "Mecha"@,
            Genre::Music => "Music"@,
            Genre::Mystery => "Mystery"@,
            Genre::Psychological => "Psychological"@,
            Genre::Romance => "Romance"@,
            Genre::SciFi => "SciFi"@,
            Genre::SlifeOfLife => "SlifeOfLife"@,
            Genre::Sports => "Sports"@,
            Genre::Supernatural => "Supernatural"@,
            Genre::Thriller => "Thriller"@,
        }
    }

    /// The display name of this genre: the tag name, except for the three
    /// variants whose display form carries spaces or a hyphen.
    pub open spec fn spec_display_name(self) -> Seq<char> {
        match self {
            Genre::MahouShoujo => "Mahou Shoujo"@,
            Genre::SciFi => "Sci-Fi"@,
            Genre::SlifeOfLife => "Slice of Life"@,
            _ => self.spec_tag(),
        }
    }

    /// The genre a given tag name stands for, if any.
    pub open spec fn spec_from_tag(name: Seq<char>) -> Option<Genre> {
        if name == "Unknown"@ {
            Some(Genre::Unknown)
        } else if name == "Action"@ {
            Some(Genre::Action)
        } else if name == "Adventure"@ {
            Some(Genre::Adventure)
        } else if name == "Comedy"@ {
            Some(Genre::Comedy)
        } else if name == "Drama"@ {
            Some(Genre::Drama)
        } else if name == "Ecchi"@ {
            Some(Genre::Ecchi)
        } else if name == "Fantasy"@ {
            Some(Genre::Fantasy)
        } else if name == "Hentai"@ {
            Some(Genre::Hentai)
        } else if name == "Horror"@ {
            Some(Genre::Horror)
        } else if name == "MahouShoujo"@ {
            Some(Genre::MahouShoujo)
        } else if name == "Mecha"@ {
            Some(Genre::Mecha)
        } else if name == "Music"@ {
            Some(Genre::Music)
        } else if name == "Mystery"@ {
            Some(Genre::Mystery)
        } else if name == "Psychological"@ {
            Some(Genre::Psychological)
        } else if name == "Romance"@ {
            Some(Genre::Romance)
        } else if name == "SciFi"@ {
            Some(Genre::SciFi)
        } else if name == "SlifeOfLife"@ {
            Some(Genre::SlifeOfLife)
        } else if name == "Sports"@ {
            Some(Genre::Sports)
        } else if name == "Supernatural"@ {
            Some(Genre::Supernatural)
        } else if name == "Thriller"@ {
            Some(Genre::Thriller)
        } else {
            None
        }
    }

    /// The tag name under which this genre is serialized.
    pub fn tag(&self) -> (r: &'static str)
        ensures
            r@ == self.spec_tag(),
    {
        match self {
            Genre::Unknown => "Unknown",
            Genre::Action => "Action",
            Genre::Adventure => "Adventure",
            Genre::Comedy => "Comedy",
            Genre::Drama => "Drama",
            Genre::Ecchi => "Ecchi",
            Genre::Fantasy => "Fantasy",
            Genre::Hentai => "Hentai",
            Genre::Horror => "Horror",
            Genre::MahouShoujo => "MahouShoujo",
            Genre::Mecha => "Mecha",
            Genre::Music => "Music",
            Genre::Mystery => "Mystery",
            Genre::Psychological => "Psychological",
            Genre::Romance => "Romance",
            Genre::SciFi => "SciFi",
            Genre::SlifeOfLife => "SlifeOfLife",
            Genre::Sports => "Sports",
            Genre::Supernatural => "Supernatural",
            Genre::Thriller => "Thriller",
        }
    }

    /// The display name of this genre, as shown in the selection list.
    pub fn display_name(&self) -> (r: &'static str)
        ensures
            r@ == self.spec_display_name(),
    {
        match self {
            Genre::MahouShoujo => "Mahou Shoujo",
            Genre::SciFi => "Sci-Fi",
            Genre::SlifeOfLife => "Slice of Life",
            _ => self.tag(),
        }
    }

    /// The genre a given tag name stands for; `None` for any other
    /// string.
    pub fn from_tag(name: &str) -> (r: Option<Genre>)
        ensures
            r == Genre::spec_from_tag(name@),
    {
        if str_eq(name, "Unknown") {
            Some(Genre::Unknown)
        } else if str_eq(name, "Action") {
            Some(Genre::Action)
        } else if str_eq(name, "Adventure") {
            Some(Genre::Adventure)
        } else if str_eq(name, "Comedy") {
            Some(Genre::Comedy)
        } else if str_eq(name, "Drama") {
            Some(Genre::Drama)
        } else if str_eq(name, "Ecchi") {
            Some(Genre::Ecchi)
        } else if str_eq(name, "Fantasy") {
            Some(Genre::Fantasy)
        } else if str_eq(name, "Hentai") {
            Some(Genre::Hentai)
        } else if str_eq(name, "Horror") {
            Some(Genre::Horror)
        } else if str_eq(name, "MahouShoujo") {
            Some(Genre::MahouShoujo)
        } else if str_eq(name, "Mecha") {
            Some(Genre::Mecha)
        } else if str_eq(name, "Music") {
            Some(Genre::Music)
        } else if str_eq(name, "Mystery") {
            Some(Genre::Mystery)
        } else if str_eq(name, "Psychological") {
            Some(Genre::Psychological)
        } else if str_eq(name, "Romance") {
            Some(Genre::Romance)
        } else if str_eq(name, "SciFi") {
            Some(Genre::SciFi)
        } else if str_eq(name, "SlifeOfLife") {
            Some(Genre::SlifeOfLife)
        } else if str_eq(name, "Sports") {
            Some(Genre::Sports)
        } else if str_eq(name, "Supernatural") {
            Some(Genre::Supernatural)
        } else if str_eq(name, "Thriller") {
            Some(Genre::Thriller)
        } else {
            None
        }
    }

    /// All genres, in their declared order: the selection list.
    pub fn variants() -> (r: Vec<Genre>)
        ensures
            r@ == Genre::spec_variants(),
    {
        let mut v: Vec<Genre> = Vec::new();
        v.push(Genre::Unknown);
        v.push(Genre::Action);
        v.push(Genre::Adventure);
        v.push(Genre::Comedy);
        v.push(Genre::Drama);
        v.push(Genre::Ecchi);
        v.push(Genre::Fantasy);
        v.push(Genre::Hentai);
        v.push(Genre::Horror);
        v.push(Genre::MahouShoujo);
        v.push(Genre::Mecha);
        v.push(Genre::Music);
        v.push(Genre::Mystery);
        v.push(Genre::Psychological);
        v.push(Genre::Romance);
        v.push(Genre::SciFi);
        v.push(Genre::SlifeOfLife);
        v.push(Genre::Sports);
        v.push(Genre::Supernatural);
        v.push(Genre::Thriller);
        proof {
            assert(v@ =~= Genre::spec_variants());
        }
        v
    }

    /// All genres, in their declared order.
    pub open spec fn spec_variants() -> Seq<Genre> {
        seq![
            Genre::Unknown,
            Genre::Action,
            Genre::Adventure,
            Genre::Comedy,
            Genre::Drama,
            Genre::Ecchi,
            Genre::Fantasy,
            Genre::Hentai,
            Genre::Horror,
            Genre::MahouShoujo,
            Genre::Mecha,
            Genre::Music,
            Genre::Mystery,
            Genre::Psychological,
            Genre::Romance,
            Genre::SciFi,
            Genre::SlifeOfLife,
            Genre::Sports,
            Genre::Supernatural,
            Genre::Thriller,
        ]
    }
}

impl Default for Genre {
    /// The default genre is `Unknown`.
    fn default() -> (r: Genre)
        ensures
            r == Genre::Unknown,
    {
        Genre::Unknown
    }
}

/// Whether two strings hold the same characters.
fn str_eq(a: &str, b: &str) -> (r: bool)
    ensures
        r == (a@ == b@),
{
    let na = a.unicode_len();
    let nb = b.unicode_len();
    if na != nb {
        return false;
    }
    let mut i: usize = 0;
    while i < na
        invariant
            i <= na == a@.len(),
            na == b@.len(),
            forall|k: int| 0 <= k < i ==> a@[k] == b@[k],
        decreases na - i,
    {
        if a.get_char(i) != b.get_char(i) {
            return false;
        }
        i = i + 1;
    }
    proof {
        assert(a@ =~= b@);
    }
    true
}

/// Serializing a genre to its tag name and reading the name back recovers
/// the same variant: the twenty tag names are pairwise distinct.
pub proof fn lemma_genre_tag_round_trip(g: Genre)
    ensures
        Genre::spec_from_tag(g.spec_tag()) == Some(g),
{
    reveal_strlit("Unknown");
    reveal_strlit("Action");
    reveal_strlit("Adventure");
    reveal_strlit("Comedy");
    reveal_strlit("Drama");
    reveal_strlit("Ecchi");
    reveal_strlit("Fantasy");
    reveal_strlit("Hentai");
    reveal_strlit("Horror");
    reveal_strlit("MahouShoujo");
    reveal_strlit("Mecha");
    reveal_strlit("Music");
    reveal_strlit("Mystery");
    reveal_strlit("Psychological");
    reveal_strlit("Romance");
    reveal_strlit("SciFi");
    reveal_strlit("SlifeOfLife");
    reveal_strlit("Sports");
    reveal_strlit("Supernatural");
    reveal_strlit("Thriller");
    // The first two characters already distinguish every pair of tag names.
    assert("Unknown"@[0] == 'U' && "Unknown"@[1] == 'n');
    assert("Action"@[0] == 'A' && "Action"@[1] == 'c');
    assert("Adventure"@[0] == 'A' && "Adventure"@[1] == 'd');
    assert("Comedy"@[0] == 'C' && "Comedy"@[1] == 'o');
    assert("Drama"@[0] == 'D' && "Drama"@[1] == 'r');
    assert("Ecchi"@[0] == 'E' && "Ecchi"@[1] == 'c');
    assert("Fantasy"@[0] == 'F' && "Fantasy"@[1] == 'a');
    assert("Hentai"@[0] == 'H' && "Hentai"@[1] == 'e');
    assert("Horror"@[0] == 'H' && "Horror"@[1] == 'o');
    assert("MahouShoujo"@[0] == 'M' && "MahouShoujo"@[1] == 'a');
    assert("Mecha"@[0] == 'M' && "Mecha"@[1] == 'e');
    assert("Music"@[0] == 'M' && "Music"@[1] == 'u');
    assert("Mystery"@[0] == 'M' && "Mystery"@[1] == 'y');
    assert("Psychological"@[0] == 'P' && "Psychological"@[1] == 's');
    assert("Romance"@[0] == 'R' && "Romance"@[1] == 'o');
    assert("SciFi"@[0] == 'S' && "SciFi"@[1] == 'c');
    assert("SlifeOfLife"@[0] == 'S' && "SlifeOfLife"@[1] == 'l');
    assert("Sports"@[0] == 'S' && "Sports"@[1] == 'p');
    assert("Supernatural"@[0] == 'S' && "Supernatural"@[1] == 'u');
    assert("Thriller"@[0] == 'T' && "Thriller"@[1] == 'h');
    match g {
        Genre::Unknown => assert(Genre::spec_from_tag("Unknown"@) == Some(Genre::Unknown)),
        Genre::Action => assert(Genre::spec_from_tag("Action"@) == Some(Genre::Action)),
        Genre::Adventure => assert(Genre::spec_from_tag("Adventure"@) == Some(Genre::Adventure)),
        Genre::Comedy => assert(Genre::spec_from_tag("Comedy"@) == Some(Genre::Comedy)),
        Genre::Drama => assert(Genre::spec_from_tag("Drama"@) == Some(Genre::Drama)),
        Genre::Ecchi => assert(Genre::spec_from_tag("Ecchi"@) == Some(Genre::Ecchi)),
        Genre::Fantasy => assert(Genre::spec_from_tag("Fantasy"@) == Some(Genre::Fantasy)),
        Genre::Hentai => assert(Genre::spec_from_tag("Hentai"@) == Some(Genre::Hentai)),
        Genre::Horror => assert(Genre::spec_from_tag("Horror"@) == Some(Genre::Horror)),
        Genre::MahouShoujo => assert(Genre::spec_from_tag("MahouShoujo"@) == Some(
            Genre::MahouShoujo,
        )),
        Genre::Mecha => assert(Genre::spec_from_tag("Mecha"@) == Some(Genre::Mecha)),
        Genre::Music => assert(Genre::spec_from_tag("Music"@) == Some(Genre::Music)),
        Genre::Mystery => assert(Genre::spec_from_tag("Mystery"@) == Some(Genre::Mystery)),
        Genre::Psychological => assert(Genre::spec_from_tag("Psychological"@) == Some(
            Genre::Psychological,
        )),
        Genre::Romance => assert(Genre::spec_from_tag("Romance"@) == Some(Genre::Romance)),
        Genre::SciFi => assert(Genre::spec_from_tag("SciFi"@) == Some(Genre::SciFi)),
        Genre::SlifeOfLife => assert(Genre::spec_from_tag("SlifeOfLife"@) == Some(
            Genre::SlifeOfLife,
        )),
        Genre::Sports => assert(Genre::spec_from_tag("Sports"@) == Some(Genre::Sports)),
        Genre::Supernatural => assert(Genre::spec_from_tag("Supernatural"@) == Some(
            Genre::Supernatural,
        )),
        Genre::Thriller => assert(Genre::spec_from_tag("Thriller"@) == Some(Genre::Thriller)),
    }
}

} // verus!
