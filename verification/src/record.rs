//! The assembled metadata record and the prompt pipeline's fallback rule.
//!
//! A record is built once per run from the operator's answers. Every
//! prompt hands the pipeline an `Option`: `Some` for an answer, `None` for
//! a cancelled or failed prompt. Assembly never fails; a missing answer
//! becomes the field's default (empty text, empty genre list,
//! `Status::Unknown`).

use vstd::prelude::*;

use crate::genre::Genre;
use crate::status::Status;

verus! {

/// The abstract value of a [`Details`] record.
#[verifier::ext_equal]
pub ghost struct DetailsView {
    pub title: Seq<char>,
    pub author: Seq<char>,
    pub artist: Seq<char>,
    pub description: Seq<char>,
    pub genre: Seq<Genre>,
    pub status: Status,
}

/// The metadata record of one run: four free-text fields, the chosen
/// genres in selection order, and the publication status.
#[derive(Debug, Clone)]
pub struct Details {
    pub title: String,
    pub author: String,
    pub artist: String,
    pub description: String,
    pub genre: Vec<Genre>,
    pub status: Status,
}

impl View for Details {
    type V = DetailsView;

    open spec fn view(&self) -> DetailsView {
        DetailsView {
            title: self.title@,
            author: self.author@,
            artist: self.artist@,
            description: self.description@,
            genre: self.genre@,
            status: self.status,
        }
    }
}

/// The record every field of which holds its default: the value of a run
/// in which every prompt was cancelled.
pub open spec fn default_view() -> DetailsView {
    DetailsView {
        title: Seq::empty(),
        author: Seq::empty(),
        artist: Seq::empty(),
        description: Seq::empty(),
        genre: Seq::empty(),
        status: Status::Unknown,
    }
}

impl Details {
    /// Assembles a record from the outcome of the six prompts, in their
    /// fixed order. A cancelled prompt (`None`) yields the field's
    /// default; an answered prompt yields the answer unchanged.
    pub fn from_prompts(
        title: Option<String>,
        author: Option<String>,
        artist: Option<String>,
        description: Option<String>,
        genre: Option<Vec<Genre>>,
        status: Option<Status>,
    ) -> (d: Details)
        ensures
            d@.title == (match title {
                Option::Some(t) => t@,
                Option::None => Seq::<char>::empty(),
            }),
            d@.author == (match author {
                Option::Some(t) => t@,
                Option::None => Seq::<char>::empty(),
            }),
            d@.artist == (match artist {
                Option::Some(t) => t@,
                Option::None => Seq::<char>::empty(),
            }),
            d@.description == (match description {
                Option::Some(t) => t@,
                Option::None => Seq::<char>::empty(),
            }),
            d@.genre == (match genre {
                Option::Some(g) => g@,
                Option::None => Seq::<Genre>::empty(),
            }),
            d@.status == (match status {
                Option::Some(s) => s,
                Option::None => Status::Unknown,
            }),
    {
        let title = match title {
            Option::Some(t) => t,
            Option::None => String::new(),
        };
        let author = match author {
            Option::Some(t) => t,
            Option::None => String::new(),
        };
        let artist = match artist {
            Option::Some(t) => t,
            Option::None => String::new(),
        };
        let description = match description {
            Option::Some(t) => t,
            Option::None => String::new(),
        };
        let genre = match genre {
            Option::Some(g) => g,
            Option::None => Vec::new(),
        };
        let status = match status {
            Option::Some(s) => s,
            Option::None => Status::Unknown,
        };
        Details { title, author, artist, description, genre, status }
    }
}

impl Default for Details {
    /// The all-default record.
    fn default() -> (d: Details)
        ensures
            d@ == default_view(),
    {
        let d = Details {
            title: String::new(),
            author: String::new(),
            artist: String::new(),
            description: String::new(),
            genre: Vec::new(),
            status: Status::Unknown,
        };
        proof {
            assert(d@.genre =~= Seq::<Genre>::empty());
        }
        d
    }
}

/// A run in which every prompt was cancelled assembles the all-default
/// record: each field equals its declared default.
pub proof fn lemma_all_cancelled_gives_defaults(d: Details)
    requires
        d@.title == Seq::<char>::empty(),
        d@.author == Seq::<char>::empty(),
        d@.artist == Seq::<char>::empty(),
        d@.description == Seq::<char>::empty(),
        d@.genre == Seq::<Genre>::empty(),
        d@.status == Status::Unknown,
    ensures
        d@ == default_view(),
{
}

} // verus!
