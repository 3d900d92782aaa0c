use vstd::prelude::*;
use crate::text::concat;

verus! {

pub struct NewsArticle {
    pub headline: String,
    pub location: String,
    pub author: String,
    pub content: String,
}

pub struct Tweet {
    pub username: String,
    pub content: String,
    pub reply: bool,
    pub retweet: bool,
}

/// A short, human-readable account of a value.
pub trait Summary {
    /// The characters that `summarize` returns.
    spec fn spec_summary(&self) -> Seq<char>;

    fn summarize(&self) -> (r: String)
        ensures
            r@ == self.spec_summary(),
    ;
}

impl Summary for NewsArticle {
    open spec fn spec_summary(&self) -> Seq<char> {
        self.headline@ + ", by "@ + self.author@ + " ("@ + self.location@ + ")"@
    }

    fn summarize(&self) -> (r: String) {
        let s = concat(self.headline.as_str(), ", by ");
        let s = concat(s.as_str(), self.author.as_str());
        let s = concat(s.as_str(), " (");
        let s = concat(s.as_str(), self.location.as_str());
        let r = concat(s.as_str(), ")");
        proof {
            assert(r@ =~= self.spec_summary());
        }
        r
    }
}

/// A value that can summarize itself; always the same tweet.
pub fn returns_summarizable() -> (r: Tweet)
    ensures
        r.spec_summary() == "horse_ebooks"@ + ": "@
            + "of course, as you probably already know, people"@,
{
    Tweet {
        username: "horse_ebooks".to_owned(),
        content: "of course, as you probably already know, people".to_owned(),
        reply: false,
        retweet: false,
    }
}

impl Summary for Tweet {
    open spec fn spec_summary(&self) -> Seq<char> {
        self.username@ + ": "@ + self.content@
    }

    fn summarize(&self) -> (r: String) {
        let s = concat(self.username.as_str(), ": ");
        let r = concat(s.as_str(), self.content.as_str());
        proof {
            assert(r@ =~= self.spec_summary());
        }
        r
    }
}

} // verus!
