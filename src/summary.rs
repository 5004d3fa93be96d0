//! Short summaries of news articles and tweets.
use vstd::prelude::*;
use vstd::string::StringExecFns;

verus! {

/// Something that can be summed up by its author.
pub trait Summary {
    /// The author, as a summary names them.
    spec fn author_text(&self) -> Seq<char>;

    /// The author, as a summary names them.
    fn summarize_author(&self) -> (r: String)
        ensures
            r@ == self.author_text(),
    ;

    /// "(Read more from <author>...)".
    fn summarize(&self) -> (r: String)
        ensures
            r@ == "(Read more from "@ + self.author_text() + "...)"@,
    {
        let author = self.summarize_author();
        "(Read more from ".to_owned().concat(author.as_str()).concat("...)")
    }
}

/// A news article.
pub struct News {
    pub headline: String,
    pub location: String,
    pub author: String,
    pub content: String,
}

impl Summary for News {
    open spec fn author_text(&self) -> Seq<char> {
        "Author: "@ + self.author@
    }

    fn summarize_author(&self) -> (r: String) {
        "Author: ".to_owned().concat(self.author.as_str())
    }
}

/// A tweet.
pub struct Tweet {
    pub username: String,
    pub content: String,
    pub reply: bool,
    pub retweet: bool,
}

impl Summary for Tweet {
    open spec fn author_text(&self) -> Seq<char> {
        "@"@ + self.username@
    }

    fn summarize_author(&self) -> (r: String) {
        "@".to_owned().concat(self.username.as_str())
    }
}

/// A tweet of horse_ebooks.
pub fn returns_summarizable() -> (r: Tweet)
    ensures
        r.username@ == "horse_ebooks"@,
        r.content@ == "of course, as you probably already know, people"@,
        !r.reply,
        !r.retweet,
{
    Tweet {
        username: "horse_ebooks".to_owned(),
        content: "of course, as you probably already know, people".to_owned(),
        reply: false,
        retweet: false,
    }
}

} // verus!
