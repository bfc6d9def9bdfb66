//! The text around the contents of a dynamic page.
use vstd::prelude::*;
use vstd::utf8::encode_utf8;

verus! {

/// A piece of a template: a text as it stands, or a place for a text of the
/// page.
#[derive(Debug, Clone)]
pub enum Part {
    /// A text as it stands.
    Text(String),
    /// Whether the server was built for debugging: `true` or `false`.
    Debug,
    /// The title of the page.
    Title,
    /// The total set of subscriptions to the events of the page, as JSON.
    Subscription,
    /// The body of the page.
    Body,
}

/// The HTML document of a dynamic page, in pieces.
#[derive(Debug, Clone)]
pub struct Template {
    pub parts: Vec<Part>,
}

/// What goes into the places of a template.
pub struct Filling {
    pub debug: bool,
    pub title: Seq<char>,
    pub subscription: Seq<char>,
    pub body: Seq<char>,
}

/// A flag as text.
pub open spec fn flag_text(flag: bool) -> Seq<char> {
    if flag {
        "true"@
    } else {
        "false"@
    }
}

impl Part {
    /// The text that a piece comes to.
    pub open spec fn fill(self, filling: Filling) -> Seq<char> {
        match self {
            Part::Text(text) => text@,
            Part::Debug => flag_text(filling.debug),
            Part::Title => filling.title,
            Part::Subscription => filling.subscription,
            Part::Body => filling.body,
        }
    }
}

/// The texts that the pieces come to, one after the other.
pub open spec fn fill_parts(parts: Seq<Part>, filling: Filling) -> Seq<char>
    decreases parts.len(),
{
    if parts.len() == 0 {
        Seq::empty()
    } else {
        fill_parts(parts.drop_last(), filling) + parts.last().fill(filling)
    }
}

impl Template {
    /// The document that the template comes to, in UTF-8.
    pub open spec fn filled(self, filling: Filling) -> Seq<u8> {
        encode_utf8(fill_parts(self.parts@, filling))
    }

    /// Puts the texts of a page into their places and returns the document in
    /// UTF-8. The texts go in as they are.
    pub fn fill(&self, debug: bool, title: &str, subscription: &str, body: &str) -> (document: Vec<
        u8,
    >)
        ensures
            document@ == self.filled(
                (Filling { debug, title: title@, subscription: subscription@, body: body@ }),
            ),
    {
        let ghost filling = Filling {
            debug,
            title: title@,
            subscription: subscription@,
            body: body@,
        };
        let mut document = String::new();
        let mut done: usize = 0;
        while done < self.parts.len()
            invariant
                done <= self.parts@.len(),
                filling == (Filling {
                    debug,
                    title: title@,
                    subscription: subscription@,
                    body: body@,
                }),
                document@ == fill_parts(self.parts@.take(done as int), filling),
            decreases self.parts@.len() - done,
        {
            let text = match &self.parts[done] {
                Part::Text(text) => text.as_str(),
                Part::Debug => if debug {
                    "true"
                } else {
                    "false"
                },
                Part::Title => title,
                Part::Subscription => subscription,
                Part::Body => body,
            };
            document.append(text);
            proof {
                let next = self.parts@.take(done + 1);
                assert(next.drop_last() =~= self.parts@.take(done as int));
            }
            done += 1;
        }
        proof {
            assert(self.parts@.take(done as int) =~= self.parts@);
        }
        document.as_str().as_bytes_vec()
    }
}

} // verus!
