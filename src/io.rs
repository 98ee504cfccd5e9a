//! What a read of the stored document amounts to.
use vstd::prelude::*;
use crate::model::{default_skyset, Skyset, SkysetView};
use crate::text::{trim_text, trimmed};

verus! {

/// A document together with the raw text it was read from.
pub struct ReadOutcome {
    pub skyset: Skyset,
    pub raw: String,
}

/// Whether a stored text holds nothing but white space.
pub open spec fn is_blank(content: Seq<char>) -> bool {
    trimmed(content).len() == 0
}

/// The document that a read of `content` adopts, given what parsing it produced.
pub open spec fn outcome_document(content: Seq<char>, parsed: Option<SkysetView>) -> SkysetView {
    if is_blank(content) {
        default_skyset()
    } else {
        match parsed {
            Some(d) => d,
            None => default_skyset(),
        }
    }
}

/// The raw content that a read of `content` remembers as last seen.
pub open spec fn outcome_raw(content: Seq<char>) -> Seq<char> {
    if is_blank(content) {
        Seq::empty()
    } else {
        content
    }
}

pub open spec fn parsed_view(parsed: Option<Skyset>) -> Option<SkysetView> {
    match parsed {
        Some(d) => Some(d@),
        None => None,
    }
}

/// The outcome of reading the stored text `content`, given what parsing it
/// produced (`None` where it did not parse). A blank text counts as no document
/// and no raw content; a text that does not parse gives the defaults but is
/// still remembered as the raw content last seen.
pub fn read_outcome(content: String, parsed: Option<Skyset>) -> (r: ReadOutcome)
    ensures
        r.skyset@ == outcome_document(content@, parsed_view(parsed)),
        r.raw@ == outcome_raw(content@),
{
    let blank = trim_text(content.as_str()).unicode_len() == 0;
    if blank {
        return ReadOutcome { skyset: Skyset::default(), raw: String::new() };
    }
    match parsed {
        Some(skyset) => ReadOutcome { skyset, raw: content },
        None => ReadOutcome { skyset: Skyset::default(), raw: content },
    }
}

/// The state to start from: what was read, or the defaults with no raw content
/// where the read failed.
pub fn load_initial_state(read: Option<ReadOutcome>) -> (r: ReadOutcome)
    ensures
        read is Some ==> r == read->0,
        read is None ==> r.skyset@ == default_skyset() && r.raw@ == Seq::<char>::empty(),
{
    match read {
        Some(outcome) => outcome,
        None => ReadOutcome { skyset: Skyset::default(), raw: String::new() },
    }
}

} // verus!
