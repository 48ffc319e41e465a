//! Events for the tag-based streaming parser.
//!
//! The baseline tool writes a tag-structured document. The document is
//! tokenized into a flat sequence of start and end markers, each carrying a
//! name and a set of attributes; a marker that could not be read at all is
//! kept as `Malformed` so the consumer can count it and go on. The parser in
//! `nmap` folds such a sequence into result records.

use vstd::prelude::*;

verus! {

/// One attribute of a start marker: a name and a value.
pub struct Attr {
    pub name: String,
    pub value: String,
}

/// The mathematical value of an [`Attr`].
pub struct AttrModel {
    pub name: Seq<char>,
    pub value: Seq<char>,
}

impl View for Attr {
    type V = AttrModel;

    open spec fn view(&self) -> AttrModel {
        AttrModel { name: self.name@, value: self.value@ }
    }
}

impl DeepView for Attr {
    type V = AttrModel;

    open spec fn deep_view(&self) -> AttrModel {
        self@
    }
}

/// One marker of the tag stream.
pub enum TagEvent {
    /// A start marker with its name and its attributes, in document order.
    Start { name: String, attrs: Vec<Attr> },
    /// An end marker with its name.
    End { name: String },
    /// An entry that could not be read; the consumer skips it and counts a
    /// diagnostic, it never aborts the stream.
    Malformed,
    /// Any other entry of the document; the consumer ignores it.
    Other,
}

/// The mathematical value of a [`TagEvent`].
pub enum TagEventModel {
    Start { name: Seq<char>, attrs: Seq<AttrModel> },
    End { name: Seq<char> },
    Malformed,
    Other,
}

impl View for TagEvent {
    type V = TagEventModel;

    open spec fn view(&self) -> TagEventModel {
        match self {
            TagEvent::Start { name, attrs } => TagEventModel::Start {
                name: name@,
                attrs: attrs.deep_view(),
            },
            TagEvent::End { name } => TagEventModel::End { name: name@ },
            TagEvent::Malformed => TagEventModel::Malformed,
            TagEvent::Other => TagEventModel::Other,
        }
    }
}

impl DeepView for TagEvent {
    type V = TagEventModel;

    open spec fn deep_view(&self) -> TagEventModel {
        self@
    }
}

/// How many entries of the stream were unreadable.
pub open spec fn count_malformed(events: Seq<TagEventModel>) -> nat
    decreases events.len(),
{
    if events.len() == 0 {
        0
    } else {
        count_malformed(events.drop_last()) + if events.last() is Malformed {
            1nat
        } else {
            0nat
        }
    }
}

} // verus!
