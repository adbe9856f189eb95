//! What is fed to a tagged hasher.

use vstd::prelude::*;

use crate::byte_map::ByteMap;
use crate::model::views;

verus! {

/// One value that goes into a tagged hash.
#[derive(Debug, PartialEq, Eq)]
pub enum TaggedField {
    Bytes(Vec<u8>),
    Text(String),
    U64(u64),
    ByteMap(ByteMap),
}

/// The view of a `TaggedField`.
pub enum TaggedFieldView {
    Bytes(Seq<u8>),
    Text(Seq<char>),
    U64(u64),
    ByteMap(Map<Seq<char>, Seq<u8>>),
}

impl View for TaggedField {
    type V = TaggedFieldView;

    open spec fn view(&self) -> TaggedFieldView {
        match self {
            TaggedField::Bytes(bytes) => TaggedFieldView::Bytes(bytes@),
            TaggedField::Text(text) => TaggedFieldView::Text(text@),
            TaggedField::U64(number) => TaggedFieldView::U64(*number),
            TaggedField::ByteMap(map) => TaggedFieldView::ByteMap(map@),
        }
    }
}

/// The tags of a tagged hash, and the values that go into it, in order.
#[derive(Debug, PartialEq, Eq)]
pub struct TaggedInput {
    pub tags: Vec<String>,
    pub fields: Vec<TaggedField>,
}

/// The view of a `TaggedInput`.
pub struct TaggedInputView {
    pub tags: Seq<Seq<char>>,
    pub fields: Seq<TaggedFieldView>,
}

impl View for TaggedInput {
    type V = TaggedInputView;

    open spec fn view(&self) -> TaggedInputView {
        TaggedInputView { tags: views(self.tags@), fields: views(self.fields@) }
    }
}

} // verus!
