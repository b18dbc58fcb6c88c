//! What the clipboard holds.

use vstd::prelude::*;

use super::logic::{PasteboardContent, PasteboardKind};

verus! {

/// Which representations the clipboard offers.
#[derive(Clone, Copy, Debug, PartialEq, Eq, Structural)]
pub struct PasteboardTypes {
    pub file_url: bool,
    pub png: bool,
    pub tiff: bool,
    pub string: bool,
}

/// The representation that stands for the whole content.
#[derive(Clone, Copy, Debug, PartialEq, Eq, Structural)]
pub enum PasteboardType {
    FileUrl,
    Png,
    Tiff,
    Text,
}

impl PasteboardTypes {
    /// A file comes before an image, an image before text.
    pub open spec fn spec_preferred(self) -> Option<PasteboardType> {
        if self.file_url {
            Some(PasteboardType::FileUrl)
        } else if self.png {
            Some(PasteboardType::Png)
        } else if self.tiff {
            Some(PasteboardType::Tiff)
        } else if self.string {
            Some(PasteboardType::Text)
        } else {
            None
        }
    }

    pub open spec fn spec_kind(self) -> PasteboardKind {
        match self.spec_preferred() {
            Some(PasteboardType::FileUrl) => PasteboardKind::File,
            Some(PasteboardType::Png) => PasteboardKind::Image,
            Some(PasteboardType::Tiff) => PasteboardKind::Image,
            Some(PasteboardType::Text) => PasteboardKind::Text,
            None => PasteboardKind::Other,
        }
    }

    /// The representation that stands for the whole content.
    pub fn preferred(self) -> (preferred: Option<PasteboardType>)
        ensures
            preferred == self.spec_preferred(),
    {
        if self.file_url {
            Some(PasteboardType::FileUrl)
        } else if self.png {
            Some(PasteboardType::Png)
        } else if self.tiff {
            Some(PasteboardType::Tiff)
        } else if self.string {
            Some(PasteboardType::Text)
        } else {
            None
        }
    }

    /// What kind of content the clipboard holds.
    pub fn kind(self) -> (kind: PasteboardKind)
        ensures
            kind == self.spec_kind(),
    {
        match self.preferred() {
            Some(PasteboardType::FileUrl) => PasteboardKind::File,
            Some(PasteboardType::Png) => PasteboardKind::Image,
            Some(PasteboardType::Tiff) => PasteboardKind::Image,
            Some(PasteboardType::Text) => PasteboardKind::Text,
            None => PasteboardKind::Other,
        }
    }

    /// The content, with its body where that is asked for: text and its length in
    /// bytes, or the length of any other data.
    pub fn content<
        T: FnOnce() -> Option<String>,
        L: FnOnce(PasteboardType) -> Option<u64>,
    >(self, include_content: bool, read_text: T, data_length: L) -> (content: PasteboardContent)
        requires
            include_content ==> match self.spec_preferred() {
                None => true,
                Some(PasteboardType::Text) => call_requires(read_text, ()),
                Some(other) => call_requires(data_length, (other,)),
            },
        ensures
            content.kind == self.spec_kind(),
            !include_content || self.spec_preferred() is None ==> content.text is None
                && content.size_bytes is None,
            include_content ==> match self.spec_preferred() {
                None => true,
                Some(PasteboardType::Text) => call_ensures(read_text, (), content.text)
                    && content.size_bytes == match content.text {
                    Some(text) => Some(vstd::utf8::encode_utf8(text@).len() as u64),
                    None => None,
                },
                Some(other) => content.text is None && call_ensures(
                    data_length,
                    (other,),
                    content.size_bytes,
                ),
            },
    {
        let kind = self.kind();
        if !include_content {
            return PasteboardContent { kind, size_bytes: None, text: None };
        }
        match self.preferred() {
            None => PasteboardContent { kind, size_bytes: None, text: None },
            Some(PasteboardType::Text) => {
                let text = read_text();
                let size_bytes = match &text {
                    Some(text) => Some(text.as_str().as_bytes().len() as u64),
                    None => None,
                };
                PasteboardContent { kind, size_bytes, text }
            },
            Some(other) => {
                let size_bytes = data_length(other);
                PasteboardContent { kind, size_bytes, text: None }
            },
        }
    }
}

/// Files come before images and images before text; a pasteboard with none of them holds
/// something else. What is preferred decides the kind.
pub proof fn law_files_come_before_images_and_text(
    types: PasteboardTypes,
    preferred: Option<PasteboardType>,
    kind: PasteboardKind,
)
    requires
        call_ensures(PasteboardTypes::preferred, (types,), preferred),
        call_ensures(PasteboardTypes::kind, (types,), kind),
    ensures
        kind is File <==> types.file_url,
        kind is Image <==> !types.file_url && (types.png || types.tiff),
        kind is Text <==> types.string && !types.file_url && !types.png && !types.tiff,
        kind is Other <==> !types.file_url && !types.png && !types.tiff && !types.string,
        preferred == Some(PasteboardType::FileUrl) <==> kind is File,
        preferred == Some(PasteboardType::Png) <==> kind is Image && types.png,
        preferred == Some(PasteboardType::Tiff) <==> kind is Image && !types.png,
        preferred == Some(PasteboardType::Text) <==> kind is Text,
        preferred is None <==> kind is Other,
{
}

/// Nothing of the content is told where it may not be. Text is told with its length in bytes;
/// of files and images only the length is told.
pub proof fn law_content_is_told_only_where_allowed<
    T: FnOnce() -> Option<String>,
    L: FnOnce(PasteboardType) -> Option<u64>,
>(
    types: PasteboardTypes,
    include_content: bool,
    read_text: T,
    data_length: L,
    content: PasteboardContent,
)
    requires
        call_ensures(
            PasteboardTypes::content::<T, L>,
            (types, include_content, read_text, data_length),
            content,
        ),
    ensures
        !include_content ==> content.text is None && content.size_bytes is None,
        content.text is Some ==> content.kind is Text && call_ensures(read_text, (), content.text)
            && content.size_bytes == Some(
            vstd::utf8::encode_utf8(content.text->0@).len() as u64,
        ),
        include_content && content.kind is Text ==> call_ensures(read_text, (), content.text),
        include_content && content.kind is File ==> call_ensures(
            data_length,
            (PasteboardType::FileUrl,),
            content.size_bytes,
        ),
        include_content && content.kind is Image ==> call_ensures(
            data_length,
            (if types.png {
                PasteboardType::Png
            } else {
                PasteboardType::Tiff
            },),
            content.size_bytes,
        ),
        content.kind is Other ==> content.size_bytes is None,
        content.kind is File <==> types.file_url,
        content.kind is Text <==> types.string && !types.file_url && !types.png && !types.tiff,
{
}

} // verus!
