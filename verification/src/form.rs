//! Multipart form data: an ordered collection of named parts.

use vstd::prelude::*;

verus! {

/// The value of one named part: plain text, or a named binary blob with its
/// own content type.
#[derive(Debug, Clone, PartialEq, Eq)]
pub enum PartValue {
    Text(String),
    Blob { file_name: String, content_type: String, data: Vec<u8> },
}

/// Mathematical image of a [`PartValue`].
pub enum PartValueView {
    Text(Seq<char>),
    Blob { file_name: Seq<char>, content_type: Seq<char>, data: Seq<u8> },
}

impl View for PartValue {
    type V = PartValueView;

    open spec fn view(&self) -> PartValueView {
        match self {
            PartValue::Text(s) => PartValueView::Text(s@),
            PartValue::Blob { file_name, content_type, data } => PartValueView::Blob {
                file_name: file_name@,
                content_type: content_type@,
                data: data@,
            },
        }
    }
}

/// One named part of a multipart form.
#[derive(Debug, Clone, PartialEq, Eq)]
pub struct Part {
    pub name: String,
    pub value: PartValue,
}

/// Mathematical image of a [`Part`].
#[verifier::ext_equal]
pub struct PartView {
    pub name: Seq<char>,
    pub value: PartValueView,
}

impl View for Part {
    type V = PartView;

    open spec fn view(&self) -> PartView {
        PartView { name: self.name@, value: self.value@ }
    }
}

/// An ordered collection of named parts, consumed by the multipart builders.
#[derive(Debug, Clone, PartialEq, Eq)]
pub struct FormData {
    pub parts: Vec<Part>,
}

impl View for FormData {
    type V = Seq<PartView>;

    open spec fn view(&self) -> Seq<PartView> {
        self.parts@.map_values(|p: Part| p@)
    }
}

impl FormData {
    /// A form with no parts.
    pub fn new() -> (r: FormData)
        ensures
            r@ == Seq::<PartView>::empty(),
    {
        let r = FormData { parts: Vec::new() };
        proof {
            assert(r@ =~= Seq::<PartView>::empty());
        }
        r
    }

    /// Appends a plain-text part named `name`.
    pub fn push_text(&mut self, name: String, value: String)
        ensures
            final(self)@ == old(self)@.push(
                PartView { name: name@, value: PartValueView::Text(value@) },
            ),
    {
        let ghost before = self@;
        self.parts.push(Part { name, value: PartValue::Text(value) });
        proof {
            assert(self@ =~= before.push(self.parts@.last()@));
        }
    }

    /// Appends a binary-blob part named `name`, carrying its own file name
    /// and content type.
    pub fn push_blob(&mut self, name: String, file_name: String, content_type: String, data: Vec<u8>)
        ensures
            final(self)@ == old(self)@.push(
                PartView {
                    name: name@,
                    value: PartValueView::Blob {
                        file_name: file_name@,
                        content_type: content_type@,
                        data: data@,
                    },
                },
            ),
    {
        let ghost before = self@;
        self.parts.push(Part { name, value: PartValue::Blob { file_name, content_type, data } });
        proof {
            assert(self@ =~= before.push(self.parts@.last()@));
        }
    }

    /// How many parts the form holds.
    pub fn len(&self) -> (n: usize)
        ensures
            n == self@.len(),
    {
        self.parts.len()
    }
}

} // verus!
