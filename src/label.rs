//! Turning a completion item into a decorated, range-annotated display label.

use vstd::prelude::*;
use vstd::string::*;
use vstd::utf8::*;

verus! {

/// The semantic kind of a completion item, as the language server reports it.
#[derive(Clone, Copy, Debug, PartialEq, Eq, Structural)]
pub enum CompletionKind {
    Text,
    Method,
    Function,
    Constructor,
    Field,
    Variable,
    Class,
    Interface,
    Module,
    Property,
    Unit,
    Value,
    Enum,
    Keyword,
    Snippet,
    Color,
    File,
    Reference,
    Folder,
    EnumMember,
    Constant,
    Struct,
    Event,
    Operator,
    TypeParameter,
    Other(i32),
}

/// A half-open byte range `[start, end)`.
#[derive(Clone, Copy, Debug, PartialEq, Eq, Structural)]
pub struct TextRange {
    pub start: usize,
    pub end: usize,
}

/// A display label: the text to render, the part of it that shows the
/// completion's own text, and the range matched against what the user typed.
#[derive(Clone, Debug)]
pub struct CodeLabel {
    pub code: String,
    pub highlight: TextRange,
    pub filter_range: TextRange,
}

/// The mathematical content of a [`CodeLabel`].
pub struct LabelModel {
    pub code: Seq<char>,
    pub highlight_start: nat,
    pub highlight_end: nat,
    pub filter_start: nat,
    pub filter_end: nat,
}

impl View for CodeLabel {
    type V = LabelModel;

    open spec fn view(&self) -> LabelModel {
        LabelModel {
            code: self.code@,
            highlight_start: self.highlight.start as nat,
            highlight_end: self.highlight.end as nat,
            filter_start: self.filter_range.start as nat,
            filter_end: self.filter_range.end as nat,
        }
    }
}

pub open spec fn label_view(r: Option<CodeLabel>) -> Option<LabelModel> {
    match r {
        Some(l) => Some(l@),
        None => None,
    }
}

/// Number of bytes in the UTF-8 encoding of `s`.
pub open spec fn byte_len(s: Seq<char>) -> nat {
    encode_utf8(s).len()
}

/// How a kind of completion is decorated.
pub enum Decoration {
    /// The label as it is.
    Plain,
    /// The label followed by `": value"`.
    ValueSuffix,
    /// The label after `"element "`.
    ElementPrefix,
    /// The label after `"view "`.
    ViewPrefix,
}

pub open spec fn decoration_of(kind: CompletionKind) -> Option<Decoration> {
    match kind {
        CompletionKind::Keyword => Some(Decoration::Plain),
        CompletionKind::Property | CompletionKind::Field => Some(Decoration::ValueSuffix),
        CompletionKind::Class | CompletionKind::Struct | CompletionKind::Module => Some(
            Decoration::ElementPrefix,
        ),
        CompletionKind::Function => Some(Decoration::ViewPrefix),
        CompletionKind::Enum | CompletionKind::EnumMember | CompletionKind::Color => Some(
            Decoration::Plain,
        ),
        CompletionKind::Variable | CompletionKind::Reference => Some(Decoration::Plain),
        _ => None,
    }
}

/// A label whose code is `prefix + label + suffix`, highlighting the label
/// inside it and filtering on the label's own length.
pub open spec fn framed(prefix: Seq<char>, label: Seq<char>, suffix: Seq<char>) -> LabelModel {
    LabelModel {
        code: prefix + label + suffix,
        highlight_start: byte_len(prefix),
        highlight_end: byte_len(prefix) + byte_len(label),
        filter_start: 0,
        filter_end: byte_len(label),
    }
}

/// The label shown for a completion with text `label` and kind `kind`;
/// `None` asks for the editor's default rendering.
pub open spec fn label_model(label: Seq<char>, kind: Option<CompletionKind>) -> Option<LabelModel> {
    match kind {
        None => None,
        Some(k) => match decoration_of(k) {
            None => None,
            Some(Decoration::Plain) => Some(framed(seq![], label, seq![])),
            Some(Decoration::ValueSuffix) => Some(framed(seq![], label, ": value"@)),
            Some(Decoration::ElementPrefix) => Some(framed("element "@, label, seq![])),
            Some(Decoration::ViewPrefix) => Some(framed("view "@, label, seq![])),
        },
    }
}

/// The UTF-8 encoding of a concatenation is the concatenation of the encodings.
pub proof fn lemma_encode_utf8_concat(a: Seq<char>, b: Seq<char>)
    ensures
        encode_utf8(a + b) == encode_utf8(a) + encode_utf8(b),
    decreases a.len(),
{
    if a.len() == 0 {
        assert(a + b =~= b);
    } else {
        assert((a + b).drop_first() =~= a.drop_first() + b);
        lemma_encode_utf8_concat(a.drop_first(), b);
        assert(encode_utf8(a + b) =~= encode_utf8(a) + encode_utf8(b));
    }
}

/// In a framed label the filter range spans the label's own length, and the
/// highlighted bytes of the code are exactly the label's bytes.
pub proof fn lemma_framed_ranges(prefix: Seq<char>, label: Seq<char>, suffix: Seq<char>)
    ensures
        ({
            let m = framed(prefix, label, suffix);
            &&& m.filter_start == 0
            &&& m.filter_end == byte_len(label)
            &&& m.highlight_start <= m.highlight_end <= byte_len(m.code)
            &&& encode_utf8(m.code).subrange(m.highlight_start as int, m.highlight_end as int)
                == encode_utf8(label)
        }),
{
    lemma_encode_utf8_concat(prefix, label);
    lemma_encode_utf8_concat(prefix + label, suffix);
    let bytes = encode_utf8(prefix) + encode_utf8(label) + encode_utf8(suffix);
    assert(bytes.subrange(
        byte_len(prefix) as int,
        (byte_len(prefix) + byte_len(label)) as int,
    ) =~= encode_utf8(label));
}

/// Whatever the kind, a label's filter range is `[0, len(label))` in bytes
/// and its highlight range covers the bytes of the code that reproduce the
/// label verbatim.
pub proof fn lemma_label_ranges(label: Seq<char>, kind: Option<CompletionKind>)
    ensures
        label_model(label, kind) matches Some(m) ==> {
            &&& m.filter_start == 0
            &&& m.filter_end == byte_len(label)
            &&& m.highlight_start <= m.highlight_end <= byte_len(m.code)
            &&& encode_utf8(m.code).subrange(m.highlight_start as int, m.highlight_end as int)
                == encode_utf8(label)
        },
{
    lemma_framed_ranges(seq![], label, seq![]);
    lemma_framed_ranges(seq![], label, ": value"@);
    lemma_framed_ranges("element "@, label, seq![]);
    lemma_framed_ranges("view "@, label, seq![]);
}

/// Labelling has no hidden input: the same completion text and kind always
/// give the same label.
pub proof fn lemma_label_is_pure(
    label1: Seq<char>,
    kind1: Option<CompletionKind>,
    label2: Seq<char>,
    kind2: Option<CompletionKind>,
)
    requires
        label1 == label2,
        kind1 == kind2,
    ensures
        label_model(label1, kind1) == label_model(label2, kind2),
{
}

/// Number of bytes in the UTF-8 encoding of `s`.
fn byte_count(s: &str) -> (n: usize)
    ensures
        n == byte_len(s@),
{
    s.as_bytes().len()
}

/// A label framed by `prefix` before the label.
fn prefixed(prefix: &str, label: &String) -> (r: CodeLabel)
    ensures
        r@ == framed(prefix@, label@, seq![]),
{
    let mut code = String::new();
    code.append(prefix);
    code.append(label.as_str());
    proof {
        lemma_encode_utf8_concat(prefix@, label@);
        assert(code@ =~= prefix@ + label@ + seq![]);
    }
    let start = byte_count(prefix);
    let end = byte_count(code.as_str());
    let filter_end = byte_count(label.as_str());
    CodeLabel {
        code,
        highlight: TextRange { start, end },
        filter_range: TextRange { start: 0, end: filter_end },
    }
}

/// A label framed by `suffix` after the label.
fn suffixed(label: &String, suffix: &str) -> (r: CodeLabel)
    ensures
        r@ == framed(seq![], label@, suffix@),
{
    let mut code = String::new();
    code.append(label.as_str());
    code.append(suffix);
    proof {
        assert(code@ =~= seq![] + label@ + suffix@);
        assert(encode_utf8(seq![]) =~= seq![]);
    }
    let end = byte_count(label.as_str());
    CodeLabel {
        code,
        highlight: TextRange { start: 0, end },
        filter_range: TextRange { start: 0, end },
    }
}

/// The label as it is, highlighted and filtered over its whole length.
fn plain(label: &String) -> (r: CodeLabel)
    ensures
        r@ == framed(seq![], label@, seq![]),
{
    proof {
        assert(label@ =~= seq![] + label@ + seq![]);
        assert(encode_utf8(seq![]) =~= seq![]);
    }
    let end = byte_count(label.as_str());
    CodeLabel {
        code: label.clone(),
        highlight: TextRange { start: 0, end },
        filter_range: TextRange { start: 0, end },
    }
}

/// Decorates a completion by its kind: keywords, enums, enum members,
/// colors, variables and references as they are; properties and fields as
/// `"{label}: value"`; classes, structs and modules as `"element {label}"`;
/// functions as `"view {label}"`. Other kinds, and a completion without a
/// kind, get `None`.
pub fn label_for_completion(label: &String, kind: Option<CompletionKind>) -> (r: Option<CodeLabel>)
    ensures
        label_view(r) == label_model(label@, kind),
{
    let kind = match kind {
        Some(k) => k,
        None => return None,
    };
    match kind {
        CompletionKind::Keyword | CompletionKind::Enum | CompletionKind::EnumMember
        | CompletionKind::Color | CompletionKind::Variable | CompletionKind::Reference => {
            Some(plain(label))
        },
        CompletionKind::Property | CompletionKind::Field => Some(suffixed(label, ": value")),
        CompletionKind::Class | CompletionKind::Struct | CompletionKind::Module => Some(
            prefixed("element ", label),
        ),
        CompletionKind::Function => Some(prefixed("view ", label)),
        _ => None,
    }
}

} // verus!
