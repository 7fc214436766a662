pub mod attributes;

pub use attributes::{Attributes, AttributesView, Prompt, PromptView};
use vstd::prelude::*;

verus! {

/// The `data` member of a generation request. `kind` is sent as the member `type`.
#[derive(Clone, Debug, PartialEq, Eq)]
pub struct RequestParams {
    pub kind: String,
    pub attributes: Attributes,
}

/// Mathematical model of [`RequestParams`].
pub ghost struct RequestParamsView {
    pub kind: Seq<char>,
    pub attributes: AttributesView,
}

impl View for RequestParams {
    type V = RequestParamsView;

    open spec fn view(&self) -> RequestParamsView {
        RequestParamsView { kind: self.kind@, attributes: self.attributes@ }
    }
}

} // verus!
