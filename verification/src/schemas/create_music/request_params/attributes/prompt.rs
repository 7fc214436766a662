use vstd::prelude::*;

verus! {

/// One text prompt and the weight the service gives it.
#[derive(Clone, Debug, PartialEq, Eq)]
pub struct Prompt {
    pub text: String,
    pub weight: u32,
}

/// Mathematical model of a [`Prompt`].
pub ghost struct PromptView {
    pub text: Seq<char>,
    pub weight: u32,
}

impl View for Prompt {
    type V = PromptView;

    open spec fn view(&self) -> PromptView {
        PromptView { text: self.text@, weight: self.weight }
    }
}

} // verus!
