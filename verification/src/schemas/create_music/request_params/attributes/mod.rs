pub mod prompt;

pub use prompt::{Prompt, PromptView};
use vstd::prelude::*;

verus! {

/// What to generate: the prompts, the length of the piece and the seed.
#[derive(Clone, Debug, PartialEq, Eq)]
pub struct Attributes {
    pub prompts: Vec<Prompt>,
    pub length_seconds: u32,
    pub seed: u32,
}

/// Mathematical model of [`Attributes`].
pub ghost struct AttributesView {
    pub prompts: Seq<PromptView>,
    pub length_seconds: u32,
    pub seed: u32,
}

impl View for Attributes {
    type V = AttributesView;

    open spec fn view(&self) -> AttributesView {
        AttributesView {
            prompts: self.prompts@.map_values(|p: Prompt| p@),
            length_seconds: self.length_seconds,
            seed: self.seed,
        }
    }
}

} // verus!
