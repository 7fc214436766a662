pub mod music_links;

pub use music_links::{MusicLinks, MusicLinksView};
use vstd::prelude::*;

verus! {

/// One job in a response of the service. `kind` is received as the member `type`.
#[derive(Clone, Debug, PartialEq, Eq)]
pub struct ResponseParams {
    pub kind: String,
    pub id: String,
    pub links: MusicLinks,
}

/// Mathematical model of [`ResponseParams`].
pub ghost struct ResponseParamsView {
    pub kind: Seq<char>,
    pub id: Seq<char>,
    pub links: MusicLinksView,
}

impl View for ResponseParams {
    type V = ResponseParamsView;

    open spec fn view(&self) -> ResponseParamsView {
        ResponseParamsView { kind: self.kind@, id: self.id@, links: self.links@ }
    }
}

} // verus!
