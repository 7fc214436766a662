use vstd::prelude::*;

verus! {

/// The links of a job. `result` is where the outcome of the job is asked for;
/// `endpoint` is received as the member `self`.
#[derive(Clone, Debug, PartialEq, Eq)]
pub struct MusicLinks {
    pub result: String,
    pub endpoint: String,
}

/// Mathematical model of [`MusicLinks`].
pub ghost struct MusicLinksView {
    pub result: Seq<char>,
    pub endpoint: Seq<char>,
}

impl View for MusicLinks {
    type V = MusicLinksView;

    open spec fn view(&self) -> MusicLinksView {
        MusicLinksView { result: self.result@, endpoint: self.endpoint@ }
    }
}

} // verus!
