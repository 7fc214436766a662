//! The request that starts a generation job and the response that describes it.

pub mod request_params;
pub mod response_params;

pub use request_params::{
    Attributes, AttributesView, Prompt, PromptView, RequestParams, RequestParamsView,
};
pub use response_params::{MusicLinks, MusicLinksView, ResponseParams, ResponseParamsView};
use vstd::prelude::*;

verus! {

/// The body of the request that starts a generation job.
#[derive(Clone, Debug, PartialEq, Eq)]
pub struct CreateMusicRequest {
    pub data: RequestParams,
}

/// Mathematical model of a [`CreateMusicRequest`].
pub ghost struct CreateMusicRequestView {
    pub data: RequestParamsView,
}

impl View for CreateMusicRequest {
    type V = CreateMusicRequestView;

    open spec fn view(&self) -> CreateMusicRequestView {
        CreateMusicRequestView { data: self.data@ }
    }
}

/// The body of a response of the service: the jobs it speaks of.
#[derive(Clone, Debug, PartialEq, Eq)]
pub struct CreateMusicResponse {
    pub data: Vec<ResponseParams>,
}

/// Mathematical model of a [`CreateMusicResponse`].
pub ghost struct CreateMusicResponseView {
    pub data: Seq<ResponseParamsView>,
}

impl View for CreateMusicResponse {
    type V = CreateMusicResponseView;

    open spec fn view(&self) -> CreateMusicResponseView {
        CreateMusicResponseView { data: self.data@.map_values(|p: ResponseParams| p@) }
    }
}

/// The request for one prompt: kind `generations`, the prompt as the only one.
pub open spec fn generation_request(
    prompt: Seq<char>,
    weight: u32,
    length_seconds: u32,
    seed: u32,
) -> CreateMusicRequestView {
    CreateMusicRequestView {
        data: RequestParamsView {
            kind: "generations"@,
            attributes: AttributesView {
                prompts: seq![PromptView { text: prompt, weight }],
                length_seconds,
                seed,
            },
        },
    }
}

/// The result link of the first job of a response, if the response names a job.
pub open spec fn first_result(response: CreateMusicResponseView) -> Option<Seq<char>> {
    if response.data.len() > 0 {
        Some(response.data[0].links.result)
    } else {
        None
    }
}

impl CreateMusicRequest {
    /// Builds the request that asks for one piece from one prompt.
    pub fn generation(prompt: String, weight: u32, length_seconds: u32, seed: u32) -> (request:
        CreateMusicRequest)
        ensures
            request@ == generation_request(prompt@, weight, length_seconds, seed),
    {
        let ghost text = prompt@;
        let prompts = vec![Prompt { text: prompt, weight }];
        let request = CreateMusicRequest {
            data: RequestParams {
                kind: "generations".to_owned(),
                attributes: Attributes { prompts, length_seconds, seed },
            },
        };
        assert(request.data.attributes@.prompts =~= seq![PromptView { text, weight }]);
        request
    }
}

impl CreateMusicResponse {
    /// The result link of the first job, or `None` where the response names no job.
    pub fn result_url(&self) -> (url: Option<String>)
        ensures
            url.is_some() == first_result(self@).is_some(),
            url matches Some(u) ==> first_result(self@) == Some(u@),
    {
        if self.data.len() > 0 {
            Some(self.data[0].links.result.clone())
        } else {
            None
        }
    }
}

} // verus!
