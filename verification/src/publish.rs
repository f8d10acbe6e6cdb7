//! Planning one publish cycle for a selected entry: the image path derived
//! from the code, the caption composed from the display name, and the rule
//! that a post is attempted exactly when the upload succeeded.

use vstd::prelude::*;
use vstd::string::StringExecFns;
use crate::dataset::Dataset;

verus! {

/// One cycle's selected entry, recorded as the drawn index and the
/// (code, display name) pair it landed on.
pub struct CountryBot {
    pub rand_number: usize,
    pub file_content: (String, String),
}

/// What the media upload came back with: the handle of the stored media, or
/// the error text of the failed attempt.
pub enum UploadOutcome {
    Uploaded(String),
    Failed(String),
}

/// Everything a post submission needs: the caption and the media handles to
/// attach.
pub struct PostRequest {
    pub message: String,
    pub media_ids: Vec<String>,
}

/// The caption for a display name: exactly `#` followed by the name, with
/// nothing added — an empty name yields `"#"` alone.
pub fn compose_caption(name: &str) -> (r: String)
    ensures
        r@ == "#"@ + name@,
{
    String::from_str("#").concat(name)
}

/// The conventional image location for a code: `flags/<code>.png`.
pub fn flag_path(code: &str) -> (r: String)
    ensures
        r@ == "flags/"@ + code@ + ".png"@,
{
    String::from_str("flags/").concat(code).concat(".png")
}

impl CountryBot {
    /// Records the entry of `dataset` at `index` for this cycle.
    pub fn select(dataset: &Dataset, index: usize) -> (r: Self)
        requires
            index < dataset@.len(),
        ensures
            r.rand_number == index,
            r.file_content.0@ == dataset@[index as int].0,
            r.file_content.1@ == dataset@[index as int].1,
    {
        CountryBot { rand_number: index, file_content: dataset.entry_at(index) }
    }

    /// Records a uniformly random entry of `dataset`; the recorded index is
    /// always in range, so the recorded code is always a key of the dataset.
    pub fn draw(dataset: &Dataset) -> (r: Self)
        requires
            dataset.wf(),
        ensures
            r.rand_number < dataset@.len(),
            r.file_content.0@ == dataset@[r.rand_number as int].0,
            r.file_content.1@ == dataset@[r.rand_number as int].1,
            dataset.has_code(r.file_content.0@),
    {
        let index = dataset.pick_index();
        Self::select(dataset, index)
    }

    /// The path of this cycle's image resource.
    pub fn resource_path(&self) -> (r: String)
        ensures
            r@ == "flags/"@ + self.file_content.0@ + ".png"@,
    {
        flag_path(self.file_content.0.as_str())
    }

    /// Decides what follows the upload attempt: a post request carrying the
    /// caption and exactly the returned media handle when the upload
    /// succeeded, and nothing at all when it failed — no post is ever
    /// attempted without a valid media handle.
    pub fn after_upload(&self, outcome: UploadOutcome) -> (r: Option<PostRequest>)
        ensures
            (outcome matches UploadOutcome::Uploaded(media) ==> r matches Option::Some(req)
                && req.message@ == "#"@ + self.file_content.1@
                && req.media_ids@.len() == 1
                && req.media_ids@[0]@ == media@),
            (outcome matches UploadOutcome::Failed(_) ==> r is None),
    {
        match outcome {
            UploadOutcome::Uploaded(media) => {
                let message = compose_caption(self.file_content.1.as_str());
                let mut media_ids: Vec<String> = Vec::new();
                media_ids.push(media);
                Some(PostRequest { message, media_ids })
            },
            UploadOutcome::Failed(_) => None,
        }
    }
}

} // verus!
