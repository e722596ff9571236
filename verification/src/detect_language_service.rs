//! Language detection through an external web service: the service keys are
//! rotated at random, and a response counts only when its first detection is
//! marked reliable. The HTTP call itself, with its bounded retries, lives with
//! the embedding program; the decisions about keys and responses are verified
//! here.
use vstd::prelude::*;

use crate::text::{lower_of, to_lowercase};
use rand::Rng;

verus! {

#[derive(Debug, Clone, PartialEq)]
pub struct DetectLanguageResponse {
    pub data: Data,
}

#[derive(Debug, Clone, PartialEq)]
pub struct Data {
    pub detections: Vec<Detection>,
}

/// One detection of the external service: the language code and whether the
/// service considers the detection reliable.
#[derive(Debug, Clone, PartialEq)]
pub struct Detection {
    pub language: String,
    pub is_reliable: bool,
}

/// Relies on rand::Rng::gen_range: an index drawn below `n`. Nothing holds of
/// which index comes back beyond its range.
#[verifier::external_body]
fn random_below(n: usize) -> (index: usize)
    requires
        n > 0,
    ensures
        index < n,
{
    rand::thread_rng().gen_range(0..n)
}

pub struct DetectLanguageService {
    pub api_keys: Vec<String>,
}

impl DetectLanguageService {
    /// A service handle over the given credential pool.
    pub fn new(api_keys: Vec<String>) -> (service: DetectLanguageService)
        ensures
            service.api_keys == api_keys,
    {
        DetectLanguageService { api_keys }
    }

    /// One of the configured keys, drawn at random.
    pub fn get_api_key(&self) -> (key: String)
        requires
            self.api_keys@.len() > 0,
        ensures
            exists|i: int| 0 <= i < self.api_keys@.len() && key == self.api_keys@[i],
    {
        let index = random_below(self.api_keys.len());
        self.api_keys[index].clone()
    }

    /// The language a service response settles on: the first detection's code,
    /// folded to lower case, provided there is one and it is reliable.
    pub fn select_detected_language(&self, response: &DetectLanguageResponse) -> (lang: Option<
        String,
    >)
        ensures
            match lang {
                Some(code) => response.data.detections@.len() > 0
                    && response.data.detections@[0].is_reliable && code@ == lower_of(
                    response.data.detections@[0].language@,
                ),
                None => !(response.data.detections@.len() > 0
                    && response.data.detections@[0].is_reliable),
            },
    {
        if response.data.detections.len() > 0 && response.data.detections[0].is_reliable {
            Some(to_lowercase(response.data.detections[0].language.as_str()))
        } else {
            None
        }
    }
}

} // verus!
