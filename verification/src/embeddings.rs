//! The closed set of sentence-embedding model identifiers and their
//! canonical repository names.

use crate::strutil::str_eq;
use vstd::prelude::*;

verus! {

/// A supported sentence-embedding model.
#[derive(Clone, Copy, Debug, PartialEq, Eq, Structural)]
pub enum ModelType {
    AllMiniLmL12V2,
    AllMiniLmL6V2,
    AllDistilrobertaV1,
    BertBaseNliMeanTokens,
    DistiluseBaseMultilingualCased,
    ParaphraseAlbertSmallV2,
    SentenceT5Base,
}

/// The canonical repository name of a model.
pub open spec fn repo_name_spec(m: ModelType) -> Seq<char> {
    match m {
        ModelType::BertBaseNliMeanTokens => "bert-base-nli-mean-tokens"@,
        ModelType::DistiluseBaseMultilingualCased => "distiluse-base-multilingual-cased"@,
        ModelType::AllMiniLmL12V2 => "all-MiniLM-L12-v2"@,
        ModelType::AllMiniLmL6V2 => "all-MiniLM-L6-v2"@,
        ModelType::AllDistilrobertaV1 => "all-distilroberta-v1"@,
        ModelType::ParaphraseAlbertSmallV2 => "paraphrase-albert-small-v2"@,
        ModelType::SentenceT5Base => "sentence-T5-base"@,
    }
}

/// The model named by a variant-name string, if any.
pub open spec fn model_of_name(s: Seq<char>) -> Option<ModelType> {
    if s == "BertBaseNliMeanTokens"@ {
        Some(ModelType::BertBaseNliMeanTokens)
    } else if s == "DistiluseBaseMultilingualCased"@ {
        Some(ModelType::DistiluseBaseMultilingualCased)
    } else if s == "AllMiniLmL12V2"@ {
        Some(ModelType::AllMiniLmL12V2)
    } else if s == "AllMiniLmL6V2"@ {
        Some(ModelType::AllMiniLmL6V2)
    } else if s == "AllDistilrobertaV1"@ {
        Some(ModelType::AllDistilrobertaV1)
    } else if s == "ParaphraseAlbertSmallV2"@ {
        Some(ModelType::ParaphraseAlbertSmallV2)
    } else if s == "SentenceT5Base"@ {
        Some(ModelType::SentenceT5Base)
    } else {
        None
    }
}

impl ModelType {
    /// Every supported model, in presentation order.
    pub fn all() -> (r: Vec<ModelType>)
        ensures
            r@ == seq![
                ModelType::AllMiniLmL12V2,
                ModelType::AllMiniLmL6V2,
                ModelType::AllDistilrobertaV1,
                ModelType::BertBaseNliMeanTokens,
                ModelType::DistiluseBaseMultilingualCased,
                ModelType::ParaphraseAlbertSmallV2,
                ModelType::SentenceT5Base,
            ],
    {
        let mut v: Vec<ModelType> = Vec::new();
        v.push(ModelType::AllMiniLmL12V2);
        v.push(ModelType::AllMiniLmL6V2);
        v.push(ModelType::AllDistilrobertaV1);
        v.push(ModelType::BertBaseNliMeanTokens);
        v.push(ModelType::DistiluseBaseMultilingualCased);
        v.push(ModelType::ParaphraseAlbertSmallV2);
        v.push(ModelType::SentenceT5Base);
        proof {
            assert(v@ =~= seq![
                ModelType::AllMiniLmL12V2,
                ModelType::AllMiniLmL6V2,
                ModelType::AllDistilrobertaV1,
                ModelType::BertBaseNliMeanTokens,
                ModelType::DistiluseBaseMultilingualCased,
                ModelType::ParaphraseAlbertSmallV2,
                ModelType::SentenceT5Base,
            ]);
        }
        v
    }

    /// The canonical repository name, used both as the local cache
    /// directory name and in the remote download URL.
    pub fn to_repo_name(&self) -> (r: &'static str)
        ensures
            r@ == repo_name_spec(*self),
    {
        match self {
            ModelType::BertBaseNliMeanTokens => "bert-base-nli-mean-tokens",
            ModelType::DistiluseBaseMultilingualCased => "distiluse-base-multilingual-cased",
            ModelType::AllMiniLmL12V2 => "all-MiniLM-L12-v2",
            ModelType::AllMiniLmL6V2 => "all-MiniLM-L6-v2",
            ModelType::AllDistilrobertaV1 => "all-distilroberta-v1",
            ModelType::ParaphraseAlbertSmallV2 => "paraphrase-albert-small-v2",
            ModelType::SentenceT5Base => "sentence-T5-base",
        }
    }

    /// The full remote repository URL of the model.
    pub fn to_repo(&self) -> (r: String)
        ensures
            r@ == "https://huggingface.co/sentence-transformers/"@ + repo_name_spec(*self),
    {
        let mut s = "https://huggingface.co/sentence-transformers/".to_owned();
        s.append(self.to_repo_name());
        s
    }

    /// Parses a variant-name string back into a model identifier.
    pub fn from_str(s: &str) -> (r: Result<ModelType, ()>)
        ensures
            r is Ok <==> model_of_name(s@) is Some,
            r is Ok ==> r->Ok_0 == model_of_name(s@)->0,
    {
        if str_eq(s, "BertBaseNliMeanTokens") {
            Ok(ModelType::BertBaseNliMeanTokens)
        } else if str_eq(s, "DistiluseBaseMultilingualCased") {
            Ok(ModelType::DistiluseBaseMultilingualCased)
        } else if str_eq(s, "AllMiniLmL12V2") {
            Ok(ModelType::AllMiniLmL12V2)
        } else if str_eq(s, "AllMiniLmL6V2") {
            Ok(ModelType::AllMiniLmL6V2)
        } else if str_eq(s, "AllDistilrobertaV1") {
            Ok(ModelType::AllDistilrobertaV1)
        } else if str_eq(s, "ParaphraseAlbertSmallV2") {
            Ok(ModelType::ParaphraseAlbertSmallV2)
        } else if str_eq(s, "SentenceT5Base") {
            Ok(ModelType::SentenceT5Base)
        } else {
            Err(())
        }
    }
}

} // verus!
