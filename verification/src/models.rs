//! The catalog of acoustic models that can be downloaded.

use vstd::prelude::*;
use vstd::string::*;

verus! {

/// One model of the catalog.
#[derive(Debug)]
pub struct ModelInfo {
    /// The model's name, as shown.
    pub name: String,
    /// The name of the model's file.
    pub filename: String,
    /// Size of the file, in megabytes.
    pub size_mb: u64,
    /// Where the file is downloaded from.
    pub url: String,
    /// What the model is good for.
    pub description: String,
}

/// `ModelInfo` with its texts as sequences of characters.
pub struct ModelEntry {
    pub name: Seq<char>,
    pub filename: Seq<char>,
    pub size_mb: u64,
    pub url: Seq<char>,
    pub description: Seq<char>,
}

impl DeepView for ModelInfo {
    type V = ModelEntry;

    open spec fn deep_view(&self) -> ModelEntry {
        ModelEntry {
            name: self.name@,
            filename: self.filename@,
            size_mb: self.size_mb,
            url: self.url@,
            description: self.description@,
        }
    }
}

impl Clone for ModelInfo {
    fn clone(&self) -> (copy: Self)
        ensures
            copy.deep_view() == self.deep_view(),
    {
        ModelInfo {
            name: self.name.clone(),
            filename: self.filename.clone(),
            size_mb: self.size_mb,
            url: self.url.clone(),
            description: self.description.clone(),
        }
    }
}

/// The directory that every model file is downloaded from.
pub open spec fn download_base() -> Seq<char> {
    "https://huggingface.co/ggerganov/whisper.cpp/resolve/main/"@
}

/// The catalog entry of the model in `filename`: its file lies under its own
/// name in the download directory.
pub open spec fn entry_for(
    name: Seq<char>,
    filename: Seq<char>,
    size_mb: u64,
    description: Seq<char>,
) -> ModelEntry {
    ModelEntry { name, filename, size_mb, url: download_base() + filename, description }
}

/// The catalog: ten models, from the smallest to the largest, each
/// multilingual model followed by its English-only form where there is one.
pub open spec fn catalog() -> Seq<ModelEntry> {
    seq![
        entry_for(
            "Tiny"@,
            "ggml-tiny.bin"@,
            75,
            "Fastest, least accurate. Good for testing."@,
        ),
        entry_for(
            "Tiny (English)"@,
            "ggml-tiny.en.bin"@,
            75,
            "Tiny model, English only. Faster than multilingual."@,
        ),
        entry_for("Base"@, "ggml-base.bin"@, 142, "Good balance of speed and accuracy."@),
        entry_for("Base (English)"@, "ggml-base.en.bin"@, 142, "Base model, English only."@),
        entry_for("Small"@, "ggml-small.bin"@, 466, "Good accuracy, moderate speed."@),
        entry_for("Small (English)"@, "ggml-small.en.bin"@, 466, "Small model, English only."@),
        entry_for(
            "Medium"@,
            "ggml-medium.bin"@,
            1500,
            "High accuracy, slower. Recommended for quality."@,
        ),
        entry_for(
            "Medium (English)"@,
            "ggml-medium.en.bin"@,
            1500,
            "Medium model, English only."@,
        ),
        entry_for(
            "Large-v3"@,
            "ggml-large-v3.bin"@,
            3100,
            "Best accuracy, slowest. Requires GPU for real-time."@,
        ),
        entry_for(
            "Large-v3 Turbo"@,
            "ggml-large-v3-turbo.bin"@,
            1600,
            "Large v3 optimized for speed. Great balance."@,
        ),
    ]
}

/// Builds the catalog entry of the model in `filename`.
pub fn model_info(name: &str, filename: &str, size_mb: u64, description: &str) -> (info: ModelInfo)
    ensures
        info.deep_view() == entry_for(name@, filename@, size_mb, description@),
{
    ModelInfo {
        name: name.to_owned(),
        filename: filename.to_owned(),
        size_mb,
        url: String::from_str("https://huggingface.co/ggerganov/whisper.cpp/resolve/main/").concat(
            filename,
        ),
        description: description.to_owned(),
    }
}

/// The models that can be downloaded, in the catalog's order.
pub fn get_available_models() -> (models: Vec<ModelInfo>)
    ensures
        models.deep_view() == catalog(),
        models@.len() == 10,
{
    let mut models: Vec<ModelInfo> = Vec::new();
    models.push(
        model_info("Tiny", "ggml-tiny.bin", 75, "Fastest, least accurate. Good for testing."),
    );
    models.push(
        model_info(
            "Tiny (English)",
            "ggml-tiny.en.bin",
            75,
            "Tiny model, English only. Faster than multilingual.",
        ),
    );
    models.push(model_info("Base", "ggml-base.bin", 142, "Good balance of speed and accuracy."));
    models.push(model_info("Base (English)", "ggml-base.en.bin", 142, "Base model, English only."));
    models.push(model_info("Small", "ggml-small.bin", 466, "Good accuracy, moderate speed."));
    models.push(
        model_info("Small (English)", "ggml-small.en.bin", 466, "Small model, English only."),
    );
    models.push(
        model_info(
            "Medium",
            "ggml-medium.bin",
            1500,
            "High accuracy, slower. Recommended for quality.",
        ),
    );
    models.push(
        model_info("Medium (English)", "ggml-medium.en.bin", 1500, "Medium model, English only."),
    );
    models.push(
        model_info(
            "Large-v3",
            "ggml-large-v3.bin",
            3100,
            "Best accuracy, slowest. Requires GPU for real-time.",
        ),
    );
    models.push(
        model_info(
            "Large-v3 Turbo",
            "ggml-large-v3-turbo.bin",
            1600,
            "Large v3 optimized for speed. Great balance.",
        ),
    );
    assert(models.deep_view() =~= catalog());
    models
}

/// Every model of the catalog is downloaded from its own file name under the
/// download directory.
pub proof fn lemma_catalog_urls(i: int)
    requires
        0 <= i < catalog().len(),
    ensures
        catalog()[i].url == download_base() + catalog()[i].filename,
{
}

} // verus!
