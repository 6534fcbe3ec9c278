use vstd::prelude::*;

verus! {

/// A hardware snapshot, as the recommendation rule reads it.
///
/// Memory sizes are carried in tenths of a gigabyte, the resolution the
/// recommendation thresholds are stated at; whoever takes the snapshot
/// rounds the measured size to that resolution.
pub struct SystemInfo {
    pub total_ram_tenth_gb: u64,
    pub available_ram_tenth_gb: u64,
    pub cpu_cores: u64,
    pub os: String,
}

/// Pick the model that fits the machine: below 8 GB of total RAM a compact
/// model chosen by available RAM, between 8 and 16 GB the balanced default,
/// and from 16 GB up the highest-quality small model.
pub fn recommend_ai_model(info: &SystemInfo) -> (r: &'static str)
    ensures
        info.total_ram_tenth_gb < 80 && info.available_ram_tenth_gb > 20 ==> r@ == "gemma2:2b"@,
        info.total_ram_tenth_gb < 80 && info.available_ram_tenth_gb <= 20 ==> r@ == "qwen2.5:0.5b"@,
        80 <= info.total_ram_tenth_gb && info.total_ram_tenth_gb < 160 ==> r@ == "llama3.2:1b"@,
        info.total_ram_tenth_gb >= 160 ==> r@ == "qwen2.5:1.5b"@,
{
    if info.total_ram_tenth_gb < 80 {
        if info.available_ram_tenth_gb > 20 {
            "gemma2:2b"
        } else {
            "qwen2.5:0.5b"
        }
    } else if info.total_ram_tenth_gb < 160 {
        "llama3.2:1b"
    } else {
        "qwen2.5:1.5b"
    }
}

/// One row of the static catalogue of installable models.
pub struct AiModelInfo {
    pub id: String,
    pub size_mb: u32,
    pub speed: String,
    pub quality: String,
    pub notes: String,
}

/// The static catalogue of models the host may offer for installation.
pub fn get_available_models() -> (r: Vec<AiModelInfo>)
    ensures
        r@.len() == 5,
        r@[0].id@ == "gemma2:2b"@ && r@[0].size_mb == 270,
        r@[0].speed@ == "Fastest"@ && r@[0].quality@ == "Good"@,
        r@[0].notes@ == "Best for low RAM systems (< 8GB)"@,
        r@[1].id@ == "qwen2.5:0.5b"@ && r@[1].size_mb == 500,
        r@[1].speed@ == "Very Fast"@ && r@[1].quality@ == "Good"@,
        r@[1].notes@ == "Ultra lightweight option"@,
        r@[2].id@ == "llama3.2:1b"@ && r@[2].size_mb == 1000,
        r@[2].speed@ == "Fast"@ && r@[2].quality@ == "Excellent"@,
        r@[2].notes@ == "Recommended default - best balance"@,
        r@[3].id@ == "gemma2:1b"@ && r@[3].size_mb == 1000,
        r@[3].speed@ == "Fast"@ && r@[3].quality@ == "Very Good"@,
        r@[3].notes@ == "Alternative 1B model"@,
        r@[4].id@ == "qwen2.5:1.5b"@ && r@[4].size_mb == 1500,
        r@[4].speed@ == "Moderate"@ && r@[4].quality@ == "Best"@,
        r@[4].notes@ == "Highest quality (16GB+ RAM recommended)"@,
{
    let mut r: Vec<AiModelInfo> = Vec::new();
    r.push(AiModelInfo {
        id: "gemma2:2b".to_owned(),
        size_mb: 270,
        speed: "Fastest".to_owned(),
        quality: "Good".to_owned(),
        notes: "Best for low RAM systems (< 8GB)".to_owned(),
    });
    r.push(AiModelInfo {
        id: "qwen2.5:0.5b".to_owned(),
        size_mb: 500,
        speed: "Very Fast".to_owned(),
        quality: "Good".to_owned(),
        notes: "Ultra lightweight option".to_owned(),
    });
    r.push(AiModelInfo {
        id: "llama3.2:1b".to_owned(),
        size_mb: 1000,
        speed: "Fast".to_owned(),
        quality: "Excellent".to_owned(),
        notes: "Recommended default - best balance".to_owned(),
    });
    r.push(AiModelInfo {
        id: "gemma2:1b".to_owned(),
        size_mb: 1000,
        speed: "Fast".to_owned(),
        quality: "Very Good".to_owned(),
        notes: "Alternative 1B model".to_owned(),
    });
    r.push(AiModelInfo {
        id: "qwen2.5:1.5b".to_owned(),
        size_mb: 1500,
        speed: "Moderate".to_owned(),
        quality: "Best".to_owned(),
        notes: "Highest quality (16GB+ RAM recommended)".to_owned(),
    });
    r
}

} // verus!
