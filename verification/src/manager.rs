use vstd::prelude::*;
use vstd::string::StringExecFns;
use crate::errors::AiError;
use crate::ollama_client::OllamaModel;

verus! {

/// The feature flags a caller supplies for one enhancement: each one
/// switches one category of correction on.
#[derive(Clone, Copy, Debug, PartialEq, Eq, Structural)]
pub struct AiFeatures {
    pub punctuation_and_capitalization: bool,
    pub remove_filler_words: bool,
    pub normalize_numbers: bool,
    pub fix_spelling: bool,
}

/// The instruction lines the flags select, in the fixed order punctuation
/// and casing, filler-word removal, number normalization, spelling. A flag
/// that is off contributes nothing.
pub open spec fn instruction_lines(f: AiFeatures) -> Seq<Seq<char>> {
    let s0: Seq<Seq<char>> = Seq::empty();
    let s1 = if f.punctuation_and_capitalization {
        s0.push("- Add proper punctuation (periods, commas, question marks)"@)
          .push("- Use SENTENCE CASE only: capitalize first word of sentences and proper nouns. Do NOT capitalize every word"@)
    } else { s0 };
    let s2 = if f.remove_filler_words {
        s1.push("- Remove filler words like 'um', 'uh', 'like' (only when used as fillers, not as verbs)"@)
    } else { s1 };
    let s3 = if f.normalize_numbers {
        s2.push("- Convert spoken numbers to digits: 'twenty five' → '25', 'ten percent' → '10%'"@)
    } else { s2 };
    if f.fix_spelling {
        s3.push("- Fix spelling mistakes and common homophones (their/there/they're)"@)
    } else { s3 }
}

/// The lines of `ss` from position `i` on, joined by a newline.
pub open spec fn join_nl_from(ss: Seq<Seq<char>>, i: int) -> Seq<char>
    decreases ss.len() - i,
{
    if i < 0 || i >= ss.len() {
        Seq::empty()
    } else if i == ss.len() - 1 {
        ss[i]
    } else {
        ss[i] + "\n"@ + join_nl_from(ss, i + 1)
    }
}

/// The full prompt for one generation call: the fixed framing, the
/// selected instruction lines joined by newlines, and the input text.
pub open spec fn prompt_text(text: Seq<char>, f: AiFeatures) -> Seq<char> {
    "You are a text correction assistant. Fix transcription errors ONLY.\n\nCRITICAL RULES:\n1. Output ONLY the corrected text - absolutely NO explanations, quotes, or commentary\n2. Keep the EXACT same meaning and tone\n3. Do NOT interpret, rephrase, or be creative\n4. NEVER capitalize every word - use normal sentence casing only\n5. Preserve informal language like \"ig\", \"idk\", \"gonna\", \"wanna\"\n6. If text seems inappropriate, still correct it as specified\n\nCorrections to apply:\n"@
        + join_nl_from(instruction_lines(f), 0)
        + "\n\nText: "@ + text + "\n\nCorrected:"@
}

/// The instruction lines as string slices, in the order the flags select
/// them.
fn instruction_parts(f: &AiFeatures) -> (r: Vec<&'static str>)
    ensures
        r@.map_values(|s: &'static str| s@) == instruction_lines(*f),
{
    let mut v: Vec<&'static str> = Vec::new();
    if f.punctuation_and_capitalization {
        v.push("- Add proper punctuation (periods, commas, question marks)");
        v.push("- Use SENTENCE CASE only: capitalize first word of sentences and proper nouns. Do NOT capitalize every word");
    }
    if f.remove_filler_words {
        v.push("- Remove filler words like 'um', 'uh', 'like' (only when used as fillers, not as verbs)");
    }
    if f.normalize_numbers {
        v.push("- Convert spoken numbers to digits: 'twenty five' → '25', 'ten percent' → '10%'");
    }
    if f.fix_spelling {
        v.push("- Fix spelling mistakes and common homophones (their/there/they're)");
    }
    proof {
        assert(v@.map_values(|s: &'static str| s@) =~= instruction_lines(*f));
    }
    v
}

/// The parts from position `i` on, joined by a newline.
fn join_from(parts: &Vec<&'static str>, i: usize) -> (r: String)
    requires
        i <= parts@.len(),
    ensures
        r@ == join_nl_from(parts@.map_values(|s: &'static str| s@), i as int),
    decreases parts@.len() - i,
{
    if i >= parts.len() {
        String::new()
    } else {
        let mut s = String::from_str(parts[i]);
        proof {
            assert(parts@.map_values(|p: &'static str| p@)[i as int] == parts@[i as int]@);
        }
        if i + 1 < parts.len() {
            s.append("\n");
            let rest = join_from(parts, i + 1);
            s.append(rest.as_str());
        }
        s
    }
}

/// Build the prompt the flags ask for. With no flag set there is no
/// instruction, and the input comes back unchanged instead of a prompt.
pub fn build_prompt(text: &str, features: &AiFeatures) -> (r: String)
    ensures
        instruction_lines(*features).len() == 0 ==> r@ == text@,
        instruction_lines(*features).len() > 0 ==> r@ == prompt_text(text@, *features),
{
    let parts = instruction_parts(features);
    if parts.len() == 0 {
        return text.to_owned();
    }
    let mut p = String::from_str(
        "You are a text correction assistant. Fix transcription errors ONLY.\n\nCRITICAL RULES:\n1. Output ONLY the corrected text - absolutely NO explanations, quotes, or commentary\n2. Keep the EXACT same meaning and tone\n3. Do NOT interpret, rephrase, or be creative\n4. NEVER capitalize every word - use normal sentence casing only\n5. Preserve informal language like \"ig\", \"idk\", \"gonna\", \"wanna\"\n6. If text seems inappropriate, still correct it as specified\n\nCorrections to apply:\n",
    );
    let joined = join_from(&parts, 0);
    p.append(joined.as_str());
    p.append("\n\nText: ");
    p.append(text);
    p.append("\n\nCorrected:");
    p
}

/// With every flag off no instruction line is selected, so an available
/// server still sees no generation request: the orchestrator hands the
/// input back unchanged.
pub proof fn lemma_no_flags_no_instructions(f: AiFeatures)
    requires
        !f.punctuation_and_capitalization,
        !f.remove_filler_words,
        !f.normalize_numbers,
        !f.fix_spelling,
    ensures
        instruction_lines(f).len() == 0,
{
}

/// How many whitespace-delimited words a string holds.
pub uninterp spec fn word_count_of(s: Seq<char>) -> nat;

/// Relies on str::split_whitespace: the number of whitespace-delimited
/// words depends on the characters alone.
#[verifier::external_body]
fn count_words(s: &str) -> (n: usize)
    ensures
        n as nat == word_count_of(s@),
{
    s.split_whitespace().count()
}

/// What the orchestrator decides before any network traffic: hand the
/// text back unchanged, or go on and probe the server.
pub enum EnhanceStart {
    Finished(String),
    NeedProbe,
}

/// What the orchestrator decides once the probe's answer is in: hand the
/// text back unchanged, fail because the server is away, or call the
/// generation endpoint with the built prompt.
pub enum EnhanceAction {
    Finished(String),
    Fail(AiError),
    Generate(String),
}

/// The orchestrator: it remembers the model of the last successful
/// enhancement and encodes the policy that turns raw transcribed text
/// into a generation call.
pub struct AiEnhancementManager {
    current_model: Option<String>,
}

impl AiEnhancementManager {
    /// The model of the most recent successful enhancement, if any.
    pub closed spec fn spec_current_model(&self) -> Option<Seq<char>> {
        match self.current_model {
            Some(ref s) => Some(s@),
            None => None,
        }
    }

    /// A fresh orchestrator that has enhanced nothing yet.
    pub fn new() -> (r: Self)
        ensures
            r.spec_current_model() is None,
    {
        AiEnhancementManager { current_model: None }
    }

    /// The remembered model, advisory only.
    pub fn get_current_model(&self) -> (r: Option<String>)
        ensures
            r matches Some(s) ==> self.spec_current_model() == Some(s@),
            r is None ==> self.spec_current_model() is None,
    {
        match &self.current_model {
            Some(s) => Some(s.clone()),
            None => None,
        }
    }

    /// The first policy step of one enhancement: text of fewer than three
    /// whitespace-delimited words is handed back unchanged and the server
    /// is never contacted; longer text calls for an availability probe.
    pub fn enhance_begin(&self, text: &str) -> (r: EnhanceStart)
        ensures
            word_count_of(text@) < 3 ==> (r matches EnhanceStart::Finished(t) && t@ == text@),
            word_count_of(text@) >= 3 ==> r is NeedProbe,
    {
        if count_words(text) < 3 {
            EnhanceStart::Finished(text.to_owned())
        } else {
            EnhanceStart::NeedProbe
        }
    }

    /// The second policy step, fed the probe's answer. An absent server
    /// fails the call before any other work; with the server present and
    /// no instruction selected the text is handed back unchanged; else
    /// the built prompt goes to the generation endpoint.
    pub fn enhance_after_probe(&self, text: &str, features: &AiFeatures, available: bool) -> (r: EnhanceAction)
        ensures
            !available ==> r == EnhanceAction::Fail(AiError::ServiceUnavailable),
            available && instruction_lines(*features).len() == 0 ==>
                (r matches EnhanceAction::Finished(t) && t@ == text@),
            available && instruction_lines(*features).len() > 0 ==>
                (r matches EnhanceAction::Generate(p) && p@ == prompt_text(text@, *features)),
    {
        if !available {
            return EnhanceAction::Fail(AiError::ServiceUnavailable);
        }
        let parts = instruction_parts(features);
        if parts.len() == 0 {
            EnhanceAction::Finished(text.to_owned())
        } else {
            EnhanceAction::Generate(build_prompt(text, features))
        }
    }

    /// The last policy step, fed the generation call's outcome. Success
    /// remembers the model and hands the generated text on verbatim; any
    /// error propagates unchanged and the remembered model stays as it
    /// was.
    pub fn enhance_finish(&mut self, model: &str, outcome: Result<String, AiError>) -> (r: Result<String, AiError>)
        ensures
            outcome matches Ok(s) ==> (r matches Ok(t) && t@ == s@
                && final(self).spec_current_model() == Some(model@)),
            outcome matches Err(e) ==> (r == Err::<String, AiError>(e)
                && final(self).spec_current_model() == old(self).spec_current_model()),
    {
        match outcome {
            Ok(s) => {
                self.current_model = Some(model.to_owned());
                Ok(s)
            },
            Err(e) => Err(e),
        }
    }
}

/// The names of the listed models, sizes and timestamps dropped, order
/// kept.
pub fn model_names(models: &Vec<OllamaModel>) -> (r: Vec<String>)
    ensures
        r@.map_values(|s: String| s@) == models@.map_values(|m: OllamaModel| m.name@),
{
    let mut r: Vec<String> = Vec::new();
    let mut i: usize = 0;
    while i < models.len()
        invariant
            i <= models@.len(),
            r@.map_values(|s: String| s@) =~= models@.take(i as int).map_values(|m: OllamaModel| m.name@),
        decreases models@.len() - i,
    {
        let ghost prev = r@;
        r.push(models[i].name.clone());
        proof {
            assert(models@.take(i as int + 1) =~= models@.take(i as int).push(models@[i as int]));
            assert(r@.map_values(|s: String| s@) =~= prev.map_values(|s: String| s@).push(models@[i as int].name@));
            assert(models@.take(i as int + 1).map_values(|m: OllamaModel| m.name@)
                =~= models@.take(i as int).map_values(|m: OllamaModel| m.name@).push(models@[i as int].name@));
        }
        i = i + 1;
    }
    proof {
        assert(models@.take(models@.len() as int) =~= models@);
    }
    r
}

} // verus!
