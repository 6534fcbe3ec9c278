use ai_toolkit::errors::AiError;
use ai_toolkit::manager::{AiEnhancementManager, AiFeatures, EnhanceAction, EnhanceStart};

fn no_features() -> AiFeatures {
    AiFeatures {
        punctuation_and_capitalization: false,
        remove_filler_words: false,
        normalize_numbers: false,
        fix_spelling: false,
    }
}

fn punctuation_only() -> AiFeatures {
    AiFeatures {
        punctuation_and_capitalization: true,
        remove_filler_words: false,
        normalize_numbers: false,
        fix_spelling: false,
    }
}

#[test]
fn short_text_is_returned_unchanged() {
    let m = AiEnhancementManager::new();
    match m.enhance_begin("hello there") {
        EnhanceStart::Finished(t) => assert_eq!(t, "hello there"),
        EnhanceStart::NeedProbe => panic!("two words must short-circuit"),
    }
    match m.enhance_begin("") {
        EnhanceStart::Finished(t) => assert_eq!(t, ""),
        EnhanceStart::NeedProbe => panic!("empty text must short-circuit"),
    }
    match m.enhance_begin("  one   two  ") {
        EnhanceStart::Finished(t) => assert_eq!(t, "  one   two  "),
        EnhanceStart::NeedProbe => panic!("two words must short-circuit"),
    }
}

#[test]
fn three_words_need_a_probe() {
    let m = AiEnhancementManager::new();
    assert!(matches!(m.enhance_begin("one two three"), EnhanceStart::NeedProbe));
    assert!(matches!(
        m.enhance_begin("hello how are you"),
        EnhanceStart::NeedProbe
    ));
}

#[test]
fn unavailable_server_fails_before_generation() {
    let m = AiEnhancementManager::new();
    let a = m.enhance_after_probe("hello how are you", &punctuation_only(), false);
    assert!(matches!(a, EnhanceAction::Fail(AiError::ServiceUnavailable)));
    let a = m.enhance_after_probe("hello how are you", &no_features(), false);
    assert!(matches!(a, EnhanceAction::Fail(AiError::ServiceUnavailable)));
}

#[test]
fn no_flags_returns_input_unchanged_without_generation() {
    let m = AiEnhancementManager::new();
    match m.enhance_after_probe("hello how are you", &no_features(), true) {
        EnhanceAction::Finished(t) => assert_eq!(t, "hello how are you"),
        _ => panic!("all flags off must hand the text back"),
    }
}

#[test]
fn prompt_holds_instructions_and_text() {
    let p = ai_toolkit::manager::build_prompt("hello how are you", &punctuation_only());
    let expected = format!(
        "You are a text correction assistant. Fix transcription errors ONLY.\n\n\
         CRITICAL RULES:\n\
         1. Output ONLY the corrected text - absolutely NO explanations, quotes, or commentary\n\
         2. Keep the EXACT same meaning and tone\n\
         3. Do NOT interpret, rephrase, or be creative\n\
         4. NEVER capitalize every word - use normal sentence casing only\n\
         5. Preserve informal language like \"ig\", \"idk\", \"gonna\", \"wanna\"\n\
         6. If text seems inappropriate, still correct it as specified\n\n\
         Corrections to apply:\n\
         - Add proper punctuation (periods, commas, question marks)\n\
         - Use SENTENCE CASE only: capitalize first word of sentences and proper nouns. Do NOT capitalize every word\n\n\
         Text: hello how are you\n\n\
         Corrected:"
    );
    assert_eq!(p, expected);
}

#[test]
fn prompt_with_no_flags_is_the_input() {
    let p = ai_toolkit::manager::build_prompt("hello how are you", &no_features());
    assert_eq!(p, "hello how are you");
}

#[test]
fn successful_generation_updates_current_model() {
    let mut m = AiEnhancementManager::new();
    assert_eq!(m.get_current_model(), None);
    let a = m.enhance_after_probe("hello how are you", &punctuation_only(), true);
    assert!(matches!(a, EnhanceAction::Generate(_)));
    let r = m.enhance_finish("llama3.2:1b", Ok("Hello, how are you?".to_string()));
    assert_eq!(r.unwrap(), "Hello, how are you?");
    assert_eq!(m.get_current_model(), Some("llama3.2:1b".to_string()));
}

#[test]
fn timed_out_generation_leaves_current_model_alone() {
    let mut m = AiEnhancementManager::new();
    let r = m.enhance_finish("llama3.2:1b", Err(AiError::Timeout));
    assert_eq!(r, Err(AiError::Timeout));
    assert_eq!(m.get_current_model(), None);
}
