use whisper_cpp::{
    FullParamsBlock, ParamsStorage, WhisperParams, WhisperParamsError, WhisperSampling,
    SAMPLING_BEAM_SEARCH, SAMPLING_GREEDY,
};

fn sample_params(strategy: WhisperSampling) -> WhisperParams {
    WhisperParams {
        strategy,
        thread_count: 4,
        max_text_ctx: 16384,
        offset_ms: 250,
        duration_ms: 30000,
        translate: true,
        no_context: false,
        no_timestamps: true,
        single_segment: false,
        print_special: true,
        print_progress: false,
        print_realtime: true,
        print_timestamps: false,
        token_timestamps: true,
        thold_pt: 0.01f32.to_bits(),
        thold_ptsum: 0.02f32.to_bits(),
        max_len: 60,
        split_on_word: true,
        max_tokens: 7,
        speed_up: false,
        debug_mode: true,
        audio_ctx: 1500,
        tdrz_enable: false,
        initial_prompt: String::from("Hello there."),
        prompt_tokens: vec![50257, 12, -3],
        language: String::from("de"),
        detect_language: false,
        suppress_blank: true,
        suppress_non_speech_tokens: false,
        temperature: 0.2f32.to_bits(),
        max_initial_ts: 1.0f32.to_bits(),
        length_penalty: (-1.0f32).to_bits(),
        temperature_inc: 0.4f32.to_bits(),
        entropy_thold: 2.4f32.to_bits(),
        logprob_thold: (-1.0f32).to_bits(),
        no_speech_thold: 0.6f32.to_bits(),
        grammar_rule_count: 3,
        i_start_rule: 1,
        grammar_penalty: 100.0f32.to_bits(),
    }
}

fn encode(p: &WhisperParams) -> (ParamsStorage, FullParamsBlock) {
    match p.c_params() {
        Ok(r) => r,
        Err(e) => panic!("encoding failed: {:?}", e),
    }
}

#[test]
fn default_strategies_are_inert() {
    assert_eq!(WhisperSampling::default_greedy(), WhisperSampling::Greedy { best_of: 0 });
    assert_eq!(
        WhisperSampling::default_beam(),
        WhisperSampling::BeamSearch { beam_size: 0, patience: 0 }
    );
    assert_eq!(WhisperSampling::default_greedy().tag(), SAMPLING_GREEDY);
    assert_eq!(WhisperSampling::default_beam().tag(), SAMPLING_BEAM_SEARCH);
}

#[test]
fn encode_copies_every_field() {
    let p = sample_params(WhisperSampling::Greedy { best_of: 5 });
    let (storage, block) = encode(&p);
    assert_eq!(block.strategy, SAMPLING_GREEDY);
    assert_eq!(block.n_threads, 4);
    assert_eq!(block.n_max_text_ctx, 16384);
    assert_eq!(block.offset_ms, 250);
    assert_eq!(block.duration_ms, 30000);
    assert!(block.translate && !block.no_context && block.no_timestamps);
    assert!(!block.single_segment && block.print_special && !block.print_progress);
    assert!(block.print_realtime && !block.print_timestamps && block.token_timestamps);
    assert_eq!(f32::from_bits(block.thold_pt), 0.01f32);
    assert_eq!(f32::from_bits(block.thold_ptsum), 0.02f32);
    assert_eq!(block.max_len, 60);
    assert!(block.split_on_word);
    assert_eq!(block.max_tokens, 7);
    assert!(!block.speed_up && block.debug_mode);
    assert_eq!(block.audio_ctx, 1500);
    assert!(!block.tdrz_enable);
    assert_eq!(block.initial_prompt, Some(0));
    assert!(block.prompt_tokens);
    assert_eq!(block.prompt_n_tokens, 3);
    assert_eq!(block.language, Some(1));
    assert!(!block.detect_language && block.suppress_blank && !block.suppress_non_speech_tokens);
    assert_eq!(f32::from_bits(block.temperature), 0.2f32);
    assert_eq!(f32::from_bits(block.max_initial_ts), 1.0f32);
    assert_eq!(f32::from_bits(block.length_penalty), -1.0f32);
    assert_eq!(f32::from_bits(block.temperature_inc), 0.4f32);
    assert_eq!(f32::from_bits(block.entropy_thold), 2.4f32);
    assert_eq!(f32::from_bits(block.logprob_thold), -1.0f32);
    assert_eq!(f32::from_bits(block.no_speech_thold), 0.6f32);
    assert_eq!(block.n_grammar_rules, 3);
    assert_eq!(block.i_start_rule, 1);
    assert_eq!(f32::from_bits(block.grammar_penalty), 100.0f32);
    assert_eq!(storage.strings, vec![String::from("Hello there."), String::from("de")]);
    assert_eq!(storage.tokens, vec![50257, 12, -3]);
}

#[test]
fn greedy_fills_inert_beam_block() {
    let p = sample_params(WhisperSampling::Greedy { best_of: 5 });
    let (_, block) = encode(&p);
    assert_eq!(block.greedy_best_of, 5);
    assert_eq!(block.beam_size, 0);
    assert_eq!(block.beam_patience, 0);
}

#[test]
fn beam_search_fills_inert_greedy_block() {
    let patience = 1.5f32.to_bits();
    let p = sample_params(WhisperSampling::BeamSearch { beam_size: 8, patience });
    let (_, block) = encode(&p);
    assert_eq!(block.strategy, SAMPLING_BEAM_SEARCH);
    assert_eq!(block.greedy_best_of, 0);
    assert_eq!(block.beam_size, 8);
    assert_eq!(f32::from_bits(block.beam_patience), 1.5f32);
}

#[test]
fn empty_initial_prompt_is_null() {
    let mut p = sample_params(WhisperSampling::default_greedy());
    p.initial_prompt = String::new();
    let (storage, block) = encode(&p);
    assert_eq!(block.initial_prompt, None);
    assert_eq!(block.language, Some(0));
    assert_eq!(storage.strings, vec![String::from("de")]);
}

#[test]
fn empty_strings_and_tokens_are_null() {
    let mut p = sample_params(WhisperSampling::default_greedy());
    p.initial_prompt = String::new();
    p.language = String::new();
    p.prompt_tokens = Vec::new();
    let (storage, block) = encode(&p);
    assert_eq!(block.initial_prompt, None);
    assert_eq!(block.language, None);
    assert!(!block.prompt_tokens);
    assert_eq!(block.prompt_n_tokens, 0);
    assert!(storage.strings.is_empty());
    assert!(storage.tokens.is_empty());
}

#[test]
fn large_counts_keep_their_bits() {
    let mut p = sample_params(WhisperSampling::Greedy { best_of: u32::MAX });
    p.thread_count = u32::MAX;
    p.max_len = 0x8000_0000;
    let (_, block) = encode(&p);
    assert_eq!(block.n_threads, -1);
    assert_eq!(block.max_len, i32::MIN);
    assert_eq!(block.greedy_best_of, -1);
}

#[test]
fn nul_in_initial_prompt_is_rejected() {
    let mut p = sample_params(WhisperSampling::default_greedy());
    p.initial_prompt = String::from("ab\0cd\0");
    p.language = String::from("e\0n");
    match p.c_params() {
        Err(WhisperParamsError::SessionInitialization { nul_position }) => assert_eq!(nul_position, 2),
        Ok(_) => panic!("a string with a 0 byte was encoded"),
    }
}

#[test]
fn nul_in_language_is_rejected() {
    let mut p = sample_params(WhisperSampling::default_greedy());
    p.initial_prompt = String::from("ok");
    p.language = String::from("\u{e9}\0");
    match p.c_params() {
        Err(WhisperParamsError::SessionInitialization { nul_position }) => assert_eq!(nul_position, 2),
        Ok(_) => panic!("a string with a 0 byte was encoded"),
    }
}

#[test]
fn decode_reads_null_pointers_as_empty() {
    let mut p = sample_params(WhisperSampling::default_greedy());
    p.initial_prompt = String::new();
    p.language = String::new();
    p.prompt_tokens = Vec::new();
    let (storage, block) = encode(&p);
    let q = WhisperParams::from_block(&block, &storage, 2);
    assert_eq!(q.initial_prompt, "");
    assert_eq!(q.language, "");
    assert!(q.prompt_tokens.is_empty());
    assert_eq!(q.thread_count, 2);
}

#[test]
fn decode_takes_the_counted_tokens() {
    let (mut storage, mut block) = encode(&sample_params(WhisperSampling::default_greedy()));
    storage.tokens = vec![1, 2, 3, 4];
    block.prompt_n_tokens = 2;
    let q = WhisperParams::from_block(&block, &storage, 1);
    assert_eq!(q.prompt_tokens, vec![1, 2]);
}

#[test]
fn decode_selects_strategy_by_tag() {
    let (storage, mut block) = encode(&sample_params(WhisperSampling::default_greedy()));
    block.greedy_best_of = 2;
    block.beam_size = 5;
    block.beam_patience = 0.5f32.to_bits();
    let q = WhisperParams::from_block(&block, &storage, 1);
    assert_eq!(q.strategy, WhisperSampling::Greedy { best_of: 2 });
    block.strategy = SAMPLING_BEAM_SEARCH;
    let q = WhisperParams::from_block(&block, &storage, 1);
    assert_eq!(q.strategy, WhisperSampling::BeamSearch { beam_size: 5, patience: 0.5f32.to_bits() });
}

#[test]
fn round_trip_keeps_every_field() {
    let p = sample_params(WhisperSampling::BeamSearch { beam_size: 3, patience: 2.0f32.to_bits() });
    let (storage, block) = encode(&p);
    let q = WhisperParams::from_block(&block, &storage, p.thread_count);
    let (storage2, block2) = encode(&q);
    assert_eq!(block2, block);
    assert_eq!(storage2.strings, storage.strings);
    assert_eq!(storage2.tokens, storage.tokens);
    assert_eq!(q.initial_prompt, p.initial_prompt);
    assert_eq!(q.language, p.language);
    assert_eq!(q.prompt_tokens, p.prompt_tokens);
}

#[test]
fn round_trip_keeps_strategy() {
    for strategy in [
        WhisperSampling::Greedy { best_of: 7 },
        WhisperSampling::BeamSearch { beam_size: 4, patience: (-0.0f32).to_bits() },
    ] {
        let p = sample_params(strategy);
        let (storage, block) = encode(&p);
        let q = WhisperParams::from_block(&block, &storage, 9);
        assert_eq!(q.strategy, strategy);
    }
}
