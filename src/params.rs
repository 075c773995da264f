use vstd::prelude::*;
use vstd::utf8::encode_utf8;

verus! {

/// Tag of the native greedy sampling strategy.
pub const SAMPLING_GREEDY: u32 = 0;

/// Tag of the native beam-search sampling strategy.
pub const SAMPLING_BEAM_SEARCH: u32 = 1;

/// The decoding strategy of one inference pass.
///
/// `patience` is the bit pattern of an IEEE-754 single-precision number: the
/// library copies it between representations and never computes with it.
#[derive(Debug, Clone, Copy, PartialEq, Eq, Structural)]
pub enum WhisperSampling {
    Greedy { best_of: u32 },
    BeamSearch { beam_size: u32, patience: u32 },
}

impl WhisperSampling {
    pub fn default_greedy() -> (r: Self)
        ensures
            r == (WhisperSampling::Greedy { best_of: 0 }),
    {
        WhisperSampling::Greedy { best_of: 0 }
    }

    pub fn default_beam() -> (r: Self)
        ensures
            r == (WhisperSampling::BeamSearch { beam_size: 0, patience: 0 }),
    {
        WhisperSampling::BeamSearch { beam_size: 0, patience: 0 }
    }

    /// The native tag of this strategy.
    pub open spec fn spec_tag(self) -> u32 {
        match self {
            WhisperSampling::Greedy { .. } => SAMPLING_GREEDY,
            WhisperSampling::BeamSearch { .. } => SAMPLING_BEAM_SEARCH,
        }
    }

    /// The native tag of this strategy, which also selects the native default
    /// parameter block to start from.
    pub fn tag(&self) -> (r: u32)
        ensures
            r == self.spec_tag(),
    {
        match self {
            WhisperSampling::Greedy { .. } => SAMPLING_GREEDY,
            WhisperSampling::BeamSearch { .. } => SAMPLING_BEAM_SEARCH,
        }
    }
}

/// Error of the codec from a [`WhisperParams`] to a native parameter block.
#[derive(Debug, Clone, Copy, PartialEq, Eq, Structural)]
pub enum WhisperParamsError {
    /// A string field holds a 0 byte, which a native string cannot carry;
    /// `nul_position` is the byte offset of its first 0 byte.
    SessionInitialization { nul_position: usize },
}

/// The configuration of one inference pass.
///
/// Empty strings mean "unset" (for `language`: detect automatically). The
/// fields `thold_pt`, `thold_ptsum`, `temperature`, `max_initial_ts`,
/// `length_penalty`, `temperature_inc`, `entropy_thold`, `logprob_thold`,
/// `no_speech_thold` and `grammar_penalty` hold the bit patterns of IEEE-754
/// single-precision numbers, which the codec copies unchanged.
#[derive(Debug)]
pub struct WhisperParams {
    pub strategy: WhisperSampling,
    pub thread_count: u32,
    pub max_text_ctx: u32,
    pub offset_ms: u32,
    pub duration_ms: u32,
    pub translate: bool,
    pub no_context: bool,
    pub no_timestamps: bool,
    pub single_segment: bool,
    pub print_special: bool,
    pub print_progress: bool,
    pub print_realtime: bool,
    pub print_timestamps: bool,
    pub token_timestamps: bool,
    pub thold_pt: u32,
    pub thold_ptsum: u32,
    pub max_len: u32,
    pub split_on_word: bool,
    pub max_tokens: u32,
    pub speed_up: bool,
    pub debug_mode: bool,
    pub audio_ctx: u32,
    pub tdrz_enable: bool,
    pub initial_prompt: String,
    pub prompt_tokens: Vec<i32>,
    pub language: String,
    pub detect_language: bool,
    pub suppress_blank: bool,
    pub suppress_non_speech_tokens: bool,
    pub temperature: u32,
    pub max_initial_ts: u32,
    pub length_penalty: u32,
    pub temperature_inc: u32,
    pub entropy_thold: u32,
    pub logprob_thold: u32,
    pub no_speech_thold: u32,
    pub grammar_rule_count: usize,
    pub i_start_rule: usize,
    pub grammar_penalty: u32,
}

/// The flat native parameter block, field for field, without the callback
/// slots and the grammar rule pointer, which are always null.
///
/// A string field is `None` for a null pointer, or `Some(i)` for a pointer to
/// entry `i` of the accompanying [`ParamsStorage`]; `prompt_tokens` tells
/// whether the token pointer is non-null, in which case it points to the
/// storage's token buffer. The strategy sub-blocks are `greedy_best_of` and
/// `beam_size` with `beam_patience`; both are always filled.
#[verifier::ext_equal]
#[derive(Debug, Clone, Copy, PartialEq, Eq)]
pub struct FullParamsBlock {
    pub strategy: u32,
    pub n_threads: i32,
    pub n_max_text_ctx: i32,
    pub offset_ms: i32,
    pub duration_ms: i32,
    pub translate: bool,
    pub no_context: bool,
    pub no_timestamps: bool,
    pub single_segment: bool,
    pub print_special: bool,
    pub print_progress: bool,
    pub print_realtime: bool,
    pub print_timestamps: bool,
    pub token_timestamps: bool,
    pub thold_pt: u32,
    pub thold_ptsum: u32,
    pub max_len: i32,
    pub split_on_word: bool,
    pub max_tokens: i32,
    pub speed_up: bool,
    pub debug_mode: bool,
    pub audio_ctx: i32,
    pub tdrz_enable: bool,
    pub initial_prompt: Option<usize>,
    pub prompt_tokens: bool,
    pub prompt_n_tokens: i32,
    pub language: Option<usize>,
    pub detect_language: bool,
    pub suppress_blank: bool,
    pub suppress_non_speech_tokens: bool,
    pub temperature: u32,
    pub max_initial_ts: u32,
    pub length_penalty: u32,
    pub temperature_inc: u32,
    pub entropy_thold: u32,
    pub logprob_thold: u32,
    pub no_speech_thold: u32,
    pub greedy_best_of: i32,
    pub beam_size: i32,
    pub beam_patience: u32,
    pub n_grammar_rules: usize,
    pub i_start_rule: usize,
    pub grammar_penalty: u32,
}

/// The owned buffers that a [`FullParamsBlock`] points into. It must outlive
/// every native call that reads the block.
#[derive(Debug)]
pub struct ParamsStorage {
    pub strings: Vec<String>,
    pub tokens: Vec<i32>,
}

/// Whether the UTF-8 encoding of `s` holds a 0 byte.
pub open spec fn has_nul(s: Seq<char>) -> bool {
    encode_utf8(s).contains(0u8)
}

/// The storage entries that a non-empty string takes: none for an empty one.
pub open spec fn stored(s: Seq<char>) -> Seq<Seq<char>> {
    if s.len() == 0 {
        seq![]
    } else {
        seq![s]
    }
}

/// The slot of a string that has `before` entries stored ahead of it.
pub open spec fn slot_of(s: Seq<char>, before: nat) -> Option<usize> {
    if s.len() == 0 {
        None
    } else {
        Some(before as usize)
    }
}

/// What a string slot of a block reads as: null reads as the empty string.
pub open spec fn resolve(slot: Option<usize>, strings: Seq<Seq<char>>) -> Seq<char> {
    match slot {
        None => seq![],
        Some(i) => strings[i as int],
    }
}

/// The views of a sequence of strings.
pub open spec fn string_views(v: Seq<String>) -> Seq<Seq<char>> {
    v.map_values(|s: String| s@)
}

impl ParamsStorage {
    pub open spec fn strings_view(&self) -> Seq<Seq<char>> {
        string_views(self.strings@)
    }
}

impl WhisperParams {
    /// The codec accepts this configuration.
    pub open spec fn encodable(&self) -> bool {
        &&& !has_nul(self.initial_prompt@)
        &&& !has_nul(self.language@)
    }

    /// The strings that encoding stores, in slot order.
    pub open spec fn stored_strings(&self) -> Seq<Seq<char>> {
        stored(self.initial_prompt@) + stored(self.language@)
    }

    /// The block that encoding produces.
    pub open spec fn spec_block(&self) -> FullParamsBlock {
        FullParamsBlock {
            strategy: self.strategy.spec_tag(),
            n_threads: self.thread_count as i32,
            n_max_text_ctx: self.max_text_ctx as i32,
            offset_ms: self.offset_ms as i32,
            duration_ms: self.duration_ms as i32,
            translate: self.translate,
            no_context: self.no_context,
            no_timestamps: self.no_timestamps,
            single_segment: self.single_segment,
            print_special: self.print_special,
            print_progress: self.print_progress,
            print_realtime: self.print_realtime,
            print_timestamps: self.print_timestamps,
            token_timestamps: self.token_timestamps,
            thold_pt: self.thold_pt,
            thold_ptsum: self.thold_ptsum,
            max_len: self.max_len as i32,
            split_on_word: self.split_on_word,
            max_tokens: self.max_tokens as i32,
            speed_up: self.speed_up,
            debug_mode: self.debug_mode,
            audio_ctx: self.audio_ctx as i32,
            tdrz_enable: self.tdrz_enable,
            initial_prompt: slot_of(self.initial_prompt@, 0),
            prompt_tokens: self.prompt_tokens@.len() > 0,
            prompt_n_tokens: self.prompt_tokens@.len() as i32,
            language: slot_of(self.language@, stored(self.initial_prompt@).len()),
            detect_language: self.detect_language,
            suppress_blank: self.suppress_blank,
            suppress_non_speech_tokens: self.suppress_non_speech_tokens,
            temperature: self.temperature,
            max_initial_ts: self.max_initial_ts,
            length_penalty: self.length_penalty,
            temperature_inc: self.temperature_inc,
            entropy_thold: self.entropy_thold,
            logprob_thold: self.logprob_thold,
            no_speech_thold: self.no_speech_thold,
            greedy_best_of: match self.strategy {
                WhisperSampling::Greedy { best_of } => best_of as i32,
                WhisperSampling::BeamSearch { .. } => 0,
            },
            beam_size: match self.strategy {
                WhisperSampling::Greedy { .. } => 0,
                WhisperSampling::BeamSearch { beam_size, .. } => beam_size as i32,
            },
            beam_patience: match self.strategy {
                WhisperSampling::Greedy { .. } => 0,
                WhisperSampling::BeamSearch { patience, .. } => patience,
            },
            n_grammar_rules: self.grammar_rule_count,
            i_start_rule: self.i_start_rule,
            grammar_penalty: self.grammar_penalty,
        }
    }

    /// Encodes this configuration into a flat native block and the storage
    /// that its pointers refer to. An empty string becomes a null pointer; a
    /// non-empty one is copied into the storage. Fails, on the first string
    /// that holds a 0 byte, with the position of that byte.
    pub fn c_params(&self) -> (r: Result<(ParamsStorage, FullParamsBlock), WhisperParamsError>)
        requires
            self.prompt_tokens@.len() <= i32::MAX,
        ensures
            r is Ok <==> self.encodable(),
            r matches Ok((storage, block)) ==> {
                &&& block == self.spec_block()
                &&& storage.strings_view() == self.stored_strings()
                &&& storage.tokens@ == self.prompt_tokens@
            },
            r matches Err(WhisperParamsError::SessionInitialization { nul_position }) ==> {
                if has_nul(self.initial_prompt@) {
                    first_nul(self.initial_prompt@, nul_position as int)
                } else {
                    first_nul(self.language@, nul_position as int)
                }
            },
    {
        let mut strings: Vec<String> = Vec::new();
        let initial_prompt = match push_str(&mut strings, &self.initial_prompt) {
            Ok(slot) => slot,
            Err(e) => {
                return Err(e);
            },
        };
        let language = match push_str(&mut strings, &self.language) {
            Ok(slot) => slot,
            Err(e) => {
                return Err(e);
            },
        };
        let tokens = copy_prefix(&self.prompt_tokens, self.prompt_tokens.len());
        assert(tokens@ =~= self.prompt_tokens@);
        let (greedy_best_of, beam_size, beam_patience) = match self.strategy {
            WhisperSampling::Greedy { best_of } => (to_c_int(best_of), 0i32, 0u32),
            WhisperSampling::BeamSearch { beam_size, patience } => (0i32, to_c_int(beam_size), patience),
        };
        let block = FullParamsBlock {
            strategy: self.strategy.tag(),
            n_threads: to_c_int(self.thread_count),
            n_max_text_ctx: to_c_int(self.max_text_ctx),
            offset_ms: to_c_int(self.offset_ms),
            duration_ms: to_c_int(self.duration_ms),
            translate: self.translate,
            no_context: self.no_context,
            no_timestamps: self.no_timestamps,
            single_segment: self.single_segment,
            print_special: self.print_special,
            print_progress: self.print_progress,
            print_realtime: self.print_realtime,
            print_timestamps: self.print_timestamps,
            token_timestamps: self.token_timestamps,
            thold_pt: self.thold_pt,
            thold_ptsum: self.thold_ptsum,
            max_len: to_c_int(self.max_len),
            split_on_word: self.split_on_word,
            max_tokens: to_c_int(self.max_tokens),
            speed_up: self.speed_up,
            debug_mode: self.debug_mode,
            audio_ctx: to_c_int(self.audio_ctx),
            tdrz_enable: self.tdrz_enable,
            initial_prompt,
            prompt_tokens: self.prompt_tokens.len() > 0,
            prompt_n_tokens: self.prompt_tokens.len() as i32,
            language,
            detect_language: self.detect_language,
            suppress_blank: self.suppress_blank,
            suppress_non_speech_tokens: self.suppress_non_speech_tokens,
            temperature: self.temperature,
            max_initial_ts: self.max_initial_ts,
            length_penalty: self.length_penalty,
            temperature_inc: self.temperature_inc,
            entropy_thold: self.entropy_thold,
            logprob_thold: self.logprob_thold,
            no_speech_thold: self.no_speech_thold,
            greedy_best_of,
            beam_size,
            beam_patience,
            n_grammar_rules: self.grammar_rule_count,
            i_start_rule: self.i_start_rule,
            grammar_penalty: self.grammar_penalty,
        };
        assert(string_views(strings@) =~= self.stored_strings());
        Ok((ParamsStorage { strings, tokens }, block))
    }
}

/// `pos` is the offset of the first 0 byte in the UTF-8 encoding of `s`.
pub open spec fn first_nul(s: Seq<char>, pos: int) -> bool {
    let b = encode_utf8(s);
    &&& 0 <= pos < b.len()
    &&& b[pos] == 0
    &&& forall|j: int| 0 <= j < pos ==> b[j] != 0
}

/// The native integer of the same bits.
fn to_c_int(x: u32) -> (r: i32)
    ensures
        r == x as i32,
{
    #[verifier::truncate]
    (x as i32)
}

/// The offset of the first 0 byte in `b`, if any.
fn find_nul(b: &[u8]) -> (r: Option<usize>)
    ensures
        r is None <==> !b@.contains(0u8),
        r matches Some(pos) ==> {
            &&& pos < b@.len()
            &&& b@[pos as int] == 0
            &&& forall|j: int| 0 <= j < pos ==> b@[j] != 0
        },
{
    let mut i: usize = 0;
    while i < b.len()
        invariant
            i <= b@.len(),
            forall|j: int| 0 <= j < i ==> b@[j] != 0,
        decreases b@.len() - i,
    {
        if b[i] == 0 {
            return Some(i);
        }
        i = i + 1;
    }
    None
}

/// Stores `value` for the native side: an empty string is a null pointer, a
/// non-empty one takes the next slot of `storage`.
fn push_str(storage: &mut Vec<String>, value: &String) -> (r: Result<Option<usize>, WhisperParamsError>)
    ensures
        r is Ok <==> !has_nul(value@),
        r matches Ok(slot) ==> {
            &&& slot == slot_of(value@, old(storage)@.len())
            &&& string_views(final(storage)@) == string_views(old(storage)@) + stored(value@)
        },
        r matches Err(WhisperParamsError::SessionInitialization { nul_position }) ==> first_nul(value@, nul_position as int),
{
    let bytes = value.as_str().as_bytes();
    match find_nul(bytes) {
        Some(pos) => Err(WhisperParamsError::SessionInitialization { nul_position: pos }),
        None => {
            if value.as_str().is_empty() {
                assert(string_views(storage@) =~= string_views(storage@) + stored(value@));
                Ok(None)
            } else {
                let i = storage.len();
                storage.push(value.clone());
                assert(string_views(storage@) =~= string_views(old(storage)@) + stored(value@));
                Ok(Some(i))
            }
        },
    }
}

/// The strategy that a block's tag selects, with the fields of its own
/// sub-block; the other sub-block is not read.
pub open spec fn decoded_strategy(block: FullParamsBlock) -> WhisperSampling {
    if block.strategy == SAMPLING_GREEDY {
        WhisperSampling::Greedy { best_of: block.greedy_best_of as u32 }
    } else {
        WhisperSampling::BeamSearch {
            beam_size: block.beam_size as u32,
            patience: block.beam_patience,
        }
    }
}

/// The tokens that a block's token pointer reads: none where it is null.
pub open spec fn decoded_tokens(block: FullParamsBlock, tokens: Seq<i32>) -> Seq<i32> {
    if block.prompt_tokens {
        tokens.subrange(0, block.prompt_n_tokens as int)
    } else {
        seq![]
    }
}

impl FullParamsBlock {
    /// The block can be read against storage holding `strings` and `tokens`:
    /// its tag is known, its string slots exist and its token count fits.
    pub open spec fn readable(&self, strings: Seq<Seq<char>>, tokens: Seq<i32>) -> bool {
        &&& (self.strategy == SAMPLING_GREEDY || self.strategy == SAMPLING_BEAM_SEARCH)
        &&& (self.initial_prompt matches Some(i) ==> i < strings.len())
        &&& (self.language matches Some(i) ==> i < strings.len())
        &&& (self.prompt_tokens ==> 0 <= self.prompt_n_tokens <= tokens.len())
    }

    /// `p` is what decoding this block gives, with `thread_count` threads.
    /// Opaque to keep proofs about the codec small: `reveal` it to read the
    /// fields one by one.
    #[verifier::opaque]
    pub open spec fn decodes_to(
        &self,
        strings: Seq<Seq<char>>,
        tokens: Seq<i32>,
        thread_count: u32,
        p: WhisperParams,
    ) -> bool {
        &&& p.strategy == decoded_strategy(*self)
        &&& p.thread_count == thread_count
        &&& p.max_text_ctx == self.n_max_text_ctx as u32
        &&& p.offset_ms == self.offset_ms as u32
        &&& p.duration_ms == self.duration_ms as u32
        &&& p.translate == self.translate
        &&& p.no_context == self.no_context
        &&& p.no_timestamps == self.no_timestamps
        &&& p.single_segment == self.single_segment
        &&& p.print_special == self.print_special
        &&& p.print_progress == self.print_progress
        &&& p.print_realtime == self.print_realtime
        &&& p.print_timestamps == self.print_timestamps
        &&& p.token_timestamps == self.token_timestamps
        &&& p.thold_pt == self.thold_pt
        &&& p.thold_ptsum == self.thold_ptsum
        &&& p.max_len == self.max_len as u32
        &&& p.split_on_word == self.split_on_word
        &&& p.max_tokens == self.max_tokens as u32
        &&& p.speed_up == self.speed_up
        &&& p.debug_mode == self.debug_mode
        &&& p.audio_ctx == self.audio_ctx as u32
        &&& p.tdrz_enable == self.tdrz_enable
        &&& p.initial_prompt@ == resolve(self.initial_prompt, strings)
        &&& p.prompt_tokens@ == decoded_tokens(*self, tokens)
        &&& p.language@ == resolve(self.language, strings)
        &&& p.detect_language == self.detect_language
        &&& p.suppress_blank == self.suppress_blank
        &&& p.suppress_non_speech_tokens == self.suppress_non_speech_tokens
        &&& p.temperature == self.temperature
        &&& p.max_initial_ts == self.max_initial_ts
        &&& p.length_penalty == self.length_penalty
        &&& p.temperature_inc == self.temperature_inc
        &&& p.entropy_thold == self.entropy_thold
        &&& p.logprob_thold == self.logprob_thold
        &&& p.no_speech_thold == self.no_speech_thold
        &&& p.grammar_rule_count == self.n_grammar_rules
        &&& p.i_start_rule == self.i_start_rule
        &&& p.grammar_penalty == self.grammar_penalty
    }
}

impl WhisperParams {
    /// Decodes a native block, such as the engine's defaults, into a
    /// configuration: a null string becomes the empty string, a null token
    /// pointer no tokens, and the tag picks the strategy from its own
    /// sub-block. The block carries no usable thread count; the caller gives it.
    pub fn from_block(block: &FullParamsBlock, storage: &ParamsStorage, thread_count: u32) -> (r: Self)
        requires
            block.readable(storage.strings_view(), storage.tokens@),
        ensures
            block.decodes_to(storage.strings_view(), storage.tokens@, thread_count, r),
    {
        reveal(FullParamsBlock::decodes_to);
        let strategy = if block.strategy == SAMPLING_GREEDY {
            WhisperSampling::Greedy { best_of: to_count(block.greedy_best_of) }
        } else {
            WhisperSampling::BeamSearch {
                beam_size: to_count(block.beam_size),
                patience: block.beam_patience,
            }
        };
        let prompt_tokens = if block.prompt_tokens {
            copy_prefix(&storage.tokens, block.prompt_n_tokens as usize)
        } else {
            Vec::new()
        };
        WhisperParams {
            strategy,
            thread_count,
            max_text_ctx: to_count(block.n_max_text_ctx),
            offset_ms: to_count(block.offset_ms),
            duration_ms: to_count(block.duration_ms),
            translate: block.translate,
            no_context: block.no_context,
            no_timestamps: block.no_timestamps,
            single_segment: block.single_segment,
            print_special: block.print_special,
            print_progress: block.print_progress,
            print_realtime: block.print_realtime,
            print_timestamps: block.print_timestamps,
            token_timestamps: block.token_timestamps,
            thold_pt: block.thold_pt,
            thold_ptsum: block.thold_ptsum,
            max_len: to_count(block.max_len),
            split_on_word: block.split_on_word,
            max_tokens: to_count(block.max_tokens),
            speed_up: block.speed_up,
            debug_mode: block.debug_mode,
            audio_ctx: to_count(block.audio_ctx),
            tdrz_enable: block.tdrz_enable,
            initial_prompt: read_slot(block.initial_prompt, &storage.strings),
            prompt_tokens,
            language: read_slot(block.language, &storage.strings),
            detect_language: block.detect_language,
            suppress_blank: block.suppress_blank,
            suppress_non_speech_tokens: block.suppress_non_speech_tokens,
            temperature: block.temperature,
            max_initial_ts: block.max_initial_ts,
            length_penalty: block.length_penalty,
            temperature_inc: block.temperature_inc,
            entropy_thold: block.entropy_thold,
            logprob_thold: block.logprob_thold,
            no_speech_thold: block.no_speech_thold,
            grammar_rule_count: block.n_grammar_rules,
            i_start_rule: block.i_start_rule,
            grammar_penalty: block.grammar_penalty,
        }
    }
}

/// The unsigned integer of the same bits.
fn to_count(x: i32) -> (r: u32)
    ensures
        r == x as u32,
{
    #[verifier::truncate]
    (x as u32)
}

/// The string that a slot reads as: the empty string for a null pointer.
fn read_slot(slot: Option<usize>, strings: &Vec<String>) -> (r: String)
    requires
        slot matches Some(i) ==> i < strings@.len(),
    ensures
        r@ == resolve(slot, string_views(strings@)),
{
    match slot {
        None => String::new(),
        Some(i) => strings[i].clone(),
    }
}

/// The first `n` tokens of `v`.
pub(crate) fn copy_prefix(v: &Vec<i32>, n: usize) -> (r: Vec<i32>)
    requires
        n <= v@.len(),
    ensures
        r@ == v@.subrange(0, n as int),
{
    let mut r: Vec<i32> = Vec::new();
    let mut i: usize = 0;
    while i < n
        invariant
            i <= n <= v@.len(),
            r@ == v@.subrange(0, i as int),
        decreases n - i,
    {
        r.push(v[i]);
        i = i + 1;
        assert(r@ =~= v@.subrange(0, i as int));
    }
    r
}

/// A count survives the trip through the native integer type.
proof fn lemma_c_int_round_trip(x: u32)
    ensures
        (x as i32) as u32 == x,
{
    assert((x as i32) as u32 == x) by (bit_vector);
}

/// What encoding stores can be read back: the block is readable against it.
pub proof fn lemma_encoded_block_readable(p: WhisperParams)
    requires
        p.prompt_tokens@.len() <= i32::MAX,
    ensures
        p.spec_block().readable(p.stored_strings(), p.prompt_tokens@),
{
}

/// Decoding an encoded configuration selects the strategy that was encoded,
/// with equal fields.
pub proof fn lemma_strategy_round_trip(p: WhisperParams, thread_count: u32, q: WhisperParams)
    requires
        p.spec_block().decodes_to(p.stored_strings(), p.prompt_tokens@, thread_count, q),
    ensures
        q.strategy == p.strategy,
{
    reveal(FullParamsBlock::decodes_to);
    match p.strategy {
        WhisperSampling::Greedy { best_of } => lemma_c_int_round_trip(best_of),
        WhisperSampling::BeamSearch { beam_size, .. } => lemma_c_int_round_trip(beam_size),
    }
}

/// Decoding an encoded configuration gives back its strings and tokens.
proof fn lemma_decoded_views(p: WhisperParams, thread_count: u32, q: WhisperParams)
    requires
        p.prompt_tokens@.len() <= i32::MAX,
        p.spec_block().decodes_to(p.stored_strings(), p.prompt_tokens@, thread_count, q),
    ensures
        q.initial_prompt@ == p.initial_prompt@,
        q.language@ == p.language@,
        q.prompt_tokens@ == p.prompt_tokens@,
{
    reveal(FullParamsBlock::decodes_to);
    let strings = p.stored_strings();
    let ip = p.initial_prompt@;
    let lang = p.language@;
    if ip.len() > 0 {
        assert(strings[0] == ip);
    }
    if lang.len() > 0 {
        assert(strings[stored(ip).len() as int] == lang);
    }
    if p.prompt_tokens@.len() > 0 {
        assert(p.prompt_tokens@.subrange(0, p.prompt_tokens@.len() as int) =~= p.prompt_tokens@);
    } else {
        assert(p.prompt_tokens@ =~= seq![]);
    }
}

/// The strategy fields of a re-encoded block are those of the first block.
proof fn lemma_round_trip_strategy_fields(p: WhisperParams, thread_count: u32, q: WhisperParams)
    requires
        p.prompt_tokens@.len() <= i32::MAX,
        thread_count == p.thread_count,
        p.spec_block().decodes_to(p.stored_strings(), p.prompt_tokens@, thread_count, q),
    ensures
        q.spec_block().strategy == p.spec_block().strategy,
        q.spec_block().greedy_best_of == p.spec_block().greedy_best_of,
        q.spec_block().beam_size == p.spec_block().beam_size,
        q.spec_block().beam_patience == p.spec_block().beam_patience,
{
    reveal(FullParamsBlock::decodes_to);
    lemma_strategy_round_trip(p, thread_count, q);
}

/// The string and token fields of a re-encoded block are those of the first block.
proof fn lemma_round_trip_pointer_fields(p: WhisperParams, thread_count: u32, q: WhisperParams)
    requires
        p.prompt_tokens@.len() <= i32::MAX,
        thread_count == p.thread_count,
        p.spec_block().decodes_to(p.stored_strings(), p.prompt_tokens@, thread_count, q),
    ensures
        q.spec_block().initial_prompt == p.spec_block().initial_prompt,
        q.spec_block().language == p.spec_block().language,
        q.spec_block().prompt_tokens == p.spec_block().prompt_tokens,
        q.spec_block().prompt_n_tokens == p.spec_block().prompt_n_tokens,
{
    reveal(FullParamsBlock::decodes_to);
    lemma_decoded_views(p, thread_count, q);
}

/// The native integer fields of a re-encoded block are those of the first block.
proof fn lemma_round_trip_integer_fields(p: WhisperParams, thread_count: u32, q: WhisperParams)
    requires
        p.prompt_tokens@.len() <= i32::MAX,
        thread_count == p.thread_count,
        p.spec_block().decodes_to(p.stored_strings(), p.prompt_tokens@, thread_count, q),
    ensures
        q.spec_block().n_threads == p.spec_block().n_threads,
        q.spec_block().n_max_text_ctx == p.spec_block().n_max_text_ctx,
        q.spec_block().offset_ms == p.spec_block().offset_ms,
        q.spec_block().duration_ms == p.spec_block().duration_ms,
        q.spec_block().max_len == p.spec_block().max_len,
        q.spec_block().max_tokens == p.spec_block().max_tokens,
        q.spec_block().audio_ctx == p.spec_block().audio_ctx,
{
    reveal(FullParamsBlock::decodes_to);
    lemma_c_int_round_trip(p.max_text_ctx);
    lemma_c_int_round_trip(p.offset_ms);
    lemma_c_int_round_trip(p.duration_ms);
    lemma_c_int_round_trip(p.max_len);
    lemma_c_int_round_trip(p.max_tokens);
    lemma_c_int_round_trip(p.audio_ctx);
}

/// The fields that encoding copies unchanged are those of the first block.
proof fn lemma_round_trip_copied_fields(p: WhisperParams, thread_count: u32, q: WhisperParams)
    requires
        p.prompt_tokens@.len() <= i32::MAX,
        thread_count == p.thread_count,
        p.spec_block().decodes_to(p.stored_strings(), p.prompt_tokens@, thread_count, q),
    ensures
        q.spec_block().translate == p.spec_block().translate,
        q.spec_block().no_context == p.spec_block().no_context,
        q.spec_block().no_timestamps == p.spec_block().no_timestamps,
        q.spec_block().single_segment == p.spec_block().single_segment,
        q.spec_block().print_special == p.spec_block().print_special,
        q.spec_block().print_progress == p.spec_block().print_progress,
        q.spec_block().print_realtime == p.spec_block().print_realtime,
        q.spec_block().print_timestamps == p.spec_block().print_timestamps,
        q.spec_block().token_timestamps == p.spec_block().token_timestamps,
        q.spec_block().thold_pt == p.spec_block().thold_pt,
        q.spec_block().thold_ptsum == p.spec_block().thold_ptsum,
        q.spec_block().split_on_word == p.spec_block().split_on_word,
        q.spec_block().speed_up == p.spec_block().speed_up,
        q.spec_block().debug_mode == p.spec_block().debug_mode,
        q.spec_block().tdrz_enable == p.spec_block().tdrz_enable,
        q.spec_block().detect_language == p.spec_block().detect_language,
        q.spec_block().suppress_blank == p.spec_block().suppress_blank,
        q.spec_block().suppress_non_speech_tokens == p.spec_block().suppress_non_speech_tokens,
        q.spec_block().temperature == p.spec_block().temperature,
        q.spec_block().max_initial_ts == p.spec_block().max_initial_ts,
        q.spec_block().length_penalty == p.spec_block().length_penalty,
        q.spec_block().temperature_inc == p.spec_block().temperature_inc,
        q.spec_block().entropy_thold == p.spec_block().entropy_thold,
        q.spec_block().logprob_thold == p.spec_block().logprob_thold,
        q.spec_block().no_speech_thold == p.spec_block().no_speech_thold,
        q.spec_block().n_grammar_rules == p.spec_block().n_grammar_rules,
        q.spec_block().i_start_rule == p.spec_block().i_start_rule,
        q.spec_block().grammar_penalty == p.spec_block().grammar_penalty,
{
    reveal(FullParamsBlock::decodes_to);
}

/// Encoding, decoding and encoding again gives the block of the first
/// encoding, field for field, and the same stored strings and tokens, where
/// the decoding is given the thread count that was encoded: the block's own
/// thread count is not read back.
#[verifier::rlimit(100)]
pub proof fn lemma_codec_round_trip(p: WhisperParams, thread_count: u32, q: WhisperParams)
    requires
        p.encodable(),
        p.prompt_tokens@.len() <= i32::MAX,
        thread_count == p.thread_count,
        p.spec_block().decodes_to(p.stored_strings(), p.prompt_tokens@, thread_count, q),
    ensures
        q.encodable(),
        q.prompt_tokens@.len() <= i32::MAX,
        q.spec_block() == p.spec_block(),
        q.stored_strings() == p.stored_strings(),
        q.prompt_tokens@ == p.prompt_tokens@,
{
    lemma_decoded_views(p, thread_count, q);
    lemma_round_trip_strategy_fields(p, thread_count, q);
    lemma_round_trip_pointer_fields(p, thread_count, q);
    lemma_round_trip_integer_fields(p, thread_count, q);
    lemma_round_trip_copied_fields(p, thread_count, q);
    assert(q.spec_block() =~= p.spec_block());
}

} // verus!
