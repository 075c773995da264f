use vstd::prelude::*;

use crate::params::{copy_prefix, FullParamsBlock, ParamsStorage, WhisperParams, WhisperParamsError};

verus! {

/// Error of a session: its creation, an inference pass, or reading results.
#[derive(Debug, Clone, Copy, PartialEq, Eq)]
pub enum WhisperSessionError {
    /// The engine returned no session state.
    Initialization,
    /// The engine reported a failed inference pass.
    Internal,
    /// The configuration could not be encoded for the engine.
    Params(WhisperParamsError),
    /// Text that the engine returned is not well-formed UTF-8.
    CStr(std::str::Utf8Error),
}

/// Error of loading a model or creating a session on it.
#[derive(Debug, Clone, Copy, PartialEq, Eq)]
pub enum WhisperError {
    /// The engine could not load the model.
    Initialization,
    /// The engine could not create a session state.
    SessionInitialization(WhisperSessionError),
}

/// The bookkeeping of one session: the running prompt buffer, which holds
/// every token emitted by the session's successful inference passes in order,
/// and whether any pass has succeeded yet.
pub struct SessionContext {
    prompt: Vec<i32>,
    ready: bool,
}

impl View for SessionContext {
    type V = (Seq<i32>, bool);

    closed spec fn view(&self) -> (Seq<i32>, bool) {
        (self.prompt@, self.ready)
    }
}

/// The tokens of a pass's segments, segment after segment.
pub open spec fn flatten(segments: Seq<Seq<i32>>) -> Seq<i32>
    decreases segments.len(),
{
    if segments.len() == 0 {
        seq![]
    } else {
        flatten(segments.drop_last()) + segments.last()
    }
}

/// The views of the segments handed back by a pass.
pub open spec fn segment_views(segments: Seq<Vec<i32>>) -> Seq<Seq<i32>> {
    segments.map_values(|s: Vec<i32>| s@)
}

impl SessionContext {
    /// A fresh session: no pass yet, an empty prompt buffer.
    pub fn new() -> (r: Self)
        ensures
            r@ == (Seq::<i32>::empty(), false),
    {
        SessionContext { prompt: Vec::new(), ready: false }
    }

    /// The running prompt buffer.
    pub fn prompt(&self) -> (r: &Vec<i32>)
        ensures
            r@ == self@.0,
    {
        &self.prompt
    }

    /// Whether a pass has succeeded, so that the engine's results are valid.
    pub fn is_ready(&self) -> (r: bool)
        ensures
            r == self@.1,
    {
        self.ready
    }

    /// Encodes `params` for the next pass with the running prompt buffer as
    /// its prompt tokens, whatever `params` held there.
    #[verifier::rlimit(100)]
    pub fn prepare(&self, params: WhisperParams) -> (r: Result<(ParamsStorage, FullParamsBlock), WhisperSessionError>)
        requires
            self@.0.len() <= i32::MAX,
        ensures
            r is Ok <==> params.encodable(),
            r matches Ok((storage, block)) ==> {
                &&& block == (FullParamsBlock {
                    prompt_tokens: self@.0.len() > 0,
                    prompt_n_tokens: self@.0.len() as i32,
                    ..params.spec_block()
                })
                &&& storage.strings_view() == params.stored_strings()
                &&& storage.tokens@ == self@.0
            },
            r matches Err(e) ==> e is Params,
    {
        let mut params = params;
        params.prompt_tokens = copy_prefix(&self.prompt, self.prompt.len());
        assert(params.prompt_tokens@ =~= self.prompt@);
        match params.c_params() {
            Ok(r) => Ok(r),
            Err(e) => Err(WhisperSessionError::Params(e)),
        }
    }

    /// Takes the outcome of a pass: the engine's status and, on success, the
    /// token ids of each segment it produced. A non-zero status is a failure
    /// and leaves the session as it was; on success every token is appended to
    /// the prompt buffer, segment after segment.
    pub fn finish(&mut self, status: i32, segments: &Vec<Vec<i32>>) -> (r: Result<(), WhisperSessionError>)
        requires
            status == 0 ==> old(self)@.0.len() + flatten(segment_views(segments@)).len() <= usize::MAX,
        ensures
            r is Ok <==> status == 0,
            status != 0 ==> r == Err::<(), WhisperSessionError>(WhisperSessionError::Internal) && final(self)@ == old(self)@,
            status == 0 ==> final(self)@ == (old(self)@.0 + flatten(segment_views(segments@)), true),
    {
        if status != 0 {
            return Err(WhisperSessionError::Internal);
        }
        let ghost start = self.prompt@;
        let ghost segs = segment_views(segments@);
        let mut s: usize = 0;
        while s < segments.len()
            invariant
                s <= segments@.len(),
                segs == segment_views(segments@),
                start.len() + flatten(segs).len() <= usize::MAX,
                self.prompt@ == start + flatten(segs.take(s as int)),
            decreases segments@.len() - s,
        {
            let tokens = &segments[s];
            proof {
                lemma_flatten_take_step(segs, s as int);
                lemma_flatten_take_len(segs, s as int + 1, segs.len() as int);
                assert(segs.take(segs.len() as int) =~= segs);
            }
            let ghost before = self.prompt@;
            let mut t: usize = 0;
            while t < tokens.len()
                invariant
                    t <= tokens@.len(),
                    tokens@ == segs[s as int],
                    before.len() + tokens@.len() <= usize::MAX,
                    self.prompt@ == before + tokens@.take(t as int),
                decreases tokens@.len() - t,
            {
                self.prompt.push(tokens[t]);
                t = t + 1;
                assert(self.prompt@ =~= before + tokens@.take(t as int));
            }
            assert(tokens@.take(tokens@.len() as int) =~= tokens@);
            assert(self.prompt@ =~= start + flatten(segs.take(s as int + 1)));
            s = s + 1;
        }
        assert(segs.take(segs.len() as int) =~= segs);
        self.ready = true;
        Ok(())
    }
}

/// The number of tokens in a pass's segments, segment by segment.
pub open spec fn token_total(segments: Seq<Seq<i32>>) -> nat
    decreases segments.len(),
{
    if segments.len() == 0 {
        0
    } else {
        token_total(segments.drop_last()) + segments.last().len()
    }
}

/// The number of tokens over several passes, pass by pass.
pub open spec fn passes_total(passes: Seq<Seq<Seq<i32>>>) -> nat
    decreases passes.len(),
{
    if passes.len() == 0 {
        0
    } else {
        passes_total(passes.drop_last()) + token_total(passes.last())
    }
}

/// The prompt buffer of a fresh session after successful passes whose
/// segments were `passes`, in order: what [`SessionContext::finish`] builds.
pub open spec fn prompt_after(passes: Seq<Seq<Seq<i32>>>) -> Seq<i32>
    decreases passes.len(),
{
    if passes.len() == 0 {
        seq![]
    } else {
        prompt_after(passes.drop_last()) + flatten(passes.last())
    }
}

proof fn lemma_flatten_len(segments: Seq<Seq<i32>>)
    ensures
        flatten(segments).len() == token_total(segments),
    decreases segments.len(),
{
    if segments.len() > 0 {
        lemma_flatten_len(segments.drop_last());
    }
}

/// After successful passes, the prompt buffer holds as many tokens as all the
/// segments of those passes together, and the buffer before the last pass is
/// a prefix of it: success never shortens or resets it.
pub proof fn lemma_prompt_after_passes(passes: Seq<Seq<Seq<i32>>>)
    ensures
        prompt_after(passes).len() == passes_total(passes),
        passes.len() > 0 ==> prompt_after(passes).take(prompt_after(passes.drop_last()).len() as int)
            == prompt_after(passes.drop_last()),
    decreases passes.len(),
{
    if passes.len() > 0 {
        lemma_prompt_after_passes(passes.drop_last());
        lemma_flatten_len(passes.last());
        let before = prompt_after(passes.drop_last());
        assert(prompt_after(passes).take(before.len() as int) =~= before);
    }
}

/// Taking one more segment appends its tokens.
proof fn lemma_flatten_take_step(segs: Seq<Seq<i32>>, s: int)
    requires
        0 <= s < segs.len(),
    ensures
        flatten(segs.take(s + 1)) == flatten(segs.take(s)) + segs[s],
{
    assert(segs.take(s + 1).drop_last() =~= segs.take(s));
}

/// A prefix of the segments holds no more tokens than a longer one.
proof fn lemma_flatten_take_len(segs: Seq<Seq<i32>>, i: int, j: int)
    requires
        0 <= i <= j <= segs.len(),
    ensures
        flatten(segs.take(i)).len() <= flatten(segs.take(j)).len(),
    decreases j - i,
{
    if i < j {
        lemma_flatten_take_step(segs, j - 1);
        lemma_flatten_take_len(segs, i, j - 1);
    }
}

} // verus!
