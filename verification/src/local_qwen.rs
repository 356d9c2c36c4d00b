//! The recogniser that runs in the program itself: what it hears, and what it
//! needs in its model's directory.

use crate::native_asr::{pcm_duration_ms, pcm_ms, TranscriptOutput};
use crate::text::{join2, trim, trimmed};
use vstd::prelude::*;

verus! {

/// How long some sound lasts, in milliseconds: two bytes a sample, sixteen
/// samples a millisecond. A product that does not fit is cut off.
pub open spec fn heard_ms(bytes: nat) -> nat {
    if (bytes / 2) * 1000 <= u64::MAX {
        pcm_ms(bytes)
    } else {
        (u64::MAX / 16000) as nat
    }
}

/// What follows the end of a recording.
#[derive(Debug)]
pub enum QwenRun {
    /// Nothing was recorded.
    Silence(TranscriptOutput),
    /// Decode the whole recording.
    Decode { pcm: Vec<u8>, duration_ms: u64 },
}

/// The sound that was heard so far.
#[derive(Debug)]
pub struct LocalQwenAsr {
    pub buffer: Vec<u8>,
}

impl LocalQwenAsr {
    pub fn new() -> (r: Self)
        ensures
            r.buffer@.len() == 0,
    {
        LocalQwenAsr { buffer: Vec::new() }
    }

    /// How long the recording is so far. It stays as it is.
    pub fn buffer_duration_ms(&self) -> (r: u64)
        ensures
            r as nat == heard_ms(self.buffer@.len()),
    {
        pcm_duration_ms(&self.buffer)
    }

    /// Some sound arrived.
    pub fn consume_pcm_chunk(&mut self, pcm: &Vec<u8>)
        ensures
            final(self).buffer@ == old(self).buffer@ + pcm@,
    {
        let mut i: usize = 0;
        while i < pcm.len()
            invariant
                i <= pcm.len(),
                self.buffer@ == old(self).buffer@ + pcm@.take(i as int),
            decreases pcm.len() - i,
        {
            self.buffer.push(pcm[i]);
            proof {
                assert(self.buffer@ =~= old(self).buffer@ + pcm@.take(i + 1));
            }
            i = i + 1;
        }
        proof {
            assert(pcm@.take(pcm@.len() as int) =~= pcm@);
        }
    }

    /// The recording has ended. Silence is not handed to the recogniser.
    pub fn transcribe(&mut self) -> (r: QwenRun)
        ensures
            final(self).buffer@.len() == 0,
            match r {
                QwenRun::Silence(t) => old(self).buffer@.len() == 0 && t.text@ == ""@
                    && t.duration_ms == 0,
                QwenRun::Decode { pcm, duration_ms } => {
                    &&& old(self).buffer@.len() > 0
                    &&& pcm@ == old(self).buffer@
                    &&& duration_ms as nat == heard_ms(pcm@.len())
                },
            },
    {
        let mut pcm: Vec<u8> = Vec::new();
        std::mem::swap(&mut pcm, &mut self.buffer);
        if pcm.len() == 0 {
            return QwenRun::Silence(TranscriptOutput { text: "".to_owned(), duration_ms: 0 });
        }
        let duration_ms: u64 = pcm_duration_ms(&pcm);
        QwenRun::Decode { pcm, duration_ms }
    }

    /// The recording is of no use any more.
    pub fn cancel(&mut self)
        ensures
            final(self).buffer@.len() == 0,
    {
        self.buffer = Vec::new();
    }
}

/// What the recogniser read, without the white space around it.
pub fn recognised_text(output: &str) -> (r: String)
    ensures
        r@ == trimmed(output@),
{
    trim(output)
}

/// The files of a model that describe its tokens.
#[derive(Clone, Copy, PartialEq, Eq, Structural, Debug)]
pub struct TokenizerFiles {
    pub tokenizer: bool,
    pub vocab: bool,
    pub merges: bool,
}

/// What to do about the tokens.
#[derive(Clone, Copy, PartialEq, Eq, Structural, Debug)]
pub enum TokenizerStep {
    /// The model brings its own description.
    Reuse,
    /// Make one from the vocabulary and the merges.
    Generate,
}

/// What to do about the tokens: a description that is there is kept, and one
/// that is not is made once.
pub fn ensure_tokenizer_json(files: TokenizerFiles, model_dir: &str) -> (r: Result<
    TokenizerStep,
    String,
>)
    ensures
        match r {
            Ok(TokenizerStep::Reuse) => files.tokenizer,
            Ok(TokenizerStep::Generate) => !files.tokenizer && files.vocab && files.merges,
            Err(e) => !files.tokenizer && !(files.vocab && files.merges) && e@
                == "Qwen3-ASR MLX 模型缺少 tokenizer.json、vocab.json 或 merges.txt: "@
                + model_dir@,
        },
{
    if files.tokenizer {
        return Ok(TokenizerStep::Reuse);
    }
    if !files.vocab || !files.merges {
        return Err(
            join2("Qwen3-ASR MLX 模型缺少 tokenizer.json、vocab.json 或 merges.txt: ", model_dir),
        );
    }
    Ok(TokenizerStep::Generate)
}

/// The recording is what was heard, piece after piece, and all of it is decoded;
/// only where nothing was heard there is nothing to decode. Afterwards nothing is
/// left of it.
pub proof fn law_whole_recording_is_decoded(
    first: &mut LocalQwenAsr,
    second: &mut LocalQwenAsr,
    ended: &mut LocalQwenAsr,
    a: &Vec<u8>,
    b: &Vec<u8>,
    lasts: u64,
    r: QwenRun,
)
    requires
        call_ensures(LocalQwenAsr::new, (), *first),
        call_ensures(LocalQwenAsr::consume_pcm_chunk, (first, a), ()),
        *second == *final(first),
        call_ensures(LocalQwenAsr::consume_pcm_chunk, (second, b), ()),
        call_ensures(LocalQwenAsr::buffer_duration_ms, (&*final(second),), lasts),
        *ended == *final(second),
        call_ensures(LocalQwenAsr::transcribe, (ended,), r),
    ensures
        r is Decode <==> a@.len() + b@.len() > 0,
        r is Decode ==> r->pcm@ == a@ + b@ && r->duration_ms == lasts,
        a@.len() + b@.len() < 0x100_0000_0000 ==> lasts as int == ((a@.len() + b@.len()) / 2) / 16,
        r is Silence ==> r->Silence_0.duration_ms == 0 && r->Silence_0.text@.len() == 0,
        final(ended).buffer@.len() == 0,
{
    reveal_strlit("");
    assert(old(first).buffer@ + a@ =~= a@);
    assert(old(ended).buffer@ =~= a@ + b@);
    let n = a@.len() + b@.len();
    if n < 0x100_0000_0000 {
        assert(((n / 2) * 1000) / 16000 == (n / 2) / 16);
    }
}

/// A cancelled recording is gone: there is nothing to decode.
pub proof fn law_cancelled_recording_is_gone(
    dropped: &mut LocalQwenAsr,
    ended: &mut LocalQwenAsr,
    r: QwenRun,
)
    requires
        call_ensures(LocalQwenAsr::cancel, (dropped,), ()),
        *ended == *final(dropped),
        call_ensures(LocalQwenAsr::transcribe, (ended,), r),
    ensures
        r is Silence,
{
}

/// A description of the tokens that is there is kept; one that is not is made
/// exactly where both parts are there.
pub proof fn law_tokens_are_described(
    files: TokenizerFiles,
    dir: &str,
    r: Result<TokenizerStep, String>,
)
    requires
        call_ensures(ensure_tokenizer_json, (files, dir), r),
    ensures
        r == Ok::<TokenizerStep, String>(TokenizerStep::Reuse) <==> files.tokenizer,
        r == Ok::<TokenizerStep, String>(TokenizerStep::Generate) <==> !files.tokenizer
            && files.vocab && files.merges,
        r is Err ==> crate::text::ends_with(r->Err_0@, dir@),
{
    if r is Err {
        let head = "Qwen3-ASR MLX 模型缺少 tokenizer.json、vocab.json 或 merges.txt: "@;
        assert((head + dir@).subrange(head.len() as int, (head + dir@).len() as int) =~= dir@);
    }
}

/// What the recogniser read is handed on without the whitespace around it.
pub proof fn law_read_text_is_trimmed(output: &str, cut: String, r: String)
    requires
        call_ensures(trim, (output,), cut),
        call_ensures(recognised_text, (output,), r),
    ensures
        r@ == cut@,
{
}

} // verus!
