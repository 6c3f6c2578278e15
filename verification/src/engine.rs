//! The operations of the binding, as the caller names them. Each prepares the
//! call that the engine is to receive; none reaches the engine itself.

use crate::call::AudioQueryCall;
use crate::call::AudioQueryCallView;
use crate::call::InitializeCall;
use crate::call::InitializeCallView;
use crate::call::LoadModelCall;
use crate::call::NewWithInitializeCall;
use crate::call::SynthesisCall;
use crate::call::SynthesisCallView;
use crate::error::Error;
use crate::options::InitializeOptions;
use crate::options::InitializeOptionsView;
use crate::text::has_nul;
use crate::text::CText;
use vstd::prelude::*;
use vstd::utf8::encode_utf8;

verus! {

/// The speaker that every synthesis call names.
pub const SYNTHESIS_SPEAKER_ID: u32 = 1;

/// The initialize call for these options. Options whose dictionary path holds
/// a NUL byte are refused; nothing else about them is looked at.
pub open spec fn prepare_initialize(options: InitializeOptionsView) -> Result<
    InitializeCallView,
    Error,
> {
    if has_nul(encode_utf8(options.open_jtalk_dict_dir)) {
        Err(Error::InvalidInput)
    } else {
        Ok(
            InitializeCallView {
                acceleration_mode: options.acceleration_mode.code(),
                cpu_num_threads: options.cpu_num_threads.count(),
                load_all_models: options.load_all_models,
                open_jtalk_dict_dir: encode_utf8(options.open_jtalk_dict_dir),
            },
        )
    }
}

/// The audio query call for a text: the text goes over as plain text, not as
/// kana.
pub open spec fn prepare_audio_query(text: Seq<char>, speaker_id: u32) -> AudioQueryCallView {
    AudioQueryCallView { text: encode_utf8(text), speaker_id, kana: false }
}

/// The synthesis call for a query: it names the fixed speaker and asks for
/// no rising tone in questions.
pub open spec fn prepare_synthesis(query: Seq<char>) -> SynthesisCallView {
    SynthesisCallView {
        query: encode_utf8(query),
        speaker_id: SYNTHESIS_SPEAKER_ID,
        enable_interrogative_upspeak: false,
    }
}

/// A marker for the engine. The engine itself is one per process: every
/// marker stands for the same engine, and dropping one finalizes nothing.
#[derive(Debug)]
pub struct VoiceVoxCore;

impl VoiceVoxCore {
    /// A marker, made without a word to the engine.
    pub fn new() -> (core: VoiceVoxCore) {
        VoiceVoxCore {  }
    }

    /// Prepares the call that initializes the engine.
    pub fn initialize(options: InitializeOptions) -> (prepared: Result<InitializeCall, Error>)
        ensures
            match prepared {
                Ok(call) => prepare_initialize(options@) == Ok::<InitializeCallView, Error>(call@),
                Err(e) => prepare_initialize(options@) == Err::<InitializeCallView, Error>(e),
            },
    {
        match CText::new(options.open_jtalk_dict_dir.as_str()) {
            Ok(open_jtalk_dict_dir) => Ok(
                InitializeCall {
                    acceleration_mode: options.acceleration_mode.into(),
                    cpu_num_threads: options.cpu_num_threads.into(),
                    load_all_models: options.load_all_models,
                    open_jtalk_dict_dir,
                },
            ),
            Err(e) => Err(e),
        }
    }

    /// Prepares the call that loads the model of a speaker. The id is passed
    /// on as it is.
    pub fn load_model(speaker_id: u32) -> (call: LoadModelCall)
        ensures
            call.speaker_id == speaker_id,
    {
        LoadModelCall { speaker_id }
    }

    /// Prepares the same call as `initialize` does; finishing it gives a
    /// marker for the engine where `initialize` would have succeeded.
    pub fn new_with_initialize(options: InitializeOptions) -> (prepared: Result<
        NewWithInitializeCall,
        Error,
    >)
        ensures
            match prepared {
                Ok(new_call) => prepare_initialize(options@) == Ok::<InitializeCallView, Error>(
                    new_call.call@,
                ),
                Err(e) => prepare_initialize(options@) == Err::<InitializeCallView, Error>(e),
            },
    {
        match VoiceVoxCore::initialize(options) {
            Ok(call) => Ok(NewWithInitializeCall { call }),
            Err(e) => Err(e),
        }
    }

    /// Prepares the call that asks for the audio query of a text. The text
    /// holds no NUL byte.
    ///
    /// The engine is expected to be initialized. The binding does not check
    /// it: what an engine that is not answers is its own affair.
    pub fn audio_query(&mut self, text: &str, speaker_id: u32) -> (call: AudioQueryCall)
        requires
            !has_nul(encode_utf8(text@)),
        ensures
            call@ == prepare_audio_query(text@, speaker_id),
            *final(self) == *old(self),
    {
        AudioQueryCall { text: CText::terminate(text), speaker_id, kana: false }
    }

    /// Prepares the call that asks for the audio of a query. The query holds
    /// no NUL byte.
    pub fn synthesis(&mut self, query: String) -> (call: SynthesisCall)
        requires
            !has_nul(encode_utf8(query@)),
        ensures
            call@ == prepare_synthesis(query@),
            *final(self) == *old(self),
    {
        SynthesisCall {
            query: CText::terminate(query.as_str()),
            speaker_id: SYNTHESIS_SPEAKER_ID,
            enable_interrogative_upspeak: false,
        }
    }
}

} // verus!
