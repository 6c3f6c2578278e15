//! One crossing of the boundary at a time. The binding prepares a call: the
//! values to hand to an entry point of the engine. Whoever holds the engine
//! makes the call, asks here whether the buffer that came back is to be
//! touched at all, and finishes the call with what came back; finishing gives
//! the caller's result and says whether the buffer has to be released.

use crate::engine::VoiceVoxCore;
use crate::error::Error;
use crate::text::c_bytes;
use crate::text::from_c_buffer;
use crate::text::has_nul;
use crate::text::CText;
use vstd::prelude::*;
use vstd::slice::slice_to_vec;
use vstd::utf8::decode_utf8;
use vstd::utf8::encode_utf8;
use vstd::utf8::valid_utf8;

verus! {

/// What a finished call leaves: the caller's result, and whether the buffer
/// that the engine handed over has to go back to the engine's matching free
/// function, once.
#[derive(Debug)]
#[must_use]
pub struct Finished<T> {
    pub result: Result<T, Error>,
    pub release: bool,
}

/// A buffer of the engine as plain bytes, or nothing for a null pointer.
pub open spec fn buffer_view(buffer: Option<&[u8]>) -> Option<Seq<u8>> {
    match buffer {
        Some(bytes) => Some(bytes@),
        None => None,
    }
}

/// A result that holds text, with the text as the sequence of its characters.
pub open spec fn text_view(result: Result<String, Error>) -> Result<Seq<char>, Error> {
    match result {
        Ok(text) => Ok(text@),
        Err(e) => Err(e),
    }
}

/// A result that holds audio, with the audio as the sequence of its bytes.
pub open spec fn audio_view(result: Result<Vec<u8>, Error>) -> Result<Seq<u8>, Error> {
    match result {
        Ok(audio) => Ok(audio@),
        Err(e) => Err(e),
    }
}

/// A buffer is released exactly where the engine reported success and handed
/// one over, whatever the call then comes to. After a failed status and for a
/// null pointer nothing is released.
pub open spec fn must_release(status: i32, buffer: Option<Seq<u8>>) -> bool {
    status == 0 && buffer is Some
}

/// Whether the buffer that the engine wrote is the binding's to read and to
/// release: the engine reported success, and the pointer is not null.
pub open spec fn spec_takes_buffer(status: i32, is_null: bool) -> bool {
    status == 0 && !is_null
}

/// Whether the buffer that the engine wrote is the binding's to read and to
/// release: the engine reported success, and the pointer is not null. Where it
/// is not, the pointer is left alone and the call is finished without a buffer.
#[verifier::when_used_as_spec(spec_takes_buffer)]
pub fn takes_buffer(status: i32, is_null: bool) -> (takes: bool)
    ensures
        takes == (status == 0 && !is_null),
{
    status == 0 && !is_null
}

/// What initializing comes to, given the engine's status: zero is success.
pub open spec fn initialize_result(status: i32) -> Result<(), Error> {
    if status == 0 {
        Ok(())
    } else {
        Err(Error::InitializationFailed(status))
    }
}

/// What loading a model comes to, given the engine's status: zero is success.
pub open spec fn load_model_result(status: i32) -> Result<(), Error> {
    if status == 0 {
        Ok(())
    } else {
        Err(Error::ModelLoadFailed(status))
    }
}

/// What a query comes to, given the engine's status and its buffer. A failed
/// status or a missing buffer is a failed query; otherwise the buffer is read
/// as a NUL-terminated string, which has to be UTF-8.
pub open spec fn audio_query_result(status: i32, buffer: Option<Seq<u8>>) -> Result<
    Seq<char>,
    Error,
> {
    match buffer {
        Some(bytes) if status == 0 => if valid_utf8(c_bytes(bytes)) {
            Ok(decode_utf8(c_bytes(bytes)))
        } else {
            Err(Error::InvalidEncoding)
        },
        _ => Err(Error::QueryFailed),
    }
}

/// What a synthesis comes to, given the engine's status and its buffer. A
/// failed status is a failed synthesis; otherwise the audio is the buffer's
/// bytes, and no bytes at all are a failure too.
pub open spec fn synthesis_result(status: i32, buffer: Option<Seq<u8>>) -> Result<Seq<u8>, Error> {
    if status != 0 {
        Err(Error::SynthesisFailed(status))
    } else {
        match buffer {
            Some(bytes) if bytes.len() > 0 => Ok(bytes),
            _ => Err(Error::EmptyOutput),
        }
    }
}

/// The call that initializes the engine. The options go over by value.
#[derive(Debug, PartialEq, Eq)]
pub struct InitializeCall {
    pub acceleration_mode: i32,
    pub cpu_num_threads: u16,
    pub load_all_models: bool,
    pub open_jtalk_dict_dir: CText,
}

/// An initialize call as plain values: the path is its bytes, without the
/// terminator.
pub struct InitializeCallView {
    pub acceleration_mode: i32,
    pub cpu_num_threads: u16,
    pub load_all_models: bool,
    pub open_jtalk_dict_dir: Seq<u8>,
}

impl View for InitializeCall {
    type V = InitializeCallView;

    open spec fn view(&self) -> InitializeCallView {
        InitializeCallView {
            acceleration_mode: self.acceleration_mode,
            cpu_num_threads: self.cpu_num_threads,
            load_all_models: self.load_all_models,
            open_jtalk_dict_dir: self.open_jtalk_dict_dir@,
        }
    }
}

impl InitializeCall {
    /// The result of `initialize`, from the status that the engine returned.
    pub fn finish(self, status: i32) -> (result: Result<(), Error>)
        ensures
            result == initialize_result(status),
    {
        if status == 0 {
            Ok(())
        } else {
            Err(Error::InitializationFailed(status))
        }
    }
}

/// The call that initializes the engine on behalf of `new_with_initialize`.
#[derive(Debug, PartialEq, Eq)]
pub struct NewWithInitializeCall {
    pub call: InitializeCall,
}

impl NewWithInitializeCall {
    /// The result of `new_with_initialize`, from the status that the engine
    /// returned: a marker exactly where `initialize` would have succeeded, and
    /// the failure of `initialize` where it would not.
    pub fn finish(self, status: i32) -> (result: Result<VoiceVoxCore, Error>)
        ensures
            match result {
                Ok(_) => initialize_result(status) is Ok,
                Err(e) => initialize_result(status) == Err::<(), Error>(e),
            },
    {
        match self.call.finish(status) {
            Ok(()) => Ok(VoiceVoxCore::new()),
            Err(e) => Err(e),
        }
    }
}

/// The call that loads a model.
#[derive(Debug, Clone, Copy, PartialEq, Eq)]
pub struct LoadModelCall {
    pub speaker_id: u32,
}

impl LoadModelCall {
    /// The result of `load_model`, from the status that the engine returned.
    pub fn finish(self, status: i32) -> (result: Result<(), Error>)
        ensures
            result == load_model_result(status),
    {
        if status == 0 {
            Ok(())
        } else {
            Err(Error::ModelLoadFailed(status))
        }
    }
}

/// The call that asks the engine for the audio query of a text.
#[derive(Debug, PartialEq, Eq)]
pub struct AudioQueryCall {
    pub text: CText,
    pub speaker_id: u32,
    /// Whether the text is phonetic kana rather than plain text.
    pub kana: bool,
}

/// An audio query call as plain values: the text is its bytes, without the
/// terminator.
pub struct AudioQueryCallView {
    pub text: Seq<u8>,
    pub speaker_id: u32,
    pub kana: bool,
}

impl View for AudioQueryCall {
    type V = AudioQueryCallView;

    open spec fn view(&self) -> AudioQueryCallView {
        AudioQueryCallView { text: self.text@, speaker_id: self.speaker_id, kana: self.kana }
    }
}

impl AudioQueryCall {
    /// The result of `audio_query`, from the status that the engine returned
    /// and the buffer that it wrote: the bytes behind the pointer where
    /// `takes_buffer` allows them to be read, and `None` otherwise. After a
    /// failed status a buffer is neither read nor released. After success its
    /// bytes are read up to their first NUL, and the text is copied out, so
    /// the buffer may be released as soon as this returns. The text holds no
    /// NUL byte, so it can go into `synthesis` as it is.
    pub fn finish(self, status: i32, buffer: Option<&[u8]>) -> (finished: Finished<String>)
        ensures
            text_view(finished.result) == audio_query_result(status, buffer_view(buffer)),
            finished.release == must_release(status, buffer_view(buffer)),
            finished.result matches Ok(text) ==> !has_nul(encode_utf8(text@)),
    {
        if status != 0 {
            return Finished { result: Err(Error::QueryFailed), release: false };
        }
        match buffer {
            None => Finished { result: Err(Error::QueryFailed), release: false },
            Some(bytes) => Finished { result: from_c_buffer(bytes), release: true },
        }
    }
}

/// The call that asks the engine for the audio of a query.
#[derive(Debug, PartialEq, Eq)]
pub struct SynthesisCall {
    pub query: CText,
    pub speaker_id: u32,
    /// Whether questions are spoken with a rising tone.
    pub enable_interrogative_upspeak: bool,
}

/// A synthesis call as plain values: the query is its bytes, without the
/// terminator.
pub struct SynthesisCallView {
    pub query: Seq<u8>,
    pub speaker_id: u32,
    pub enable_interrogative_upspeak: bool,
}

impl View for SynthesisCall {
    type V = SynthesisCallView;

    open spec fn view(&self) -> SynthesisCallView {
        SynthesisCallView {
            query: self.query@,
            speaker_id: self.speaker_id,
            enable_interrogative_upspeak: self.enable_interrogative_upspeak,
        }
    }
}

impl SynthesisCall {
    /// The result of `synthesis`, from the status that the engine returned and
    /// the buffer that it wrote: the bytes behind the pointer, as many as the
    /// engine gave as the length, where `takes_buffer` allows them to be read,
    /// and `None` otherwise. After a failed status a buffer is neither read
    /// nor released. After success the audio is copied out, so the buffer may
    /// be released as soon as this returns, and it is released also where it
    /// holds no bytes.
    pub fn finish(self, status: i32, buffer: Option<&[u8]>) -> (finished: Finished<Vec<u8>>)
        ensures
            audio_view(finished.result) == synthesis_result(status, buffer_view(buffer)),
            finished.release == must_release(status, buffer_view(buffer)),
    {
        if status != 0 {
            return Finished { result: Err(Error::SynthesisFailed(status)), release: false };
        }
        let release = buffer.is_some();
        let audio = match buffer {
            Some(bytes) => slice_to_vec(bytes),
            None => Vec::new(),
        };
        if audio.len() == 0 {
            Finished { result: Err(Error::EmptyOutput), release }
        } else {
            Finished { result: Ok(audio), release }
        }
    }
}

} // verus!
