//! What holds of the binding whatever the engine does.

use crate::call::audio_query_result;
use crate::call::initialize_result;
use crate::call::must_release;
use crate::call::synthesis_result;
use crate::call::takes_buffer;
use crate::engine::prepare_initialize;
use crate::engine::prepare_synthesis;
use crate::error::Error;
use crate::lifecycle::last_start;
use crate::lifecycle::live;
use crate::lifecycle::EngineEvent;
use crate::lifecycle::EngineState;
use crate::options::InitializeOptionsView;
use crate::text::c_bytes;
use crate::text::has_nul;
use crate::text::lemma_c_bytes_hold_no_nul;
use crate::text::lemma_nul_byte_is_nul_char;
use vstd::prelude::*;
use vstd::utf8::decode_utf8_encode_utf8;
use vstd::utf8::encode_utf8;
use vstd::utf8::valid_utf8;

verus! {

/// The default options are valid, so that `initialize` prepares them into a
/// call.
pub proof fn lemma_defaults_are_valid()
    ensures
        InitializeOptionsView::defaults().valid(),
        prepare_initialize(InitializeOptionsView::defaults()) is Ok,
{
    let path = "open_jtalk_dic_utf_8-1.11"@;
    reveal_strlit("open_jtalk_dic_utf_8-1.11");
    lemma_nul_byte_is_nul_char(path);
    assert(!path.contains('\0'));
}

/// An initialize call succeeds exactly where it makes the engine ready: a
/// zero status is success and leads every state to `Ready`, and any other
/// status is a failure that carries the status and leaves the state as it was.
pub proof fn lemma_initialize_makes_ready(state: EngineState, status: i32)
    ensures
        initialize_result(status) is Ok <==> status == 0,
        initialize_result(status) is Ok ==> state.step(EngineEvent::Initialize(status))
            == EngineState::Ready,
        initialize_result(status) is Err ==> {
            &&& initialize_result(status) == Err::<(), Error>(Error::InitializationFailed(status))
            &&& state.step(EngineEvent::Initialize(status)) == state
        },
{
}

/// The events of one full life: an initialize call that succeeded, then a
/// finalize call.
pub open spec fn full_life() -> Seq<EngineEvent> {
    seq![EngineEvent::Initialize(0), EngineEvent::Finalize]
}

/// A full life of the engine can be lived again. Valid options are always
/// prepared into a call, and into the same one each time, since preparing
/// looks at the options alone. After a full life, whatever came before it,
/// the engine is finalized and not live, and one more initialize call that
/// succeeds makes it ready and live again. Whether the engine accepts that
/// call is the engine's to decide.
pub proof fn lemma_lifecycle_repeats(options: InitializeOptionsView, events: Seq<EngineEvent>)
    requires
        options.valid(),
    ensures
        prepare_initialize(options) is Ok,
        EngineState::after(events + full_life()) == EngineState::Finalized,
        !live(events + full_life()),
        EngineState::after((events + full_life()).push(EngineEvent::Initialize(0)))
            == EngineState::Ready,
        live((events + full_life()).push(EngineEvent::Initialize(0))),
{
    let once = events + full_life();
    let twice = once.push(EngineEvent::Initialize(0));
    assert(last_start(twice, once.len() as int));
}

/// A query ends in text or in one of its two failures, whatever the engine
/// hands back. Text comes only of a zero status and a buffer, and is the
/// UTF-8 reading of the buffer up to its first NUL. A buffer is released
/// exactly where the engine reported success and handed one over, for text
/// and for `InvalidEncoding` alike, and never for `QueryFailed`.
pub proof fn lemma_audio_query_outcomes(status: i32, buffer: Option<Seq<u8>>)
    ensures
        match audio_query_result(status, buffer) {
            Ok(text) => {
                &&& status == 0
                &&& buffer matches Some(bytes)
                &&& encode_utf8(text) == c_bytes(bytes)
            },
            Err(Error::QueryFailed) => status != 0 || buffer is None,
            Err(Error::InvalidEncoding) => {
                &&& status == 0
                &&& buffer matches Some(bytes)
                &&& !valid_utf8(c_bytes(bytes))
            },
            Err(_) => false,
        },
        must_release(status, buffer) <==> status == 0 && buffer is Some,
        must_release(status, buffer) <==> audio_query_result(status, buffer) != Err::<
            Seq<char>,
            Error,
        >(Error::QueryFailed),
{
    if let Some(bytes) = buffer {
        if valid_utf8(c_bytes(bytes)) {
            decode_utf8_encode_utf8(c_bytes(bytes));
        }
    }
}

/// A synthesis ends in audio that is not empty or in one of its two failures,
/// whatever the engine hands back. A zero status with no bytes behind it, a
/// null pointer or a length of zero, is `EmptyOutput` and never success. A
/// buffer is released exactly where the engine reported success and handed
/// one over, also one that holds no bytes, and never for `SynthesisFailed`.
pub proof fn lemma_synthesis_outcomes(status: i32, buffer: Option<Seq<u8>>)
    ensures
        match synthesis_result(status, buffer) {
            Ok(audio) => status == 0 && audio.len() > 0 && buffer == Some(audio),
            Err(Error::SynthesisFailed(code)) => code == status && status != 0,
            Err(Error::EmptyOutput) => {
                &&& status == 0
                &&& buffer matches Some(bytes) ==> bytes.len() == 0
            },
            Err(_) => false,
        },
        must_release(status, buffer) <==> status == 0 && buffer is Some,
        synthesis_result(status, buffer) is Ok ==> must_release(status, buffer),
        synthesis_result(status, buffer) == Err::<Seq<u8>, Error>(Error::SynthesisFailed(status))
            ==> !must_release(status, buffer),
{
}

/// The text of a query that succeeded can go into a synthesis as it is: it
/// holds no NUL byte, which is all that `synthesis` asks of it, and the query
/// that the engine then receives is, byte for byte, the string that the engine
/// wrote.
pub proof fn lemma_query_text_feeds_synthesis(status: i32, buffer: Option<Seq<u8>>)
    requires
        audio_query_result(status, buffer) is Ok,
    ensures
        ({
            &&& audio_query_result(status, buffer) matches Ok(text)
            &&& buffer matches Some(bytes)
            &&& !has_nul(encode_utf8(text))
            &&& prepare_synthesis(text).query == c_bytes(bytes)
        }),
{
    lemma_audio_query_outcomes(status, buffer);
    lemma_c_bytes_hold_no_nul(buffer->0);
}

/// An engine that reports success and hands over a null pointer gets a
/// failure for an answer, from a query and from a synthesis alike, and nothing
/// is read or released.
pub proof fn lemma_null_buffer_is_a_failure()
    ensures
        audio_query_result(0, None) == Err::<Seq<char>, Error>(Error::QueryFailed),
        synthesis_result(0, None) == Err::<Seq<u8>, Error>(Error::EmptyOutput),
        !takes_buffer(0, true),
        !must_release(0, None),
{
}

/// After a failed status the buffer is left alone, whatever the engine wrote
/// for a pointer: nothing is read, nothing is released, and the failure is the
/// one that goes with the call.
pub proof fn lemma_failed_status_touches_nothing(
    status: i32,
    is_null: bool,
    buffer: Option<Seq<u8>>,
)
    requires
        status != 0,
    ensures
        !takes_buffer(status, is_null),
        !must_release(status, buffer),
        audio_query_result(status, buffer) == Err::<Seq<char>, Error>(Error::QueryFailed),
        synthesis_result(status, buffer) == Err::<Seq<u8>, Error>(Error::SynthesisFailed(status)),
{
}

/// What is read is what is released: a call that is finished with the buffer
/// exactly where `takes_buffer` allowed it to be read releases it exactly
/// there.
pub proof fn lemma_taken_is_released(status: i32, is_null: bool, buffer: Option<Seq<u8>>)
    requires
        buffer is Some <==> takes_buffer(status, is_null),
    ensures
        must_release(status, buffer) == takes_buffer(status, is_null),
{
}

} // verus!
