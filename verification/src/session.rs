//! The command dispatcher's state machine. A session owns the dispatcher
//! state of one connection: whether an initialized engine is attached and
//! whether the serve loop should continue. Each handler is the decision
//! part of one command: it takes the decoded request and, where the engine
//! is involved, the engine call's outcome, and produces the response record
//! and the state change. The engine call itself and all channel I/O stay
//! with the caller, which hands plain values in and out.

use vstd::prelude::*;
use crate::codec::{
    spec_encode,
    spec_decode,
    spec_needs_encoding,
    encode_chars,
    decode_chars,
    needs_encoding_chars,
    str_chars,
    chars_to_string,
};
use crate::encodings::{spec_shift_jis_chars, spec_euc_kr_bytes, decode_shift_jis, encode_euc_kr};
use crate::ipc_protocol::{
    Status,
    InitializeRequest,
    InitializeResponse,
    TranslateMMNTRequest,
    TranslateMMNTResponse,
    TranslateMMNTWRequest,
    TranslateMMNTWResponse,
    GenericResponse,
    SetPropertyRequest,
    TEXT_BUFFER_LEN,
    spec_until_nul_u8,
    spec_until_nul_u16,
    text_until_nul,
    wide_until_nul,
};
use crate::wide::{spec_utf16_decode_lossy, spec_utf16_encode, utf16_decode_lossy_chars,
    utf16_encode_chars};

verus! {

// ---------------------------------------------------------------------------
// Session state
// ---------------------------------------------------------------------------

/// The dispatcher state of one connection.
#[derive(Debug, Clone, Copy, PartialEq, Eq, Structural)]
pub struct Session {
    /// Whether a successfully initialized engine is attached.
    pub initialized: bool,
    /// Whether the serve loop should continue.
    pub running: bool,
}

impl Session {
    /// The state a session starts in: no engine, serve loop live.
    pub open spec fn spec_new() -> Session {
        Session { initialized: false, running: true }
    }

    /// Creates the session of a fresh connection.
    pub fn new() -> (s: Session)
        ensures
            s == Session::spec_new(),
    {
        Session { initialized: false, running: true }
    }

    /// The state after Shutdown: the serve loop stops; the engine, if any,
    /// stays attached for teardown.
    pub open spec fn spec_shutdown(self) -> Session {
        Session { running: false, ..self }
    }

    /// Shutdown: flips the serve loop off. No response is written.
    pub fn handle_shutdown(&mut self)
        ensures
            *final(self) == old(self).spec_shutdown(),
            !final(self).running,
    {
        self.running = false;
    }

    /// Ping: a no-op that always answers Success.
    pub fn handle_ping(&self) -> (r: GenericResponse)
        ensures
            r.status == Status::Success,
    {
        GenericResponse { status: Status::Success }
    }

    /// The state after Terminate: the engine is detached.
    pub open spec fn spec_terminate(self) -> Session {
        Session { initialized: false, ..self }
    }

    /// Terminate: detaches the engine and always answers Success. The
    /// caller terminates the engine itself beforehand, best-effort; its
    /// failures are swallowed and never reach the response.
    pub fn handle_terminate(&mut self) -> (r: GenericResponse)
        ensures
            *final(self) == old(self).spec_terminate(),
            r.status == Status::Success,
    {
        self.initialized = false;
        GenericResponse { status: Status::Success }
    }

    /// The state after Initialize: attached on success; on failure any
    /// previously attached engine stays.
    pub open spec fn spec_initialize(self, ok: bool) -> Session {
        Session { initialized: ok || self.initialized, ..self }
    }

    /// Initialize, second phase: records whether the caller's engine
    /// construction and initialization succeeded, and builds the response.
    pub fn handle_initialize(&mut self, engine_ok: bool) -> (r: InitializeResponse)
        ensures
            *final(self) == old(self).spec_initialize(engine_ok),
            r.status == if engine_ok {
                Status::Success
            } else {
                Status::Error
            },
            r.success == engine_ok,
    {
        if engine_ok {
            self.initialized = true;
        }
        InitializeResponse {
            status: if engine_ok {
                Status::Success
            } else {
                Status::Error
            },
            success: engine_ok,
        }
    }

    /// Reload-user-dictionary: best-effort; the caller reloads if an engine
    /// is attached, failures are swallowed, and the answer is Success.
    pub fn handle_reload_user_dict(&self) -> (r: GenericResponse)
        ensures
            r.status == Status::Success,
    {
        GenericResponse { status: Status::Success }
    }

    /// Set-property, first phase: the engine is consulted exactly when one
    /// is attached, with the identifier and value of the request.
    pub fn begin_set_property(&self, req: &SetPropertyRequest) -> (r: Option<(i32, i32)>)
        ensures
            self.initialized ==> r == Some((req.property_id, req.value)),
            !self.initialized ==> r is None,
    {
        if self.initialized {
            Some((req.property_id, req.value))
        } else {
            None
        }
    }

    /// Set-property, second phase: the response for the engine call's
    /// outcome, or NotInitialized when no engine was attached to call.
    pub fn finish_set_property(&self, outcome: Option<bool>) -> (r: GenericResponse)
        ensures
            outcome matches Some(ok) ==> r.status == if ok {
                Status::Success
            } else {
                Status::Error
            },
            outcome is None ==> r.status == Status::NotInitialized,
    {
        match outcome {
            Some(true) => GenericResponse { status: Status::Success },
            Some(false) => GenericResponse { status: Status::Error },
            None => GenericResponse { status: Status::NotInitialized },
        }
    }
}

// ---------------------------------------------------------------------------
// Text plumbing shared by the handlers
// ---------------------------------------------------------------------------

/// A text with its trailing NULs dropped, as the path buffer is read.
pub open spec fn spec_trim_nul_end(s: Seq<char>) -> Seq<char>
    decreases s.len(),
{
    if s.len() > 0 && s[s.len() - 1] == '\0' {
        spec_trim_nul_end(s.take(s.len() - 1))
    } else {
        s
    }
}

fn trim_nul_end(v: &Vec<char>) -> (r: Vec<char>)
    ensures
        r@ == spec_trim_nul_end(v@),
{
    let n: usize = v.len();
    let mut end: usize = n;
    proof {
        assert(v@.take(n as int) =~= v@);
    }
    while end > 0 && v[end - 1] == '\0'
        invariant
            end <= n,
            n == v@.len(),
            spec_trim_nul_end(v@) == spec_trim_nul_end(v@.take(end as int)),
        decreases end,
    {
        proof {
            assert(v@.take(end as int).take(end - 1) =~= v@.take(end - 1));
        }
        end = end - 1;
    }
    proof {
        assert(spec_trim_nul_end(v@.take(end as int)) == v@.take(end as int));
        assert(v@.take(end as int) =~= v@.subrange(0, end as int));
    }
    vstd::slice::slice_to_vec(vstd::slice::slice_subrange(v.as_slice(), 0, end))
}

/// What the codec hands the engine for a request text: the escape encoding
/// when any character is protected, the text itself otherwise.
pub open spec fn spec_engine_input(text: Seq<char>) -> Seq<char> {
    if spec_needs_encoding(text) {
        spec_encode(text)
    } else {
        text
    }
}

/// What comes back to the client for an engine reply: the escape decoding
/// exactly when encoding was applied on the way in.
pub open spec fn spec_engine_output(out: Seq<char>, encoded: bool) -> Seq<char> {
    if encoded {
        spec_decode(out)
    } else {
        out
    }
}

fn prepare_engine_input(chars: &Vec<char>) -> (r: (String, bool))
    ensures
        r.1 == spec_needs_encoding(chars@),
        r.0@ == spec_engine_input(chars@),
{
    let needs = needs_encoding_chars(chars);
    if needs {
        let encoded = encode_chars(chars);
        (chars_to_string(&encoded), true)
    } else {
        (chars_to_string(chars), false)
    }
}

fn finish_engine_output(out: &String, encoded: bool) -> (r: Vec<char>)
    ensures
        r@ == spec_engine_output(out@, encoded),
{
    let chars = str_chars(out.as_str());
    if encoded {
        decode_chars(&chars)
    } else {
        chars
    }
}

/// The wide response buffer for a translated text: its UTF-16 code units
/// truncated to 4095, a terminating NUL, and zero padding to capacity.
pub open spec fn spec_wide_out_buffer(u: Seq<u16>) -> Seq<u16> {
    let l = if u.len() < 4095 {
        u.len() as int
    } else {
        4095
    };
    u.take(l) + Seq::new((TEXT_BUFFER_LEN - l) as nat, |i: int| 0u16)
}

fn build_wide_out_buffer(units: &Vec<u16>) -> (r: Vec<u16>)
    ensures
        r@ == spec_wide_out_buffer(units@),
        r@.len() == TEXT_BUFFER_LEN,
{
    let l: usize = if units.len() < 4095 {
        units.len()
    } else {
        4095
    };
    let mut out: Vec<u16> = Vec::new();
    let mut i: usize = 0;
    while i < l
        invariant
            i <= l,
            l <= units@.len(),
            out@ == units@.take(i as int),
        decreases l - i,
    {
        out.push(units[i]);
        proof {
            assert(out@ =~= units@.take(i + 1));
        }
        i = i + 1;
    }
    while i < TEXT_BUFFER_LEN
        invariant
            l <= i <= TEXT_BUFFER_LEN,
            l <= units@.len(),
            l == if units@.len() < 4095 {
                units@.len() as int
            } else {
                4095
            },
            out@.len() == i,
            out@.subrange(0, l as int) == units@.take(l as int),
            forall|j: int| l <= j < i ==> out@[j] == 0,
        decreases TEXT_BUFFER_LEN - i,
    {
        out.push(0);
        proof {
            assert(out@.subrange(0, l as int) =~= units@.take(l as int));
        }
        i = i + 1;
    }
    proof {
        assert(out@ =~= spec_wide_out_buffer(units@));
    }
    out
}

/// The legacy response buffer for a translated text: its bytes truncated
/// to capacity and zero padding after them.
pub open spec fn spec_byte_out_buffer(b: Seq<u8>) -> Seq<u8> {
    let l = if b.len() < TEXT_BUFFER_LEN {
        b.len() as int
    } else {
        TEXT_BUFFER_LEN as int
    };
    b.take(l) + Seq::new((TEXT_BUFFER_LEN - l) as nat, |i: int| 0u8)
}

fn build_byte_out_buffer(bytes: &Vec<u8>) -> (r: Vec<u8>)
    ensures
        r@ == spec_byte_out_buffer(bytes@),
        r@.len() == TEXT_BUFFER_LEN,
{
    let l: usize = if bytes.len() < TEXT_BUFFER_LEN {
        bytes.len()
    } else {
        TEXT_BUFFER_LEN
    };
    let mut out: Vec<u8> = Vec::new();
    let mut i: usize = 0;
    while i < l
        invariant
            i <= l,
            l <= bytes@.len(),
            out@ == bytes@.take(i as int),
        decreases l - i,
    {
        out.push(bytes[i]);
        proof {
            assert(out@ =~= bytes@.take(i + 1));
        }
        i = i + 1;
    }
    while i < TEXT_BUFFER_LEN
        invariant
            l <= i <= TEXT_BUFFER_LEN,
            l <= bytes@.len(),
            l == if bytes@.len() < TEXT_BUFFER_LEN {
                bytes@.len() as int
            } else {
                TEXT_BUFFER_LEN as int
            },
            out@.len() == i,
            out@.subrange(0, l as int) == bytes@.take(l as int),
            forall|j: int| l <= j < i ==> out@[j] == 0,
        decreases TEXT_BUFFER_LEN - i,
    {
        out.push(0);
        proof {
            assert(out@.subrange(0, l as int) =~= bytes@.take(l as int));
        }
        i = i + 1;
    }
    proof {
        assert(out@ =~= spec_byte_out_buffer(bytes@));
    }
    out
}

fn zero_wide_buffer() -> (r: Vec<u16>)
    ensures
        r@ == Seq::new(TEXT_BUFFER_LEN as nat, |i: int| 0u16),
{
    let mut out: Vec<u16> = Vec::new();
    let mut i: usize = 0;
    while i < TEXT_BUFFER_LEN
        invariant
            i <= TEXT_BUFFER_LEN,
            out@.len() == i,
            forall|j: int| 0 <= j < i ==> out@[j] == 0,
        decreases TEXT_BUFFER_LEN - i,
    {
        out.push(0);
        i = i + 1;
    }
    proof {
        assert(out@ =~= Seq::new(TEXT_BUFFER_LEN as nat, |i: int| 0u16));
    }
    out
}

fn zero_byte_buffer() -> (r: Vec<u8>)
    ensures
        r@ == Seq::new(TEXT_BUFFER_LEN as nat, |i: int| 0u8),
{
    let mut out: Vec<u8> = Vec::new();
    let mut i: usize = 0;
    while i < TEXT_BUFFER_LEN
        invariant
            i <= TEXT_BUFFER_LEN,
            out@.len() == i,
            forall|j: int| 0 <= j < i ==> out@[j] == 0,
        decreases TEXT_BUFFER_LEN - i,
    {
        out.push(0);
        i = i + 1;
    }
    proof {
        assert(out@ =~= Seq::new(TEXT_BUFFER_LEN as nat, |i: int| 0u8));
    }
    out
}

// ---------------------------------------------------------------------------
// Initialize and translate handlers
// ---------------------------------------------------------------------------

impl Session {
    /// The install path a request names: its UTF-16 buffer read leniently,
    /// trailing NULs dropped.
    pub open spec fn spec_request_path(req: InitializeRequest) -> Seq<char> {
        spec_trim_nul_end(spec_utf16_decode_lossy(req.engine_path@))
    }

    /// Initialize, first phase: the two paths the engine is constructed
    /// with, built from the request's path buffer: the engine library
    /// below it, and its data directory.
    pub fn initialize_paths(req: &InitializeRequest) -> (r: (String, String))
        ensures
            r.0@ == Session::spec_request_path(*req) + "\\J2KEngine.dll"@,
            r.1@ == Session::spec_request_path(*req) + "\\Dat"@,
    {
        let units = utf16_decode_lossy_chars(&req.engine_path);
        let trimmed = trim_nul_end(&units);
        let base = chars_to_string(&trimmed);
        let mut dll = base.clone();
        dll.append("\\J2KEngine.dll");
        let mut dat = base;
        dat.append("\\Dat");
        (dll, dat)
    }

    /// Extended translate, first phase: the engine is consulted exactly
    /// when one is attached, with the request's wide text read up to its
    /// NUL and run through the codec's pre-check and, if needed, encoding.
    pub fn begin_translate_extended(&self, req: &TranslateMMNTWRequest) -> (r: Option<
        (String, bool),
    >)
        ensures
            r is Some <==> self.initialized,
            r matches Some(p) ==> {
                let text = spec_utf16_decode_lossy(spec_until_nul_u16(req.text@));
                &&& p.1 == spec_needs_encoding(text)
                &&& p.0@ == spec_engine_input(text)
            },
    {
        if !self.initialized {
            return None;
        }
        let units = wide_until_nul(&req.text);
        let chars = utf16_decode_lossy_chars(&units);
        Some(prepare_engine_input(&chars))
    }

    /// Extended translate, refused: the response sent when no engine is
    /// attached: NotInitialized, result code -1, buffer untouched.
    pub fn translate_extended_not_initialized(&self) -> (r: TranslateMMNTWResponse)
        requires
            !self.initialized,
        ensures
            r.wf(),
            r.status == Status::NotInitialized,
            r.result_code == -1,
            r.translated@ == Seq::new(TEXT_BUFFER_LEN as nat, |i: int| 0u16),
    {
        TranslateMMNTWResponse {
            status: Status::NotInitialized,
            result_code: -1,
            translated: zero_wide_buffer(),
        }
    }

    /// Extended translate, second phase: the response for the engine
    /// call's outcome. On success the reply is decoded exactly when the
    /// request was encoded, and fills the buffer truncated to capacity; on
    /// failure the buffer stays zeroed and the result code stays -1.
    pub fn finish_translate_extended(&self, outcome: Option<String>, encoded: bool) -> (r:
        TranslateMMNTWResponse)
        ensures
            r.wf(),
            outcome is None ==> r.status == Status::Error && r.result_code == -1 && r.translated@
                == Seq::new(TEXT_BUFFER_LEN as nat, |i: int| 0u16),
            outcome matches Some(out) ==> r.status == Status::Success && r.result_code == 0
                && r.translated@ == spec_wide_out_buffer(
                spec_utf16_encode(spec_engine_output(out@, encoded)),
            ),
    {
        match outcome {
            None => TranslateMMNTWResponse {
                status: Status::Error,
                result_code: -1,
                translated: zero_wide_buffer(),
            },
            Some(out) => {
                let chars = finish_engine_output(&out, encoded);
                let units = utf16_encode_chars(&chars);
                TranslateMMNTWResponse {
                    status: Status::Success,
                    result_code: 0,
                    translated: build_wide_out_buffer(&units),
                }
            },
        }
    }

    /// Legacy translate, first phase: the engine is consulted exactly when
    /// one is attached, with the request's byte text read up to its NUL,
    /// decoded from Shift-JIS, and run through the codec's pre-check and,
    /// if needed, encoding.
    pub fn begin_translate_legacy(&self, req: &TranslateMMNTRequest) -> (r: Option<(String, bool)>)
        requires
            req.wf(),
        ensures
            r is Some <==> self.initialized,
            r matches Some(p) ==> {
                let text = spec_shift_jis_chars(spec_until_nul_u8(req.text@));
                &&& p.1 == spec_needs_encoding(text)
                &&& p.0@ == spec_engine_input(text)
            },
    {
        if !self.initialized {
            return None;
        }
        let bytes = text_until_nul(&req.text);
        let decoded = decode_shift_jis(&bytes);
        let chars = str_chars(decoded.as_str());
        Some(prepare_engine_input(&chars))
    }

    /// Legacy translate, refused: the response sent when no engine is
    /// attached: NotInitialized, result code -1, buffer untouched.
    pub fn translate_legacy_not_initialized(&self) -> (r: TranslateMMNTResponse)
        requires
            !self.initialized,
        ensures
            r.wf(),
            r.status == Status::NotInitialized,
            r.result_code == -1,
            r.translated@ == Seq::new(TEXT_BUFFER_LEN as nat, |i: int| 0u8),
    {
        TranslateMMNTResponse {
            status: Status::NotInitialized,
            result_code: -1,
            translated: zero_byte_buffer(),
        }
    }

    /// Legacy translate, second phase: the response for the engine call's
    /// outcome. On success the reply is decoded exactly when the request
    /// was encoded, re-encoded to EUC-KR, and fills the buffer truncated
    /// to capacity; on failure the buffer stays zeroed and the result code
    /// stays -1. A reply too monstrous for the byte encoder's own safety
    /// bound is treated as an engine failure.
    pub fn finish_translate_legacy(&self, outcome: Option<String>, encoded: bool) -> (r:
        TranslateMMNTResponse)
        ensures
            r.wf(),
            outcome is None ==> r.status == Status::Error && r.result_code == -1 && r.translated@
                == Seq::new(TEXT_BUFFER_LEN as nat, |i: int| 0u8),
            outcome matches Some(out) ==> {
                let text = spec_engine_output(out@, encoded);
                &&& text.len() <= 0x4000000 ==> r.status == Status::Success && r.result_code == 0
                    && r.translated@ == spec_byte_out_buffer(spec_euc_kr_bytes(text))
                &&& text.len() > 0x4000000 ==> r.status == Status::Error && r.result_code == -1
                    && r.translated@ == Seq::new(TEXT_BUFFER_LEN as nat, |i: int| 0u8)
            },
    {
        match outcome {
            None => TranslateMMNTResponse {
                status: Status::Error,
                result_code: -1,
                translated: zero_byte_buffer(),
            },
            Some(out) => {
                let chars = finish_engine_output(&out, encoded);
                if chars.len() > 0x4000000 {
                    return TranslateMMNTResponse {
                        status: Status::Error,
                        result_code: -1,
                        translated: zero_byte_buffer(),
                    };
                }
                let text = chars_to_string(&chars);
                let bytes = encode_euc_kr(text.as_str());
                TranslateMMNTResponse {
                    status: Status::Success,
                    result_code: 0,
                    translated: build_byte_out_buffer(&bytes),
                }
            },
        }
    }
}

// ---------------------------------------------------------------------------
// Laws of the state machine
// ---------------------------------------------------------------------------

/// The codec layer around the engine is transparent: whenever the engine
/// returns its input unchanged, the client gets the request text back
/// exactly, whether or not the pre-check fired — on every marker-free
/// text, which every text free of literal `+x`/`+X` pairs is.
pub proof fn lemma_codec_transparent(text: Seq<char>)
    requires
        crate::codec::spec_marker_free(text),
    ensures
        spec_engine_output(spec_engine_input(text), spec_needs_encoding(text)) == text,
{
    if spec_needs_encoding(text) {
        crate::codec::lemma_decode_encode_roundtrip(text);
    }
}

/// An echoing engine is invisible end to end. Take any marker-free request
/// text without NUL characters whose code units fit the response buffer.
/// The dispatcher escapes it exactly when the pre-check fires; if the
/// engine returns that input unchanged, the response buffer — the decoded
/// reply as UTF-16, truncated and NUL-padded — reads back, up to its NUL,
/// as precisely the request text.
pub proof fn lemma_extended_echo_roundtrip(text: Seq<char>)
    requires
        crate::codec::spec_marker_free(text),
        forall|i: int| 0 <= i < text.len() ==> text[i] != '\0',
        spec_utf16_encode(text).len() <= 4095,
    ensures
        ({
            let echoed = spec_engine_input(text);
            let buffer = spec_wide_out_buffer(
                spec_utf16_encode(spec_engine_output(echoed, spec_needs_encoding(text))),
            );
            spec_utf16_decode_lossy(spec_until_nul_u16(buffer)) == text
        }),
{
    lemma_codec_transparent(text);
    let u = spec_utf16_encode(text);
    let buffer = spec_wide_out_buffer(u);
    let l = u.len() as int;
    crate::wide::lemma_utf16_encode_no_nul(text);
    assert(buffer =~= u + Seq::new((TEXT_BUFFER_LEN - l) as nat, |i: int| 0u16));
    assert(forall|j: int| 0 <= j < l ==> buffer[j] != 0);
    assert(buffer[l] == 0);
    crate::ipc_protocol::lemma_until_nul_u16(buffer, l);
    assert(spec_until_nul_u16(buffer) =~= u);
    crate::wide::lemma_utf16_roundtrip(text);
}

/// Terminate is idempotent: from any state, a second Terminate answers
/// Success again and leaves the session exactly where the first left it,
/// with no engine attached.
pub proof fn lemma_terminate_idempotent(s: Session)
    ensures
        s.spec_terminate().spec_terminate() == s.spec_terminate(),
        !s.spec_terminate().initialized,
{
}

/// Shutdown only stops the serve loop: whatever the state, the engine
/// attachment is untouched and the loop flag is off afterwards.
pub proof fn lemma_shutdown_stops_loop(s: Session)
    ensures
        !s.spec_shutdown().running,
        s.spec_shutdown().initialized == s.initialized,
{
}

/// A fresh session serves but holds no engine, so the first translation
/// before any Initialize is refused rather than sent to an absent engine.
pub proof fn lemma_new_session_uninitialized()
    ensures
        !Session::spec_new().initialized,
        Session::spec_new().running,
{
}

} // verus!
