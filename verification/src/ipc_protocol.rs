//! The fixed-layout wire protocol. Every request and response is one
//! fixed-size binary record; its byte layout is written out here as explicit
//! encode and decode functions over byte buffers, with little-endian fields
//! in documented order, so that the sizes of the records are part of the
//! contract rather than of a compiler's memory layout.

use vstd::prelude::*;
use vstd::bytes::*;
use crate::error::EzTransError;

verus! {

/// The name of the local duplex channel the proxy serves.
pub const PIPE_NAME: &'static str = "\\\\.\\pipe\\AnemoneTransEngine";

/// Wire size of [`MessageHeader`].
pub const MESSAGE_HEADER_SIZE: usize = 16;

/// Wire size of [`InitializeRequest`].
pub const INITIALIZE_REQUEST_SIZE: usize = 520;

/// Wire size of [`InitializeResponse`].
pub const INITIALIZE_RESPONSE_SIZE: usize = 8;

/// Wire size of [`TranslateMMNTRequest`].
pub const TRANSLATE_MMNT_REQUEST_SIZE: usize = 4100;

/// Wire size of [`TranslateMMNTResponse`].
pub const TRANSLATE_MMNT_RESPONSE_SIZE: usize = 4104;

/// Wire size of [`TranslateMMNTWRequest`].
pub const TRANSLATE_MMNTW_REQUEST_SIZE: usize = 8196;

/// Wire size of [`TranslateMMNTWResponse`].
pub const TRANSLATE_MMNTW_RESPONSE_SIZE: usize = 8200;

/// Wire size of [`GenericResponse`].
pub const GENERIC_RESPONSE_SIZE: usize = 4;

/// Wire size of [`SetPropertyRequest`].
pub const SET_PROPERTY_REQUEST_SIZE: usize = 8;

/// The characters of each text buffer: bytes for the legacy encoding, UTF-16
/// code units for the extended one.
pub const TEXT_BUFFER_LEN: usize = 4096;

/// The UTF-16 code units of an engine path buffer.
pub const PATH_BUFFER_LEN: usize = 260;

// ---------------------------------------------------------------------------
// Commands and statuses
// ---------------------------------------------------------------------------

/// The commands of the protocol, carried as codes 1 through 8.
#[derive(Debug, Clone, Copy, PartialEq, Eq, Structural)]
pub enum Command {
    Initialize,
    Terminate,
    TranslateMMNT,
    TranslateMMNTW,
    ReloadUserDict,
    SetProperty,
    Shutdown,
    Ping,
}

impl Command {
    /// The wire code of the command.
    pub open spec fn spec_code(&self) -> u32 {
        match self {
            Command::Initialize => 1,
            Command::Terminate => 2,
            Command::TranslateMMNT => 3,
            Command::TranslateMMNTW => 4,
            Command::ReloadUserDict => 5,
            Command::SetProperty => 6,
            Command::Shutdown => 7,
            Command::Ping => 8,
        }
    }

    /// Returns the wire code of the command.
    pub fn code(&self) -> (r: u32)
        ensures
            r == self.spec_code(),
    {
        match self {
            Command::Initialize => 1,
            Command::Terminate => 2,
            Command::TranslateMMNT => 3,
            Command::TranslateMMNTW => 4,
            Command::ReloadUserDict => 5,
            Command::SetProperty => 6,
            Command::Shutdown => 7,
            Command::Ping => 8,
        }
    }

    /// Decodes a command code: 1 through 8 name the protocol's commands;
    /// 0 and anything from 9 up is an invalid command, never a crash.
    pub fn try_from(value: u32) -> (r: Result<Command, EzTransError>)
        ensures
            1 <= value <= 8 ==> (r matches Ok(c) && c.spec_code() == value),
            !(1 <= value <= 8) ==> r == Err::<Command, EzTransError>(
                EzTransError::InvalidCommand(value),
            ),
    {
        match value {
            1 => Ok(Command::Initialize),
            2 => Ok(Command::Terminate),
            3 => Ok(Command::TranslateMMNT),
            4 => Ok(Command::TranslateMMNTW),
            5 => Ok(Command::ReloadUserDict),
            6 => Ok(Command::SetProperty),
            7 => Ok(Command::Shutdown),
            8 => Ok(Command::Ping),
            _ => Err(EzTransError::InvalidCommand(value)),
        }
    }
}

/// The status embedded in every response, carried as codes 0 through 3.
#[derive(Debug, Clone, Copy, PartialEq, Eq, Structural)]
pub enum Status {
    Success,
    Error,
    NotInitialized,
    InvalidParameter,
}

impl Status {
    /// The wire code of the status.
    pub open spec fn spec_code(&self) -> u32 {
        match self {
            Status::Success => 0,
            Status::Error => 1,
            Status::NotInitialized => 2,
            Status::InvalidParameter => 3,
        }
    }

    /// Returns the wire code of the status.
    pub fn code(&self) -> (r: u32)
        ensures
            r == self.spec_code(),
    {
        match self {
            Status::Success => 0,
            Status::Error => 1,
            Status::NotInitialized => 2,
            Status::InvalidParameter => 3,
        }
    }
}

// ---------------------------------------------------------------------------
// Byte-level helpers
// ---------------------------------------------------------------------------

fn put_u32(out: &mut Vec<u8>, x: u32)
    ensures
        final(out)@ == old(out)@ + spec_u32_to_le_bytes(x),
{
    let mut b = u32_to_le_bytes(x);
    out.append(&mut b);
}

fn put_u64(out: &mut Vec<u8>, x: u64)
    ensures
        final(out)@ == old(out)@ + spec_u64_to_le_bytes(x),
{
    let mut b = u64_to_le_bytes(x);
    out.append(&mut b);
}

fn get_u32(b: &Vec<u8>, off: usize) -> (x: u32)
    requires
        off + 4 <= b@.len(),
    ensures
        x == spec_u32_from_le_bytes(b@.subrange(off as int, off as int + 4)),
{
    let _len: usize = b.len();
    u32_from_le_bytes(vstd::slice::slice_subrange(b.as_slice(), off, off + 4))
}

fn get_u64(b: &Vec<u8>, off: usize) -> (x: u64)
    requires
        off + 8 <= b@.len(),
    ensures
        x == spec_u64_from_le_bytes(b@.subrange(off as int, off as int + 8)),
{
    let _len: usize = b.len();
    u64_from_le_bytes(vstd::slice::slice_subrange(b.as_slice(), off, off + 8))
}

/// A sequence of UTF-16 code units as little-endian bytes, in order.
pub open spec fn spec_u16s_to_le_bytes(s: Seq<u16>) -> Seq<u8>
    decreases s.len(),
{
    if s.len() == 0 {
        Seq::empty()
    } else {
        spec_u16_to_le_bytes(s[0]) + spec_u16s_to_le_bytes(s.skip(1))
    }
}

proof fn lemma_u16s_bytes_app(a: Seq<u16>, b: Seq<u16>)
    ensures
        spec_u16s_to_le_bytes(a + b) == spec_u16s_to_le_bytes(a) + spec_u16s_to_le_bytes(b),
    decreases a.len(),
{
    lemma_auto_spec_u16_to_from_le_bytes();
    if a.len() == 0 {
        assert(a + b =~= b);
        assert(spec_u16s_to_le_bytes(a) + spec_u16s_to_le_bytes(b) =~= spec_u16s_to_le_bytes(b));
    } else {
        assert((a + b).skip(1) =~= a.skip(1) + b);
        lemma_u16s_bytes_app(a.skip(1), b);
        assert(spec_u16s_to_le_bytes(a + b) =~= spec_u16s_to_le_bytes(a) + spec_u16s_to_le_bytes(
            b,
        ));
    }
}

/// The byte form of a code-unit sequence is twice as long.
pub proof fn lemma_u16s_bytes_len(s: Seq<u16>)
    ensures
        spec_u16s_to_le_bytes(s).len() == 2 * s.len(),
    decreases s.len(),
{
    lemma_auto_spec_u16_to_from_le_bytes();
    if s.len() > 0 {
        lemma_u16s_bytes_len(s.skip(1));
    }
}

fn put_u16s(out: &mut Vec<u8>, s: &Vec<u16>)
    ensures
        final(out)@ == old(out)@ + spec_u16s_to_le_bytes(s@),
{
    let n: usize = s.len();
    let mut i: usize = 0;
    proof {
        assert(s@.take(0) =~= Seq::<u16>::empty());
        assert(spec_u16s_to_le_bytes(Seq::<u16>::empty()) =~= Seq::<u8>::empty());
        assert(out@ + spec_u16s_to_le_bytes(s@.take(0)) =~= out@);
    }
    while i < n
        invariant
            i <= n,
            n == s@.len(),
            out@ == old(out)@ + spec_u16s_to_le_bytes(s@.take(i as int)),
        decreases n - i,
    {
        let mut b = u16_to_le_bytes(s[i]);
        out.append(&mut b);
        proof {
            assert(s@.take(i + 1) =~= s@.take(i as int) + seq![s@[i as int]]);
            lemma_u16s_bytes_app(s@.take(i as int), seq![s@[i as int]]);
            assert(seq![s@[i as int]].skip(1) =~= Seq::<u16>::empty());
            assert(spec_u16s_to_le_bytes(Seq::<u16>::empty()) =~= Seq::<u8>::empty());
            assert(spec_u16s_to_le_bytes(seq![s@[i as int]]) =~= spec_u16_to_le_bytes(
                s@[i as int],
            ));
            assert(out@ =~= old(out)@ + spec_u16s_to_le_bytes(s@.take(i + 1)));
        }
        i = i + 1;
    }
    proof {
        assert(s@.take(n as int) =~= s@);
    }
}

fn get_u16s(b: &Vec<u8>, off: usize, count: usize) -> (r: Vec<u16>)
    requires
        off + 2 * count <= b@.len(),
    ensures
        r@.len() == count,
        spec_u16s_to_le_bytes(r@) == b@.subrange(off as int, off as int + 2 * count),
        forall|i: int|
            0 <= i < count ==> r@[i] == spec_u16_from_le_bytes(
                b@.subrange(off + 2 * i, off + 2 * i + 2),
            ),
{
    let n: usize = b.len();
    let mut r: Vec<u16> = Vec::new();
    let mut i: usize = 0;
    proof {
        assert(spec_u16s_to_le_bytes(r@) =~= b@.subrange(off as int, off as int));
    }
    while i < count
        invariant
            i <= count,
            n == b@.len(),
            off + 2 * count <= b@.len(),
            r@.len() == i,
            spec_u16s_to_le_bytes(r@) == b@.subrange(off as int, off as int + 2 * i),
            forall|j: int|
                0 <= j < i ==> r@[j] == spec_u16_from_le_bytes(
                    b@.subrange(off + 2 * j, off + 2 * j + 2),
                ),
        decreases count - i,
    {
        let ghost r_old = r@;
        let u = u16_from_le_bytes(vstd::slice::slice_subrange(b.as_slice(), off + 2 * i, off + 2
            * i + 2));
        r.push(u);
        proof {
            lemma_auto_spec_u16_to_from_le_bytes();
            assert(r@ =~= r_old + seq![u]);
            lemma_u16s_bytes_app(r_old, seq![u]);
            assert(seq![u].skip(1) =~= Seq::<u16>::empty());
            assert(spec_u16s_to_le_bytes(Seq::<u16>::empty()) =~= Seq::<u8>::empty());
            assert(spec_u16s_to_le_bytes(seq![u]) =~= spec_u16_to_le_bytes(u));
            assert(spec_u16_to_le_bytes(u) =~= b@.subrange(off + 2 * i, off + 2 * i + 2));
            assert(spec_u16s_to_le_bytes(r@) =~= b@.subrange(off as int, off as int + 2 * (i
                + 1)));
        }
        i = i + 1;
    }
    r
}

// ---------------------------------------------------------------------------
// Buffer text extraction
// ---------------------------------------------------------------------------

/// The text of a byte buffer: what stands before the first NUL, or the
/// whole buffer when no NUL is there.
pub open spec fn spec_until_nul_u8(s: Seq<u8>) -> Seq<u8>
    decreases s.len(),
{
    if s.len() == 0 {
        s
    } else if s[0] == 0 {
        Seq::empty()
    } else {
        seq![s[0]] + spec_until_nul_u8(s.skip(1))
    }
}

/// The text of a UTF-16 buffer: what stands before the first NUL, or the
/// whole buffer when no NUL is there.
pub open spec fn spec_until_nul_u16(s: Seq<u16>) -> Seq<u16>
    decreases s.len(),
{
    if s.len() == 0 {
        s
    } else if s[0] == 0 {
        Seq::empty()
    } else {
        seq![s[0]] + spec_until_nul_u16(s.skip(1))
    }
}

proof fn lemma_until_nul_u8(s: Seq<u8>, k: int)
    requires
        0 <= k <= s.len(),
        forall|j: int| 0 <= j < k ==> s[j] != 0,
        k == s.len() || s[k] == 0,
    ensures
        spec_until_nul_u8(s) == s.subrange(0, k),
    decreases s.len(),
{
    if s.len() == 0 {
        assert(s.subrange(0, 0) =~= s);
    } else if k == 0 {
        if s[0] == 0 {
            assert(spec_until_nul_u8(s) =~= s.subrange(0, 0));
        } else {
            assert(k == s.len() || s[k] == 0);
            assert(false);
        }
    } else {
        assert(s[0] != 0);
        assert(forall|j: int| 0 <= j < k - 1 ==> (#[trigger] s.skip(1)[j]) == s[j + 1]);
        lemma_until_nul_u8(s.skip(1), k - 1);
        assert(seq![s[0]] + s.skip(1).subrange(0, k - 1) =~= s.subrange(0, k));
    }
}

/// The until-NUL prefix, characterized: whatever index has only non-NUL
/// units before it and a NUL or the buffer's end at it is where the text
/// stops.
pub proof fn lemma_until_nul_u16(s: Seq<u16>, k: int)
    requires
        0 <= k <= s.len(),
        forall|j: int| 0 <= j < k ==> s[j] != 0,
        k == s.len() || s[k] == 0,
    ensures
        spec_until_nul_u16(s) == s.subrange(0, k),
    decreases s.len(),
{
    if s.len() == 0 {
        assert(s.subrange(0, 0) =~= s);
    } else if k == 0 {
        if s[0] == 0 {
            assert(spec_until_nul_u16(s) =~= s.subrange(0, 0));
        } else {
            assert(k == s.len() || s[k] == 0);
            assert(false);
        }
    } else {
        assert(s[0] != 0);
        assert(forall|j: int| 0 <= j < k - 1 ==> (#[trigger] s.skip(1)[j]) == s[j + 1]);
        lemma_until_nul_u16(s.skip(1), k - 1);
        assert(seq![s[0]] + s.skip(1).subrange(0, k - 1) =~= s.subrange(0, k));
    }
}

/// Takes the text of a byte buffer: the prefix before the first NUL, or the
/// whole buffer when none is there.
pub fn text_until_nul(buf: &Vec<u8>) -> (r: Vec<u8>)
    ensures
        r@ == spec_until_nul_u8(buf@),
        r@.len() <= buf@.len(),
        r@ == buf@.subrange(0, r@.len() as int),
        forall|j: int| 0 <= j < r@.len() ==> buf@[j] != 0,
        r@.len() == buf@.len() || buf@[r@.len() as int] == 0,
{
    let n: usize = buf.len();
    let mut i: usize = 0;
    while i < n
        invariant
            i <= n,
            n == buf@.len(),
            forall|j: int| 0 <= j < i ==> buf@[j] != 0,
        ensures
            i <= n,
            n == buf@.len(),
            forall|j: int| 0 <= j < i ==> buf@[j] != 0,
            i == n || buf@[i as int] == 0,
        decreases n - i,
    {
        if buf[i] == 0 {
            break ;
        }
        i = i + 1;
    }
    proof {
        lemma_until_nul_u8(buf@, i as int);
    }
    vstd::slice::slice_to_vec(vstd::slice::slice_subrange(buf.as_slice(), 0, i))
}

/// Takes the text of a UTF-16 buffer: the code units before the first NUL,
/// or the whole buffer when none is there.
pub fn wide_until_nul(buf: &Vec<u16>) -> (r: Vec<u16>)
    ensures
        r@ == spec_until_nul_u16(buf@),
        r@.len() <= buf@.len(),
        r@ == buf@.subrange(0, r@.len() as int),
        forall|j: int| 0 <= j < r@.len() ==> buf@[j] != 0,
        r@.len() == buf@.len() || buf@[r@.len() as int] == 0,
{
    let n: usize = buf.len();
    let mut i: usize = 0;
    while i < n
        invariant
            i <= n,
            n == buf@.len(),
            forall|j: int| 0 <= j < i ==> buf@[j] != 0,
        ensures
            i <= n,
            n == buf@.len(),
            forall|j: int| 0 <= j < i ==> buf@[j] != 0,
            i == n || buf@[i as int] == 0,
        decreases n - i,
    {
        if buf[i] == 0 {
            break ;
        }
        i = i + 1;
    }
    proof {
        lemma_until_nul_u16(buf@, i as int);
    }
    vstd::slice::slice_to_vec(vstd::slice::slice_subrange(buf.as_slice(), 0, i))
}

// ---------------------------------------------------------------------------
// Message header
// ---------------------------------------------------------------------------

/// The 16-byte header before every request: command code, payload size, and
/// a request identifier that is carried but not validated.
#[derive(Debug, Clone, Copy, PartialEq, Eq, Structural)]
pub struct MessageHeader {
    pub command: u32,
    pub payload_size: u32,
    pub request_id: u64,
}

impl MessageHeader {
    /// The byte layout: command, payload size, then request id, each
    /// little-endian.
    pub open spec fn spec_bytes(&self) -> Seq<u8> {
        spec_u32_to_le_bytes(self.command) + spec_u32_to_le_bytes(self.payload_size)
            + spec_u64_to_le_bytes(self.request_id)
    }

    /// Encodes the header into its 16-byte wire form.
    pub fn to_bytes(&self) -> (r: Vec<u8>)
        ensures
            r@ == self.spec_bytes(),
            r@.len() == MESSAGE_HEADER_SIZE,
    {
        let mut out: Vec<u8> = Vec::new();
        put_u32(&mut out, self.command);
        put_u32(&mut out, self.payload_size);
        put_u64(&mut out, self.request_id);
        proof {
            lemma_auto_spec_u32_to_from_le_bytes();
            lemma_auto_spec_u64_to_from_le_bytes();
            assert(out@ =~= self.spec_bytes());
        }
        out
    }

    /// Decodes a header from its 16-byte wire form; the encoding of the
    /// result is the input buffer itself.
    pub fn from_bytes(b: &Vec<u8>) -> (r: MessageHeader)
        requires
            b@.len() == MESSAGE_HEADER_SIZE,
        ensures
            r.command == spec_u32_from_le_bytes(b@.subrange(0, 4)),
            r.payload_size == spec_u32_from_le_bytes(b@.subrange(4, 8)),
            r.request_id == spec_u64_from_le_bytes(b@.subrange(8, 16)),
            r.spec_bytes() == b@,
    {
        let r = MessageHeader {
            command: get_u32(b, 0),
            payload_size: get_u32(b, 4),
            request_id: get_u64(b, 8),
        };
        proof {
            lemma_auto_spec_u32_to_from_le_bytes();
            lemma_auto_spec_u64_to_from_le_bytes();
            assert(r.spec_bytes() =~= b@);
        }
        r
    }
}

// ---------------------------------------------------------------------------
// Request and response records
// ---------------------------------------------------------------------------

/// The record each request carries, by command: header-only commands carry
/// none.
pub open spec fn spec_request_size(c: Command) -> usize {
    match c {
        Command::Initialize => INITIALIZE_REQUEST_SIZE,
        Command::TranslateMMNT => TRANSLATE_MMNT_REQUEST_SIZE,
        Command::TranslateMMNTW => TRANSLATE_MMNTW_REQUEST_SIZE,
        Command::SetProperty => SET_PROPERTY_REQUEST_SIZE,
        _ => 0,
    }
}

/// Returns the wire size of the request record a command carries; the size
/// is dictated by the command code alone, so it is known before the payload
/// is read.
pub fn request_size(c: Command) -> (r: usize)
    ensures
        r == spec_request_size(c),
{
    match c {
        Command::Initialize => INITIALIZE_REQUEST_SIZE,
        Command::TranslateMMNT => TRANSLATE_MMNT_REQUEST_SIZE,
        Command::TranslateMMNTW => TRANSLATE_MMNTW_REQUEST_SIZE,
        Command::SetProperty => SET_PROPERTY_REQUEST_SIZE,
        _ => 0,
    }
}

/// Initialize request: the engine's install path as a fixed UTF-16 buffer
/// of 260 code units, NUL-padded.
#[derive(Debug)]
pub struct InitializeRequest {
    pub engine_path: Vec<u16>,
}

impl InitializeRequest {
    /// The path buffer holds exactly its fixed capacity.
    pub open spec fn wf(&self) -> bool {
        self.engine_path@.len() == PATH_BUFFER_LEN
    }

    /// The byte layout: the 260 code units, each little-endian.
    pub open spec fn spec_bytes(&self) -> Seq<u8> {
        spec_u16s_to_le_bytes(self.engine_path@)
    }

    /// Encodes the record into its 520-byte wire form.
    pub fn to_bytes(&self) -> (r: Vec<u8>)
        requires
            self.wf(),
        ensures
            r@ == self.spec_bytes(),
            r@.len() == INITIALIZE_REQUEST_SIZE,
    {
        let mut out: Vec<u8> = Vec::new();
        put_u16s(&mut out, &self.engine_path);
        proof {
            lemma_u16s_bytes_len(self.engine_path@);
            assert(out@ =~= self.spec_bytes());
        }
        out
    }

    /// Decodes the record from its 520-byte wire form; the encoding of the
    /// result is the input buffer itself.
    pub fn from_bytes(b: &Vec<u8>) -> (r: InitializeRequest)
        requires
            b@.len() == INITIALIZE_REQUEST_SIZE,
        ensures
            r.wf(),
            r.spec_bytes() == b@,
    {
        let path = get_u16s(b, 0, PATH_BUFFER_LEN);
        proof {
            assert(b@.subrange(0, 520) =~= b@);
        }
        InitializeRequest { engine_path: path }
    }
}

/// Initialize response: a status and a success flag.
#[derive(Debug, Clone, Copy, PartialEq, Eq, Structural)]
pub struct InitializeResponse {
    pub status: Status,
    pub success: bool,
}

impl InitializeResponse {
    /// The byte layout: the status code little-endian, the flag as one byte,
    /// then three bytes of padding to the 8-byte alignment.
    pub open spec fn spec_bytes(&self) -> Seq<u8> {
        spec_u32_to_le_bytes(self.status.spec_code()) + seq![
            if self.success {
                1u8
            } else {
                0u8
            },
            0u8,
            0u8,
            0u8,
        ]
    }

    /// Encodes the record into its 8-byte wire form.
    pub fn to_bytes(&self) -> (r: Vec<u8>)
        ensures
            r@ == self.spec_bytes(),
            r@.len() == INITIALIZE_RESPONSE_SIZE,
    {
        let mut out: Vec<u8> = Vec::new();
        put_u32(&mut out, self.status.code());
        out.push(if self.success {
            1
        } else {
            0
        });
        out.push(0);
        out.push(0);
        out.push(0);
        proof {
            lemma_auto_spec_u32_to_from_le_bytes();
            assert(out@ =~= self.spec_bytes());
        }
        out
    }
}

/// Legacy translate request: a reserved word and a 4096-byte text buffer in
/// the engine's legacy 8-bit encoding, NUL-terminated within its capacity.
#[derive(Debug)]
pub struct TranslateMMNTRequest {
    pub data0: u32,
    pub text: Vec<u8>,
}

impl TranslateMMNTRequest {
    /// The text buffer holds exactly its fixed capacity.
    pub open spec fn wf(&self) -> bool {
        self.text@.len() == TEXT_BUFFER_LEN
    }

    /// The byte layout: the reserved word little-endian, then the buffer.
    pub open spec fn spec_bytes(&self) -> Seq<u8> {
        spec_u32_to_le_bytes(self.data0) + self.text@
    }

    /// Encodes the record into its 4100-byte wire form.
    pub fn to_bytes(&self) -> (r: Vec<u8>)
        requires
            self.wf(),
        ensures
            r@ == self.spec_bytes(),
            r@.len() == TRANSLATE_MMNT_REQUEST_SIZE,
    {
        let mut out: Vec<u8> = Vec::new();
        put_u32(&mut out, self.data0);
        out.extend_from_slice(self.text.as_slice());
        proof {
            lemma_auto_spec_u32_to_from_le_bytes();
            assert(out@ =~= self.spec_bytes());
        }
        out
    }

    /// Decodes the record from its 4100-byte wire form; the encoding of the
    /// result is the input buffer itself.
    pub fn from_bytes(b: &Vec<u8>) -> (r: TranslateMMNTRequest)
        requires
            b@.len() == TRANSLATE_MMNT_REQUEST_SIZE,
        ensures
            r.wf(),
            r.spec_bytes() == b@,
            r.data0 == spec_u32_from_le_bytes(b@.subrange(0, 4)),
            r.text@ == b@.subrange(4, 4100),
    {
        let data0 = get_u32(b, 0);
        let text = vstd::slice::slice_to_vec(vstd::slice::slice_subrange(b.as_slice(), 4, 4100));
        let r = TranslateMMNTRequest { data0, text };
        proof {
            lemma_auto_spec_u32_to_from_le_bytes();
            assert(r.spec_bytes() =~= b@);
        }
        r
    }
}

/// Legacy translate response: a status, a result code, and the translated
/// text in the legacy 8-bit encoding, truncated to its fixed buffer.
#[derive(Debug)]
pub struct TranslateMMNTResponse {
    pub status: Status,
    pub result_code: i32,
    pub translated: Vec<u8>,
}

impl TranslateMMNTResponse {
    /// The text buffer holds exactly its fixed capacity.
    pub open spec fn wf(&self) -> bool {
        self.translated@.len() == TEXT_BUFFER_LEN
    }

    /// The byte layout: status code, result code, then the buffer.
    pub open spec fn spec_bytes(&self) -> Seq<u8> {
        spec_u32_to_le_bytes(self.status.spec_code()) + spec_u32_to_le_bytes(
            self.result_code as u32,
        ) + self.translated@
    }

    /// Encodes the record into its 4104-byte wire form.
    pub fn to_bytes(&self) -> (r: Vec<u8>)
        requires
            self.wf(),
        ensures
            r@ == self.spec_bytes(),
            r@.len() == TRANSLATE_MMNT_RESPONSE_SIZE,
    {
        let mut out: Vec<u8> = Vec::new();
        put_u32(&mut out, self.status.code());
        put_u32(&mut out, self.result_code as u32);
        out.extend_from_slice(self.translated.as_slice());
        proof {
            lemma_auto_spec_u32_to_from_le_bytes();
            assert(out@ =~= self.spec_bytes());
        }
        out
    }
}

/// Extended translate request: a reserved word and a text buffer of 4096
/// UTF-16 code units, NUL-terminated within its capacity.
#[derive(Debug)]
pub struct TranslateMMNTWRequest {
    pub data0: u32,
    pub text: Vec<u16>,
}

impl TranslateMMNTWRequest {
    /// The text buffer holds exactly its fixed capacity.
    pub open spec fn wf(&self) -> bool {
        self.text@.len() == TEXT_BUFFER_LEN
    }

    /// The byte layout: the reserved word, then each code unit little-endian.
    pub open spec fn spec_bytes(&self) -> Seq<u8> {
        spec_u32_to_le_bytes(self.data0) + spec_u16s_to_le_bytes(self.text@)
    }

    /// Encodes the record into its 8196-byte wire form.
    pub fn to_bytes(&self) -> (r: Vec<u8>)
        requires
            self.wf(),
        ensures
            r@ == self.spec_bytes(),
            r@.len() == TRANSLATE_MMNTW_REQUEST_SIZE,
    {
        let mut out: Vec<u8> = Vec::new();
        put_u32(&mut out, self.data0);
        put_u16s(&mut out, &self.text);
        proof {
            lemma_auto_spec_u32_to_from_le_bytes();
            lemma_u16s_bytes_len(self.text@);
            assert(out@ =~= self.spec_bytes());
        }
        out
    }

    /// Decodes the record from its 8196-byte wire form; the encoding of the
    /// result is the input buffer itself.
    pub fn from_bytes(b: &Vec<u8>) -> (r: TranslateMMNTWRequest)
        requires
            b@.len() == TRANSLATE_MMNTW_REQUEST_SIZE,
        ensures
            r.wf(),
            r.spec_bytes() == b@,
            r.data0 == spec_u32_from_le_bytes(b@.subrange(0, 4)),
            spec_u16s_to_le_bytes(r.text@) == b@.subrange(4, 8196),
    {
        let data0 = get_u32(b, 0);
        let text = get_u16s(b, 4, TEXT_BUFFER_LEN);
        let r = TranslateMMNTWRequest { data0, text };
        proof {
            lemma_auto_spec_u32_to_from_le_bytes();
            assert(r.spec_bytes() =~= b@);
        }
        r
    }
}

/// Extended translate response: a status, a result code, and the translated
/// text as 4096 UTF-16 code units, NUL-terminated within its capacity.
#[derive(Debug)]
pub struct TranslateMMNTWResponse {
    pub status: Status,
    pub result_code: i32,
    pub translated: Vec<u16>,
}

impl TranslateMMNTWResponse {
    /// The text buffer holds exactly its fixed capacity.
    pub open spec fn wf(&self) -> bool {
        self.translated@.len() == TEXT_BUFFER_LEN
    }

    /// The byte layout: status code, result code, then each code unit
    /// little-endian.
    pub open spec fn spec_bytes(&self) -> Seq<u8> {
        spec_u32_to_le_bytes(self.status.spec_code()) + spec_u32_to_le_bytes(
            self.result_code as u32,
        ) + spec_u16s_to_le_bytes(self.translated@)
    }

    /// Encodes the record into its 8200-byte wire form.
    pub fn to_bytes(&self) -> (r: Vec<u8>)
        requires
            self.wf(),
        ensures
            r@ == self.spec_bytes(),
            r@.len() == TRANSLATE_MMNTW_RESPONSE_SIZE,
    {
        let mut out: Vec<u8> = Vec::new();
        put_u32(&mut out, self.status.code());
        put_u32(&mut out, self.result_code as u32);
        put_u16s(&mut out, &self.translated);
        proof {
            lemma_auto_spec_u32_to_from_le_bytes();
            lemma_u16s_bytes_len(self.translated@);
            assert(out@ =~= self.spec_bytes());
        }
        out
    }
}

/// The header-only response: a status alone.
#[derive(Debug, Clone, Copy, PartialEq, Eq, Structural)]
pub struct GenericResponse {
    pub status: Status,
}

impl GenericResponse {
    /// The byte layout: the status code little-endian.
    pub open spec fn spec_bytes(&self) -> Seq<u8> {
        spec_u32_to_le_bytes(self.status.spec_code())
    }

    /// Encodes the record into its 4-byte wire form.
    pub fn to_bytes(&self) -> (r: Vec<u8>)
        ensures
            r@ == self.spec_bytes(),
            r@.len() == GENERIC_RESPONSE_SIZE,
    {
        let mut out: Vec<u8> = Vec::new();
        put_u32(&mut out, self.status.code());
        proof {
            lemma_auto_spec_u32_to_from_le_bytes();
            assert(out@ =~= self.spec_bytes());
        }
        out
    }
}

/// Set-property request: a property identifier and its new value.
#[derive(Debug, Clone, Copy, PartialEq, Eq, Structural)]
pub struct SetPropertyRequest {
    pub property_id: i32,
    pub value: i32,
}

impl SetPropertyRequest {
    /// The byte layout: the two words little-endian, two's complement.
    pub open spec fn spec_bytes(&self) -> Seq<u8> {
        spec_u32_to_le_bytes(self.property_id as u32) + spec_u32_to_le_bytes(self.value as u32)
    }

    /// Encodes the record into its 8-byte wire form.
    pub fn to_bytes(&self) -> (r: Vec<u8>)
        ensures
            r@ == self.spec_bytes(),
            r@.len() == SET_PROPERTY_REQUEST_SIZE,
    {
        let mut out: Vec<u8> = Vec::new();
        put_u32(&mut out, self.property_id as u32);
        put_u32(&mut out, self.value as u32);
        proof {
            lemma_auto_spec_u32_to_from_le_bytes();
            assert(out@ =~= self.spec_bytes());
        }
        out
    }

    /// Decodes the record from its 8-byte wire form; the encoding of the
    /// result is the input buffer itself.
    pub fn from_bytes(b: &Vec<u8>) -> (r: SetPropertyRequest)
        requires
            b@.len() == SET_PROPERTY_REQUEST_SIZE,
        ensures
            r.spec_bytes() == b@,
            r.property_id as u32 == spec_u32_from_le_bytes(b@.subrange(0, 4)),
            r.value as u32 == spec_u32_from_le_bytes(b@.subrange(4, 8)),
    {
        let p = get_u32(b, 0);
        let v = get_u32(b, 4);
        let r = SetPropertyRequest { property_id: p as i32, value: v as i32 };
        proof {
            assert((p as i32) as u32 == p && (v as i32) as u32 == v) by (bit_vector);
            lemma_auto_spec_u32_to_from_le_bytes();
            assert(r.spec_bytes() =~= b@);
        }
        r
    }
}

} // verus!
