//! Decoding of fixed-size input event records and the key-press filter.
use vstd::prelude::*;

verus! {

/// Event category of key events in the Linux input protocol.
pub const EV_KEY: u16 = 1;

/// Event value of a key release.
pub const VALUE_KEY_UP: i32 = 0;

/// Size in bytes of one raw input event record: two 64-bit timestamp
/// words, a 16-bit type, a 16-bit code and a 32-bit value.
pub const EVENT_SIZE: usize = 24;

/// One input event as the kernel delivers it.
#[derive(Clone, Copy, Debug)]
pub struct InputEvent {
    /// The kernel timestamp, kept opaque.
    pub pad: [u64; 2],
    pub typ: u16,
    pub code: u16,
    pub value: i32,
}

/// Why a record could not be decoded.
#[derive(Clone, Copy, Debug, PartialEq, Eq, Structural)]
pub enum DecodeError {
    /// Fewer bytes than one whole record.
    ShortRecord,
}

/// The unsigned little-endian integer held by `s`.
pub open spec fn le_val(s: Seq<u8>) -> nat
    decreases s.len(),
{
    if s.len() == 0 {
        0
    } else {
        s[0] as nat + 256 * le_val(s.subrange(1, s.len() as int))
    }
}

/// `256` to the power `n`.
pub open spec fn byte_range(n: nat) -> nat
    decreases n,
{
    if n == 0 {
        1
    } else {
        256 * byte_range((n - 1) as nat)
    }
}

/// The little-endian integer of the `n` bytes of `b` that start at `off`.
pub open spec fn le_field(b: Seq<u8>, off: int, n: int) -> nat {
    le_val(b.subrange(off, off + n))
}

/// The two's-complement reading of a 32-bit unsigned value.
pub open spec fn signed32(u: nat) -> int {
    if u < 0x8000_0000 {
        u as int
    } else {
        u as int - 0x1_0000_0000
    }
}

/// The event that the first record of `b` holds, laid out as
/// little-endian fields at fixed offsets.
pub open spec fn decode_spec(b: Seq<u8>) -> InputEvent {
    InputEvent {
        pad: [le_field(b, 0, 8) as u64, le_field(b, 8, 8) as u64],
        typ: le_field(b, 16, 2) as u16,
        code: le_field(b, 18, 2) as u16,
        value: signed32(le_field(b, 20, 4)) as i32,
    }
}

proof fn lemma_le_val_bound(s: Seq<u8>)
    ensures
        le_val(s) < byte_range(s.len()),
    decreases s.len(),
{
    if s.len() > 0 {
        let t = s.subrange(1, s.len() as int);
        lemma_le_val_bound(t);
        let v = le_val(t);
        let b = byte_range(t.len());
        let h = s[0] as nat;
        assert(h + 256 * v < 256 * b) by (nonlinear_arith)
            requires
                h < 256,
                v < b,
        ;
    }
}

/// Reads the little-endian integer of `n` bytes of `bytes` from `off`.
fn read_le(bytes: &[u8], off: usize, n: usize) -> (r: u64)
    requires
        n <= 8,
        off + n <= bytes@.len(),
    ensures
        r == le_field(bytes@, off as int, n as int),
{
    let ghost s = bytes@.subrange(off as int, off + n);
    proof {
        lemma_le_val_bound(s);
        reveal_with_fuel(byte_range, 9);
        assert(byte_range(8) == 0x1_0000_0000_0000_0000);
    }
    let len = bytes.len();
    let mut acc: u64 = 0;
    let mut k: usize = n;
    while k > 0
        invariant
            k <= n,
            n <= 8,
            off + n <= len,
            len == bytes@.len(),
            byte_range(8) == 0x1_0000_0000_0000_0000,
            s == bytes@.subrange(off as int, off + n),
            acc == le_val(s.subrange(k as int, n as int)),
        decreases k,
    {
        k = k - 1;
        let ghost t = s.subrange(k as int, n as int);
        assert(t.subrange(1, t.len() as int) == s.subrange(k + 1, n as int));
        proof {
            lemma_le_val_bound(t);
            lemma_byte_range_mono(t.len(), 8);
        }
        assert(t[0] == bytes@[off + k]);
        assert(le_val(t) == t[0] as nat + 256 * acc);
        acc = bytes[off + k] as u64 + 256 * acc;
    }
    assert(s.subrange(0, n as int) == s);
    acc
}

proof fn lemma_byte_range_mono(a: nat, b: nat)
    requires
        a <= b,
    ensures
        byte_range(a) <= byte_range(b),
    decreases b,
{
    if a < b {
        lemma_byte_range_mono(a, (b - 1) as nat);
    }
}

impl InputEvent {
    /// An event with every field zero.
    pub fn new() -> (r: InputEvent)
        ensures
            r.pad[0] == 0 && r.pad[1] == 0,
            r.typ == 0,
            r.code == 0,
            r.value == 0,
    {
        InputEvent { pad: [0; 2], typ: 0, code: 0, value: 0 }
    }

    /// Whether this event is a key press or autorepeat of a nonzero code.
    pub open spec fn reportable(&self) -> bool {
        self.typ == EV_KEY && self.value != VALUE_KEY_UP && self.code != 0
    }

    /// Whether this event should reach the display: a key event that is
    /// not a release and carries a nonzero code.
    pub fn is_reportable(&self) -> (r: bool)
        ensures
            r == self.reportable(),
    {
        !(self.code == 0 || self.typ != EV_KEY || self.value == VALUE_KEY_UP)
    }
}

/// Decodes the record at the start of `bytes`: fields at fixed offsets,
/// each little-endian. Fails when fewer than `EVENT_SIZE` bytes are given;
/// bytes beyond the first record are not read.
pub fn decode(bytes: &[u8]) -> (r: Result<InputEvent, DecodeError>)
    ensures
        bytes@.len() < EVENT_SIZE <==> r is Err,
        r is Err ==> r == Err::<InputEvent, DecodeError>(DecodeError::ShortRecord),
        r is Ok ==> r->Ok_0 == decode_spec(bytes@),
{
    if bytes.len() < EVENT_SIZE {
        return Err(DecodeError::ShortRecord);
    }
    let p0 = read_le(bytes, 0, 8);
    let p1 = read_le(bytes, 8, 8);
    let typ = read_le(bytes, 16, 2);
    let code = read_le(bytes, 18, 2);
    let raw = read_le(bytes, 20, 4);
    proof {
        lemma_le_val_bound(bytes@.subrange(16, 18));
        lemma_le_val_bound(bytes@.subrange(18, 20));
        lemma_le_val_bound(bytes@.subrange(20, 24));
        reveal_with_fuel(byte_range, 5);
        assert(byte_range(2) == 0x1_0000);
        assert(byte_range(4) == 0x1_0000_0000);
    }
    let value: i32 = if raw < 0x8000_0000 {
        raw as i32
    } else {
        -((0xFFFF_FFFF - raw) as i32) - 1
    };
    let e = InputEvent { pad: [p0, p1], typ: typ as u16, code: code as u16, value };
    assert(e.pad == decode_spec(bytes@).pad);
    Ok(e)
}

/// A release, or an event without a key code, never reaches the display.
pub proof fn lemma_release_or_zero_code_not_reportable(e: InputEvent)
    requires
        e.value == VALUE_KEY_UP || e.code == 0,
    ensures
        !e.reportable(),
{
}

/// A key event that is a press or an autorepeat of a nonzero code always
/// reaches the display.
pub proof fn lemma_press_or_repeat_reportable(e: InputEvent)
    requires
        e.typ == EV_KEY,
        e.value == 1 || e.value == 2,
        e.code != 0,
    ensures
        e.reportable(),
{
}

} // verus!
