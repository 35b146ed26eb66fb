use vstd::prelude::*;

verus! {

/// Number of bytes of one record in the ring buffer: two `u32` fields, a
/// 16-byte command name and a 12-byte message, laid out without padding.
pub const RECORD_LEN: usize = 36;

/// The unsigned 32-bit value whose little-endian bytes are `b[0..4]`.
pub open spec fn le_u32(b: Seq<u8>) -> u32 {
    (b[0] as int + b[1] as int * 0x100 + b[2] as int * 0x1_0000 + b[3] as int * 0x100_0000) as u32
}

/// The four little-endian bytes of `v`.
pub open spec fn le_bytes(v: u32) -> Seq<u8> {
    seq![
        (v % 0x100) as u8,
        ((v / 0x100) % 0x100) as u8,
        ((v / 0x1_0000) % 0x100) as u8,
        ((v / 0x100_0000) % 0x100) as u8,
    ]
}

/// A record that the kernel-side probe sends through the ring buffer.
pub struct DataType {
    pub pid: u32,
    pub uid: u32,
    pub command: [u8; 16],
    pub message: [u8; 12],
}

/// What a record is as plain values: the fields, the arrays by their contents.
pub struct DataView {
    pub pid: u32,
    pub uid: u32,
    pub command: Seq<u8>,
    pub message: Seq<u8>,
}

impl View for DataType {
    type V = DataView;

    open spec fn view(&self) -> DataView {
        DataView { pid: self.pid, uid: self.uid, command: self.command@, message: self.message@ }
    }
}

/// The record that `bytes` holds in the layout of `DataType` (C layout on a
/// little-endian machine): `pid` in bytes 0..4, `uid` in 4..8, the command in
/// 8..24 and the message in 24..36.
pub open spec fn decode_record(bytes: Seq<u8>) -> DataView {
    DataView {
        pid: le_u32(bytes.subrange(0, 4)),
        uid: le_u32(bytes.subrange(4, 8)),
        command: bytes.subrange(8, 24),
        message: bytes.subrange(24, 36),
    }
}

/// The bytes of a record in memory, as the kernel side writes it into the
/// ring buffer.
pub open spec fn record_image(d: DataView) -> Seq<u8> {
    le_bytes(d.pid) + le_bytes(d.uid) + d.command + d.message
}

/// A record is well formed when its arrays have their declared lengths.
pub open spec fn record_wf(d: DataView) -> bool {
    d.command.len() == 16 && d.message.len() == 12
}

fn read_le_u32(bytes: &[u8], at: usize) -> (r: u32)
    requires
        at + 4 <= bytes@.len(),
    ensures
        r == le_u32(bytes@.subrange(at as int, at + 4)),
{
    let b0 = bytes[at] as u32;
    let b1 = bytes[at + 1] as u32;
    let b2 = bytes[at + 2] as u32;
    let b3 = bytes[at + 3] as u32;
    b0 + b1 * 0x100 + b2 * 0x1_0000 + b3 * 0x100_0000
}

/// Reading back the little-endian bytes of a value gives the value.
pub proof fn lemma_le_u32_of_le_bytes(v: u32)
    ensures
        le_u32(le_bytes(v)) == v,
{
    let b = le_bytes(v);
    let x = v as int;
    assert(x == (x % 0x100) + ((x / 0x100) % 0x100) * 0x100 + ((x / 0x1_0000) % 0x100) * 0x1_0000
        + ((x / 0x100_0000) % 0x100) * 0x100_0000) by (nonlinear_arith)
        requires
            0 <= x < 0x1_0000_0000,
    ;
}

/// A record written into the ring buffer by the kernel side is read back as
/// the same record by `DataType::from_bytes`.
pub proof fn law_decode_record_image(d: DataView)
    requires
        record_wf(d),
    ensures
        record_image(d).len() == RECORD_LEN,
        decode_record(record_image(d)) == d,
{
    let img = record_image(d);
    lemma_le_u32_of_le_bytes(d.pid);
    lemma_le_u32_of_le_bytes(d.uid);
    assert(img.subrange(0, 4) =~= le_bytes(d.pid));
    assert(img.subrange(4, 8) =~= le_bytes(d.uid));
    assert(img.subrange(8, 24) =~= d.command);
    assert(img.subrange(24, 36) =~= d.message);
}

impl DataType {
    /// A record with the given fields.
    pub fn new(pid: u32, uid: u32, command: [u8; 16], message: [u8; 12]) -> (r: Self)
        ensures
            r.pid == pid,
            r.uid == uid,
            r.command == command,
            r.message == message,
    {
        Self { pid, uid, command, message }
    }

    /// Decodes a record from the first `RECORD_LEN` bytes of `bytes`; the
    /// rest is ignored.
    pub fn from_bytes(bytes: &[u8]) -> (r: Self)
        requires
            bytes@.len() >= RECORD_LEN,
        ensures
            r@ == decode_record(bytes@),
            r.pid == bytes@[0] + bytes@[1] * 0x100 + bytes@[2] * 0x1_0000 + bytes@[3] * 0x100_0000,
            r.uid == bytes@[4] + bytes@[5] * 0x100 + bytes@[6] * 0x1_0000 + bytes@[7] * 0x100_0000,
            forall|i: int| 0 <= i < 16 ==> r.command@[i] == bytes@[8 + i],
            forall|i: int| 0 <= i < 12 ==> r.message@[i] == bytes@[24 + i],
    {
        let pid = read_le_u32(bytes, 0);
        let uid = read_le_u32(bytes, 4);
        let command: [u8; 16] = [
            bytes[8], bytes[9], bytes[10], bytes[11], bytes[12], bytes[13], bytes[14], bytes[15],
            bytes[16], bytes[17], bytes[18], bytes[19], bytes[20], bytes[21], bytes[22], bytes[23],
        ];
        let message: [u8; 12] = [
            bytes[24], bytes[25], bytes[26], bytes[27], bytes[28], bytes[29], bytes[30], bytes[31],
            bytes[32], bytes[33], bytes[34], bytes[35],
        ];
        let r = Self { pid, uid, command, message };
        assert(r@.command =~= bytes@.subrange(8, 24));
        assert(r@.message =~= bytes@.subrange(24, 36));
        r
    }
}

impl Default for DataType {
    /// The empty record: both ids zero, command and message all zero bytes.
    fn default() -> (r: Self)
        ensures
            r.pid == 0,
            r.uid == 0,
            r@.command == Seq::new(16, |i: int| 0u8),
            r@.message == Seq::new(12, |i: int| 0u8),
    {
        let r = Self { pid: 0, uid: 0, command: [0u8; 16], message: [0u8; 12] };
        assert(r@.command =~= Seq::new(16, |i: int| 0u8));
        assert(r@.message =~= Seq::new(12, |i: int| 0u8));
        r
    }
}

} // verus!
