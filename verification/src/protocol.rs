//! The device-session protocol: every high-level operation compiled to
//! the exact sequence of USB transfers it must issue, and the handle
//! lifecycle compiled to the exact sequence of claim/release steps.
//!
//! The sequences are plain data.  An unverified executor performs each
//! transfer in order against the real USB transport; everything the
//! protocol decides — header contents, chunk boundaries and order, slot
//! validation, teardown order — is fixed here and proved.

use vstd::prelude::*;
use crate::codes::Color;
use crate::codes::Preset;
use crate::header::Header;
use crate::header::spec_header;
use crate::usb::class_interface_request_type;

verus! {

pub const KIND_PRESET: u8 = 0x08;

pub const KIND_CUSTOM_CONFIG: u8 = 0x12;

pub const KIND_READ_CONFIG: u8 = 0x92;

/// bRequest of the header-carrying (host-to-device) control transfer.
pub const CTRL_REQUEST_WRITE: u8 = 0x09;

/// bRequest of the download handshake (device-to-host) control transfer.
pub const CTRL_REQUEST_READ: u8 = 0x01;

pub const CTRL_VALUE: u16 = 0x0300;

pub const CTRL_INDEX: u16 = 0x0003;

/// Interrupt endpoint the custom configuration is written to.
pub const EP_CUSTOM_OUT: u8 = 0x06;

/// Interrupt endpoint the custom configuration is read from.
pub const EP_CUSTOM_IN: u8 = 0x85;

/// Interrupt endpoint key events are polled from.
pub const EP_KEYS: u8 = 0x81;

/// Number of on-device custom configuration slots.
pub const SLOT_COUNT: u8 = 5;

/// Mode code of custom slot 0; the five slots occupy 0x33 through 0x37.
pub const CUSTOM_MODE_BASE: u8 = 0x33;

/// Size of a custom configuration blob in bytes.
pub const CONFIG_LEN: usize = 512;

/// Size of one interrupt transfer chunk in bytes.
pub const CHUNK_LEN: usize = 64;

/// Number of chunks a configuration is split into.
pub const CHUNK_COUNT: usize = 8;

/// The error taxonomy of the session layer.
#[derive(Clone, Copy, PartialEq, Eq, Structural, Debug)]
pub enum KbdError {
    DeviceNotFound,
    AccessDenied,
    InterfaceUnavailable,
    TransferError,
    PreconditionViolation,
}

/// One USB transfer, as data: what an executor must send or receive.
/// `timeout_ms == 0` means "block until the transport completes".
#[derive(PartialEq, Eq, Debug)]
pub enum TransferCmd {
    ControlOut { request_type: u8, request: u8, value: u16, index: u16, data: Vec<u8>, timeout_ms: u64 },
    ControlIn { request_type: u8, request: u8, value: u16, index: u16, len: usize, timeout_ms: u64 },
    InterruptOut { endpoint: u8, data: Vec<u8>, timeout_ms: u64 },
    InterruptIn { endpoint: u8, len: usize, timeout_ms: u64 },
}

/// One handle-lifecycle step, as data.
#[derive(Clone, Copy, PartialEq, Eq, Structural, Debug)]
pub enum HandleStep {
    DetachDriver(u8),
    ClaimInterface(u8),
    ReleaseInterface(u8),
    AttachDriver(u8),
}

/// `c` is the control transfer that carries header `h` to the device:
/// class request 0x09 to interface 3, wValue 0x0300, blocking.
pub open spec fn is_header_control_out(c: TransferCmd, h: Header) -> bool {
    c matches TransferCmd::ControlOut { request_type, request, value, index, data, timeout_ms }
        && request_type == 0x21 && request == CTRL_REQUEST_WRITE && value == CTRL_VALUE
        && index == CTRL_INDEX && data@ == h.bytes() && timeout_ms == 0
}

/// `c` is the download handshake: a class read of 8 bytes whose content
/// is discarded.
pub open spec fn is_read_handshake(c: TransferCmd) -> bool {
    c matches TransferCmd::ControlIn { request_type, request, value, index, len, timeout_ms }
        && request_type == 0xa1 && request == CTRL_REQUEST_READ && value == CTRL_VALUE
        && index == CTRL_INDEX && len == 8 && timeout_ms == 0
}

/// `c` writes the `i`-th 64-byte chunk of `data`, bytes
/// `[64*i, 64*i + 64)`, to the custom-config out endpoint.
pub open spec fn is_chunk_out(c: TransferCmd, data: Seq<u8>, i: int) -> bool {
    c matches TransferCmd::InterruptOut { endpoint, data: payload, timeout_ms }
        && endpoint == EP_CUSTOM_OUT && payload@ == data.subrange(64 * i, 64 * i + 64)
        && timeout_ms == 0
}

/// `c` reads one 64-byte chunk from the custom-config in endpoint.
pub open spec fn is_chunk_in(c: TransferCmd) -> bool {
    c matches TransferCmd::InterruptIn { endpoint, len, timeout_ms }
        && endpoint == EP_CUSTOM_IN && len == CHUNK_LEN && timeout_ms == 0
}

/// Builds the control transfer that carries `h`.
fn header_control_out(h: &Header) -> (c: TransferCmd)
    ensures
        is_header_control_out(c, *h),
{
    TransferCmd::ControlOut {
        request_type: class_interface_request_type(false),
        request: CTRL_REQUEST_WRITE,
        value: CTRL_VALUE,
        index: CTRL_INDEX,
        data: h.to_bytes(),
        timeout_ms: 0,
    }
}

/// The transfers that switch the lighting to a built-in preset: one
/// control transfer carrying the preset header.
pub fn apply_preset_cmds(preset: Preset, speed: u8, brightness: u8, color: Color) -> (r: Vec<
    TransferCmd,
>)
    ensures
        r@.len() == 1,
        is_header_control_out(
            r@[0],
            spec_header(KIND_PRESET, preset.code_spec(), speed, brightness, color.code_spec()),
        ),
{
    let h = Header::new(KIND_PRESET, preset.code(), speed, brightness, color.code());
    let mut r: Vec<TransferCmd> = Vec::new();
    r.push(header_control_out(&h));
    r
}

/// The transfers that switch the lighting to a custom slot: one control
/// transfer whose header selects mode `0x33 + slot`.  A slot outside
/// 0..5 is rejected before any transfer is issued.
pub fn activate_custom_cmds(slot: u8, brightness: u8) -> (r: Result<Vec<TransferCmd>, KbdError>)
    ensures
        r is Ok <==> slot < SLOT_COUNT,
        r is Err ==> r == Err::<Vec<TransferCmd>, KbdError>(KbdError::PreconditionViolation),
        r matches Ok(cmds) ==> cmds@.len() == 1 && is_header_control_out(
            cmds@[0],
            spec_header(KIND_PRESET, (CUSTOM_MODE_BASE + slot) as u8, 0, brightness, 0),
        ),
{
    if slot >= SLOT_COUNT {
        return Err(KbdError::PreconditionViolation);
    }
    let h = Header::new(KIND_PRESET, CUSTOM_MODE_BASE + slot, 0, brightness, 0);
    let mut cmds: Vec<TransferCmd> = Vec::new();
    cmds.push(header_control_out(&h));
    Ok(cmds)
}

/// The transfers that upload a 512-byte configuration to a slot: the
/// write-config header, then exactly eight 64-byte interrupt writes at
/// ascending offsets 0, 64, ..., 448.  A slot outside 0..5 is rejected
/// before any transfer is issued.
pub fn upload_custom_cmds(slot: u8, data: &Vec<u8>) -> (r: Result<Vec<TransferCmd>, KbdError>)
    requires
        data@.len() == CONFIG_LEN,
    ensures
        r is Ok <==> slot < SLOT_COUNT,
        r is Err ==> r == Err::<Vec<TransferCmd>, KbdError>(KbdError::PreconditionViolation),
        r matches Ok(cmds) ==> {
            &&& cmds@.len() == 9
            &&& is_header_control_out(cmds@[0], spec_header(KIND_CUSTOM_CONFIG, slot, 0x08, 0, 0))
            &&& forall|i: int| 1 <= i < 9 ==> is_chunk_out(#[trigger] cmds@[i], data@, i - 1)
        },
{
    if slot >= SLOT_COUNT {
        return Err(KbdError::PreconditionViolation);
    }
    let h = Header::new(KIND_CUSTOM_CONFIG, slot, 0x08, 0x00, 0x00);
    let mut cmds: Vec<TransferCmd> = Vec::new();
    cmds.push(header_control_out(&h));
    let mut i: usize = 0;
    while i < 8
        invariant
            i <= 8,
            data@.len() == CONFIG_LEN,
            cmds@.len() == 1 + i,
            is_header_control_out(cmds@[0], spec_header(KIND_CUSTOM_CONFIG, slot, 0x08, 0, 0)),
            forall|j: int| 1 <= j < 1 + i ==> is_chunk_out(#[trigger] cmds@[j], data@, j - 1),
        decreases 8 - i,
    {
        let start: usize = i * 64;
        let mut chunk: Vec<u8> = Vec::new();
        let mut k: usize = 0;
        while k < 64
            invariant
                k <= 64,
                i < 8,
                start == i * 64,
                data@.len() == CONFIG_LEN,
                chunk@.len() == k,
                forall|t: int| 0 <= t < k ==> chunk@[t] == data@[start + t],
            decreases 64 - k,
        {
            chunk.push(data[start + k]);
            k += 1;
        }
        proof {
            assert(chunk@ =~= data@.subrange(64 * (i as int), 64 * (i as int) + 64));
        }
        cmds.push(TransferCmd::InterruptOut { endpoint: EP_CUSTOM_OUT, data: chunk, timeout_ms: 0 });
        i += 1;
    }
    Ok(cmds)
}

/// The transfers that download a slot's 512-byte configuration: the
/// read-config header, the 8-byte handshake read, then exactly eight
/// 64-byte interrupt reads whose payloads land at ascending offsets.
/// A slot outside 0..5 is rejected before any transfer is issued.
pub fn download_custom_cmds(slot: u8) -> (r: Result<Vec<TransferCmd>, KbdError>)
    ensures
        r is Ok <==> slot < SLOT_COUNT,
        r is Err ==> r == Err::<Vec<TransferCmd>, KbdError>(KbdError::PreconditionViolation),
        r matches Ok(cmds) ==> {
            &&& cmds@.len() == 10
            &&& is_header_control_out(cmds@[0], spec_header(KIND_READ_CONFIG, slot, 0, 0, 0))
            &&& is_read_handshake(cmds@[1])
            &&& forall|i: int| 2 <= i < 10 ==> is_chunk_in(#[trigger] cmds@[i])
        },
{
    if slot >= SLOT_COUNT {
        return Err(KbdError::PreconditionViolation);
    }
    let h = Header::new(KIND_READ_CONFIG, slot, 0, 0, 0);
    let mut cmds: Vec<TransferCmd> = Vec::new();
    cmds.push(header_control_out(&h));
    cmds.push(TransferCmd::ControlIn {
        request_type: class_interface_request_type(true),
        request: CTRL_REQUEST_READ,
        value: CTRL_VALUE,
        index: CTRL_INDEX,
        len: 8,
        timeout_ms: 0,
    });
    let mut i: usize = 0;
    while i < 8
        invariant
            i <= 8,
            cmds@.len() == 2 + i,
            is_header_control_out(cmds@[0], spec_header(KIND_READ_CONFIG, slot, 0, 0, 0)),
            is_read_handshake(cmds@[1]),
            forall|j: int| 2 <= j < 2 + i ==> is_chunk_in(#[trigger] cmds@[j]),
        decreases 8 - i,
    {
        cmds.push(TransferCmd::InterruptIn { endpoint: EP_CUSTOM_IN, len: CHUNK_LEN, timeout_ms: 0 });
        i += 1;
    }
    Ok(cmds)
}

/// The one transfer key polling issues: an 8-byte interrupt read from the
/// key endpoint with a short 10 ms timeout.
pub fn poll_key_cmd() -> (c: TransferCmd)
    ensures
        c matches TransferCmd::InterruptIn { endpoint, len, timeout_ms } && endpoint == EP_KEYS
            && len == 8 && timeout_ms == 10,
{
    TransferCmd::InterruptIn { endpoint: EP_KEYS, len: 8, timeout_ms: 10 }
}

/// What key polling reports.  `received` says whether the transport
/// completed the read; a timeout or transport error is passed in as
/// `false` and is reported as "no key pressed", never as a failure.  A
/// key is reported as pressed exactly when the read completed and byte 2
/// of the report is nonzero; decoding which key is out of scope, so the
/// indicator is a fixed placeholder.
pub fn poll_key_decide(received: bool, buf: &Vec<u8>) -> (r: Option<char>)
    requires
        buf@.len() == 8,
    ensures
        r is Some <==> (received && buf@[2] != 0),
        r matches Some(c) ==> c == 'a',
{
    if received && buf[2] != 0 {
        Some('a')
    } else {
        None
    }
}

/// The lifecycle steps that open a session, given whether a kernel
/// driver is currently bound to interface 0 and to interface 3: for each
/// of the two interfaces, detach the driver if one is bound, then claim
/// the interface.
pub open spec fn open_steps_spec(active0: bool, active3: bool) -> Seq<HandleStep> {
    (if active0 {
        seq![HandleStep::DetachDriver(0u8)]
    } else {
        Seq::<HandleStep>::empty()
    }) + seq![HandleStep::ClaimInterface(0u8)] + (if active3 {
        seq![HandleStep::DetachDriver(3u8)]
    } else {
        Seq::<HandleStep>::empty()
    }) + seq![HandleStep::ClaimInterface(3u8)]
}

pub fn open_steps(active0: bool, active3: bool) -> (r: Vec<HandleStep>)
    ensures
        r@ == open_steps_spec(active0, active3),
{
    let mut r: Vec<HandleStep> = Vec::new();
    if active0 {
        r.push(HandleStep::DetachDriver(0));
    }
    r.push(HandleStep::ClaimInterface(0));
    if active3 {
        r.push(HandleStep::DetachDriver(3));
    }
    r.push(HandleStep::ClaimInterface(3));
    proof {
        assert(r@ =~= open_steps_spec(active0, active3));
    }
    r
}

/// The teardown sequence: release interface 3, then interface 0, then
/// reattach the kernel drivers to 0 and to 3.
pub open spec fn close_steps_spec() -> Seq<HandleStep> {
    seq![
        HandleStep::ReleaseInterface(3u8),
        HandleStep::ReleaseInterface(0u8),
        HandleStep::AttachDriver(0u8),
        HandleStep::AttachDriver(3u8),
    ]
}

/// The lifecycle steps that close a session.  The executor attempts every
/// step in this order even when earlier ones fail: the steps are data, so
/// no step's failure can cut the sequence short, and teardown reports no
/// error.
pub fn close_steps() -> (r: Vec<HandleStep>)
    ensures
        r@ == close_steps_spec(),
{
    let mut r: Vec<HandleStep> = Vec::new();
    r.push(HandleStep::ReleaseInterface(3));
    r.push(HandleStep::ReleaseInterface(0));
    r.push(HandleStep::AttachDriver(0));
    r.push(HandleStep::AttachDriver(3));
    proof {
        assert(r@ =~= close_steps_spec());
    }
    r
}

/// Writes eight 64-byte chunks, in order, into one 512-byte buffer at
/// consecutive 64-byte offsets; the download executor hands it the chunk
/// payloads as the device returned them.
pub fn assemble_chunks(chunks: &Vec<Vec<u8>>) -> (r: Vec<u8>)
    requires
        chunks@.len() == CHUNK_COUNT,
        forall|i: int| 0 <= i < 8 ==> (#[trigger] chunks@[i])@.len() == CHUNK_LEN,
    ensures
        r@.len() == CONFIG_LEN,
        forall|i: int| 0 <= i < 8 ==> r@.subrange(64 * i, 64 * i + 64) == (#[trigger] chunks@[i])@,
{
    let mut r: Vec<u8> = Vec::new();
    let mut i: usize = 0;
    while i < 8
        invariant
            i <= 8,
            chunks@.len() == CHUNK_COUNT,
            forall|t: int| 0 <= t < 8 ==> (#[trigger] chunks@[t])@.len() == CHUNK_LEN,
            r@.len() == 64 * i,
            forall|j: int| 0 <= j < i ==> r@.subrange(64 * j, 64 * j + 64) == (#[trigger] chunks@[j])@,
        decreases 8 - i,
    {
        let ghost prev = r@;
        let chunk: &Vec<u8> = &chunks[i];
        let mut k: usize = 0;
        while k < 64
            invariant
                k <= 64,
                i < 8,
                chunk@.len() == CHUNK_LEN,
                r@ == prev + chunk@.take(k as int),
            decreases 64 - k,
        {
            r.push(chunk[k]);
            proof {
                assert(r@ =~= prev + chunk@.take(k as int + 1));
            }
            k += 1;
        }
        proof {
            assert(r@ == prev + chunk@.take(64));
            assert(chunk@.take(64) =~= chunk@);
            assert forall|j: int| 0 <= j < i + 1 implies r@.subrange(64 * j, 64 * j + 64) == (
            #[trigger] chunks@[j])@ by {
                if j < i {
                    assert(prev.subrange(64 * j, 64 * j + 64) == chunks@[j]@);
                    assert(r@.subrange(64 * j, 64 * j + 64) =~= prev.subrange(64 * j, 64 * j + 64));
                } else {
                    assert(r@.subrange(64 * j, 64 * j + 64) =~= chunk@);
                }
            }
        }
        i += 1;
    }
    r
}

/// Round-trip law: if a 512-byte download buffer agrees with a 512-byte
/// upload payload on every one of the eight 64-byte chunks — which is
/// what a transport that replays the uploaded chunks returns — then the
/// two buffers are equal byte for byte.
pub proof fn lemma_upload_download_roundtrip(data: Seq<u8>, out: Seq<u8>)
    requires
        data.len() == 512,
        out.len() == 512,
        forall|i: int| 0 <= i < 8 ==> #[trigger] out.subrange(64 * i, 64 * i + 64)
            == data.subrange(64 * i, 64 * i + 64),
    ensures
        out == data,
{
    assert forall|k: int| 0 <= k < 512 implies out[k] == data[k] by {
        let i = k / 64;
        assert(0 <= i < 8 && 64 * i <= k < 64 * i + 64) by (nonlinear_arith)
            requires
                0 <= k < 512,
                i == k / 64,
        ;
        assert(out.subrange(64 * i, 64 * i + 64) == data.subrange(64 * i, 64 * i + 64));
        assert(out.subrange(64 * i, 64 * i + 64)[k - 64 * i] == out[k]);
        assert(data.subrange(64 * i, 64 * i + 64)[k - 64 * i] == data[k]);
    }
    assert(out =~= data);
}

/// The payload an interrupt write carries (empty for any other command).
pub open spec fn chunk_payload(c: TransferCmd) -> Seq<u8> {
    match c {
        TransferCmd::InterruptOut { data, .. } => data@,
        _ => Seq::<u8>::empty(),
    }
}

proof fn lemma_flatten_prefix(chunks: Seq<Seq<u8>>, data: Seq<u8>, n: int)
    requires
        0 <= n <= 8,
        chunks.len() == 8,
        data.len() == 512,
        forall|i: int| 0 <= i < 8 ==> #[trigger] chunks[i] == data.subrange(64 * i, 64 * i + 64),
    ensures
        chunks.take(n).flatten() == data.take(64 * n),
    decreases n,
{
    if n == 0 {
        assert(chunks.take(0) =~= Seq::<Seq<u8>>::empty());
        assert(chunks.take(0).flatten() =~= data.take(0));
    } else {
        lemma_flatten_prefix(chunks, data, n - 1);
        assert(chunks.take(n) =~= chunks.take(n - 1).push(chunks[n - 1]));
        chunks.take(n - 1).lemma_flatten_push(chunks[n - 1]);
        assert(chunks.take(n).flatten() =~= data.take(64 * (n - 1)) + data.subrange(
            64 * (n - 1),
            64 * (n - 1) + 64,
        ));
        assert(data.take(64 * n) =~= data.take(64 * (n - 1)) + data.subrange(
            64 * (n - 1),
            64 * (n - 1) + 64,
        ));
    }
}

/// Coverage law for uploads: in a plan built by [`upload_custom_cmds`],
/// the payloads of the eight interrupt writes are 64 bytes each, and
/// concatenated in plan order they are exactly the 512-byte
/// configuration — ascending offsets, no gap, no overlap.
pub proof fn lemma_upload_coverage(cmds: Seq<TransferCmd>, data: Seq<u8>)
    requires
        data.len() == 512,
        cmds.len() == 9,
        forall|i: int| 1 <= i < 9 ==> is_chunk_out(#[trigger] cmds[i], data, i - 1),
    ensures
        forall|i: int| 1 <= i < 9 ==> chunk_payload(#[trigger] cmds[i]).len() == 64,
        Seq::new(8, |i: int| chunk_payload(cmds[i + 1])).flatten() == data,
{
    let chunks = Seq::new(8, |i: int| chunk_payload(cmds[i + 1]));
    assert forall|i: int| 0 <= i < 8 implies #[trigger] chunks[i] == data.subrange(
        64 * i,
        64 * i + 64,
    ) by {
        assert(is_chunk_out(cmds[i + 1], data, i));
    }
    lemma_flatten_prefix(chunks, data, 8);
    assert(chunks.take(8) =~= chunks);
    assert(data.take(512) =~= data);
}

} // verus!
