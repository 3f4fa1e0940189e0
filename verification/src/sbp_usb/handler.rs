use vstd::prelude::*;
use vstd::utf8::*;

use crate::common::error::VumError;
use crate::common::result::VumResult;
use crate::sbp_usb::message::{MessageFlags, SbpUsbMessage};
use crate::sbp_usb::opcode::SbpUsbOpcode;
use crate::sbp_usb::response::SbpUsbResponse;
use crate::util::bytes::append_bytes;
use crate::util::number::{decimal_string, spec_decimal};
use crate::util::text::{concat_str, spec_utf8_lossy, str_to_string, string_bytes, utf8_lossy};

verus! {

/// A write handed to the write buffer: the path it names, the offset it
/// goes to and its bytes.
#[derive(Debug, Clone)]
pub struct QueuedWrite {
    pub path: String,
    pub offset: u64,
    pub data: Vec<u8>,
}

/// The write buffer as the handlers see it: how many writes it holds, how
/// many bytes they carry, and the writes queued through the handlers.
#[derive(Debug, Clone)]
pub struct WriteBufferStatus {
    pub pending_count: u64,
    pub dirty_bytes: u64,
    pub queued: Vec<QueuedWrite>,
}

/// What the request handlers read of the running manager, and the write
/// buffer they write to.
#[derive(Debug, Clone)]
pub struct HandlerContext {
    /// The manager's one-line status report.
    pub status_line: String,
    /// The write buffer, when the manager has one.
    pub write_buffer: Option<WriteBufferStatus>,
    /// Where the store is mounted by default.
    pub mount_point: String,
    /// The metrics snapshot in its JSON form.
    pub metrics_json: Vec<u8>,
}

/// Answers one kind of SBP-USB request.
pub trait SbpUsbHandler {
    /// Handles `msg`; a response answers the message's request id.
    fn handle(&self, msg: &SbpUsbMessage, ctx: &mut HandlerContext) -> (r: VumResult<SbpUsbResponse>)
        ensures
            r matches Ok(resp) ==> resp.message.request_id == msg.request_id,
    ;

    /// The opcode this handler answers.
    fn opcode(&self) -> (op: SbpUsbOpcode);
}

pub struct StatusHandler;

pub struct ReadHandler;

pub struct WriteHandler;

pub struct FlushHandler;

pub struct EjectHandler;

pub struct HeartbeatHandler;

pub struct MountHandler;

pub struct MetricsHandler;

/// The UTF-8 bytes of a text.
fn text_bytes(s: &String) -> (b: Vec<u8>)
    ensures
        b@ == encode_utf8(s@),
{
    let mut b: Vec<u8> = Vec::new();
    append_bytes(&mut b, string_bytes(s));
    b
}

/// The flush report: "<pending> pending, <dirty> dirty bytes".
pub open spec fn spec_flush_report(status: WriteBufferStatus) -> Seq<char> {
    spec_decimal(status.pending_count as nat) + " pending, "@ + spec_decimal(status.dirty_bytes as nat) + " dirty bytes"@
}

/// `after` is `before` with `msg` queued on its write buffer `b`: one more
/// pending write, the payload's bytes more dirty (both held at `u64::MAX`),
/// and the write (path = payload read as UTF-8, offset = request id,
/// data = payload) last in the queue; nothing else changes.
pub open spec fn spec_write_queued(before: HandlerContext, after: HandlerContext, b: WriteBufferStatus, msg: &SbpUsbMessage) -> bool {
    &&& after.status_line == before.status_line
    &&& after.mount_point == before.mount_point
    &&& after.metrics_json == before.metrics_json
    &&& after.write_buffer matches Some(a) && {
        &&& a.pending_count == (if b.pending_count < u64::MAX { b.pending_count + 1 } else { b.pending_count as int })
        &&& a.dirty_bytes == (if b.dirty_bytes + msg.payload@.len() <= u64::MAX {
                b.dirty_bytes + msg.payload@.len()
            } else {
                u64::MAX as int
            })
        &&& a.queued@.len() == b.queued@.len() + 1
        &&& a.queued@.subrange(0, b.queued@.len() as int) == b.queued@
        &&& a.queued@.last().path@ == spec_utf8_lossy(msg.payload@)
        &&& a.queued@.last().offset == msg.request_id
        &&& a.queued@.last().data@ == msg.payload@
    }
}

/// The mount report: "mounted at <mount point>".
pub open spec fn spec_mount_report(mount_point: Seq<char>) -> Seq<char> {
    "mounted at "@ + mount_point
}

impl SbpUsbHandler for StatusHandler {
    /// Answers with the manager's status line.
    fn handle(&self, msg: &SbpUsbMessage, ctx: &mut HandlerContext) -> (r: VumResult<SbpUsbResponse>)
        ensures
            *final(ctx) == *old(ctx),
            r matches Ok(resp) && resp.message.opcode == SbpUsbOpcode::UsbStatus
                && resp.message.flags.spec_bits() == 0x0002
                && resp.message.payload@ == encode_utf8(old(ctx).status_line@),
    {
        Ok(SbpUsbResponse::success(SbpUsbOpcode::UsbStatus, msg.request_id, text_bytes(&ctx.status_line)))
    }

    fn opcode(&self) -> (op: SbpUsbOpcode)
        ensures
            op == SbpUsbOpcode::UsbStatus,
    {
        SbpUsbOpcode::UsbStatus
    }
}

impl SbpUsbHandler for ReadHandler {
    /// Answers with the request's own payload.
    fn handle(&self, msg: &SbpUsbMessage, ctx: &mut HandlerContext) -> (r: VumResult<SbpUsbResponse>)
        ensures
            *final(ctx) == *old(ctx),
            r matches Ok(resp) && resp.message.opcode == SbpUsbOpcode::UsbRead
                && resp.message.flags.spec_bits() == 0x0002
                && resp.message.payload@ == msg.payload@,
    {
        Ok(SbpUsbResponse::success(SbpUsbOpcode::UsbRead, msg.request_id, msg.payload.clone()))
    }

    fn opcode(&self) -> (op: SbpUsbOpcode)
        ensures
            op == SbpUsbOpcode::UsbRead,
    {
        SbpUsbOpcode::UsbRead
    }
}

impl SbpUsbHandler for WriteHandler {
    /// With a write buffer the write is queued there (its path is the
    /// payload read as UTF-8, its offset the request id, its data the
    /// payload) and acknowledged as buffered; without one the payload is
    /// echoed in a write response.
    fn handle(&self, msg: &SbpUsbMessage, ctx: &mut HandlerContext) -> (r: VumResult<SbpUsbResponse>)
        ensures
            r is Ok,
            old(ctx).write_buffer is None ==> *final(ctx) == *old(ctx),
            old(ctx).write_buffer is None ==> (r matches Ok(resp) && resp.message.opcode == SbpUsbOpcode::UsbWrite
                && resp.message.flags.spec_bits() == 0x0002 && resp.message.payload@ == msg.payload@),
            old(ctx).write_buffer matches Some(b) ==> spec_write_queued(*old(ctx), *final(ctx), b, msg),
            old(ctx).write_buffer is Some ==> (r matches Ok(resp) && resp.message.opcode == SbpUsbOpcode::UsbWriteAckEvent
                && resp.message.flags.spec_bits() == 0x0012 && resp.message.payload@.len() == 0),
    {
        let mut buffer: Option<WriteBufferStatus> = None;
        std::mem::swap(&mut buffer, &mut ctx.write_buffer);
        match buffer {
            Some(mut b) => {
                let w = QueuedWrite {
                    path: utf8_lossy(msg.payload.as_slice()),
                    offset: msg.request_id,
                    data: msg.payload.clone(),
                };
                b.queued.push(w);
                b.pending_count = b.pending_count.saturating_add(1);
                b.dirty_bytes = b.dirty_bytes.saturating_add(msg.payload.len() as u64);
                ctx.write_buffer = Some(b);
                assert(ctx.write_buffer->0.queued@.subrange(0, ctx.write_buffer->0.queued@.len() - 1)
                    =~= old(ctx).write_buffer->0.queued@);
                Ok(SbpUsbResponse::ack_buffered(msg.request_id))
            },
            None => {
                ctx.write_buffer = None;
                Ok(SbpUsbResponse::success(SbpUsbOpcode::UsbWrite, msg.request_id, msg.payload.clone()))
            },
        }
    }

    fn opcode(&self) -> (op: SbpUsbOpcode)
        ensures
            op == SbpUsbOpcode::UsbWrite,
    {
        SbpUsbOpcode::UsbWrite
    }
}

impl SbpUsbHandler for FlushHandler {
    /// Reports what the write buffer holds; an empty payload when there is
    /// no buffer.
    fn handle(&self, msg: &SbpUsbMessage, ctx: &mut HandlerContext) -> (r: VumResult<SbpUsbResponse>)
        ensures
            *final(ctx) == *old(ctx),
            r matches Ok(resp) && resp.message.opcode == SbpUsbOpcode::UsbFlush
                && resp.message.flags.spec_bits() == 0x0002
                && resp.message.payload@ == (match old(ctx).write_buffer {
                    Some(b) => encode_utf8(spec_flush_report(b)),
                    None => Seq::<u8>::empty(),
                }),
    {
        match &ctx.write_buffer {
            Some(b) => {
                let pending = decimal_string(b.pending_count);
                let dirty = decimal_string(b.dirty_bytes);
                let t1 = concat_str(pending.as_str(), " pending, ");
                let t2 = concat_str(t1.as_str(), dirty.as_str());
                let info = concat_str(t2.as_str(), " dirty bytes");
                Ok(SbpUsbResponse::success(SbpUsbOpcode::UsbFlush, msg.request_id, text_bytes(&info)))
            },
            None => Ok(SbpUsbResponse::success(SbpUsbOpcode::UsbFlush, msg.request_id, Vec::new())),
        }
    }

    fn opcode(&self) -> (op: SbpUsbOpcode)
        ensures
            op == SbpUsbOpcode::UsbFlush,
    {
        SbpUsbOpcode::UsbFlush
    }
}

impl SbpUsbHandler for EjectHandler {
    /// Refuses with `UnsafeToEject` while buffered writes are pending;
    /// otherwise answers with an empty eject response.
    fn handle(&self, msg: &SbpUsbMessage, ctx: &mut HandlerContext) -> (r: VumResult<SbpUsbResponse>)
        ensures
            *final(ctx) == *old(ctx),
            r is Err <==> (old(ctx).write_buffer matches Some(b) && b.pending_count > 0),
            r matches Err(e) ==> (e matches VumError::UnsafeToEject(m) && m@ == "pending writes exist"@),
            r matches Ok(resp) ==> resp.message.opcode == SbpUsbOpcode::UsbEject
                && resp.message.flags.spec_bits() == 0x0002 && resp.message.payload@.len() == 0,
    {
        if let Some(b) = &ctx.write_buffer {
            if b.pending_count > 0 {
                return Err(VumError::UnsafeToEject(str_to_string("pending writes exist")));
            }
        }
        Ok(SbpUsbResponse::success(SbpUsbOpcode::UsbEject, msg.request_id, Vec::new()))
    }

    fn opcode(&self) -> (op: SbpUsbOpcode)
        ensures
            op == SbpUsbOpcode::UsbEject,
    {
        SbpUsbOpcode::UsbEject
    }
}

impl SbpUsbHandler for HeartbeatHandler {
    /// Answers with an empty heartbeat flagged as an event.
    fn handle(&self, msg: &SbpUsbMessage, ctx: &mut HandlerContext) -> (r: VumResult<SbpUsbResponse>)
        ensures
            *final(ctx) == *old(ctx),
            r matches Ok(resp) && resp.message.opcode == SbpUsbOpcode::UsbHeartbeat
                && resp.message.flags.spec_bits() == 0x0008 && resp.message.payload@.len() == 0,
    {
        let mut resp = SbpUsbResponse::success(SbpUsbOpcode::UsbHeartbeat, msg.request_id, Vec::new());
        resp.message.flags = MessageFlags::EVENT();
        Ok(resp)
    }

    fn opcode(&self) -> (op: SbpUsbOpcode)
        ensures
            op == SbpUsbOpcode::UsbHeartbeat,
    {
        SbpUsbOpcode::UsbHeartbeat
    }
}

impl SbpUsbHandler for MountHandler {
    /// Reports where the store is mounted: at the path the payload names,
    /// read as UTF-8, or at the configured mount point when it is empty.
    fn handle(&self, msg: &SbpUsbMessage, ctx: &mut HandlerContext) -> (r: VumResult<SbpUsbResponse>)
        ensures
            *final(ctx) == *old(ctx),
            r matches Ok(resp) && resp.message.opcode == SbpUsbOpcode::UsbMount
                && resp.message.flags.spec_bits() == 0x0002
                && resp.message.payload@ == encode_utf8(spec_mount_report(
                    if msg.payload@.len() == 0 { old(ctx).mount_point@ } else { spec_utf8_lossy(msg.payload@) },
                )),
    {
        let mount_point = if msg.payload.len() == 0 {
            str_to_string(ctx.mount_point.as_str())
        } else {
            utf8_lossy(msg.payload.as_slice())
        };
        let info = concat_str("mounted at ", mount_point.as_str());
        Ok(SbpUsbResponse::success(SbpUsbOpcode::UsbMount, msg.request_id, text_bytes(&info)))
    }

    fn opcode(&self) -> (op: SbpUsbOpcode)
        ensures
            op == SbpUsbOpcode::UsbMount,
    {
        SbpUsbOpcode::UsbMount
    }
}

impl SbpUsbHandler for MetricsHandler {
    /// Answers with the metrics snapshot in JSON.
    fn handle(&self, msg: &SbpUsbMessage, ctx: &mut HandlerContext) -> (r: VumResult<SbpUsbResponse>)
        ensures
            *final(ctx) == *old(ctx),
            r matches Ok(resp) && resp.message.opcode == SbpUsbOpcode::UsbMetricsSnapshot
                && resp.message.flags.spec_bits() == 0x0002
                && resp.message.payload@ == old(ctx).metrics_json@,
    {
        Ok(SbpUsbResponse::success(SbpUsbOpcode::UsbMetricsSnapshot, msg.request_id, ctx.metrics_json.clone()))
    }

    fn opcode(&self) -> (op: SbpUsbOpcode)
        ensures
            op == SbpUsbOpcode::UsbMetricsSnapshot,
    {
        SbpUsbOpcode::UsbMetricsSnapshot
    }
}

} // verus!
