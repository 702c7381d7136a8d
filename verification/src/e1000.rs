//! The NIC adapter: a uniform driver-ops surface over the Intel E1000
//! descriptor-ring engine.

use vstd::prelude::*;

use crate::net_buf::{NetBufPtr, NO_HEADER};
use crate::{DevError, DeviceType, EthernetAddress};
use e1000_driver::e1000::E1000Device;
use e1000_driver::e1000::KernelFunc;

verus! {

/// Receive and transmit descriptor-ring capacity of the engine.
pub const QUEUE_SIZE: usize = 256;

/// Size in bytes of one engine packet slot: the engine caps every
/// outbound frame at this length.
pub const MBUF_SIZE: usize = 2048;

/// A request to the hardware engine.
enum EngineCall {
    Transmit(Vec<u8>),
    Poll,
}

/// The hardware engine's answer.
enum EngineReply {
    Code(i32),
    Packets(Option<Vec<Vec<u8>>>),
}

/// One hardware engine instance, held behind a dispatching closure so that
/// the kernel-function type it was built over does not escape; opaque to
/// everything but the wrappers right below.
#[verifier::external_body]
struct Engine<'a> {
    call: Box<dyn FnMut(EngineCall) -> EngineReply + 'a>,
}

/// Relies on `e1000_driver::e1000::E1000Device::new`: brings the
/// descriptor-ring engine up over the device's register window, allocating
/// its rings through the kernel functions `kfn`. The error arm carries the
/// engine's error code type; the engine demands that its ring and buffer
/// allocations succeed and does not return when `kfn` refuses them, so
/// `kfn` must be able to satisfy those requests, and `mapped_regs` must be
/// the memory-mapped register window prepared by platform bring-up.
/// Nothing is promised of the outcome.
#[verifier::external_body]
fn engine_new<'a, K: KernelFunc + 'a>(kfn: K, mapped_regs: usize) -> (r: Result<Engine<'a>, i32>) {
    let mut dev = match E1000Device::new(kfn, mapped_regs) {
        Ok(dev) => dev,
        Err(code) => return Err(code),
    };
    Ok(Engine {
        call: Box::new(move |c| match c {
            EngineCall::Transmit(p) => EngineReply::Code(dev.e1000_transmit(&p)),
            EngineCall::Poll => EngineReply::Packets(dev.e1000_recv()),
        }),
    })
}

/// Relies on `e1000_driver::e1000::E1000Device::e1000_transmit`: copies the
/// packet bytes into the next free transmit descriptor and posts it. The
/// destination slot holds `MBUF_SIZE` bytes and the engine refuses a
/// longer source, so the packet must fit. The result code (bytes queued,
/// or negative when the ring is busy) is advisory; nothing is promised of
/// it.
#[verifier::external_body]
fn engine_transmit(engine: &mut Engine<'_>, packet: &Vec<u8>) -> (r: i32)
    requires
        packet@.len() <= MBUF_SIZE,
{
    match (engine.call)(EngineCall::Transmit(packet.clone())) {
        EngineReply::Code(code) => code,
        EngineReply::Packets(_) => -1,
    }
}

/// Relies on `e1000_driver::e1000::E1000Device::e1000_recv`: drains the
/// completed receive descriptors and yields the arrived fragments in ring
/// order; a batch is handed back only when at least one fragment arrived.
#[verifier::external_body]
fn engine_recv(engine: &mut Engine<'_>) -> (r: Option<Vec<Vec<u8>>>)
    ensures
        r matches Some(frags) ==> frags@.len() > 0,
{
    match (engine.call)(EngineCall::Poll) {
        EngineReply::Packets(packets) => packets,
        EngineReply::Code(_) => None,
    }
}

/// The bytes of each fragment, in arrival order.
pub open spec fn frag_views(frags: Seq<Vec<u8>>) -> Seq<Seq<u8>> {
    frags.map_values(|f: Vec<u8>| f@)
}

/// The fragments laid end to end, in arrival order.
pub open spec fn concatenated(frags: Seq<Vec<u8>>) -> Seq<u8> {
    frag_views(frags).flatten()
}

/// The sum of the fragment lengths.
pub open spec fn total_len(frags: Seq<Vec<u8>>) -> int
    decreases frags.len(),
{
    if frags.len() == 0 {
        0
    } else {
        frags[0]@.len() + total_len(frags.drop_first())
    }
}

/// Law: the concatenation of a fragment sequence is exactly as long as the
/// sum of the fragment lengths.
pub proof fn lemma_concatenated_len(frags: Seq<Vec<u8>>)
    ensures
        concatenated(frags).len() == total_len(frags),
    decreases frags.len(),
{
    if frags.len() == 0 {
        assert(frag_views(frags) =~= Seq::<Seq<u8>>::empty());
    } else {
        lemma_concatenated_len(frags.drop_first());
        assert(frag_views(frags).drop_first() =~= frag_views(frags.drop_first()));
        assert(frag_views(frags).first() == frags[0]@);
    }
}

/// Copies the fragments, in arrival order, into one contiguous buffer.
pub fn concat_fragments(frags: &Vec<Vec<u8>>) -> (r: Vec<u8>)
    ensures
        r@ == concatenated(frags@),
{
    let mut data: Vec<u8> = Vec::new();
    let mut i: usize = 0;
    proof {
        assert(frags@.take(0) =~= Seq::<Vec<u8>>::empty());
        assert(frag_views(Seq::<Vec<u8>>::empty()) =~= Seq::<Seq<u8>>::empty());
    }
    while i < frags.len()
        invariant
            i <= frags@.len(),
            data@ == concatenated(frags@.take(i as int)),
        decreases frags@.len() - i,
    {
        let f = &frags[i];
        let mut j: usize = 0;
        proof {
            assert(f@.take(0) =~= Seq::<u8>::empty());
            assert(data@ + Seq::<u8>::empty() =~= data@);
        }
        while j < f.len()
            invariant
                i < frags@.len(),
                j <= f@.len(),
                f@ == frags@[i as int]@,
                data@ == concatenated(frags@.take(i as int)) + f@.take(j as int),
            decreases f@.len() - j,
        {
            data.push(f[j]);
            j = j + 1;
            proof {
                assert(f@.take(j as int) =~= f@.take(j - 1).push(f@[j - 1]));
                assert(data@ == concatenated(frags@.take(i as int)) + f@.take(j as int));
            }
        }
        i = i + 1;
        proof {
            assert(f@.take(f@.len() as int) =~= f@);
            assert(frag_views(frags@.take(i - 1)).push(frags@[i - 1]@) =~= frag_views(
                frags@.take(i as int),
            ));
            frag_views(frags@.take(i - 1)).lemma_flatten_push(frags@[i - 1]@);
        }
    }
    proof {
        assert(frags@.take(frags@.len() as int) =~= frags@);
    }
    data
}

/// Turns one engine poll result into the driver's receive outcome.
///
/// No fragments means nothing arrived: the caller gets the try-again
/// condition and no buffer exists. Otherwise the fragments are copied, in
/// arrival order, into one fresh contiguous buffer whose length is the sum
/// of the fragment lengths, and a handle owning that buffer is returned.
pub fn rx_outcome(polled: Option<Vec<Vec<u8>>>) -> (r: Result<NetBufPtr, DevError>)
    ensures
        polled is None ==> r == Result::<NetBufPtr, DevError>::Err(DevError::Again),
        polled matches Some(frags) ==> (r matches Ok(buf) && buf@ == concatenated(frags@)
            && buf@.len() == total_len(frags@) && buf.spec_header_addr() == NO_HEADER),
{
    match polled {
        None => Err(DevError::Again),
        Some(frags) => {
            let data = concat_fragments(&frags);
            proof {
                lemma_concatenated_len(frags@);
            }
            Ok(NetBufPtr::new(NO_HEADER, data))
        },
    }
}

/// The adapter-assigned medium-access-control address.
pub open spec fn mac_bytes() -> Seq<u8> {
    seq![0x52u8, 0x54u8, 0x00u8, 0x6cu8, 0xf8u8, 0x88u8]
}

/// The NIC adapter: owns one hardware engine instance and presents it
/// through the uniform driver-ops contract. Mutating calls on a shared
/// instance must be serialized by the caller.
pub struct E1000Nic<'a> {
    inner: Engine<'a>,
}

impl<'a> E1000Nic<'a> {
    /// Brings the engine up over the device's mapped register window,
    /// allocating its rings through the kernel functions `kfn`; a failed
    /// bring-up surfaces as the bad-state condition.
    pub fn init<K: KernelFunc + 'a>(kfn: K, mapped_regs: usize) -> (r: Result<Self, DevError>)
        ensures
            r matches Err(e) ==> e == DevError::BadState,
    {
        match engine_new(kfn, mapped_regs) {
            Ok(inner) => Ok(E1000Nic { inner }),
            Err(_) => Err(DevError::BadState),
        }
    }

    /// Static identity of the driver.
    pub fn device_name(&self) -> (r: &'static str)
        ensures
            r@ == "Intel E1000 Net Driver"@,
    {
        "Intel E1000 Net Driver"
    }

    /// The class of device this driver exposes.
    pub fn device_type(&self) -> (r: DeviceType)
        ensures
            r == DeviceType::Net,
    {
        DeviceType::Net
    }

    /// The adapter-assigned address, fixed rather than read from hardware.
    pub fn mac_address(&self) -> (r: EthernetAddress)
        ensures
            r.0@ == mac_bytes(),
    {
        let r = EthernetAddress([0x52, 0x54, 0x00, 0x6c, 0xf8, 0x88]);
        proof {
            assert(r.0@ =~= mac_bytes());
        }
        r
    }

    /// A fully initialized adapter can always transmit.
    pub fn can_transmit(&self) -> (r: bool)
        ensures
            r,
    {
        true
    }

    /// A fully initialized adapter can always receive.
    pub fn can_receive(&self) -> (r: bool)
        ensures
            r,
    {
        true
    }

    /// Fixed receive-queue capacity hint for buffer pre-allocation.
    pub fn rx_queue_size(&self) -> (r: usize)
        ensures
            r == QUEUE_SIZE,
    {
        QUEUE_SIZE
    }

    /// Fixed transmit-queue capacity hint for buffer pre-allocation.
    pub fn tx_queue_size(&self) -> (r: usize)
        ensures
            r == QUEUE_SIZE,
    {
        QUEUE_SIZE
    }

    /// Releases a previously received buffer back to its owning allocator;
    /// always succeeds, and touches nothing else. The handle is taken by
    /// value: after one recycle it no longer exists, so recycling the same
    /// handle twice, or using it afterward, is rejected at compile time —
    /// ownership transfer, not a runtime check, rules the misuse out.
    pub fn recycle_rx_buffer(&mut self, rx_buf: NetBufPtr) -> (r: Result<(), DevError>)
        ensures
            r is Ok,
            *final(self) == *old(self),
    {
        let _ = rx_buf;
        Ok(())
    }

    /// Reclaims transmit-side resources the engine is done with; nothing is
    /// retained past `transmit`, so there is nothing to reclaim and the
    /// adapter is left untouched.
    pub fn recycle_tx_buffers(&mut self) -> (r: Result<(), DevError>)
        ensures
            r is Ok,
            *final(self) == *old(self),
    {
        Ok(())
    }

    /// Hands the buffer's bytes to the engine for sending. The engine
    /// consumes what it needs within the call, so the handle can be dropped
    /// right after; engine-level refusals are not surfaced here. A frame
    /// longer than the engine's `MBUF_SIZE`-byte slot is capped to the
    /// slot, as the engine itself caps what it sends.
    pub fn transmit(&mut self, tx_buf: NetBufPtr) -> (r: Result<(), DevError>)
        ensures
            r is Ok,
    {
        let packet = tx_buf.packet();
        if packet.len() <= MBUF_SIZE {
            let _code = engine_transmit(&mut self.inner, packet);
        } else {
            let mut head: Vec<u8> = Vec::new();
            let mut i: usize = 0;
            while i < MBUF_SIZE
                invariant
                    i <= MBUF_SIZE,
                    MBUF_SIZE < packet@.len(),
                    head@ == packet@.take(i as int),
                decreases MBUF_SIZE - i,
            {
                head.push(packet[i]);
                i = i + 1;
            }
            let _code = engine_transmit(&mut self.inner, &head);
        }
        Ok(())
    }

    /// Polls the engine for completed inbound packets. When nothing has
    /// arrived the try-again condition is returned and no buffer exists;
    /// otherwise the arrived fragments are concatenated, in arrival order,
    /// into one freshly allocated buffer (see [`rx_outcome`]).
    pub fn receive(&mut self) -> (r: Result<NetBufPtr, DevError>)
        ensures
            r matches Err(e) ==> e == DevError::Again,
            r matches Ok(buf) ==> buf.spec_header_addr() == NO_HEADER,
    {
        rx_outcome(engine_recv(&mut self.inner))
    }

    /// Intended to hand out a fresh transmit buffer; the adapter never owns
    /// transmit buffers in this design, so the request is always refused
    /// with the out-of-memory condition, nothing is allocated, the adapter
    /// is left untouched, and callers supply their own buffers.
    pub fn alloc_tx_buffer(&mut self, size: usize) -> (r: Result<NetBufPtr, DevError>)
        ensures
            r == Result::<NetBufPtr, DevError>::Err(DevError::NoMemory),
            *final(self) == *old(self),
    {
        let _ = size;
        Err(DevError::NoMemory)
    }
}

} // verus!
