//! Brings the real engine up against a RAM-backed register window and
//! drives the adapter end to end.

use e1000_driver::e1000::KernelFunc;
use e1000_nic::e1000::E1000Nic;
use e1000_nic::net_buf::{NetBufPtr, NO_HEADER};
use e1000_nic::{DevError, DeviceType};

/// Kernel functions for a hosted run: every DMA request is served with
/// leaked, zeroed, 16-byte-aligned host memory, identity-mapped.
struct TestKernel;

impl KernelFunc for TestKernel {
    fn dma_alloc_coherent(&mut self, pages: usize) -> (usize, usize) {
        let words = pages.max(1) * (4096 / 16);
        let region: &'static mut [u128] = Box::leak(vec![0u128; words].into_boxed_slice());
        let addr = region.as_mut_ptr() as usize;
        (addr, addr)
    }

    fn dma_free_coherent(&mut self, _vaddr: usize, _pages: usize) {}
}

/// A zeroed in-memory stand-in for the device's register window, sized
/// like the real one; the engine is the only one who touches it.
fn fake_register_window() -> usize {
    let window: &'static mut [u32] = Box::leak(vec![0u32; 0x1FFFF / 4].into_boxed_slice());
    window.as_mut_ptr() as usize
}

#[test]
fn bring_up_poll_and_transmit() {
    let mut nic = match E1000Nic::init(TestKernel, fake_register_window()) {
        Ok(nic) => nic,
        Err(_) => panic!("bring-up over plain memory must succeed"),
    };

    // identity and capability queries
    assert_eq!(nic.device_name(), "Intel E1000 Net Driver");
    assert_eq!(nic.device_type(), DeviceType::Net);
    assert_eq!(nic.mac_address().0, [0x52, 0x54, 0x00, 0x6c, 0xf8, 0x88]);
    assert!(nic.can_transmit());
    assert!(nic.can_receive());
    assert_eq!(nic.rx_queue_size(), 256);
    assert_eq!(nic.tx_queue_size(), 256);

    // nothing has arrived: the poll reports try-again, not a failure
    match nic.receive() {
        Err(e) => assert_eq!(e, DevError::Again),
        Ok(_) => panic!("an idle engine must report try-again"),
    }

    // a 64-byte frame goes to the engine in one call
    let frame: Vec<u8> = (0u8..64).collect();
    let sent = nic.transmit(NetBufPtr::new(NO_HEADER, frame));
    assert!(sent.is_ok());

    // still nothing inbound
    match nic.receive() {
        Err(e) => assert_eq!(e, DevError::Again),
        Ok(_) => panic!("transmitting must not fabricate a received frame"),
    }

    // a received handle is recycled exactly once, by giving it up
    let rx = NetBufPtr::new(NO_HEADER, vec![1u8, 2, 3]);
    assert!(nic.recycle_rx_buffer(rx).is_ok());
    assert!(nic.recycle_tx_buffers().is_ok());

    // the adapter never owns transmit buffers
    match nic.alloc_tx_buffer(128) {
        Err(e) => assert_eq!(e, DevError::NoMemory),
        Ok(_) => panic!("transmit buffers are caller-supplied"),
    }
}

#[test]
fn oversize_frame_is_capped_not_refused() {
    let mut nic = match E1000Nic::init(TestKernel, fake_register_window()) {
        Ok(nic) => nic,
        Err(_) => panic!("bring-up over plain memory must succeed"),
    };
    // longer than the engine's 2048-byte slot: capped, still a success
    let frame = vec![0xA5u8; 5000];
    assert!(nic.transmit(NetBufPtr::new(NO_HEADER, frame)).is_ok());
    // a frame of exactly the slot size passes through uncapped
    let frame = vec![0x5Au8; 2048];
    assert!(nic.transmit(NetBufPtr::new(NO_HEADER, frame)).is_ok());
}

#[test]
fn transmit_many_frames() {
    let mut nic = match E1000Nic::init(TestKernel, fake_register_window()) {
        Ok(nic) => nic,
        Err(_) => panic!("bring-up over plain memory must succeed"),
    };
    for n in 0..16 {
        let frame = vec![n as u8; 60 + n];
        assert!(nic.transmit(NetBufPtr::new(NO_HEADER, frame)).is_ok());
    }
}
