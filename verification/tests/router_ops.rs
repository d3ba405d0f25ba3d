use keep_vcpu::router::{
    finish_balloon, route, serve_mem_info, Route, SYS_BALLOON_MEMORY, SYS_MEM_INFO,
};
use keep_vcpu::sallyport::{Block, Reply, Request};
use keep_vcpu::Command;

fn block_with(num: i64, arg0: u64, scratch_len: usize) -> Block {
    Block {
        req: Request {
            num,
            arg: [arg0, 0, 0, 0, 0, 0, 0],
        },
        rep: Reply {
            status: -1,
            ret0: 0xDEAD,
            ret1: 0xBEEF,
        },
        scratch: vec![0xAA; scratch_len],
    }
}

#[test]
fn route_passthrough_range() {
    assert_eq!(route(0), Route::Passthrough);
    assert_eq!(route(200), Route::Passthrough);
    assert_eq!(route(512), Route::Passthrough);
}

#[test]
fn route_keep_specific_and_unsupported() {
    assert_eq!(route(SYS_BALLOON_MEMORY), Route::Balloon);
    assert_eq!(route(SYS_MEM_INFO), Route::MemInfo);
    assert_eq!(route(513), Route::Unsupported);
    assert_eq!(route(-1), Route::Unsupported);
    assert_eq!(route(0x9000), Route::Unsupported);
}

#[test]
fn balloon_success_writes_address_reply() {
    let mut b = block_with(SYS_BALLOON_MEMORY, 4, 0);
    let addr: u64 = 0x7000_0000;
    let r = finish_balloon::<i64>(&mut b, Ok(addr));
    assert_eq!(r, Ok(Command::Continue));
    assert_eq!(b.rep.status, 0);
    assert_eq!(b.rep.ret0, addr);
    assert_eq!(b.rep.ret1, 0);
}

#[test]
fn balloon_failure_propagates_and_leaves_reply_untouched() {
    let mut b = block_with(SYS_BALLOON_MEMORY, 4, 0);
    let r = finish_balloon::<i64>(&mut b, Err(-12));
    assert_eq!(r, Err(-12));
    assert_eq!(b.rep.status, -1);
    assert_eq!(b.rep.ret0, 0xDEAD);
    assert_eq!(b.rep.ret1, 0xBEEF);
}

#[test]
fn mem_info_serializes_offset_and_slots() {
    let mut b = block_with(SYS_MEM_INFO, 0, 16);
    let virt_offset: i64 = 0x0102_0304_0506_0708;
    let r = serve_mem_info(&mut b, virt_offset, 2);
    assert!(matches!(r, Ok(Command::Continue)));
    assert_eq!(b.rep.status, 0);
    assert_eq!(b.rep.ret0, 0);
    assert_eq!(b.rep.ret1, 0);
    assert_eq!(
        &b.scratch[..12],
        &[8, 7, 6, 5, 4, 3, 2, 1, 2, 0, 0, 0]
    );
    // bytes past the payload stay as the guest left them
    assert_eq!(&b.scratch[12..], &[0xAA, 0xAA, 0xAA, 0xAA]);
}

#[test]
fn mem_info_negative_offset_is_two_complement() {
    let mut b = block_with(SYS_MEM_INFO, 0, 12);
    let r = serve_mem_info(&mut b, -1, 0);
    assert!(matches!(r, Ok(Command::Continue)));
    assert_eq!(
        &b.scratch[..],
        &[0xFF, 0xFF, 0xFF, 0xFF, 0xFF, 0xFF, 0xFF, 0xFF, 0, 0, 0, 0]
    );
}

#[test]
fn mem_info_reports_scratch_exhaustion() {
    let mut b = block_with(SYS_MEM_INFO, 0, 11);
    let r = serve_mem_info(&mut b, 7, 2);
    assert!(matches!(
        r,
        Err(keep_vcpu::StepError::ScratchExhausted {
            needed: 12,
            have: 11
        })
    ));
    // the block is left untouched
    assert_eq!(b.rep.status, -1);
    assert_eq!(b.rep.ret0, 0xDEAD);
    assert_eq!(b.rep.ret1, 0xBEEF);
    assert_eq!(&b.scratch[..], &[0xAA; 11]);
}
