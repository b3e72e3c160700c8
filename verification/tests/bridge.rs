use sysiface::abi::low_half_of;
use sysiface::{
    abort, get_time, klog_print, translate, HandleError, KernelStatus, Request, SysCall,
    SysCallMethod, SysReturn, Time, WaitError, ABI_VERSION, CLOSED, READABLE, WRITABLE,
};

#[test]
fn it_works() {
}

#[test]
fn abi_version_is_one() {
    assert_eq!(ABI_VERSION, 1);
}

#[test]
fn methods_keep_their_numbers() {
    assert_eq!(SysCallMethod::KlogPrint.number(), 0);
    assert_eq!(SysCallMethod::GetTime.number(), 1);
    assert_eq!(SysCallMethod::RequestChannel.number(), 2);
    assert_eq!(SysCallMethod::RegisterChannelListener.number(), 3);
    assert_eq!(SysCallMethod::WaitOne.number(), 4);
    assert_eq!(SysCallMethod::CloseHandle.number(), 5);
    assert_eq!(SysCallMethod::Abort.number(), 6);
    assert_eq!(SysCallMethod::AcceptChannel.number(), 7);
    assert_eq!(SysCallMethod::CreatePollSet.number(), 8);
}

#[test]
fn signal_bits_are_distinct() {
    assert_eq!(READABLE, 1);
    assert_eq!(WRITABLE, 2);
    assert_eq!(CLOSED, 4);
    assert_eq!(READABLE & WRITABLE, 0);
    assert_eq!(READABLE & CLOSED, 0);
    assert_eq!(WRITABLE & CLOSED, 0);
}

#[test]
fn translate_knows_the_six_statuses() {
    assert_eq!(translate(0), KernelStatus::NoError);
    assert_eq!(translate(1), KernelStatus::NotAllowed);
    assert_eq!(translate(2), KernelStatus::InvalidHandle);
    assert_eq!(translate(3), KernelStatus::Cancelled);
    assert_eq!(translate(4), KernelStatus::TimedOut);
    assert_eq!(translate(5), KernelStatus::Interrupted);
}

#[test]
fn translate_maps_every_other_word_to_unknown() {
    assert_eq!(translate(6), KernelStatus::Unknown);
    assert_eq!(translate(7), KernelStatus::Unknown);
    assert_eq!(translate(0x100), KernelStatus::Unknown);
    assert_eq!(translate(usize::MAX), KernelStatus::Unknown);
}

#[test]
fn translate_inverts_word() {
    let all = [
        KernelStatus::NoError,
        KernelStatus::NotAllowed,
        KernelStatus::InvalidHandle,
        KernelStatus::Cancelled,
        KernelStatus::TimedOut,
        KernelStatus::Interrupted,
    ];
    for status in all {
        let word = status.word().unwrap();
        assert_eq!(translate(word), status);
    }
    assert_eq!(KernelStatus::Unknown.word(), None);
}

#[test]
fn status_is_ok_only_on_no_error() {
    assert!(KernelStatus::NoError.is_ok());
    assert!(!KernelStatus::NotAllowed.is_ok());
    assert!(!KernelStatus::Unknown.is_ok());
}

#[test]
fn handle_error_is_carried_by_two_statuses() {
    assert_eq!(KernelStatus::InvalidHandle.handle_error(), Some(HandleError::InvalidHandle));
    assert_eq!(KernelStatus::NotAllowed.handle_error(), Some(HandleError::NotAllowed));
    assert_eq!(KernelStatus::NoError.handle_error(), None);
    assert_eq!(KernelStatus::Cancelled.handle_error(), None);
    assert_eq!(KernelStatus::TimedOut.handle_error(), None);
    assert_eq!(KernelStatus::Interrupted.handle_error(), None);
    assert_eq!(KernelStatus::Unknown.handle_error(), None);
}

#[test]
fn wait_error_keeps_every_status_apart() {
    assert_eq!(KernelStatus::NoError.wait_error(), None);
    assert_eq!(
        KernelStatus::NotAllowed.wait_error(),
        Some(WaitError::HandleError(HandleError::NotAllowed))
    );
    assert_eq!(
        KernelStatus::InvalidHandle.wait_error(),
        Some(WaitError::HandleError(HandleError::InvalidHandle))
    );
    assert_eq!(KernelStatus::Cancelled.wait_error(), Some(WaitError::Cancelled));
    assert_eq!(KernelStatus::TimedOut.wait_error(), Some(WaitError::TimedOut));
    assert_eq!(KernelStatus::Interrupted.wait_error(), Some(WaitError::Interrupted));
    assert_eq!(KernelStatus::Unknown.wait_error(), Some(WaitError::Unknown));
}

#[test]
fn low_half_keeps_a_small_word() {
    assert_eq!(low_half_of(0), 0);
    assert_eq!(low_half_of(7), 7);
    assert_eq!(low_half_of(0xffff_ffff), 0xffff_ffff);
}

#[test]
fn low_half_drops_what_lies_above_32_bits() {
    let word = (0x1_0000_0005u64 & (usize::MAX as u64)) as usize;
    assert_eq!(low_half_of(word), 5);
}

#[test]
fn klog_print_builds_its_request() {
    let request = klog_print("hello");
    assert_eq!(request, Request::KlogPrint { msg: "hello" });
    assert_eq!(request.method(), SysCallMethod::KlogPrint);
    assert_eq!(request.text(), Some("hello"));
}

#[test]
fn abort_builds_its_request() {
    let request = abort(3);
    assert_eq!(request, Request::Abort { code: 3 });
    assert_eq!(request.method(), SysCallMethod::Abort);
    assert_eq!(request.text(), None);
}

#[test]
fn encode_passes_text_by_address_and_length() {
    let call = Request::KlogPrint { msg: "boot ok" }.encode(0x4000);
    assert_eq!(call, SysCall { method: SysCallMethod::KlogPrint, a: 0x4000, b: 7, c: 0 });
    let call = Request::RequestChannel { name: "phlogiston.sysevent" }.encode(0x5000);
    assert_eq!(call, SysCall { method: SysCallMethod::RequestChannel, a: 0x5000, b: 19, c: 0 });
    let call = Request::RegisterChannelListener { name: "svc.auth" }.encode(0x6000);
    assert_eq!(
        call,
        SysCall { method: SysCallMethod::RegisterChannelListener, a: 0x6000, b: 8, c: 0 }
    );
}

#[test]
fn encode_counts_bytes_not_characters() {
    let call = Request::RequestChannel { name: "caf\u{e9}" }.encode(16);
    assert_eq!(call.b, 5);
}

#[test]
fn encode_ignores_the_address_where_there_is_no_text() {
    let call = Request::GetTime.encode(0x4000);
    assert_eq!(call, SysCall { method: SysCallMethod::GetTime, a: 0, b: 0, c: 0 });
    let call = Request::WaitOne { handle: 9, mask: 5 }.encode(0x4000);
    assert_eq!(call, SysCall { method: SysCallMethod::WaitOne, a: 9, b: 5, c: 0 });
    let call = Request::CloseHandle { handle: 9 }.encode(0x4000);
    assert_eq!(call, SysCall { method: SysCallMethod::CloseHandle, a: 9, b: 0, c: 0 });
    let call = Request::AcceptChannel { listener: 11 }.encode(0x4000);
    assert_eq!(call, SysCall { method: SysCallMethod::AcceptChannel, a: 11, b: 0, c: 0 });
    let call = Request::CreatePollSet.encode(0x4000);
    assert_eq!(call, SysCall { method: SysCallMethod::CreatePollSet, a: 0, b: 0, c: 0 });
}

#[test]
fn encode_passes_an_exit_code_in_twos_complement() {
    let call = Request::Abort { code: 0 }.encode(0);
    assert_eq!(call, SysCall { method: SysCallMethod::Abort, a: 0, b: 0, c: 0 });
    let call = Request::Abort { code: 42 }.encode(0);
    assert_eq!(call.a, 42);
    let call = Request::Abort { code: -1 }.encode(0);
    assert_eq!(call.a, usize::MAX);
    let call = Request::Abort { code: isize::MIN }.encode(0);
    assert_eq!(call.a, (usize::MAX >> 1) + 1);
}

#[test]
fn registers_put_the_method_last() {
    let call = Request::WaitOne { handle: 9, mask: 5 }.encode(0);
    assert_eq!(call.registers(), (9, 5, 0, 4));
    let call = Request::KlogPrint { msg: "x" }.encode(0x70);
    assert_eq!(call.registers(), (0x70, 1, 0, 0));
}

#[test]
fn get_time_joins_the_two_halves() {
    assert_eq!(get_time(SysReturn { status: 0, extra: 0 }).ticks(), 0);
    assert_eq!(get_time(SysReturn { status: 5, extra: 0 }).ticks(), 5);
    assert_eq!(get_time(SysReturn { status: 5, extra: 1 }).ticks(), 0x1_0000_0005);
    assert_eq!(
        get_time(SysReturn { status: 0xdead_beef, extra: 0x0123_4567 }).ticks(),
        0x0123_4567_dead_beef
    );
}

#[test]
fn get_time_reads_the_count_as_signed() {
    assert_eq!(get_time(SysReturn { status: 0xffff_ffff, extra: 0xffff_ffff }).ticks(), -1);
    assert_eq!(get_time(SysReturn { status: 0, extra: 0x8000_0000 }).ticks(), i64::MIN);
    assert_eq!(get_time(SysReturn { status: 0xffff_ffff, extra: 0x7fff_ffff }).ticks(), i64::MAX);
}

fn reply_carrying(ticks: i64) -> SysReturn {
    let raw = ticks as u64;
    SysReturn { status: (raw & 0xffff_ffff) as usize, extra: (raw >> 32) as usize }
}

#[test]
fn get_time_round_trips_a_split_count() {
    for ticks in [0, 1, -1, 0xffff_ffff, 0x1_0000_0000, -0x1_0000_0000, i64::MIN, i64::MAX] {
        assert_eq!(get_time(reply_carrying(ticks)).ticks(), ticks);
    }
}

#[test]
fn get_time_keeps_the_order_of_the_clock() {
    let counts = [-5, 0, 7, 7, 0xffff_ffff, 0x1_0000_0000, 0x1_0000_0001, i64::MAX];
    let mut last = get_time(reply_carrying(i64::MIN));
    for ticks in counts {
        let now = get_time(reply_carrying(ticks));
        assert!(last <= now);
        assert!(!(now < last));
        last = now;
    }
}

#[test]
fn time_compares_by_ticks() {
    let early = Time::from_ticks(-3);
    let late = Time::from_ticks(10);
    assert!(early < late);
    assert!(late > early);
    assert!(early <= early);
    assert_eq!(early, Time::from_ticks(-3));
    assert_ne!(early, late);
    assert_eq!(early.partial_cmp(&late), Some(std::cmp::Ordering::Less));
    assert_eq!(late.partial_cmp(&early), Some(std::cmp::Ordering::Greater));
    assert_eq!(late.partial_cmp(&late), Some(std::cmp::Ordering::Equal));
}
