use sysiface::{
    register_channel_listener, request_channel, Channel, ChannelListener, HandleError, PollSet,
    Request, SysReturn, WaitError, Waitable, CLOSED, READABLE,
};

/// A kernel for one process, as far as these scenarios need one: a
/// registry of listener names, the handles that are alive, and the
/// conditions that hold of each.
struct Kernel {
    names: Vec<(String, u32)>,
    live: Vec<(u32, u32)>,
    next: u32,
}

const NO_ERROR: usize = 0;
const NOT_ALLOWED: usize = 1;
const INVALID_HANDLE: usize = 2;
const TIMED_OUT: usize = 4;

impl Kernel {
    fn new() -> Kernel {
        Kernel { names: Vec::new(), live: Vec::new(), next: 100 }
    }

    fn create(&mut self) -> SysReturn {
        let id = self.next;
        self.next += 1;
        self.live.push((id, 0));
        SysReturn { status: NO_ERROR, extra: id as usize }
    }

    fn signal(&mut self, id: u32, signals: u32) {
        for entry in self.live.iter_mut() {
            if entry.0 == id {
                entry.1 = signals;
            }
        }
    }

    fn revoke(&mut self, id: u32) {
        self.live.retain(|entry| entry.0 != id);
        self.names.retain(|entry| entry.1 != id);
    }

    fn trap(&mut self, request: &Request) -> SysReturn {
        match request {
            Request::RegisterChannelListener { name } => {
                if self.names.iter().any(|entry| entry.0 == *name) {
                    SysReturn { status: NOT_ALLOWED, extra: 0 }
                } else {
                    let reply = self.create();
                    self.names.push((name.to_string(), reply.extra as u32));
                    reply
                }
            }
            Request::RequestChannel { name } => {
                if self.names.iter().any(|entry| entry.0 == *name) {
                    self.create()
                } else {
                    SysReturn { status: INVALID_HANDLE, extra: 0 }
                }
            }
            Request::WaitOne { handle, mask } => {
                match self.live.iter().find(|entry| entry.0 == *handle) {
                    Some(entry) if entry.1 & mask != 0 => {
                        SysReturn { status: NO_ERROR, extra: entry.1 as usize }
                    }
                    Some(_) => SysReturn { status: TIMED_OUT, extra: 0 },
                    None => SysReturn { status: INVALID_HANDLE, extra: 0 },
                }
            }
            Request::CloseHandle { handle } => {
                if self.live.iter().any(|entry| entry.0 == *handle) {
                    self.revoke(*handle);
                    SysReturn { status: NO_ERROR, extra: 0 }
                } else {
                    SysReturn { status: INVALID_HANDLE, extra: 0 }
                }
            }
            Request::CreatePollSet => self.create(),
            _ => SysReturn { status: NOT_ALLOWED, extra: 0 },
        }
    }

    fn register(&mut self, name: &str) -> Option<ChannelListener> {
        let reply = self.trap(&Request::RegisterChannelListener { name });
        register_channel_listener(reply)
    }

    fn request(&mut self, name: &str) -> Option<Channel> {
        let reply = self.trap(&Request::RequestChannel { name });
        request_channel(reply)
    }

    fn wait<W: Waitable>(&mut self, waitable: &W, mask: u32) -> Result<u32, WaitError> {
        let request = waitable.wait_request(mask)?;
        let reply = self.trap(&request);
        waitable.wait(mask, reply)
    }

    fn poll(&mut self, set: &PollSet, requested: u32) -> Result<Vec<(u32, u32)>, WaitError> {
        let requests = set.wait_requests(requested)?;
        let mut replies = Vec::new();
        for request in requests.iter() {
            replies.push(self.trap(request));
        }
        set.wait(requested, &replies)
    }
}

#[test]
fn request_of_an_unregistered_name_gives_none() {
    let mut kernel = Kernel::new();
    for _ in 0..3 {
        assert!(kernel.request("unregistered-name").is_none());
    }
    assert!(kernel.live.is_empty());
}

#[test]
fn second_registration_of_a_live_name_fails() {
    let mut kernel = Kernel::new();
    let first = kernel.register("svc.auth");
    assert!(first.is_some());
    let second = kernel.register("svc.auth");
    assert!(second.is_none());
    assert!(first.unwrap().handle().is_open());
}

#[test]
fn wait_readable_returns_readable() {
    let mut kernel = Kernel::new();
    let listener = kernel.register("svc.auth").unwrap();
    kernel.signal(listener.handle().id(), READABLE);
    assert_eq!(kernel.wait(&listener, READABLE), Ok(READABLE));
}

#[test]
fn wait_on_a_handle_the_kernel_rejects_is_a_handle_error() {
    let mut kernel = Kernel::new();
    let listener = kernel.register("svc.auth").unwrap();
    kernel.revoke(listener.handle().id());
    assert_eq!(
        kernel.wait(&listener, READABLE),
        Err(WaitError::HandleError(HandleError::InvalidHandle))
    );
}

#[test]
fn poll_set_reports_a_member_closed_from_outside_and_not_the_pending_one() {
    let mut kernel = Kernel::new();
    let b = kernel.register("svc.auth").unwrap();
    let a = kernel.request("svc.auth").unwrap();
    let reply = kernel.trap(&Request::CreatePollSet);
    let mut set = PollSet::new(reply).unwrap();
    set.add(&a, READABLE | CLOSED).unwrap();
    set.add(&b, READABLE | CLOSED).unwrap();
    kernel.revoke(a.handle().id());
    let entries = kernel.poll(&set, READABLE | CLOSED).unwrap();
    assert_eq!(entries.len(), 1);
    assert_eq!(entries[0].0, a.handle().id());
    assert_eq!(entries[0].1 & CLOSED, CLOSED);
    assert!(entries.iter().all(|entry| entry.0 != b.handle().id()));
}

#[test]
fn poll_set_reports_both_ready_members_at_once() {
    let mut kernel = Kernel::new();
    let b = kernel.register("svc.auth").unwrap();
    let a = kernel.request("svc.auth").unwrap();
    let c = kernel.request("svc.auth").unwrap();
    let reply = kernel.trap(&Request::CreatePollSet);
    let mut set = PollSet::new(reply).unwrap();
    set.add(&c, READABLE).unwrap();
    set.add(&a, READABLE).unwrap();
    set.add(&b, READABLE).unwrap();
    kernel.signal(a.handle().id(), READABLE);
    kernel.signal(b.handle().id(), READABLE);
    let entries = kernel.poll(&set, READABLE | CLOSED).unwrap();
    assert_eq!(entries, vec![(a.handle().id(), READABLE), (b.handle().id(), READABLE)]);
}

#[test]
fn close_then_any_operation_fails() {
    let mut kernel = Kernel::new();
    let mut listener = kernel.register("svc.auth").unwrap();
    let request = listener.close_request().unwrap();
    let reply = kernel.trap(&request);
    assert_eq!(listener.close(reply), Ok(()));
    assert!(kernel.wait(&listener, READABLE).is_err());
    assert!(listener.accept_request().is_none());
    assert!(listener.close_request().is_err());
    assert!(kernel.register("svc.auth").is_some());
}
