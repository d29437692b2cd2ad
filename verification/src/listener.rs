//! The connection listener's registry.
//!
//! One readiness multiplexer serves every event source the dispatcher has:
//! client sockets, the signal bridge's pipe, and each termination worker's
//! notification channel. This module holds the verified bookkeeping of that
//! wait set — which endpoints are registered and which rendezvous socket
//! path is bound — while the surrounding shell drives the actual readiness
//! primitive and the filesystem.

use vstd::prelude::*;

verus! {

/// The rendezvous socket's file name derived from an enclave identifier:
/// the identifier followed by `.sock`. The shell places it inside its socket
/// directory.
pub open spec fn socket_path_spec(id: Seq<u8>) -> Seq<u8> {
    id + seq![46u8, 115u8, 111u8, 99u8, 107u8]
}

/// Build the rendezvous socket's file name for an enclave identifier.
pub fn socket_path_for(enclave_id: &Vec<u8>) -> (r: Vec<u8>)
    ensures
        r@ == socket_path_spec(enclave_id@),
{
    let ghost id = enclave_id@;
    let mut r: Vec<u8> = Vec::new();
    let mut i: usize = 0;
    while i < enclave_id.len()
        invariant
            id == enclave_id@,
            i <= id.len(),
            r@ == id.subrange(0, i as int),
        decreases id.len() - i,
    {
        r.push(enclave_id[i]);
        proof {
            assert(id.subrange(0, i + 1 as int) =~= id.subrange(0, i as int).push(id[i as int]));
        }
        i = i + 1;
    }
    proof {
        assert(id.subrange(0, id.len() as int) =~= id);
    }
    r.push(46);
    r.push(115);
    r.push(111);
    r.push(99);
    r.push(107);
    proof {
        assert(r@ =~= socket_path_spec(id));
    }
    r
}

/// The wait set with the first occurrence of `fd` removed; unchanged when
/// `fd` is not registered.
pub open spec fn remove_first_spec(s: Seq<i32>, fd: i32) -> Seq<i32>
    decreases s.len(),
{
    if s.len() == 0 {
        s
    } else if s[0] == fd {
        s.subrange(1, s.len() as int)
    } else {
        seq![s[0]] + remove_first_spec(s.subrange(1, s.len() as int), fd)
    }
}

proof fn lemma_remove_first_at(s: Seq<i32>, fd: i32, i: int)
    requires
        0 <= i < s.len(),
        s[i] == fd,
        forall|j: int| 0 <= j < i ==> s[j] != fd,
    ensures
        remove_first_spec(s, fd) == s.remove(i),
    decreases i,
{
    let rest = s.subrange(1, s.len() as int);
    if i == 0 {
        assert(rest =~= s.remove(0));
    } else {
        lemma_remove_first_at(rest, fd, i - 1);
        assert(seq![s[0]] + rest.remove(i - 1) =~= s.remove(i));
    }
}

proof fn lemma_remove_first_absent(s: Seq<i32>, fd: i32)
    requires
        forall|j: int| 0 <= j < s.len() ==> s[j] != fd,
    ensures
        remove_first_spec(s, fd) == s,
    decreases s.len(),
{
    if s.len() > 0 {
        let rest = s.subrange(1, s.len() as int);
        lemma_remove_first_absent(rest, fd);
        assert(seq![s[0]] + rest =~= s);
    }
}

/// Registry of the multiplexer's wait set: the registered endpoint
/// descriptors, and the rendezvous socket path once an enclave is running.
pub struct ConnectionListener {
    registered: Vec<i32>,
    rendezvous: Option<Vec<u8>>,
}

impl ConnectionListener {
    /// The registered endpoint descriptors, in registration order (the
    /// multiplexer itself attaches no meaning to the order).
    pub closed spec fn endpoints(&self) -> Seq<i32> {
        self.registered@
    }

    /// The rendezvous socket path, once `start` has derived it.
    pub closed spec fn rendezvous_path(&self) -> Option<Seq<u8>> {
        match self.rendezvous {
            Some(p) => Some(p@),
            None => None,
        }
    }

    /// A listener with an empty wait set and no rendezvous socket.
    pub fn new() -> (r: Self)
        ensures
            r.endpoints() == Seq::<i32>::empty(),
            r.rendezvous_path() is None,
    {
        ConnectionListener { registered: Vec::new(), rendezvous: None }
    }

    /// Register a brand-new client socket for readiness events; used for the
    /// first control channel from the launching CLI instance.
    pub fn handle_new_connection(&mut self, fd: i32)
        ensures
            final(self).endpoints() == old(self).endpoints().push(fd),
            final(self).rendezvous_path() == old(self).rendezvous_path(),
    {
        self.registered.push(fd);
    }

    /// Register any other duplex endpoint (a worker's notification channel,
    /// the signal bridge's pipe) in the same wait set, so every event source
    /// is observed by the one blocking call per loop iteration.
    pub fn add_stream_to_epoll(&mut self, fd: i32)
        ensures
            final(self).endpoints() == old(self).endpoints().push(fd),
            final(self).rendezvous_path() == old(self).rendezvous_path(),
    {
        self.registered.push(fd);
    }

    /// Record the rendezvous socket path derived from the enclave
    /// identifier, so later CLI invocations addressing this enclave can
    /// attach; returns the path for the shell to bind.
    pub fn start(&mut self, enclave_id: &Vec<u8>) -> (path: Vec<u8>)
        ensures
            path@ == socket_path_spec(enclave_id@),
            final(self).rendezvous_path() == Some(socket_path_spec(enclave_id@)),
            final(self).endpoints() == old(self).endpoints(),
    {
        let path = socket_path_for(enclave_id);
        self.rendezvous = Some(socket_path_for(enclave_id));
        path
    }

    /// Drop one endpoint from the wait set, as when a peer closes its
    /// connection or an endpoint's ownership moves to a worker thread.
    pub fn deregister(&mut self, fd: i32)
        ensures
            final(self).endpoints() == remove_first_spec(old(self).endpoints(), fd),
            final(self).rendezvous_path() == old(self).rendezvous_path(),
    {
        let ghost s0 = self.registered@;
        let mut i: usize = 0;
        while i < self.registered.len()
            invariant
                i <= self.registered@.len(),
                s0 == old(self).endpoints(),
                self.registered@ == s0,
                self.rendezvous == old(self).rendezvous,
                forall|j: int| 0 <= j < i ==> s0[j] != fd,
            decreases s0.len() - i,
        {
            if self.registered[i] == fd {
                self.registered.remove(i);
                proof {
                    lemma_remove_first_at(s0, fd, i as int);
                }
                return ;
            }
            i = i + 1;
        }
        proof {
            lemma_remove_first_absent(s0, fd);
        }
    }

    /// Drop every registration and forget the rendezvous socket path,
    /// returning it so the shell can remove the file. After this call the
    /// listener holds no registered endpoint and no path.
    pub fn stop(&mut self) -> (path: Option<Vec<u8>>)
        ensures
            final(self).endpoints() == Seq::<i32>::empty(),
            final(self).rendezvous_path() is None,
            match path {
                Some(p) => old(self).rendezvous_path() == Some(p@),
                None => old(self).rendezvous_path() is None,
            },
    {
        self.registered = Vec::new();
        self.rendezvous.take()
    }

    /// How many endpoints are registered.
    pub fn endpoint_count(&self) -> (n: usize)
        ensures
            n == self.endpoints().len(),
    {
        self.registered.len()
    }

    /// Whether a rendezvous socket path is currently bound.
    pub fn has_rendezvous(&self) -> (r: bool)
        ensures
            r <==> self.rendezvous_path() is Some,
    {
        self.rendezvous.is_some()
    }

    /// The rendezvous socket path, for the shell and for tests.
    pub fn rendezvous_path_bytes(&self) -> (r: Option<&Vec<u8>>)
        ensures
            match r {
                Some(p) => self.rendezvous_path() == Some(p@),
                None => self.rendezvous_path() is None,
            },
    {
        self.rendezvous.as_ref()
    }
}

} // verus!
