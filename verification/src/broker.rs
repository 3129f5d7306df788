//! The descriptor-brokering server's rules.
//!
//! A broker listens on an abstract seqpacket socket and sends a fixed,
//! ordered list of file descriptors to every authorized client. The socket
//! work lives in the unverified front end; the rules it must follow —
//! which peers are admitted and which descriptors are served, in which
//! order — are decided here.

use vstd::prelude::*;
use vstd::string::StringExecFns;

verus! {

/// The configuration of one descriptor broker: the abstract socket it
/// binds, the sole client UID it accepts, and exactly one source of
/// descriptors — paths to open read-only, or raw descriptors already held
/// by the process.
#[derive(Clone, Debug)]
pub struct Server {
    /// Listen on this abstract socket.
    pub socket: String,
    /// Expect clients with this UID.
    pub client_uid: u32,
    /// Send file descriptors from these paths.
    pub paths: Option<Vec<String>>,
    /// Send file descriptors already held by the current process.
    pub fds: Option<Vec<i32>>,
}

impl Server {
    /// Exactly one descriptor source is configured.
    pub open spec fn wf(self) -> bool {
        self.paths is Some <==> self.fds is None
    }

    /// A broker that opens the named paths read-only and serves their
    /// descriptors.
    pub fn for_paths(socket: &str, client_uid: u32, paths: Vec<String>) -> (s: Server)
        ensures
            s.wf(),
            s.socket@ == socket@,
            s.client_uid == client_uid,
            s.paths matches Some(p) && p.deep_view() == paths.deep_view(),
            s.fds is None,
    {
        Server {
            socket: String::from_str(socket),
            client_uid,
            paths: Some(paths),
            fds: None,
        }
    }

    /// A broker that serves descriptors already held by the process.
    pub fn for_fds(socket: &str, client_uid: u32, fds: Vec<i32>) -> (s: Server)
        ensures
            s.wf(),
            s.socket@ == socket@,
            s.client_uid == client_uid,
            s.paths is None,
            s.fds matches Some(f) && f@ == fds@,
    {
        Server {
            socket: String::from_str(socket),
            client_uid,
            paths: None,
            fds: Some(fds),
        }
    }

    /// Whether a connecting peer may be served: its effective UID must
    /// equal the configured client UID. A descriptor send is owed exactly
    /// to admitted peers; all others are closed without one.
    pub fn admit_peer(&self, peer_uid: u32) -> (b: bool)
        ensures
            b == (peer_uid == self.client_uid),
    {
        peer_uid == self.client_uid
    }

    /// The descriptor list served to each admitted client: the
    /// descriptors of the opened paths, in path order, followed by the
    /// raw descriptors, in list order. `opened` holds the descriptor of
    /// each configured path, opened by the caller.
    pub fn served_fds(&self, opened: &Vec<i32>) -> (r: Vec<i32>)
        requires
            match self.paths {
                Some(p) => opened@.len() == p@.len(),
                None => opened@.len() == 0,
            },
        ensures
            r@ == opened@ + match self.fds {
                Some(f) => f@,
                None => Seq::<i32>::empty(),
            },
    {
        let mut r: Vec<i32> = Vec::new();
        let mut i: usize = 0;
        while i < opened.len()
            invariant
                i <= opened@.len(),
                r@ == opened@.subrange(0, i as int),
            decreases opened@.len() - i,
        {
            r.push(opened[i]);
            proof {
                assert(r@ =~= opened@.subrange(0, i + 1 as int));
            }
            i += 1;
        }
        proof {
            assert(opened@.subrange(0, opened@.len() as int) =~= opened@);
        }
        match &self.fds {
            Some(fds) => {
                let mut j: usize = 0;
                while j < fds.len()
                    invariant
                        j <= fds@.len(),
                        self.fds matches Some(f) && f@ == fds@,
                        r@ == opened@ + fds@.subrange(0, j as int),
                    decreases fds@.len() - j,
                {
                    r.push(fds[j]);
                    proof {
                        assert(r@ =~= opened@ + fds@.subrange(0, j + 1 as int));
                    }
                    j += 1;
                }
                proof {
                    assert(fds@.subrange(0, fds@.len() as int) =~= fds@);
                }
            },
            None => {
                proof {
                    assert(r@ =~= opened@ + Seq::<i32>::empty());
                }
            },
        }
        r
    }
}

} // verus!
