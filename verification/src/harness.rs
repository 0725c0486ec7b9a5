//! Decisions of the integration-test harness: which ports to try for the
//! server, how long to wait for it to bind, where its binary lies, and the
//! base URL the tests talk to.  Binding sockets, sleeping and spawning the
//! server are the caller's part.

use vstd::prelude::*;
use crate::text::{decimal, push_decimal};

verus! {

/// Address the server under test listens on.
pub const HOST_IP: &'static str = "127.0.0.1";

/// Lowest port tried (inclusive).
pub const SERVER_PORT_LOW: u16 = 10000;

/// Highest port tried (exclusive).
pub const SERVER_PORT_HIGH: u16 = 60000;

/// How many random ports are tried before giving up.
pub const MAX_PORT_SEARCH_ATTEMPTS: u16 = 50;

/// The time between two checks of the port, in ms.
pub const PORT_BIND_WAIT_TIME_INCREMENT_MS: u64 = 500;

/// The most time slept waiting for the server to bind, in ms.
pub const MAX_PORT_BIND_WAIT_TIME_MS: u64 = 90000;

/// Pause after the port is seen bound, in ms.
pub const POST_BIND_SLEEP_MS: u64 = 500;

/// `rand::random_range`: a uniformly random value in `low..high`.  Only the
/// range is known of it.
#[verifier::external_body]
fn random_in_range(low: u16, high: u16) -> (res: u16)
    requires
        low < high,
    ensures
        low <= res < high,
{
    rand::random_range(low..high)
}

/// Arguments passed to the test function: the base URL of the REST server
/// (e.g. `http://127.0.0.1:12345`).
pub struct TestArgs {
    pub base_url: String,
}

/// Test harness builder.
pub struct Builder {}

impl Builder {
    /// Create a new instance of [`Self`].
    pub fn new() -> (res: Self) {
        Builder {}
    }

    /// The arguments for a test against a server on `port`.
    pub fn test_args(&self, port: u16) -> (res: TestArgs)
        ensures
            res.base_url@ == "http://127.0.0.1:"@ + decimal(port as nat),
    {
        TestArgs { base_url: base_url(port) }
    }
}

/// The base URL of a server on `HOST_IP` at `port`.
pub fn base_url(port: u16) -> (res: String)
    ensures
        res@ == "http://127.0.0.1:"@ + decimal(port as nat),
{
    let mut out = String::new();
    out.append("http://");
    out.append(HOST_IP);
    out.append(":");
    push_decimal(&mut out, port as u64);
    proof {
        reveal_strlit("http://");
        reveal_strlit("127.0.0.1");
        reveal_strlit(":");
        reveal_strlit("http://127.0.0.1:");
    }
    assert(out@ =~= "http://127.0.0.1:"@ + decimal(port as nat));
    out
}

/// The search for a free port: random candidates in the server port range,
/// at most `MAX_PORT_SEARCH_ATTEMPTS` of them.
pub struct PortSearch {
    attempts: u16,
}

impl PortSearch {
    /// Candidates handed out so far.
    pub closed spec fn tried(&self) -> nat {
        self.attempts as nat
    }

    /// A search that has tried nothing yet.
    pub fn new() -> (res: Self)
        ensures
            res.tried() == 0,
    {
        PortSearch { attempts: 0 }
    }

    /// The next port to try, or `None` once the attempts are used up.
    pub fn next_candidate(&mut self) -> (res: Option<u16>)
        requires
            old(self).tried() <= 50,
        ensures
            old(self).tried() < 50 ==> (res matches Some(p) && 10000 <= p < 60000 && final(self).tried()
                == old(self).tried() + 1),
            old(self).tried() >= 50 ==> res is None && final(self).tried() == old(self).tried(),
            final(self).tried() <= 50,
    {
        if self.attempts >= MAX_PORT_SEARCH_ATTEMPTS {
            return None;
        }
        self.attempts = self.attempts + 1;
        Some(random_in_range(SERVER_PORT_LOW, SERVER_PORT_HIGH))
    }
}

/// What to do after checking whether the port is still free.
pub enum BindStep {
    /// Still free: sleep the next wait and check again.
    KeepWaiting,
    /// Bound: sleep this long, then the server is up.
    Bound { post_sleep_ms: u64 },
}

/// The wait for the server to bind its port: the port is polled every
/// `PORT_BIND_WAIT_TIME_INCREMENT_MS`, and the harness gives up once another
/// poll would take the total time slept past `MAX_PORT_BIND_WAIT_TIME_MS`.
pub struct BindWait {
    slept_ms: u64,
}

impl BindWait {
    /// The time slept so far, in ms.
    pub closed spec fn slept(&self) -> nat {
        self.slept_ms as nat
    }

    /// Nothing slept yet.
    pub fn new() -> (res: Self)
        ensures
            res.slept() == 0,
    {
        BindWait { slept_ms: 0 }
    }

    /// How long to sleep before the next check, or `None` when the server
    /// has not come up within the maximum wait.
    pub fn next_sleep(&self) -> (res: Option<u64>)
        ensures
            self.slept() + 500 <= 90000 ==> res == Some(500u64),
            self.slept() + 500 > 90000 ==> res is None,
    {
        if self.slept_ms <= MAX_PORT_BIND_WAIT_TIME_MS - PORT_BIND_WAIT_TIME_INCREMENT_MS {
            Some(PORT_BIND_WAIT_TIME_INCREMENT_MS)
        } else {
            None
        }
    }

    /// Records the sleep just made and whether the port was still free after
    /// it.
    pub fn observe(&mut self, port_available: bool) -> (res: BindStep)
        requires
            old(self).slept() + 500 <= 90000,
        ensures
            port_available ==> res is KeepWaiting && final(self).slept() == old(self).slept() + 500,
            !port_available ==> res == (BindStep::Bound { post_sleep_ms: 500 }) && final(self).slept()
                == old(self).slept(),
            final(self).slept() <= 90000,
    {
        if port_available {
            self.slept_ms = self.slept_ms + PORT_BIND_WAIT_TIME_INCREMENT_MS;
            BindStep::KeepWaiting
        } else {
            BindStep::Bound { post_sleep_ms: POST_BIND_SLEEP_MS }
        }
    }
}

/// The number of further polls made, from `slept` ms slept, while the port
/// stays free: one more for each `next_sleep` that answers `Some`.
pub open spec fn polls_left(slept: nat) -> nat
    decreases 90000 - slept,
{
    if slept + 500 <= 90000 {
        1 + polls_left(slept + 500)
    } else {
        0
    }
}

/// The harness never sleeps past the maximum wait, and gives up only when
/// one more poll would pass it: from any point of the wait, the time already
/// slept plus all further polls is at most 90 s, and one poll more would
/// exceed it.  From the start, that is exactly 180 polls of 500 ms.
pub proof fn law_bind_wait_total_within_limit(slept: nat)
    requires
        slept <= 90000,
    ensures
        slept + 500 * polls_left(slept) <= 90000,
        90000 < slept + 500 * (polls_left(slept) + 1),
        polls_left(0) == 180,
{
    lemma_polls_left_bounds(slept);
    lemma_polls_left_bounds(0);
}

proof fn lemma_polls_left_bounds(slept: nat)
    requires
        slept <= 90000,
    ensures
        slept + 500 * polls_left(slept) <= 90000,
        90000 < slept + 500 * (polls_left(slept) + 1),
    decreases 90000 - slept,
{
    if slept + 500 <= 90000 {
        lemma_polls_left_bounds(slept + 500);
    }
}

/// The path of the workspace binary `name`, from the path of the running
/// test executable: its directory, one level up when that is `deps`.
pub open spec fn workspace_binary_spec(exe: Seq<Seq<char>>, name: Seq<char>) -> Seq<Seq<char>> {
    let dir = if exe.len() > 0 {
        exe.drop_last()
    } else {
        exe
    };
    let base = if dir.len() > 0 && dir.last() == "deps"@ {
        dir.drop_last()
    } else {
        dir
    };
    base.push(name)
}

/// The components of the workspace binary's path.
pub fn workspace_binary(exe: Vec<String>, name: &str) -> (res: Vec<String>)
    ensures
        res@.map_values(|c: String| c@) == workspace_binary_spec(exe@.map_values(|c: String| c@), name@),
{
    let ghost exe_view = exe@.map_values(|c: String| c@);
    let mut path = exe;
    if path.len() > 0 {
        path.pop();
    }
    assert(path@.map_values(|c: String| c@) =~= if exe_view.len() > 0 {
        exe_view.drop_last()
    } else {
        exe_view
    });
    let ghost dir = path@.map_values(|c: String| c@);
    let n = path.len();
    if n > 0 {
        let deps = "deps".to_string();
        if path[n - 1] == deps {
            path.pop();
        }
    }
    assert(path@.map_values(|c: String| c@) =~= if dir.len() > 0 && dir.last() == "deps"@ {
        dir.drop_last()
    } else {
        dir
    });
    path.push(name.to_string());
    assert(path@.map_values(|c: String| c@) =~= workspace_binary_spec(exe_view, name@));
    path
}

} // verus!
