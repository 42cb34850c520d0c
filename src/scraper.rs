use crate::book::{url_encode, url_encoded};
use vstd::prelude::*;

verus! {

/// Why a search failed.
#[derive(Debug, Clone, Copy, PartialEq, Eq, Structural)]
pub enum LibgenError {
    /// Connection error while collecting data.
    ConnectionError,
    /// Every mirror stayed busy for all the retries.
    TimeoutError,
    /// Data not found during collection.
    NotFoundError,
    /// The server answered with a status that is neither success nor busy.
    NetworkError,
    /// Error encountered while parsing collected data.
    ParsingError,
}

impl LibgenError {
    /// The name of the error kind.
    pub open spec fn spec_message(self) -> Seq<char> {
        match self {
            LibgenError::ConnectionError => "ConnectionError"@,
            LibgenError::TimeoutError => "TimeoutError"@,
            LibgenError::NotFoundError => "NotFoundError"@,
            LibgenError::NetworkError => "NetworkError"@,
            LibgenError::ParsingError => "ParsingError"@,
        }
    }

    /// The name of the error kind, as text.
    pub fn message(&self) -> (r: String)
        ensures
            r@ == self.spec_message(),
    {
        match self {
            LibgenError::ConnectionError => String::from_str("ConnectionError"),
            LibgenError::TimeoutError => String::from_str("TimeoutError"),
            LibgenError::NotFoundError => String::from_str("NotFoundError"),
            LibgenError::NetworkError => String::from_str("NetworkError"),
            LibgenError::ParsingError => String::from_str("ParsingError"),
        }
    }
}

/// Where a search stands: how many busy answers it has had, and which mirror
/// it asks next.
#[derive(Debug, Clone, Copy, PartialEq, Eq, Structural)]
pub struct RetryState {
    /// Busy answers so far
    pub retries: usize,
    /// Index of the mirror to ask next
    pub mirror: usize,
}

/// How one search request went.
#[derive(Debug, Clone, Copy, PartialEq, Eq, Structural)]
pub enum Attempt {
    /// No response came: the connection failed or timed out.
    ConnectionFailed,
    /// A response came with this HTTP status.
    Status(u16),
}

/// What to do after a search request.
#[derive(Debug, Clone, Copy, PartialEq, Eq, Structural)]
pub enum Decision {
    /// Ask again from `next`, after the cool-down pause if `cool_down` holds.
    Retry { next: RetryState, cool_down: bool },
    /// The page came: read its body and look for the title in it.
    ReadBody,
    /// Stop the search with this error.
    Fail(LibgenError),
}

/// HTTP status of a page that came.
pub const STATUS_OK: u16 = 200;

/// HTTP status of a busy server.
pub const STATUS_SERVICE_UNAVAILABLE: u16 = 503;

/// What follows an attempt made from `state`, with `mirror_count` mirrors
/// and at most `max_retries` retries. A busy answer moves on to the next
/// mirror; after the last mirror it pauses and starts again at the first.
pub open spec fn next_step(
    mirror_count: nat,
    max_retries: nat,
    state: RetryState,
    attempt: Attempt,
) -> Decision {
    match attempt {
        Attempt::ConnectionFailed => Decision::Fail(LibgenError::ConnectionError),
        Attempt::Status(code) => if code == STATUS_OK {
            Decision::ReadBody
        } else if code == STATUS_SERVICE_UNAVAILABLE {
            if state.retries + 1 > max_retries {
                Decision::Fail(LibgenError::TimeoutError)
            } else if state.mirror + 1 < mirror_count {
                Decision::Retry {
                    next: RetryState { retries: (state.retries + 1) as usize, mirror: (state.mirror + 1) as usize },
                    cool_down: false,
                }
            } else {
                Decision::Retry {
                    next: RetryState { retries: (state.retries + 1) as usize, mirror: 0 },
                    cool_down: true,
                }
            }
        } else {
            Decision::Fail(LibgenError::NetworkError)
        },
    }
}

/// The mirrors to search and how patiently to wait for them.
pub struct SearchConfig {
    /// Domain suffixes of the mirrors, in the order they are tried
    pub mirrors: Vec<String>,
    /// How many busy answers a search takes before it gives up
    pub max_retries: usize,
    /// Seconds to wait for one response
    pub timeout_secs: u64,
    /// Seconds to pause once every mirror has been busy
    pub cool_down_secs: u64,
}

/// The search page of a mirror for an already encoded title.
pub open spec fn search_url(mirror: Seq<char>, encoded_title: Seq<char>) -> Seq<char> {
    "https://www.libgen."@ + mirror + "/search.php?&req="@ + encoded_title
        + "&phrase=1&view=simple&column=title&sort=year&sortmode=DESC"@
}

impl SearchConfig {
    /// Whether the configuration can run a search: it has a mirror.
    pub open spec fn wf(&self) -> bool {
        self.mirrors.len() > 0
    }

    /// Whether `state` can occur in a search under this configuration.
    pub open spec fn valid_state(&self, state: RetryState) -> bool {
        state.mirror < self.mirrors.len() && state.retries <= self.max_retries
    }

    /// The mirrors `is`, `rs` and `st`, three retries, fifteen seconds per
    /// response and fifteen seconds of pause.
    pub fn new() -> (r: Self)
        ensures
            r.wf(),
            r.mirrors@.len() == 3,
            r.mirrors@[0]@ == "is"@,
            r.mirrors@[1]@ == "rs"@,
            r.mirrors@[2]@ == "st"@,
            r.max_retries == 3,
            r.timeout_secs == 15,
            r.cool_down_secs == 15,
    {
        let mut mirrors: Vec<String> = Vec::new();
        mirrors.push(String::from_str("is"));
        mirrors.push(String::from_str("rs"));
        mirrors.push(String::from_str("st"));
        SearchConfig { mirrors, max_retries: 3, timeout_secs: 15, cool_down_secs: 15 }
    }

    /// Where a search starts: no retries, the first mirror.
    pub fn initial_state(&self) -> (r: RetryState)
        ensures
            r == (RetryState { retries: 0, mirror: 0 }),
    {
        RetryState { retries: 0, mirror: 0 }
    }

    /// Decides what follows an attempt made from `state`.
    pub fn decide(&self, state: RetryState, attempt: Attempt) -> (r: Decision)
        requires
            self.wf(),
            self.valid_state(state),
        ensures
            r == next_step(self.mirrors.len() as nat, self.max_retries as nat, state, attempt),
            r matches Decision::Retry { next, cool_down: _ } ==> self.valid_state(next)
                && next.retries == state.retries + 1,
    {
        match attempt {
            Attempt::ConnectionFailed => Decision::Fail(LibgenError::ConnectionError),
            Attempt::Status(code) => {
                if code == STATUS_OK {
                    Decision::ReadBody
                } else if code == STATUS_SERVICE_UNAVAILABLE {
                    if state.retries >= self.max_retries {
                        Decision::Fail(LibgenError::TimeoutError)
                    } else if state.mirror + 1 < self.mirrors.len() {
                        Decision::Retry {
                            next: RetryState { retries: state.retries + 1, mirror: state.mirror + 1 },
                            cool_down: false,
                        }
                    } else {
                        Decision::Retry {
                            next: RetryState { retries: state.retries + 1, mirror: 0 },
                            cool_down: true,
                        }
                    }
                } else {
                    Decision::Fail(LibgenError::NetworkError)
                }
            },
        }
    }

    /// The search page to ask from `state` for an already encoded title.
    pub fn search_page_url(&self, state: RetryState, encoded_title: &str) -> (r: String)
        requires
            self.valid_state(state),
        ensures
            r@ == search_url(self.mirrors@[state.mirror as int]@, encoded_title@),
    {
        let mut r = String::from_str("https://www.libgen.");
        r.append(self.mirrors[state.mirror].as_str());
        r.append("/search.php?&req=");
        r.append(encoded_title);
        r.append("&phrase=1&view=simple&column=title&sort=year&sortmode=DESC");
        r
    }

    /// The search page to ask from `state` for a title, which it encodes.
    pub fn search_request_url(&self, state: RetryState, title: &str) -> (r: String)
        requires
            self.valid_state(state),
        ensures
            r@ == search_url(self.mirrors@[state.mirror as int]@, url_encoded(title@)),
    {
        let encoded = url_encode(title);
        self.search_page_url(state, encoded.as_str())
    }
}

/// Busy answers from every mirror end a search with `TimeoutError`: after
/// `j` busy answers a search asks mirror `j % mirror_count` at retry `j`, each
/// further busy answer moves it one retry and one mirror on, pausing when it
/// wraps to the first mirror, and the busy answer at retry `max_retries` ends
/// it. So a search that only meets busy mirrors stops after
/// `max_retries + 1` requests.
pub proof fn lemma_busy_mirrors_exhaust(mirror_count: nat, max_retries: usize, j: nat)
    requires
        mirror_count > 0,
        j <= max_retries,
    ensures
        next_step(
            mirror_count,
            max_retries as nat,
            RetryState { retries: j as usize, mirror: (j % mirror_count) as usize },
            Attempt::Status(STATUS_SERVICE_UNAVAILABLE),
        ) == if j < max_retries {
            Decision::Retry {
                next: RetryState {
                    retries: (j + 1) as usize,
                    mirror: ((j + 1) % mirror_count) as usize,
                },
                cool_down: (j + 1) % mirror_count == 0,
            }
        } else {
            Decision::Fail(LibgenError::TimeoutError)
        },
{
    let n = mirror_count as int;
    let q = j as int / n;
    let m = j as int % n;
    vstd::arithmetic::div_mod::lemma_fundamental_div_mod(j as int, n);
    vstd::arithmetic::div_mod::lemma_mod_pos_bound(j as int, n);
    if m + 1 < n {
        vstd::arithmetic::div_mod::lemma_fundamental_div_mod_converse_mod(j as int + 1, n, q, m + 1);
    } else {
        assert(j + 1 == (q + 1) * n + 0) by (nonlinear_arith)
            requires
                j == n * q + m,
                m + 1 == n,
        ;
        vstd::arithmetic::div_mod::lemma_fundamental_div_mod_converse_mod(j as int + 1, n, q + 1, 0);
    }
}

} // verus!
