//! The endpoint pool: an ordered, non-empty list of write-endpoint URLs
//! and a round-robin cursor. Successive sends walk the list in order and
//! wrap, spreading the calls across credentials.

use vstd::prelude::*;
use vstd::string::StringExecFns;

verus! {

/// Builds the write-endpoint URL for one credential token and method name.
pub fn api_url(token: &str, method: &str) -> (r: String)
    ensures
        r@ == "https://api.telegram.org/bot"@ + token@ + "/"@ + method@,
{
    let mut r = String::from_str("https://api.telegram.org/bot");
    r.append(token);
    r.append("/");
    r.append(method);
    r
}

/// The write-endpoint URL for one credential token.
pub open spec fn edit_url_of(token: Seq<char>) -> Seq<char> {
    "https://api.telegram.org/bot"@ + token + "/editMessageText"@
}

/// Builds the pool for a set of credential tokens: one write endpoint
/// per credential, in the given order, cursor at the first.
pub fn build_pool(tokens: &Vec<String>) -> (p: Pool)
    requires
        tokens@.len() > 0,
    ensures
        p.wf(),
        p.idx == 0,
        p.urls@.len() == tokens@.len(),
        forall|i: int| 0 <= i < tokens@.len() ==> p.urls@[i]@ == edit_url_of(
            #[trigger] tokens@[i]@,
        ),
{
    let mut urls: Vec<String> = Vec::new();
    let mut i: usize = 0;
    while i < tokens.len()
        invariant
            i <= tokens@.len(),
            urls@.len() == i,
            forall|j: int| 0 <= j < i ==> urls@[j]@ == edit_url_of(#[trigger] tokens@[j]@),
        decreases tokens@.len() - i,
    {
        let u = api_url(tokens[i].as_str(), "editMessageText");
        proof {
            reveal_strlit("/");
            reveal_strlit("editMessageText");
            reveal_strlit("/editMessageText");
            assert(u@ =~= edit_url_of(tokens@[i as int]@));
        }
        urls.push(u);
        i = i + 1;
    }
    Pool::new(urls)
}

/// The ordered endpoint URLs and the cursor of the next one to use.
#[derive(Debug)]
pub struct Pool {
    /// The endpoint URLs, in configuration order; never empty.
    pub urls: Vec<String>,
    /// Index of the endpoint the next send will use.
    pub idx: usize,
}

impl Pool {
    /// The pool is non-empty and the cursor points into it.
    pub open spec fn wf(self) -> bool {
        self.urls.len() > 0 && self.idx < self.urls.len()
    }

    /// A pool over the given URLs, cursor at the first.
    pub fn new(urls: Vec<String>) -> (r: Pool)
        requires
            urls@.len() > 0,
        ensures
            r.wf(),
            r.urls == urls,
            r.idx == 0,
    {
        Pool { urls, idx: 0 }
    }

    /// Returns the endpoint under the cursor and advances the cursor by
    /// one, wrapping at the end of the list; the list itself never
    /// changes.
    pub fn next_url(&mut self) -> (r: String)
        requires
            old(self).wf(),
        ensures
            final(self).wf(),
            r == old(self).urls@[old(self).idx as int],
            final(self).urls == old(self).urls,
            final(self).idx as int == (old(self).idx + 1) % (old(self).urls@.len() as int),
    {
        let r = self.urls[self.idx].clone();
        self.idx = self.idx + 1;
        if self.idx >= self.urls.len() {
            proof {
                vstd::arithmetic::div_mod::lemma_mod_self_0(self.urls@.len() as int);
            }
            self.idx = 0;
        } else {
            proof {
                vstd::arithmetic::div_mod::lemma_small_mod(
                    self.idx as nat,
                    self.urls@.len() as nat,
                );
            }
        }
        r
    }

    /// How many endpoints the pool holds.
    pub fn len(&self) -> (n: usize)
        ensures
            n == self.urls@.len(),
    {
        self.urls.len()
    }
}

/// The cursor position after some number of sends.
pub open spec fn cursor_after(start: int, sends: nat, n: int) -> int
    recommends
        n > 0,
    decreases sends,
{
    if sends == 0 {
        start
    } else {
        (cursor_after(start, (sends - 1) as nat, n) + 1) % n
    }
}

/// After `k` sends from cursor `start`, the cursor stands at
/// `(start + k) mod n`.
pub proof fn lemma_cursor_after(start: int, sends: nat, n: int)
    requires
        n > 0,
        0 <= start < n,
    ensures
        cursor_after(start, sends, n) == (start + sends) % n,
    decreases sends,
{
    if sends == 0 {
        vstd::arithmetic::div_mod::lemma_small_mod(start as nat, n as nat);
    } else {
        lemma_cursor_after(start, (sends - 1) as nat, n);
        let c = start + sends - 1;
        vstd::arithmetic::div_mod::lemma_fundamental_div_mod(c, n);
        vstd::arithmetic::div_mod::lemma_mod_multiples_vanish(c / n, c % n + 1, n);
    }
}

/// Round robin: over any `n` consecutive sends, an `n`-endpoint pool uses
/// each endpoint exactly once, in list order starting at the cursor — no
/// two of the `n` sends share an endpoint index.
pub proof fn lemma_round_robin(start: int, a: nat, b: nat, n: int)
    requires
        n > 0,
        0 <= start < n,
        a < b,
        b < n,
    ensures
        cursor_after(start, a, n) != cursor_after(start, b, n),
{
    lemma_cursor_after(start, a, n);
    lemma_cursor_after(start, b, n);
    let x = start + a;
    let y = start + b;
    if x % n == y % n {
        vstd::arithmetic::div_mod::lemma_mod_equivalence(y, x, n);
        vstd::arithmetic::div_mod::lemma_small_mod((b - a) as nat, n as nat);
    }
}

} // verus!
