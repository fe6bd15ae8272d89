use vstd::prelude::*;

verus! {

/// Mints process-unique numeric identifiers: a monotonically increasing
/// counter, handed explicitly to whoever needs fresh ids rather than hidden
/// in global state, so that independent generators can be constructed.
///
/// The first id handed out by a fresh generator is 1; each call returns the
/// current counter value and advances it by one, wrapping on `u64` overflow
/// (practically unreachable from a fresh start).
pub struct IdGenerator {
    next: u64,
}

impl View for IdGenerator {
    type V = u64;

    /// The value the next call of `next_id` will return.
    closed spec fn view(&self) -> u64 {
        self.next
    }
}

impl IdGenerator {
    /// A fresh generator, whose first id will be 1.
    pub fn new() -> (gen: IdGenerator)
        ensures
            gen@ == 1u64,
    {
        IdGenerator { next: 1 }
    }

    /// Returns the current counter value and advances the counter by one,
    /// wrapping on overflow. Two calls on one generator never return the
    /// same value unless the counter has wrapped all the way around.
    pub fn next_id(&mut self) -> (id: u64)
        ensures
            id == old(self)@,
            final(self)@ == (if old(self)@ == u64::MAX {
                0u64
            } else {
                (old(self)@ + 1) as u64
            }),
    {
        let id = self.next;
        self.next = self.next.wrapping_add(1);
        id
    }

    /// A run of `n` calls of `next_id` on one generator: the k-th call
    /// returns the k-th value after the starting counter, so the returned
    /// ids are consecutive, beginning with the first call's value, and
    /// pairwise distinct.
    pub fn next_ids(&mut self, n: usize) -> (ids: Vec<u64>)
        requires
            old(self)@ + n <= u64::MAX + 1,
        ensures
            ids@.len() == n,
            forall|k: int| 0 <= k < n ==> #[trigger] ids@[k] == old(self)@ + k,
            forall|i: int, j: int|
                0 <= i < n && 0 <= j < n && i != j ==> ids@[i] != ids@[j],
            final(self)@ == old(self)@ + n || (final(self)@ == 0 && old(self)@ + n == u64::MAX
                + 1),
    {
        let mut ids: Vec<u64> = Vec::new();
        let mut k: usize = 0;
        while k < n
            invariant
                k <= n,
                self@ == old(self)@ + k || (self@ == 0 && old(self)@ + k == u64::MAX + 1),
                old(self)@ + n <= u64::MAX + 1,
                ids@.len() == k,
                forall|m: int| 0 <= m < k ==> #[trigger] ids@[m] == old(self)@ + m,
            decreases n - k,
        {
            ids.push(self.next_id());
            k = k + 1;
        }
        ids
    }
}

/// Mints a fresh id from the given generator.
pub fn generate_id(counter: &mut IdGenerator) -> (id: u64)
    ensures
        id == old(counter)@,
        final(counter)@ == (if old(counter)@ == u64::MAX {
            0u64
        } else {
            (old(counter)@ + 1) as u64
        }),
{
    counter.next_id()
}

/// What `str::trim` returns on a string: the string with leading and
/// trailing whitespace removed.
pub uninterp spec fn trimmed_of(s: Seq<char>) -> Seq<char>;

/// What `str::to_lowercase` returns on a string; the result depends on the
/// characters alone.
pub uninterp spec fn lower_of(s: Seq<char>) -> Seq<char>;

/// Relies on str::trim: removes leading and trailing whitespace, nothing else.
#[verifier::external_body]
fn trim_str(s: &str) -> (r: &str)
    ensures
        r@ == trimmed_of(s@),
        s@.len() == 0 ==> r@.len() == 0,
{
    s.trim()
}

/// Relies on str::to_lowercase: lower-cases the characters, nothing else.
#[verifier::external_body]
fn lower_str(s: &str) -> (r: String)
    ensures
        r@ == lower_of(s@),
        s@.len() == 0 ==> r@.len() == 0,
{
    s.to_lowercase()
}

/// Normalizes a display name: trimmed of surrounding whitespace, then
/// lower-cased.
pub fn format_name(name: &str) -> (formatted: String)
    ensures
        formatted@ == lower_of(trimmed_of(name@)),
{
    let trimmed = trim_str(name);
    lower_str(trimmed)
}

/// Plain settings record; declared defaults, enforced nowhere.
pub struct Config {
    pub max_users: usize,
    pub timeout_ms: u64,
}

impl Default for Config {
    /// The declared default settings: 100 users, 5000 ms.
    fn default() -> (config: Self)
        ensures
            config.max_users == 100,
            config.timeout_ms == 5000,
    {
        Self { max_users: 100, timeout_ms: 5000 }
    }
}

} // verus!
