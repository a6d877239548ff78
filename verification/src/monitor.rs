//! A monitor that prints one line of statistics for each event, with the
//! statistics that the clients define themselves at its end.

use vstd::prelude::*;
use vstd::string::StringExecFns;
use crate::text::{decimal, push_decimal};

verus! {

/// Whether no two of `entries` have the same name.
pub open spec fn names_distinct(entries: Seq<(Seq<char>, Seq<char>)>) -> bool {
    forall|i: int, j: int|
        0 <= i < entries.len() && 0 <= j < entries.len() && i != j ==> (#[trigger] entries[i]).0
            != (#[trigger] entries[j]).0
}

/// Whether none of `entries` has the name `name`.
pub open spec fn lacks_name(entries: Seq<(Seq<char>, Seq<char>)>, name: Seq<char>) -> bool {
    forall|i: int| 0 <= i < entries.len() ==> (#[trigger] entries[i]).0 != name
}

/// The statistics that a client defines itself: rendered values by name. No
/// name occurs twice, and the names stay in the order in which they first
/// came.
#[derive(Debug, PartialEq, Eq)]
pub struct UserStats {
    entries: Vec<(String, String)>,
}

impl View for UserStats {
    type V = Seq<(Seq<char>, Seq<char>)>;

    closed spec fn view(&self) -> Seq<(Seq<char>, Seq<char>)> {
        Seq::new(self.entries@.len(), |i: int| (self.entries@[i].0@, self.entries@[i].1@))
    }
}

impl UserStats {
    #[verifier::type_invariant]
    closed spec fn no_name_twice(&self) -> bool {
        names_distinct(self@)
    }

    /// No statistics.
    pub fn new() -> (stats: UserStats)
        ensures
            stats@.len() == 0,
    {
        UserStats { entries: Vec::new() }
    }

    /// Number of names.
    pub fn len(&self) -> (n: usize)
        ensures
            n == self@.len(),
            names_distinct(self@),
    {
        proof {
            use_type_invariant(self);
        }
        self.entries.len()
    }

    /// The names and values, in the order in which the names first came.
    pub fn entries(&self) -> (entries: &Vec<(String, String)>)
        ensures
            entries@.len() == self@.len(),
            forall|i: int|
                0 <= i < entries@.len() ==> (#[trigger] entries@[i]).0@ == self@[i].0
                    && entries@[i].1@ == self@[i].1,
            names_distinct(self@),
    {
        proof {
            use_type_invariant(self);
        }
        &self.entries
    }

    fn position(&self, name: &String) -> (at: Option<usize>)
        ensures
            at is Some ==> at->0 < self@.len() && self@[at->0 as int].0 == name@,
            at is None ==> lacks_name(self@, name@),
    {
        let mut i: usize = 0;
        while i < self.entries.len()
            invariant
                0 <= i <= self.entries@.len(),
                forall|k: int| 0 <= k < i ==> (#[trigger] self@[k]).0 != name@,
            decreases self.entries@.len() - i,
        {
            if self.entries[i].0 == *name {
                return Some(i);
            }
            i += 1;
        }
        None
    }

    /// The value of the statistic `name`, if the client has defined it.
    pub fn get(&self, name: &String) -> (value: Option<&String>)
        ensures
            lacks_name(self@, name@) <==> value is None,
            forall|i: int|
                0 <= i < self@.len() && (#[trigger] self@[i]).0 == name@ ==> value is Some
                    && value->0@ == self@[i].1,
    {
        proof {
            use_type_invariant(self);
        }
        match self.position(name) {
            Some(at) => Some(&self.entries[at].1),
            None => None,
        }
    }

    /// Sets the statistic `name` to `value` and returns the value that it had.
    /// A name that the client has defined keeps its place; a new one comes
    /// last.
    pub fn insert(&mut self, name: String, value: String) -> (previous: Option<String>)
        ensures
            names_distinct(final(self)@),
            lacks_name(old(self)@, name@) ==> previous is None && final(self)@ == old(self)@.push(
                (name@, value@),
            ),
            forall|i: int|
                0 <= i < old(self)@.len() && (#[trigger] old(self)@[i]).0 == name@ ==> previous
                    is Some && previous->0@ == old(self)@[i].1 && final(self)@ == old(
                    self,
                )@.update(i, (name@, value@)),
    {
        proof {
            use_type_invariant(&*self);
        }
        let found = self.position(&name);
        let ghost before = self@;
        let ghost added = (name@, value@);
        let mut entries: Vec<(String, String)> = Vec::new();
        core::mem::swap(&mut self.entries, &mut entries);
        let previous = put(&mut entries, found, name, value);
        let ghost after = Seq::new(entries@.len(), |i: int| (entries@[i].0@, entries@[i].1@));
        proof {
            match found {
                Some(at) => {
                    assert(after =~= before.update(at as int, added));
                },
                None => {
                    assert(after =~= before.push(added));
                },
            }
            assert(names_distinct(after));
        }
        core::mem::swap(&mut self.entries, &mut entries);
        assert(self@ =~= after);
        previous
    }
}

/// Puts `(name, value)` in the place `at` of `entries` and returns the value
/// that stood there; without a place, at the end.
fn put(entries: &mut Vec<(String, String)>, at: Option<usize>, name: String, value: String) -> (previous:
    Option<String>)
    requires
        at is Some ==> at->0 < old(entries)@.len(),
    ensures
        at is Some ==> previous == Some(old(entries)@[at->0 as int].1) && final(entries)@ == old(
            entries,
        )@.update(at->0 as int, (name, value)),
        at is None ==> previous is None && final(entries)@ == old(entries)@.push((name, value)),
{
    entries.push((name, value));
    match at {
        Some(at) => {
            let replaced = entries.swap_remove(at);
            assert(entries@ =~= old(entries)@.update(at as int, (name, value)));
            Some(replaced.1)
        },
        None => None,
    }
}

/// The statistics of one client.
#[derive(Debug, PartialEq, Eq)]
pub struct ClientStats {
    /// Number of test cases in the client's corpus.
    pub corpus_size: u64,
    /// Number of objectives that the client has found.
    pub objective_size: u64,
    /// Number of executions that the client has made.
    pub executions: u64,
    /// Statistics that the client defines itself.
    pub user_monitor: UserStats,
}

impl ClientStats {
    /// Whether these are the statistics of a client that has done nothing
    /// yet.
    pub open spec fn is_fresh(&self) -> bool {
        &&& self.corpus_size == 0
        &&& self.objective_size == 0
        &&& self.executions == 0
        &&& self.user_monitor@.len() == 0
    }

    /// The statistics of a client that has done nothing yet.
    pub fn new() -> (stats: ClientStats)
        ensures
            stats.is_fresh(),
    {
        ClientStats {
            corpus_size: 0,
            objective_size: 0,
            executions: 0,
            user_monitor: UserStats::new(),
        }
    }
}

/// One of the counters of a client.
#[derive(Debug, Clone, Copy, PartialEq, Eq, Structural)]
pub enum Counter {
    Corpus,
    Objectives,
    Executions,
}

impl Counter {
    /// The value of this counter in `stats`.
    pub open spec fn of(self, stats: ClientStats) -> nat {
        match self {
            Counter::Corpus => stats.corpus_size as nat,
            Counter::Objectives => stats.objective_size as nat,
            Counter::Executions => stats.executions as nat,
        }
    }
}

/// The sum of one counter over all clients.
pub open spec fn total(stats: Seq<ClientStats>, counter: Counter) -> nat
    decreases stats.len(),
{
    if stats.len() == 0 {
        0
    } else {
        total(stats.drop_last(), counter) + counter.of(stats.last())
    }
}

/// The statistics that one client defines itself, each as its name, a colon,
/// a space and its value.
pub open spec fn client_entries(user_monitor: Seq<(Seq<char>, Seq<char>)>) -> Seq<Seq<char>> {
    Seq::new(user_monitor.len(), |i: int| user_monitor[i].0 + ": "@ + user_monitor[i].1)
}

/// The statistics that the clients define themselves, client after client.
pub open spec fn all_entries(stats: Seq<ClientStats>) -> Seq<Seq<char>>
    decreases stats.len(),
{
    if stats.len() == 0 {
        Seq::empty()
    } else {
        all_entries(stats.drop_last()) + client_entries(stats.last().user_monitor@)
    }
}

/// The texts `parts` with a comma between each two.
pub open spec fn joined(parts: Seq<Seq<char>>) -> Seq<char>
    decreases parts.len(),
{
    if parts.len() == 0 {
        Seq::empty()
    } else if parts.len() == 1 {
        parts[0]
    } else {
        joined(parts.drop_last()) + ","@ + parts.last()
    }
}

/// A time span of `secs` seconds as hours, minutes and seconds.
pub open spec fn duration_hms(secs: nat) -> Seq<char> {
    decimal(secs / 3600) + "h-"@ + decimal((secs / 60) % 60) + "m-"@ + decimal(secs % 60) + "s"@
}

/// The line that is printed for an event.
pub open spec fn display_line(
    event_msg: Seq<char>,
    sender_id: u32,
    run_time_secs: u64,
    execs_per_sec: u64,
    stats: Seq<ClientStats>,
) -> Seq<char> {
    "["@ + event_msg + " #"@ + decimal(sender_id as nat) + "]: { run time: "@ + duration_hms(
        run_time_secs as nat,
    ) + ", clients: "@ + decimal(stats.len()) + ", corpus: "@ + decimal(
        total(stats, Counter::Corpus),
    ) + ", objectives: "@ + decimal(total(stats, Counter::Objectives)) + ", executions: "@
        + decimal(total(stats, Counter::Executions)) + ", exec/sec: "@ + decimal(
        execs_per_sec as nat,
    ) + ", \n\tper_c ["@ + joined(all_entries(stats)) + "] }"@
}

/// Appends a time span of `secs` seconds as hours, minutes and seconds.
pub fn push_duration_hms(out: &mut String, secs: u64)
    ensures
        final(out)@ == old(out)@ + duration_hms(secs as nat),
{
    push_decimal(out, secs / 3600);
    out.append("h-");
    push_decimal(out, (secs / 60) % 60);
    out.append("m-");
    push_decimal(out, secs % 60);
    out.append("s");
}

/// Adding a text to a list adds it to the joined list, after a comma where
/// the list was not empty.
proof fn lemma_joined_push(parts: Seq<Seq<char>>, part: Seq<char>)
    ensures
        joined(parts.push(part)) == if parts.len() == 0 {
            part
        } else {
            joined(parts) + ","@ + part
        },
{
    assert(parts.push(part).drop_last() =~= parts);
}

/// A monitor with the printing function `F`.
pub struct UEMonitor<F> {
    print_fn: F,
    client_stats: Vec<ClientStats>,
}

impl<F> View for UEMonitor<F> {
    type V = Seq<ClientStats>;

    closed spec fn view(&self) -> Seq<ClientStats> {
        self.client_stats@
    }
}

impl<F> UEMonitor<F> {
    /// The printing function of the monitor.
    pub closed spec fn spec_print_fn(&self) -> F {
        self.print_fn
    }

    /// Whether each counter summed over all clients fits a `u64`.
    pub open spec fn totals_fit(&self) -> bool {
        &&& total(self@, Counter::Corpus) <= u64::MAX
        &&& total(self@, Counter::Objectives) <= u64::MAX
        &&& total(self@, Counter::Executions) <= u64::MAX
    }

    /// A monitor without clients that prints with `f`.
    pub fn new(f: F) -> (monitor: Self)
        ensures
            monitor@.len() == 0,
            monitor.spec_print_fn() == f,
    {
        UEMonitor { print_fn: f, client_stats: Vec::new() }
    }

    /// The printing function, for the caller to print a line with.
    pub fn print_fn(&mut self) -> (f: &mut F)
        ensures
            *f == old(self).spec_print_fn(),
            final(self).spec_print_fn() == *final(f),
            final(self)@ == old(self)@,
    {
        &mut self.print_fn
    }

    /// The statistics of the clients, in the order of their ids.
    pub fn client_stats(&self) -> (stats: &Vec<ClientStats>)
        ensures
            stats@ == self@,
    {
        &self.client_stats
    }

    /// The statistics of the clients, for the caller to change.
    pub fn client_stats_mut(&mut self) -> (stats: &mut Vec<ClientStats>)
        ensures
            stats@ == old(self)@,
            final(self)@ == final(stats)@,
            final(self).spec_print_fn() == old(self).spec_print_fn(),
    {
        &mut self.client_stats
    }

    /// The statistics of the client `client_id`, for the caller to change.
    /// Clients up to that id that the monitor has not seen are added, with
    /// all counters at zero.
    pub fn client_stats_mut_for(&mut self, client_id: u32) -> (stats: &mut ClientStats)
        ensures
            client_id < old(self)@.len() ==> *stats == old(self)@[client_id as int],
            client_id >= old(self)@.len() ==> stats.is_fresh(),
            final(self)@.len() == if client_id < old(self)@.len() {
                old(self)@.len()
            } else {
                client_id as nat + 1
            },
            final(self)@[client_id as int] == *final(stats),
            forall|i: int|
                0 <= i < old(self)@.len() && i != client_id ==> #[trigger] final(self)@[i] == old(
                    self,
                )@[i],
            forall|i: int|
                old(self)@.len() <= i < client_id ==> (#[trigger] final(self)@[i]).is_fresh(),
            final(self).spec_print_fn() == old(self).spec_print_fn(),
    {
        let ghost start = self.client_stats@;
        while self.client_stats.len() <= client_id as usize
            invariant
                self.print_fn == old(self).print_fn,
                start == old(self)@,
                start.len() <= self.client_stats@.len(),
                self.client_stats@.len() <= client_id + 1 || self.client_stats@.len()
                    == start.len(),
                forall|i: int| 0 <= i < start.len() ==> #[trigger] self.client_stats@[i] == start[i],
                forall|i: int|
                    start.len() <= i < self.client_stats@.len() ==> (
                    #[trigger] self.client_stats@[i]).is_fresh(),
            decreases client_id + 1 - self.client_stats@.len(),
        {
            self.client_stats.push(ClientStats::new());
        }
        &mut self.client_stats[client_id as usize]
    }

    fn sum(&self, counter: Counter) -> (n: u64)
        requires
            total(self@, counter) <= u64::MAX,
        ensures
            n == total(self@, counter),
    {
        let mut n: u64 = 0;
        let mut i: usize = 0;
        while i < self.client_stats.len()
            invariant
                0 <= i <= self.client_stats@.len(),
                n == total(self.client_stats@.take(i as int), counter),
                total(self.client_stats@, counter) <= u64::MAX,
            decreases self.client_stats@.len() - i,
        {
            proof {
                assert(self.client_stats@.take(i as int + 1).drop_last()
                    =~= self.client_stats@.take(i as int));
                lemma_total_grows(self.client_stats@, counter, i as int + 1);
            }
            let stats = &self.client_stats[i];
            let value = match counter {
                Counter::Corpus => stats.corpus_size,
                Counter::Objectives => stats.objective_size,
                Counter::Executions => stats.executions,
            };
            n = n + value;
            i += 1;
        }
        proof {
            assert(self.client_stats@.take(i as int) =~= self.client_stats@);
        }
        n
    }

    fn push_entries(&self, out: &mut String)
        ensures
            final(out)@ == old(out)@ + joined(all_entries(self@)),
    {
        let ghost mut done: Seq<Seq<char>> = Seq::empty();
        let mut first = true;
        let mut i: usize = 0;
        while i < self.client_stats.len()
            invariant
                0 <= i <= self.client_stats@.len(),
                done == all_entries(self.client_stats@.take(i as int)),
                first == (done.len() == 0),
                out@ == old(out)@ + joined(done),
            decreases self.client_stats@.len() - i,
        {
            let stats = &self.client_stats[i].user_monitor;
            let user_monitor = stats.entries();
            let ghost before = done;
            let mut j: usize = 0;
            while j < user_monitor.len()
                invariant
                    0 <= j <= user_monitor@.len(),
                    user_monitor@.len() == stats@.len(),
                    forall|k: int|
                        0 <= k < user_monitor@.len() ==> (#[trigger] user_monitor@[k]).0@
                            == stats@[k].0 && user_monitor@[k].1@ == stats@[k].1,
                    done == before + client_entries(stats@).take(j as int),
                    first == (done.len() == 0),
                    out@ == old(out)@ + joined(done),
                decreases user_monitor@.len() - j,
            {
                let ghost entry = client_entries(stats@)[j as int];
                if !first {
                    out.append(",");
                }
                out.append(user_monitor[j].0.as_str());
                out.append(": ");
                out.append(user_monitor[j].1.as_str());
                proof {
                    lemma_joined_push(done, entry);
                    done = done.push(entry);
                }
                first = false;
                j += 1;
            }
            proof {
                assert(self.client_stats@.take(i as int + 1).drop_last()
                    =~= self.client_stats@.take(i as int));
            }
            i += 1;
        }
        proof {
            assert(self.client_stats@.take(i as int) =~= self.client_stats@);
        }
    }

    /// The line for the event `event_msg` of the client `sender_id`, after a
    /// run time of `run_time_secs` seconds and at `execs_per_sec` executions
    /// in a second.
    pub fn display(
        &self,
        event_msg: &str,
        sender_id: u32,
        run_time_secs: u64,
        execs_per_sec: u64,
    ) -> (line: String)
        requires
            self.totals_fit(),
        ensures
            line@ == display_line(event_msg@, sender_id, run_time_secs, execs_per_sec, self@),
    {
        let mut line = String::from_str("[");
        line.append(event_msg);
        line.append(" #");
        push_decimal(&mut line, sender_id as u64);
        line.append("]: { run time: ");
        push_duration_hms(&mut line, run_time_secs);
        line.append(", clients: ");
        push_decimal(&mut line, self.client_stats.len() as u64);
        line.append(", corpus: ");
        push_decimal(&mut line, self.corpus_size());
        line.append(", objectives: ");
        push_decimal(&mut line, self.objective_size());
        line.append(", executions: ");
        push_decimal(&mut line, self.total_execs());
        line.append(", exec/sec: ");
        push_decimal(&mut line, execs_per_sec);
        line.append(", \n\tper_c [");
        self.push_entries(&mut line);
        line.append("] }");
        line
    }

    /// Number of test cases in the corpora of all clients.
    pub fn corpus_size(&self) -> (n: u64)
        requires
            total(self@, Counter::Corpus) <= u64::MAX,
        ensures
            n == total(self@, Counter::Corpus),
    {
        self.sum(Counter::Corpus)
    }

    /// Number of objectives that all clients have found.
    pub fn objective_size(&self) -> (n: u64)
        requires
            total(self@, Counter::Objectives) <= u64::MAX,
        ensures
            n == total(self@, Counter::Objectives),
    {
        self.sum(Counter::Objectives)
    }

    /// Number of executions that all clients have made.
    pub fn total_execs(&self) -> (n: u64)
        requires
            total(self@, Counter::Executions) <= u64::MAX,
        ensures
            n == total(self@, Counter::Executions),
    {
        self.sum(Counter::Executions)
    }
}

/// A counter summed over the first `n` clients is at most its sum over all.
proof fn lemma_total_grows(stats: Seq<ClientStats>, counter: Counter, n: int)
    requires
        0 <= n <= stats.len(),
    ensures
        total(stats.take(n), counter) <= total(stats, counter),
    decreases stats.len() - n,
{
    if n < stats.len() {
        assert(stats.take(n + 1).drop_last() =~= stats.take(n));
        lemma_total_grows(stats, counter, n + 1);
    } else {
        assert(stats.take(n) =~= stats);
    }
}

} // verus!
