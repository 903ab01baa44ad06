//! The process supervisor's listing: the status of each named process, read
//! from the JSON array that the supervisor prints.

use vstd::prelude::*;

verus! {

/// The records that serde_json reads from a text holding a JSON array:
/// for each element, in order, its `name` and its `pm2_env.status` where
/// these are strings. `None` where the text is not JSON, or is JSON but not
/// an array.
pub uninterp spec fn listing_of(s: Seq<char>) -> Option<Seq<(Option<Seq<char>>, Option<Seq<char>>)>>;

/// The characters of an optional string.
pub open spec fn opt_string(t: Option<String>) -> Option<Seq<char>> {
    match t {
        Some(s) => Some(s@),
        None => None,
    }
}

/// Relies on `serde_json::from_str` into a `serde_json::Value`, then on
/// `Value::as_array`, `Value::pointer` and `Value::as_str` to read each
/// element's name and status; all depend on the text alone.
#[verifier::external_body]
fn parse_listing(s: &str) -> (r: Option<Vec<(Option<String>, Option<String>)>>)
    ensures
        r is Some == listing_of(s@) is Some,
        r matches Some(items) ==> items@.len() == listing_of(s@)->Some_0.len(),
        r matches Some(items) ==> forall|i: int| 0 <= i < items@.len() ==>
            opt_string(#[trigger] items@[i].0) == listing_of(s@)->Some_0[i].0
            && opt_string(items@[i].1) == listing_of(s@)->Some_0[i].1,
{
    let value = serde_json::from_str::<serde_json::Value>(s).ok()?;
    let items = value.as_array()?;
    Some(items.iter().map(|item| (
        item.pointer("/name").and_then(serde_json::Value::as_str).map(String::from),
        item.pointer("/pm2_env/status").and_then(serde_json::Value::as_str).map(String::from),
    )).collect())
}

/// One process of the listing.
pub struct ProcessEntry {
    pub name: String,
    pub status: String,
}

/// The status of each named process; a name occurs once.
pub struct ProcessTable {
    pub entries: Vec<ProcessEntry>,
}

/// The status recorded for a name in a list of entries, if any.
pub open spec fn status_in(entries: Seq<ProcessEntry>, name: Seq<char>) -> Option<Seq<char>> {
    if exists|i: int| 0 <= i < entries.len() && #[trigger] entries[i].name@ == name {
        Some(entries[choose|i: int| 0 <= i < entries.len() && #[trigger] entries[i].name@ == name].status@)
    } else {
        None
    }
}

/// No name occurs twice.
pub open spec fn unique_names(entries: Seq<ProcessEntry>) -> bool {
    forall|i: int, j: int|
        0 <= i < entries.len() && 0 <= j < entries.len() && i != j ==> #[trigger] entries[i].name@ != #[trigger] entries[j].name@
}

proof fn lemma_status_at(entries: Seq<ProcessEntry>, i: int)
    requires
        unique_names(entries),
        0 <= i < entries.len(),
    ensures
        status_in(entries, entries[i].name@) == Some(entries[i].status@),
{
    let nm = entries[i].name@;
    assert(0 <= i < entries.len() && entries[i].name@ == nm);
    let c = choose|k: int| 0 <= k < entries.len() && #[trigger] entries[k].name@ == nm;
    if c != i {
        assert(entries[c].name@ != entries[i].name@);
    }
}

proof fn lemma_status_same(before: Seq<ProcessEntry>, after: Seq<ProcessEntry>, nm: Seq<char>)
    requires
        unique_names(before),
        unique_names(after),
        forall|k: int| 0 <= k < after.len() && #[trigger] after[k].name@ == nm ==> k < before.len() && before[k] == after[k],
        forall|k: int| 0 <= k < before.len() && #[trigger] before[k].name@ == nm ==> k < after.len() && before[k] == after[k],
    ensures
        status_in(after, nm) == status_in(before, nm),
{
    if exists|k: int| 0 <= k < after.len() && #[trigger] after[k].name@ == nm {
        let k = choose|k: int| 0 <= k < after.len() && #[trigger] after[k].name@ == nm;
        lemma_status_at(after, k);
        lemma_status_at(before, k);
    } else if exists|k: int| 0 <= k < before.len() && #[trigger] before[k].name@ == nm {
        let k = choose|k: int| 0 <= k < before.len() && #[trigger] before[k].name@ == nm;
        assert(after[k].name@ == nm);
    }
}

impl ProcessTable {
    /// No name occurs twice.
    pub open spec fn wf(&self) -> bool {
        unique_names(self.entries@)
    }

    /// The status recorded for a process name, if any.
    pub open spec fn status_of(&self, name: Seq<char>) -> Option<Seq<char>> {
        status_in(self.entries@, name)
    }

    /// The number of distinct process names.
    pub open spec fn count(&self) -> nat {
        self.entries@.len()
    }

    /// A table with no process.
    pub fn new() -> (r: ProcessTable)
        ensures
            r.wf(),
            r.count() == 0,
            forall|n: Seq<char>| #[trigger] r.status_of(n) is None,
    {
        ProcessTable { entries: Vec::new() }
    }

    /// The number of distinct process names.
    pub fn len(&self) -> (r: usize)
        ensures
            r == self.count(),
    {
        self.entries.len()
    }

    /// Records a status under a name, replacing the one recorded before.
    pub fn insert(&mut self, name: String, status: String)
        requires
            old(self).wf(),
        ensures
            final(self).wf(),
            final(self).status_of(name@) == Some(status@),
            forall|n: Seq<char>| n != name@ ==> #[trigger] final(self).status_of(n) == old(self).status_of(n),
            final(self).count() == old(self).count() + (if old(self).status_of(name@) is Some { 0int } else { 1int }),
    {
        let n = self.entries.len();
        let mut i: usize = 0;
        while i < n
            invariant
                n == self.entries@.len(),
                i <= n,
                *self == *old(self),
                unique_names(self.entries@),
                forall|k: int| 0 <= k < i ==> #[trigger] self.entries@[k].name@ != name@,
            decreases n - i,
        {
            if self.entries[i].name == name {
                let ghost before = self.entries@;
                self.entries.set(i, ProcessEntry { name, status });
                proof {
                    let after = self.entries@;
                    assert(unique_names(after)) by {
                        assert forall|p: int, q: int|
                            0 <= p < after.len() && 0 <= q < after.len() && p != q implies #[trigger] after[p].name@ != #[trigger] after[q].name@ by {
                            assert(before[p].name@ != before[q].name@);
                        }
                    }
                    lemma_status_at(after, i as int);
                    lemma_status_at(before, i as int);
                    assert forall|nm: Seq<char>| nm != name@ implies #[trigger] self.status_of(nm) == old(self).status_of(nm) by {
                        lemma_status_same(before, after, nm);
                    }
                }
                return;
            }
            i = i + 1;
        }
        let ghost before = self.entries@;
        self.entries.push(ProcessEntry { name, status });
        proof {
            let after = self.entries@;
            assert(unique_names(after)) by {
                assert forall|p: int, q: int|
                    0 <= p < after.len() && 0 <= q < after.len() && p != q implies #[trigger] after[p].name@ != #[trigger] after[q].name@ by {
                    if p < n && q < n {
                        assert(before[p].name@ != before[q].name@);
                    }
                }
            }
            lemma_status_at(after, n as int);
            assert(!exists|k: int| 0 <= k < before.len() && #[trigger] before[k].name@ == name@);
            assert forall|nm: Seq<char>| nm != name@ implies #[trigger] self.status_of(nm) == old(self).status_of(nm) by {
                lemma_status_same(before, after, nm);
            }
        }
    }

    /// The status recorded for a process name, if any.
    pub fn get(&self, name: &str) -> (r: Option<String>)
        requires
            self.wf(),
        ensures
            r matches Some(s) ==> self.status_of(name@) == Some(s@),
            r is None ==> self.status_of(name@) is None,
    {
        let target = String::from_str(name);
        let n = self.entries.len();
        let mut i: usize = 0;
        while i < n
            invariant
                n == self.entries@.len(),
                i <= n,
                target@ == name@,
                unique_names(self.entries@),
                forall|k: int| 0 <= k < i ==> #[trigger] self.entries@[k].name@ != name@,
            decreases n - i,
        {
            if self.entries[i].name == target {
                proof {
                    lemma_status_at(self.entries@, i as int);
                }
                return Some(self.entries[i].status.clone());
            }
            i = i + 1;
        }
        None
    }
}

/// `i` is the first position of `c` in `text`.
pub open spec fn is_first(text: Seq<char>, c: char, i: int) -> bool {
    &&& 0 <= i < text.len()
    &&& text[i] == c
    &&& forall|j: int| 0 <= j < i ==> #[trigger] text[j] != c
}

/// The part of the supervisor's output that holds the JSON: from the first
/// `[` on, or all of it where there is no `[`.
pub open spec fn payload_of(text: Seq<char>) -> Seq<char> {
    if exists|i: int| is_first(text, '[', i) {
        text.subrange(choose|i: int| is_first(text, '[', i), text.len() as int)
    } else {
        text
    }
}

/// What one element of the listing contributes: nothing without a non-empty
/// name; else its status, or `unknown` where it has none.
pub open spec fn recorded(before: ProcessTable, after: ProcessTable, name: Option<Seq<char>>, status: Option<Seq<char>>) -> bool {
    match name {
        Some(n) if n.len() > 0 => {
            let st = match status { Some(t) => t, None => "unknown"@ };
            &&& after.status_of(n) == Some(st)
            &&& forall|m: Seq<char>| m != n ==> #[trigger] after.status_of(m) == before.status_of(m)
            &&& after.count() == before.count() + (if before.status_of(n) is Some { 0int } else { 1int })
        },
        _ => after.entries@ == before.entries@,
    }
}

/// The characters of an optional text.
pub open spec fn opt_text(t: Option<&str>) -> Option<Seq<char>> {
    match t {
        Some(s) => Some(s@),
        None => None,
    }
}

/// Records one element of the supervisor's listing, given its name and
/// status where it has them.
pub fn record_process(table: &mut ProcessTable, name: Option<&str>, status: Option<&str>)
    requires
        old(table).wf(),
    ensures
        final(table).wf(),
        recorded(*old(table), *final(table), opt_text(name), opt_text(status)),
{
    match name {
        Some(n) => {
            if n.unicode_len() == 0 {
                return;
            }
            let st = match status {
                Some(t) => String::from_str(t),
                None => String::from_str("unknown"),
            };
            table.insert(String::from_str(n), st);
        },
        None => {},
    }
}

fn first_bracket(text: &str) -> (r: usize)
    ensures
        (exists|i: int| is_first(text@, '[', i)) ==> is_first(text@, '[', r as int),
        !(exists|i: int| is_first(text@, '[', i)) ==> r == 0,
{
    let n = text.unicode_len();
    let mut i: usize = 0;
    while i < n
        invariant
            n == text@.len(),
            i <= n,
            forall|j: int| 0 <= j < i ==> #[trigger] text@[j] != '[',
        decreases n - i,
    {
        if text.get_char(i) == '[' {
            assert(is_first(text@, '[', i as int));
            return i;
        }
        i = i + 1;
    }
    proof {
        assert forall|k: int| !is_first(text@, '[', k) by {
            if is_first(text@, '[', k) {
                assert(text@[k] == '[');
            }
        }
    }
    0
}

/// The name under which a listing record is kept: its name where that is
/// a non-empty string.
pub open spec fn listed_name(item: (Option<Seq<char>>, Option<Seq<char>>)) -> Option<Seq<char>> {
    match item.0 {
        Some(n) => if n.len() > 0 { Some(n) } else { None },
        None => None,
    }
}

/// The status a listing record gives: its own, or `unknown` where it has none.
pub open spec fn listed_status(item: (Option<Seq<char>>, Option<Seq<char>>)) -> Seq<char> {
    match item.1 {
        Some(t) => t,
        None => "unknown"@,
    }
}

/// The status that the first `n` records of a listing give a name: that of
/// the last of them kept under the name; none where no record is.
pub open spec fn status_upto(items: Seq<(Option<Seq<char>>, Option<Seq<char>>)>, m: Seq<char>, n: nat) -> Option<Seq<char>>
    decreases n,
{
    if n == 0 {
        None
    } else if listed_name(items[n - 1]) == Some(m) {
        Some(listed_status(items[n - 1]))
    } else {
        status_upto(items, m, (n - 1) as nat)
    }
}

/// The number of distinct names under which the first `n` records of a
/// listing are kept.
pub open spec fn distinct_upto(items: Seq<(Option<Seq<char>>, Option<Seq<char>>)>, n: nat) -> nat
    decreases n,
{
    if n == 0 {
        0
    } else {
        distinct_upto(items, (n - 1) as nat) + match listed_name(items[n - 1]) {
            Some(m) => if status_upto(items, m, (n - 1) as nat) is Some { 0nat } else { 1nat },
            None => 0nat,
        }
    }
}

/// Reads the supervisor's listing from what its run left behind: whether it
/// exited successfully, and its standard output. The supervisor is online
/// exactly where it exited successfully and its output, from the first `[`
/// on, is a JSON array. Then the table holds, for each non-empty name, the
/// status of the last element of that name, or `unknown` where it has none;
/// otherwise the table is empty.
pub fn load_pm2_status(exited_ok: bool, stdout: &str) -> (r: (ProcessTable, bool))
    ensures
        r.0.wf(),
        r.1 == (exited_ok && listing_of(payload_of(stdout@)) is Some),
        !r.1 ==> r.0.count() == 0,
        r.1 ==> forall|m: Seq<char>| #[trigger] r.0.status_of(m)
            == status_upto(listing_of(payload_of(stdout@))->Some_0, m, listing_of(payload_of(stdout@))->Some_0.len()),
        r.1 ==> r.0.count() == distinct_upto(listing_of(payload_of(stdout@))->Some_0, listing_of(payload_of(stdout@))->Some_0.len()),
{
    if !exited_ok {
        return (ProcessTable::new(), false);
    }
    let start = first_bracket(stdout);
    let len = stdout.unicode_len();
    let payload = stdout.substring_char(start, len);
    proof {
        if exists|i: int| is_first(stdout@, '[', i) {
            let c = choose|i: int| is_first(stdout@, '[', i);
            assert(c == start as int) by {
                if c < (start as int) {
                    assert(stdout@[c] == '[');
                } else if (start as int) < c {
                    assert(stdout@[start as int] == '[');
                }
            }
        } else {
            assert(stdout@.subrange(0, len as int) =~= stdout@);
        }
    }
    let items = match parse_listing(payload) {
        Some(items) => items,
        None => return (ProcessTable::new(), false),
    };
    let ghost listing = listing_of(payload@)->Some_0;
    let mut table = ProcessTable::new();
    let n = items.len();
    let mut i: usize = 0;
    while i < n
        invariant
            n == items@.len(),
            n == listing.len(),
            i <= n,
            forall|k: int| 0 <= k < items@.len() ==>
                opt_string(#[trigger] items@[k].0) == listing[k].0 && opt_string(items@[k].1) == listing[k].1,
            table.wf(),
            forall|m: Seq<char>| #[trigger] table.status_of(m) == status_upto(listing, m, i as nat),
            table.count() == distinct_upto(listing, i as nat),
        decreases n - i,
    {
        let item = &items[i];
        let name: Option<&str> = match &item.0 {
            Some(t) => Some(t.as_str()),
            None => None,
        };
        let status: Option<&str> = match &item.1 {
            Some(t) => Some(t.as_str()),
            None => None,
        };
        assert(opt_text(name) == listing[i as int].0);
        assert(opt_text(status) == listing[i as int].1);
        let ghost before = table;
        record_process(&mut table, name, status);
        proof {
            let it = listing[i as int];
            assert(((i + 1) as nat - 1) as nat == i as nat);
            assert forall|m: Seq<char>| #[trigger] table.status_of(m) == status_upto(listing, m, (i + 1) as nat) by {
                assert(before.status_of(m) == status_upto(listing, m, i as nat));
            }
            match listed_name(it) {
                Some(nm) => {
                    assert(before.status_of(nm) == status_upto(listing, nm, i as nat));
                },
                None => {},
            }
        }
        i = i + 1;
    }
    (table, true)
}

} // verus!
