//! The snapshot builder: merges the bot registry, the process supervisor's
//! listing and the bots' log files into one `Snapshot`, with its warnings and
//! alerts.

use vstd::prelude::*;

use crate::process::ProcessTable;
use crate::text::{
    ascii_upper_seq, contains, decimal_usize, join, lines_of, lowercase, lowered, nat_text,
    seq_contains, split_lines, upper_ascii_text,
};

verus! {

/// How many lines of a log are kept.
pub const TAIL_LINES: usize = 10;

/// One file of the logs directory, as the caller found it.
pub struct LogFile {
    /// The file's name within the directory.
    pub file_name: String,
    /// The path under which the file is shown and read.
    pub path: String,
    /// The modification time, in nanoseconds since the epoch, where it could be read.
    pub modified: Option<u128>,
    /// The file's text, where it could be read.
    pub contents: Option<String>,
}

/// The logs directory: whether it exists, and its `.log` files.
pub struct LogDirectory {
    pub exists: bool,
    pub files: Vec<LogFile>,
}

/// Whether a line carries one of the markers `ERROR`, `WARN`, `FATAL`, in any
/// case of ASCII letters.
pub open spec fn has_marker(line: Seq<char>) -> bool {
    let u = ascii_upper_seq(line);
    seq_contains(u, "ERROR"@) || seq_contains(u, "WARN"@) || seq_contains(u, "FATAL"@)
}

/// Whether a log line carries an error or warning marker.
pub fn has_error_marker(line: &str) -> (r: bool)
    ensures
        r == has_marker(line@),
{
    let upper = upper_ascii_text(line);
    let r = contains(upper.as_str(), "ERROR") || contains(upper.as_str(), "WARN") || contains(
        upper.as_str(),
        "FATAL",
    );
    proof {
        reveal_strlit("ERROR");
        reveal_strlit("WARN");
        reveal_strlit("FATAL");
    }
    r
}

/// The last `max_lines` items of `lines`, in their order.
pub open spec fn last_n<T>(lines: Seq<T>, max_lines: nat) -> Seq<T> {
    if lines.len() <= max_lines {
        lines
    } else {
        lines.subrange(lines.len() - max_lines, lines.len() as int)
    }
}

/// The last `max_lines` lines of a text, oldest first.
pub fn tail_lines(raw: &str, max_lines: usize) -> (r: Vec<String>)
    ensures
        r@.len() == last_n(lines_of(raw@), max_lines as nat).len(),
        forall|i: int| 0 <= i < r@.len() ==> #[trigger] r@[i]@ == last_n(lines_of(raw@), max_lines as nat)[i],
{
    let all = split_lines(raw);
    let n = all.len();
    let start: usize = if n <= max_lines { 0 } else { n - max_lines };
    let mut r: Vec<String> = Vec::new();
    let mut i: usize = start;
    while i < n
        invariant
            n == all@.len(),
            start <= i <= n,
            start == (if n <= max_lines { 0 } else { n - max_lines }),
            all@.len() == lines_of(raw@).len(),
            forall|k: int| 0 <= k < all@.len() ==> #[trigger] all@[k]@ == lines_of(raw@)[k],
            r@.len() == i - start,
            forall|k: int| 0 <= k < r@.len() ==> #[trigger] r@[k]@ == lines_of(raw@)[start + k],
        decreases n - i,
    {
        r.push(all[i].clone());
        i = i + 1;
    }
    r
}

/// Whether a modification time is no later than another; an unknown time
/// comes before every known one.
pub open spec fn time_le(a: Option<u128>, b: Option<u128>) -> bool {
    match (a, b) {
        (None, _) => true,
        (Some(_), None) => false,
        (Some(x), Some(y)) => x <= y,
    }
}

/// Whether a file name holds the bot's name, ignoring case.
pub open spec fn name_matches(file_name: Seq<char>, bot_name: Seq<char>) -> bool {
    seq_contains(lowered(file_name), lowered(bot_name))
}

/// The file the scan picks: a matching file that no matching file is newer
/// than, and that every later matching file is strictly older than.
pub open spec fn is_latest_match(files: Seq<LogFile>, bot_name: Seq<char>, i: int) -> bool {
    &&& 0 <= i < files.len()
    &&& name_matches(files[i].file_name@, bot_name)
    &&& forall|j: int| 0 <= j < files.len() && name_matches(#[trigger] files[j].file_name@, bot_name)
        ==> time_le(files[j].modified, files[i].modified)
            && (j > i ==> !time_le(files[i].modified, files[j].modified))
}

/// The file named exactly `<bot_name>.log`.
pub open spec fn is_direct_match(files: Seq<LogFile>, bot_name: Seq<char>, i: int) -> bool {
    &&& 0 <= i < files.len()
    &&& files[i].file_name@ == bot_name + ".log"@
    &&& forall|j: int| 0 <= j < i ==> #[trigger] files[j].file_name@ != bot_name + ".log"@
}

/// The log file chosen for a bot: the file named exactly after it if there
/// is one; else, where the directory exists, the most recently modified file
/// whose name holds the bot's name; else none.
pub open spec fn log_choice(dir: LogDirectory, bot_name: Seq<char>) -> Option<int> {
    if exists|i: int| is_direct_match(dir.files@, bot_name, i) {
        Some(choose|i: int| is_direct_match(dir.files@, bot_name, i))
    } else if dir.exists && exists|i: int| is_latest_match(dir.files@, bot_name, i) {
        Some(choose|i: int| is_latest_match(dir.files@, bot_name, i))
    } else {
        None
    }
}

proof fn lemma_direct_unique(files: Seq<LogFile>, bot_name: Seq<char>, i: int, j: int)
    requires
        is_direct_match(files, bot_name, i),
        is_direct_match(files, bot_name, j),
    ensures
        i == j,
{
}

proof fn lemma_latest_unique(files: Seq<LogFile>, bot_name: Seq<char>, i: int, j: int)
    requires
        is_latest_match(files, bot_name, i),
        is_latest_match(files, bot_name, j),
    ensures
        i == j,
{
    if i < j {
        assert(name_matches(files[j].file_name@, bot_name));
    } else if j < i {
        assert(name_matches(files[i].file_name@, bot_name));
    }
}

/// Whether a modification time is no later than another.
fn time_at_most(a: Option<u128>, b: Option<u128>) -> (r: bool)
    ensures
        r == time_le(a, b),
{
    match (a, b) {
        (None, _) => true,
        (Some(_), None) => false,
        (Some(x), Some(y)) => x <= y,
    }
}

/// The index of the file named exactly `<bot_name>.log`, if there is one.
fn find_direct(dir: &LogDirectory, bot_name: &str) -> (r: Option<usize>)
    ensures
        r matches Some(i) ==> is_direct_match(dir.files@, bot_name@, i as int),
        r is None ==> !exists|i: int| is_direct_match(dir.files@, bot_name@, i),
{
    let target = crate::text::join(bot_name, ".log");
    let n = dir.files.len();
    let mut i: usize = 0;
    while i < n
        invariant
            n == dir.files@.len(),
            i <= n,
            target@ == bot_name@ + ".log"@,
            forall|j: int| 0 <= j < i ==> #[trigger] dir.files@[j].file_name@ != bot_name@ + ".log"@,
        decreases n - i,
    {
        if dir.files[i].file_name == target {
            return Some(i);
        }
        i = i + 1;
    }
    None
}

/// The index of the most recently modified file whose name holds the bot's
/// name, ignoring case; among files of equal time, the later one.
fn find_latest(dir: &LogDirectory, bot_name: &str) -> (r: Option<usize>)
    ensures
        r matches Some(i) ==> is_latest_match(dir.files@, bot_name@, i as int),
        r is None ==> !exists|i: int| is_latest_match(dir.files@, bot_name@, i),
{
    let needle = lowercase(bot_name);
    let n = dir.files.len();
    let mut best: Option<usize> = None;
    let mut i: usize = 0;
    while i < n
        invariant
            n == dir.files@.len(),
            i <= n,
            needle@ == lowered(bot_name@),
            best matches Some(b) ==> b < i && name_matches(dir.files@[b as int].file_name@, bot_name@),
            forall|j: int| 0 <= j < i && name_matches(#[trigger] dir.files@[j].file_name@, bot_name@)
                ==> (best matches Some(b) && time_le(dir.files@[j].modified, dir.files@[b as int].modified)
                    && (j > b ==> !time_le(dir.files@[b as int].modified, dir.files@[j].modified))),
        decreases n - i,
    {
        let file = &dir.files[i];
        let hay = lowercase(file.file_name.as_str());
        if contains(hay.as_str(), needle.as_str()) {
            let newer = match best {
                None => true,
                Some(b) => time_at_most(dir.files[b].modified, file.modified),
            };
            if newer {
                best = Some(i);
            }
        }
        i = i + 1;
    }
    match best {
        Some(b) => Some(b),
        None => {
            proof {
                assert forall|k: int| !is_latest_match(dir.files@, bot_name@, k) by {
                    if is_latest_match(dir.files@, bot_name@, k) {
                        assert(name_matches(dir.files@[k].file_name@, bot_name@));
                    }
                }
            }
            None
        },
    }
}

/// The index within `dir.files` of the log file of the named bot.
pub fn resolve_bot_log_path(dir: &LogDirectory, bot_name: &str) -> (r: Option<usize>)
    ensures
        r matches Some(i) ==> log_choice(*dir, bot_name@) == Some(i as int),
        r is None ==> log_choice(*dir, bot_name@) is None,
{
    match find_direct(dir, bot_name) {
        Some(i) => {
            proof {
                let c = choose|k: int| is_direct_match(dir.files@, bot_name@, k);
                lemma_direct_unique(dir.files@, bot_name@, i as int, c);
            }
            Some(i)
        },
        None => {
            if !dir.exists {
                return None;
            }
            match find_latest(dir, bot_name) {
                Some(i) => {
                    proof {
                        let c = choose|k: int| is_latest_match(dir.files@, bot_name@, k);
                        lemma_latest_unique(dir.files@, bot_name@, i as int, c);
                    }
                    Some(i)
                },
                None => None,
            }
        },
    }
}

/// One entry of the bot registry, as the registry file gives it.
#[derive(Clone, Debug)]
pub struct RegistryEntry {
    pub name: Option<String>,
    pub asset_a: String,
    pub asset_b: String,
    pub active: Option<bool>,
}

/// One registry entry enriched with live data.
#[derive(Clone, Debug)]
pub struct BotStatus {
    pub name: String,
    pub pair: String,
    pub active: bool,
    pub runtime_status: String,
    pub log_path: Option<String>,
    pub log_tail: Vec<String>,
}

/// The result of one aggregation pass.
#[derive(Clone, Debug)]
pub struct Snapshot {
    pub bots: Vec<BotStatus>,
    pub warnings: usize,
    pub pm2_online: bool,
    pub pm2_processes: usize,
    pub alerts: Vec<String>,
}

/// A snapshot as plain values.
pub struct SnapshotView {
    pub bots: Seq<BotView>,
    pub warnings: nat,
    pub pm2_online: bool,
    pub pm2_processes: nat,
    pub alerts: Seq<Seq<char>>,
}

impl View for Snapshot {
    type V = SnapshotView;

    open spec fn view(&self) -> SnapshotView {
        SnapshotView {
            bots: self.bots@.map_values(|b: BotStatus| b@),
            warnings: self.warnings as nat,
            pm2_online: self.pm2_online,
            pm2_processes: self.pm2_processes as nat,
            alerts: self.alerts@.map_values(|a: String| a@),
        }
    }
}

/// The registry's entries, where the registry file exists.
pub open spec fn registry_view(registry: Option<Vec<RegistryEntry>>) -> Option<Seq<RegistryEntry>> {
    match registry {
        Some(es) => Some(es@),
        None => None,
    }
}

/// The snapshot of a registry (`None` where its file is missing), a
/// supervisor table and whether the supervisor answered, and a logs
/// directory. One bot per entry, in registry order. One warning and one
/// alert where the supervisor is offline, and where the registry is
/// missing; one warning per malformed pair; one warning and one alert per
/// bot whose log tail carries a marker.
pub open spec fn snapshot_spec(registry: Option<Seq<RegistryEntry>>, t: ProcessTable, online: bool, dir: LogDirectory) -> SnapshotView {
    let base_w: nat = if online { 0 } else { 1 };
    let base_a: Seq<Seq<char>> = if online { Seq::empty() } else { seq![offline_alert()] };
    match registry {
        None => SnapshotView {
            bots: Seq::empty(),
            warnings: base_w + 1,
            pm2_online: online,
            pm2_processes: t.count(),
            alerts: base_a.push(missing_registry_alert()),
        },
        Some(es) => SnapshotView {
            bots: Seq::new(es.len(), |i: int| bot_view(es[i], i as nat, t, dir)),
            warnings: base_w + bot_warnings(es, t, dir, es.len()),
            pm2_online: online,
            pm2_processes: t.count(),
            alerts: base_a + bot_alerts(es, t, dir, es.len()),
        },
    }
}

/// A bot's status as plain text.
pub struct BotView {
    pub name: Seq<char>,
    pub pair: Seq<char>,
    pub active: bool,
    pub runtime_status: Seq<char>,
    pub log_path: Option<Seq<char>>,
    pub log_tail: Seq<Seq<char>>,
}

impl View for BotStatus {
    type V = BotView;

    open spec fn view(&self) -> BotView {
        BotView {
            name: self.name@,
            pair: self.pair@,
            active: self.active,
            runtime_status: self.runtime_status@,
            log_path: match self.log_path {
                Some(p) => Some(p@),
                None => None,
            },
            log_tail: self.log_tail@.map_values(|l: String| l@),
        }
    }
}

/// The bot's name: the registry's, or `bot-<n>` for the entry at position
/// `n`, counted from 1.
pub open spec fn bot_name_of(e: RegistryEntry, index: nat) -> Seq<char> {
    match e.name {
        Some(n) => n@,
        None => "bot-"@ + nat_text(index + 1),
    }
}

/// Both assets of the pair are given.
pub open spec fn pair_ok(e: RegistryEntry) -> bool {
    e.asset_a@.len() > 0 && e.asset_b@.len() > 0
}

/// The pair as `A/B`, or `?/ ?` where an asset is missing.
pub open spec fn pair_of(e: RegistryEntry) -> Seq<char> {
    if pair_ok(e) {
        e.asset_a@ + "/"@ + e.asset_b@
    } else {
        "?/ ?"@
    }
}

/// The declared-enabled flag, enabled where the registry says nothing.
pub open spec fn active_of(e: RegistryEntry) -> bool {
    match e.active {
        Some(b) => b,
        None => true,
    }
}

/// The live status where the supervisor lists the bot; else `not-running`
/// for an enabled bot and `disabled` for another.
pub open spec fn runtime_of(t: ProcessTable, name: Seq<char>, active: bool) -> Seq<char> {
    match t.status_of(name) {
        Some(s) => s,
        None => if active { "not-running"@ } else { "disabled"@ },
    }
}

/// The path of the bot's log file, if one was found.
pub open spec fn log_path_of(dir: LogDirectory, name: Seq<char>) -> Option<Seq<char>> {
    match log_choice(dir, name) {
        Some(i) => Some(dir.files@[i].path@),
        None => None,
    }
}

/// The last lines of the bot's log file; none where no file was found or
/// it could not be read.
pub open spec fn log_tail_of(dir: LogDirectory, name: Seq<char>) -> Seq<Seq<char>> {
    match log_choice(dir, name) {
        Some(i) => match dir.files@[i].contents {
            Some(c) => last_n(lines_of(c@), TAIL_LINES as nat),
            None => Seq::empty(),
        },
        None => Seq::empty(),
    }
}

/// Some line of a tail carries a marker.
pub open spec fn tail_flagged(tail: Seq<Seq<char>>) -> bool {
    exists|k: int| 0 <= k < tail.len() && has_marker(#[trigger] tail[k])
}

/// The status of the registry entry at position `index`.
pub open spec fn bot_view(e: RegistryEntry, index: nat, t: ProcessTable, dir: LogDirectory) -> BotView {
    let name = bot_name_of(e, index);
    BotView {
        name,
        pair: pair_of(e),
        active: active_of(e),
        runtime_status: runtime_of(t, name, active_of(e)),
        log_path: log_path_of(dir, name),
        log_tail: log_tail_of(dir, name),
    }
}

/// The alert raised for a bot whose log carries a marker.
pub open spec fn marker_alert(name: Seq<char>) -> Seq<char> {
    name + ": error/warn marker found in recent log lines."@
}

/// The warnings that the first `n` entries raise: one for each malformed
/// pair and one for each log that carries a marker.
pub open spec fn bot_warnings(entries: Seq<RegistryEntry>, t: ProcessTable, dir: LogDirectory, n: nat) -> nat
    decreases n,
{
    if n == 0 {
        0
    } else {
        let i = (n - 1) as nat;
        let b = bot_view(entries[i as int], i, t, dir);
        bot_warnings(entries, t, dir, i) + (if pair_ok(entries[i as int]) { 0nat } else { 1nat }) + (if tail_flagged(b.log_tail) { 1nat } else { 0nat })
    }
}

/// The alerts that the first `n` entries raise, in registry order.
pub open spec fn bot_alerts(entries: Seq<RegistryEntry>, t: ProcessTable, dir: LogDirectory, n: nat) -> Seq<Seq<char>>
    decreases n,
{
    if n == 0 {
        Seq::empty()
    } else {
        let i = (n - 1) as nat;
        let b = bot_view(entries[i as int], i, t, dir);
        bot_alerts(entries, t, dir, i) + (if tail_flagged(b.log_tail) { seq![marker_alert(b.name)] } else { Seq::empty() })
    }
}

/// The alert raised when the supervisor cannot be queried.
pub open spec fn offline_alert() -> Seq<char> {
    "PM2 unavailable (pm2 jlist failed or not installed)."@
}

/// The alert raised when the registry file is missing.
pub open spec fn missing_registry_alert() -> Seq<char> {
    "profiles/bots.json not found."@
}

/// The bot's name for the registry entry at position `index`.
pub fn bot_name(entry: &RegistryEntry, index: usize) -> (r: String)
    requires
        index < usize::MAX,
    ensures
        r@ == bot_name_of(*entry, index as nat),
{
    match &entry.name {
        Some(n) => n.clone(),
        None => {
            let digits = decimal_usize(index + 1);
            let r = join("bot-", digits.as_str());
            r
        },
    }
}

/// Whether both assets of the entry's pair are given.
pub fn pair_is_valid(entry: &RegistryEntry) -> (r: bool)
    ensures
        r == pair_ok(*entry),
{
    entry.asset_a.unicode_len() > 0 && entry.asset_b.unicode_len() > 0
}

/// The entry's pair as text.
pub fn pair_text(entry: &RegistryEntry) -> (r: String)
    ensures
        r@ == pair_of(*entry),
{
    if pair_is_valid(entry) {
        let a = join(entry.asset_a.as_str(), "/");
        join(a.as_str(), entry.asset_b.as_str())
    } else {
        proof { reveal_strlit("?/ ?"); }
        String::from_str("?/ ?")
    }
}

/// The runtime status of a bot.
pub fn runtime_status(table: &ProcessTable, name: &str, active: bool) -> (r: String)
    requires
        table.wf(),
    ensures
        r@ == runtime_of(*table, name@, active),
{
    match table.get(name) {
        Some(s) => s,
        None => if active {
            String::from_str("not-running")
        } else {
            String::from_str("disabled")
        },
    }
}

/// Whether some line of a tail carries a marker.
pub fn tail_has_marker(tail: &Vec<String>) -> (r: bool)
    ensures
        r == tail_flagged(tail@.map_values(|l: String| l@)),
{
    let ghost v = tail@.map_values(|l: String| l@);
    let n = tail.len();
    let mut i: usize = 0;
    while i < n
        invariant
            n == tail@.len(),
            i <= n,
            v == tail@.map_values(|l: String| l@),
            forall|k: int| 0 <= k < i ==> !has_marker(#[trigger] v[k]),
        decreases n - i,
    {
        if has_error_marker(tail[i].as_str()) {
            assert(has_marker(v[i as int]));
            return true;
        }
        i = i + 1;
    }
    false
}

/// The status of the registry entry at position `index`.
pub fn bot_status(entry: &RegistryEntry, index: usize, table: &ProcessTable, dir: &LogDirectory) -> (r: BotStatus)
    requires
        index < usize::MAX,
        table.wf(),
    ensures
        r@ == bot_view(*entry, index as nat, *table, *dir),
{
    let name = bot_name(entry, index);
    let pair = pair_text(entry);
    let active = match entry.active {
        Some(b) => b,
        None => true,
    };
    let runtime_status = runtime_status(table, name.as_str(), active);
    let choice = resolve_bot_log_path(dir, name.as_str());
    let (log_path, log_tail) = match choice {
        Some(i) => {
            let file = &dir.files[i];
            let tail = match &file.contents {
                Some(c) => tail_lines(c.as_str(), TAIL_LINES),
                None => Vec::new(),
            };
            (Some(file.path.clone()), tail)
        },
        None => (None, Vec::new()),
    };
    let r = BotStatus { name, pair, active, runtime_status, log_path, log_tail };
    assert(r@.log_tail =~= log_tail_of(*dir, r.name@));
    r
}

/// Builds one snapshot from what the caller gathered: the registry's
/// entries (`None` where the registry file is missing), the supervisor's
/// table and whether it answered, and the logs directory. It never fails:
/// each problem becomes a warning, and some also an alert.
pub fn load_snapshot(registry: &Option<Vec<RegistryEntry>>, table: &ProcessTable, online: bool, dir: &LogDirectory) -> (r: Snapshot)
    requires
        table.wf(),
        registry matches Some(es) ==> es@.len() < usize::MAX / 2,
    ensures
        r@ == snapshot_spec(registry_view(*registry), *table, online, *dir),
{
    let mut bots: Vec<BotStatus> = Vec::new();
    let mut warnings: usize = 0;
    let mut alerts: Vec<String> = Vec::new();
    if !online {
        warnings = warnings + 1;
        proof { reveal_strlit("PM2 unavailable (pm2 jlist failed or not installed)."); }
        alerts.push(String::from_str("PM2 unavailable (pm2 jlist failed or not installed)."));
    }
    let ghost base = alerts@.map_values(|a: String| a@);
    let ghost base_w = warnings;
    assert(base == (if online { Seq::empty() } else { seq![offline_alert()] }));
    match registry {
        Some(entries) => {
            let n = entries.len();
            let mut i: usize = 0;
            while i < n
                invariant
                    n == entries@.len(),
                    n < usize::MAX / 2,
                    i <= n,
                    table.wf(),
                    base_w <= 1,
                    bots@.len() == i,
                    forall|k: int| 0 <= k < i ==> #[trigger] bots@[k]@ == bot_view(entries@[k], k as nat, *table, *dir),
                    warnings == base_w + bot_warnings(entries@, *table, *dir, i as nat),
                    bot_warnings(entries@, *table, *dir, i as nat) <= 2 * i,
                    alerts@.map_values(|a: String| a@) == base + bot_alerts(entries@, *table, *dir, i as nat),
                decreases n - i,
            {
                let entry = &entries[i];
                let valid = pair_is_valid(entry);
                let bot = bot_status(entry, i, table, dir);
                let flagged = tail_has_marker(&bot.log_tail);
                let ghost before = alerts@.map_values(|a: String| a@);
                if !valid {
                    warnings = warnings + 1;
                }
                if flagged {
                    warnings = warnings + 1;
                    let text = join(bot.name.as_str(), ": error/warn marker found in recent log lines.");
                    alerts.push(text);
                    proof {
                        assert(alerts@.map_values(|a: String| a@) =~= before.push(marker_alert(bot@.name)));
                    }
                }
                bots.push(bot);
                proof {
                    let b = bot_view(entries@[i as int], i as nat, *table, *dir);
                    assert(bot@.log_tail == b.log_tail);
                    assert((i + 1) as nat - 1 == i as nat);
                    assert(alerts@.map_values(|a: String| a@) =~= base + bot_alerts(entries@, *table, *dir, (i + 1) as nat));
                }
                i = i + 1;
            }
        },
        None => {
            warnings = warnings + 1;
            let ghost before = alerts@.map_values(|a: String| a@);
            proof { reveal_strlit("profiles/bots.json not found."); }
            alerts.push(String::from_str("profiles/bots.json not found."));
            assert(alerts@.map_values(|a: String| a@) =~= before.push(missing_registry_alert()));
        },
    }
    let r = Snapshot { bots, warnings, pm2_online: online, pm2_processes: table.len(), alerts };
    proof {
        match registry {
            Some(es) => {
                assert(r@.bots =~= snapshot_spec(registry_view(*registry), *table, online, *dir).bots);
            },
            None => {
                assert(r@.bots =~= Seq::<BotView>::empty());
            },
        }
    }
    r
}

} // verus!
