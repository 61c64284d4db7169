use vstd::prelude::*;

use crate::text::contains_seq;
use crate::text::contains_substr;

verus! {

/// The freshest AFK evidence recovered from a log tail. `Unknown` is not an
/// error: it means the scanned window held no new unambiguous evidence, and
/// the caller must keep whatever status it remembered so far.
#[derive(Clone, Copy, Debug, PartialEq, Eq, Structural)]
pub enum AfkVerdict {
    /// The latest evidence says AFK mode was turned off.
    Active,
    /// The latest evidence says AFK mode was turned on.
    Away,
    /// No unambiguous evidence within the scanned window.
    Unknown,
}

/// How many of the most recent log lines the scanner is willing to look at.
/// The scan is bounded on purpose: recent evidence only, no unbounded reads
/// on large logs, and no resurrection of stale status.
pub const SCAN_WINDOW: usize = 20;

/// Chat-system lines carry this marker substring; it distinguishes
/// system/status lines from ordinary log output.
pub open spec fn is_chat_line(l: Seq<char>) -> bool {
    contains_seq(l, "ac9"@)
}

/// The shape of a player-authored whisper. Such text is attacker-controlled:
/// another player could send a chat message holding an exact AFK phrase, so
/// lines of this shape must never be treated as a system event.
pub open spec fn is_player_authored(l: Seq<char>) -> bool {
    contains_seq(l, "] @"@)
}

/// The line announces that AFK mode was turned on, in any supported locale.
pub open spec fn spec_afk_on(l: Seq<char>) -> bool {
    ||| contains_seq(l, ": AFK mode is now ON."@)
    ||| contains_seq(l, ": Le mode Absent (AFK) est désormais activé."@)
    ||| contains_seq(l, ": AFK-Modus ist nun AN."@)
    ||| contains_seq(l, ": Modo LDT Ativado."@)
    ||| contains_seq(l, ": Режим \"отошёл\" включён."@)
    ||| contains_seq(l, ": เปิดโหมด AFK แล้ว ตอบกลับอัตโนมัติ"@)
    ||| contains_seq(l, ": El modo Ausente está habilitado."@)
    ||| contains_seq(l, ": 자리 비움 모드를 설정했습니다."@)
}

/// The line announces that AFK mode was turned off, in any supported locale.
pub open spec fn spec_afk_off(l: Seq<char>) -> bool {
    ||| contains_seq(l, ": AFK mode is now OFF."@)
    ||| contains_seq(l, ": Le mode Absent (AFK) est désactivé."@)
    ||| contains_seq(l, ": AFK-Modus ist nun AUS."@)
    ||| contains_seq(l, ": Modo LDT Desativado."@)
    ||| contains_seq(l, ": Режим \"отошёл\" выключен."@)
    ||| contains_seq(l, ": ปิดโหมด AFK แล้ว"@)
    ||| contains_seq(l, ": El modo Ausente está deshabilitado."@)
    ||| contains_seq(l, ": 자리 비움 모드를 해제했습니다."@)
}

/// What a single line says about the AFK status: `Some(true)` when it
/// announces AFK mode on, `Some(false)` when off, `None` when neither.
/// An "on" phrase wins over an "off" phrase in the same line.
pub open spec fn spec_line_status(l: Seq<char>) -> Option<bool> {
    if spec_afk_on(l) {
        Some(true)
    } else if spec_afk_off(l) {
        Some(false)
    } else {
        None
    }
}

/// The window the scanner looks at: the `SCAN_WINDOW` most recent lines of
/// the tail (the tail is ordered newest first).
pub open spec fn scan_window(lines: Seq<Seq<char>>) -> Seq<Seq<char>> {
    if lines.len() <= SCAN_WINDOW {
        lines
    } else {
        lines.take(SCAN_WINDOW as int)
    }
}

/// Drops lines until the first chat-system line (empty if there is none).
pub open spec fn drop_until_chat(lines: Seq<Seq<char>>) -> Seq<Seq<char>>
    decreases lines.len(),
{
    if lines.len() == 0 {
        lines
    } else if is_chat_line(lines[0]) {
        lines
    } else {
        drop_until_chat(lines.drop_first())
    }
}

/// Drops leading player-authored lines (the forged-message guard).
pub open spec fn drop_while_authored(lines: Seq<Seq<char>>) -> Seq<Seq<char>>
    decreases lines.len(),
{
    if lines.len() == 0 {
        lines
    } else if is_player_authored(lines[0]) {
        drop_while_authored(lines.drop_first())
    } else {
        lines
    }
}

/// The single line the scanner is allowed to judge: within the window, the
/// first line at or after the first chat-system line that is not
/// player-authored.
pub open spec fn eligible_line(lines: Seq<Seq<char>>) -> Option<Seq<char>> {
    let rest = drop_while_authored(drop_until_chat(scan_window(lines)));
    if rest.len() == 0 {
        None
    } else {
        Some(rest[0])
    }
}

/// The verdict a scan of the given tail (newest line first) must produce.
pub open spec fn verdict_of(lines: Seq<Seq<char>>) -> AfkVerdict {
    match eligible_line(lines) {
        Some(l) => {
            if spec_afk_on(l) {
                AfkVerdict::Away
            } else if spec_afk_off(l) {
                AfkVerdict::Active
            } else {
                AfkVerdict::Unknown
            }
        },
        None => AfkVerdict::Unknown,
    }
}

/// Whether the line announces that AFK mode was turned on, checked against
/// the fixed multilingual phrase table.
pub fn is_afk_activated_message(log_line: &str) -> (r: bool)
    ensures
        r == spec_afk_on(log_line@),
{
    contains_substr(log_line, ": AFK mode is now ON.")
        || contains_substr(log_line, ": Le mode Absent (AFK) est désormais activé.")
        || contains_substr(log_line, ": AFK-Modus ist nun AN.")
        || contains_substr(log_line, ": Modo LDT Ativado.")
        || contains_substr(log_line, ": Режим \"отошёл\" включён.")
        || contains_substr(log_line, ": เปิดโหมด AFK แล้ว ตอบกลับอัตโนมัติ")
        || contains_substr(log_line, ": El modo Ausente está habilitado.")
        || contains_substr(log_line, ": 자리 비움 모드를 설정했습니다.")
}

/// Whether the line announces that AFK mode was turned off, checked against
/// the fixed multilingual phrase table.
pub fn is_afk_deactivated_message(log_line: &str) -> (r: bool)
    ensures
        r == spec_afk_off(log_line@),
{
    contains_substr(log_line, ": AFK mode is now OFF.")
        || contains_substr(log_line, ": Le mode Absent (AFK) est désactivé.")
        || contains_substr(log_line, ": AFK-Modus ist nun AUS.")
        || contains_substr(log_line, ": Modo LDT Desativado.")
        || contains_substr(log_line, ": Режим \"отошёл\" выключен.")
        || contains_substr(log_line, ": ปิดโหมด AFK แล้ว")
        || contains_substr(log_line, ": El modo Ausente está deshabilitado.")
        || contains_substr(log_line, ": 자리 비움 모드를 해제했습니다.")
}

/// What a single log line says about the AFK status.
pub fn log_line_as_afk_status(log_line: &str) -> (r: Option<bool>)
    ensures
        r == spec_line_status(log_line@),
{
    if is_afk_activated_message(log_line) {
        Some(true)
    } else if is_afk_deactivated_message(log_line) {
        Some(false)
    } else {
        None
    }
}

/// Index of the first chat-system line among the first `n` lines, or `n`.
fn first_chat_index(lines: &Vec<String>, n: usize) -> (r: usize)
    requires
        n <= lines@.len(),
    ensures
        r <= n,
        forall|k: int| 0 <= k < r ==> !is_chat_line(lines.deep_view()[k]),
        r < n ==> is_chat_line(lines.deep_view()[r as int]),
{
    let mut i: usize = 0;
    while i < n
        invariant
            n <= lines@.len(),
            0 <= i <= n,
            forall|k: int| 0 <= k < i ==> !is_chat_line(lines.deep_view()[k]),
        decreases n - i,
    {
        if contains_substr(lines[i].as_str(), "ac9") {
            return i;
        }
        i += 1;
    }
    n
}

/// Index of the first line at or after `start` (and before `n`) that is not
/// player-authored, or `n` if every such line is.
fn first_genuine_index(lines: &Vec<String>, start: usize, n: usize) -> (r: usize)
    requires
        start <= n <= lines@.len(),
    ensures
        start <= r <= n,
        forall|k: int| start <= k < r ==> is_player_authored(lines.deep_view()[k]),
        r < n ==> !is_player_authored(lines.deep_view()[r as int]),
{
    let mut i: usize = start;
    while i < n
        invariant
            start <= i <= n,
            n <= lines@.len(),
            forall|k: int| start <= k < i ==> is_player_authored(lines.deep_view()[k]),
        decreases n - i,
    {
        if !contains_substr(lines[i].as_str(), "] @") {
            return i;
        }
        i += 1;
    }
    n
}

proof fn lemma_drop_until_chat_none(s: Seq<Seq<char>>)
    requires
        forall|k: int| 0 <= k < s.len() ==> !is_chat_line(s[k]),
    ensures
        drop_until_chat(s).len() == 0,
    decreases s.len(),
{
    if s.len() > 0 {
        assert(forall|k: int|
            0 <= k < s.drop_first().len() ==> s.drop_first()[k] == s[k + 1]);
        lemma_drop_until_chat_none(s.drop_first());
    }
}

proof fn lemma_drop_until_chat_at(s: Seq<Seq<char>>, i: int)
    requires
        0 <= i < s.len(),
        forall|k: int| 0 <= k < i ==> !is_chat_line(s[k]),
        is_chat_line(s[i]),
    ensures
        drop_until_chat(s) == s.skip(i),
    decreases i,
{
    if i == 0 {
        assert(s.skip(0) =~= s);
    } else {
        assert(forall|k: int|
            0 <= k < s.drop_first().len() ==> s.drop_first()[k] == s[k + 1]);
        lemma_drop_until_chat_at(s.drop_first(), i - 1);
        assert(s.drop_first().skip(i - 1) =~= s.skip(i));
    }
}

proof fn lemma_drop_while_authored_all(s: Seq<Seq<char>>)
    requires
        forall|k: int| 0 <= k < s.len() ==> is_player_authored(s[k]),
    ensures
        drop_while_authored(s).len() == 0,
    decreases s.len(),
{
    if s.len() > 0 {
        assert(forall|k: int|
            0 <= k < s.drop_first().len() ==> s.drop_first()[k] == s[k + 1]);
        lemma_drop_while_authored_all(s.drop_first());
    }
}

proof fn lemma_drop_while_authored_at(s: Seq<Seq<char>>, i: int)
    requires
        0 <= i < s.len(),
        forall|k: int| 0 <= k < i ==> is_player_authored(s[k]),
        !is_player_authored(s[i]),
    ensures
        drop_while_authored(s) == s.skip(i),
    decreases i,
{
    if i == 0 {
        assert(s.skip(0) =~= s);
    } else {
        assert(forall|k: int|
            0 <= k < s.drop_first().len() ==> s.drop_first()[k] == s[k + 1]);
        lemma_drop_while_authored_at(s.drop_first(), i - 1);
        assert(s.drop_first().skip(i - 1) =~= s.skip(i));
    }
}

/// Scans a log tail, newest line first, for the freshest unambiguous AFK
/// evidence: look at no more than `SCAN_WINDOW` lines, skip to the first
/// chat-system line, skip player-authored lines from there, and judge the
/// first line that remains by the phrase table.
pub fn scan_log_tail(lines: &Vec<String>) -> (v: AfkVerdict)
    ensures
        v == verdict_of(lines.deep_view()),
{
    let ghost ld: Seq<Seq<char>> = lines.deep_view();
    let ghost w: Seq<Seq<char>> = scan_window(ld);
    let n: usize = if lines.len() < SCAN_WINDOW {
        lines.len()
    } else {
        SCAN_WINDOW
    };
    proof {
        assert(w.len() == n);
        assert(forall|k: int| 0 <= k < n ==> w[k] == ld[k]);
    }
    let i = first_chat_index(lines, n);
    if i == n {
        proof {
            lemma_drop_until_chat_none(w);
        }
        return AfkVerdict::Unknown;
    }
    proof {
        lemma_drop_until_chat_at(w, i as int);
    }
    let j = first_genuine_index(lines, i, n);
    if j == n {
        proof {
            let rest = w.skip(i as int);
            assert(forall|k: int| 0 <= k < rest.len() ==> rest[k] == w[k + i]);
            lemma_drop_while_authored_all(rest);
        }
        return AfkVerdict::Unknown;
    }
    proof {
        let rest = w.skip(i as int);
        assert(forall|k: int| 0 <= k < rest.len() ==> rest[k] == w[k + i]);
        lemma_drop_while_authored_at(rest, j - i);
        assert(rest.skip(j - i) =~= w.skip(j as int));
        assert(w.skip(j as int)[0] == w[j as int]);
    }
    match log_line_as_afk_status(lines[j].as_str()) {
        Some(true) => AfkVerdict::Away,
        Some(false) => AfkVerdict::Active,
        None => AfkVerdict::Unknown,
    }
}

/// Law: the scanner judges exactly the nearest genuine evidence. When the
/// window holds a chat-system line, and some line at or after the first of
/// them is not player-authored, then the first such line — and no other —
/// is the one the verdict reflects.
pub proof fn lemma_eligible_line_is_first_genuine(lines: Seq<Seq<char>>, m: int, e: int)
    requires
        0 <= m <= e < scan_window(lines).len(),
        forall|k: int| 0 <= k < m ==> !is_chat_line(scan_window(lines)[k]),
        is_chat_line(scan_window(lines)[m]),
        forall|k: int| m <= k < e ==> is_player_authored(scan_window(lines)[k]),
        !is_player_authored(scan_window(lines)[e]),
    ensures
        eligible_line(lines) == Some(scan_window(lines)[e]),
{
    let w = scan_window(lines);
    lemma_drop_until_chat_at(w, m);
    let rest = w.skip(m);
    assert(forall|k: int| 0 <= k < rest.len() ==> rest[k] == w[k + m]);
    lemma_drop_while_authored_at(rest, e - m);
    assert(rest.skip(e - m) =~= w.skip(e));
    assert(w.skip(e)[0] == w[e]);
}

/// Law: without a chat-system line in the window there is no evidence, and
/// the verdict is `Unknown`.
pub proof fn lemma_no_chat_line_means_unknown(lines: Seq<Seq<char>>)
    requires
        forall|k: int|
            0 <= k < scan_window(lines).len() ==> !is_chat_line(scan_window(lines)[k]),
    ensures
        verdict_of(lines) == AfkVerdict::Unknown,
{
    lemma_drop_until_chat_none(scan_window(lines));
}

/// Law: the forged-message guard holds. Whatever line the scanner judges,
/// it is never one of player-authored shape; a whisper carrying an exact
/// AFK phrase can therefore never decide the verdict.
pub proof fn lemma_eligible_line_not_authored(lines: Seq<Seq<char>>)
    ensures
        match eligible_line(lines) {
            Some(l) => !is_player_authored(l),
            None => true,
        },
{
    lemma_drop_while_authored_head(drop_until_chat(scan_window(lines)));
}

proof fn lemma_drop_while_authored_head(s: Seq<Seq<char>>)
    ensures
        drop_while_authored(s).len() > 0 ==> !is_player_authored(
            drop_while_authored(s)[0],
        ),
    decreases s.len(),
{
    if s.len() > 0 && is_player_authored(s[0]) {
        lemma_drop_while_authored_head(s.drop_first());
    }
}

/// Law: re-scanning an unchanged tail yields the same verdict every time;
/// the verdict is a function of the scanned lines alone.
pub proof fn lemma_rescan_stable(first: Seq<Seq<char>>, second: Seq<Seq<char>>)
    requires
        first == second,
    ensures
        verdict_of(first) == verdict_of(second),
{
}

} // verus!
