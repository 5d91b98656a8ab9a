//! Chat: what a "say" packet leads to, and the buffered chat log.
use vstd::prelude::*;
use crate::cooldown::{ChatCooldown, ChatKind, fresh_cooldown};
use crate::text::{
    WallClock, local_wall_clock, lowercase, push_char, push_zero_padded, to_lowercase,
    digits_value, is_digit, lemma_zero_padded_reads_back,
    zero_padded,
};

verus! {

/// `a / b` rounded up.
pub open spec fn ceil_div(a: nat, b: nat) -> nat {
    if b == 0 { 0 } else { ((a + b - 1) as nat) / b }
}

/// Whole minutes announced to a player whose channel opens in `nanos`
/// nanoseconds: the time left rounded up to whole seconds, then to whole minutes.
pub open spec fn cooldown_minutes(nanos: nat) -> nat {
    ceil_div(ceil_div(nanos, 1_000_000_000), 60)
}

/// Whole minutes announced to a player whose channel opens in `nanos` nanoseconds.
pub fn remaining_minutes(nanos: u64) -> (m: u64)
    ensures
        m == cooldown_minutes(nanos as nat),
{
    let secs = nanos / 1_000_000_000 + if nanos % 1_000_000_000 == 0 { 0 } else { 1 };
    let mins = secs / 60 + if secs % 60 == 0 { 0 } else { 1 };
    mins
}

/// What a chat message from a player leads to.
#[derive(Debug, PartialEq, Eq)]
pub enum SayOutcome {
    /// The text starts with '.', so it is handed to the custom commands.
    CustomCommand,
    /// The channel is still closed; the player is told in how many minutes it opens.
    OnCooldown { minutes: u64 },
    /// A whisper to a name that no online character has.
    TargetOffline { target: String },
    /// The message goes out. `receivers` are the positions, among the online
    /// characters, of the whisper's addressees (none for other channels);
    /// `log_target` is the addressee's name as typed, for the chat log.
    Delivered { receivers: Option<Vec<usize>>, log_target: Option<String> },
}

/// Whether `name`, lower-cased, equals `target_lower`.
pub open spec fn names_match(name: Seq<char>, target_lower: Seq<char>) -> bool {
    lowercase(name) == target_lower
}

/// The positions of the characters whose lower-cased name equals the
/// lower-cased target name, in order.
pub open spec fn whisper_receivers(names: Seq<Seq<char>>, target: Seq<char>) -> Seq<usize>
    decreases names.len(),
{
    if names.len() == 0 {
        Seq::empty()
    } else {
        let rest = whisper_receivers(names.drop_last(), target);
        if names_match(names.last(), lowercase(target)) {
            rest.push((names.len() - 1) as usize)
        } else {
            rest
        }
    }
}

/// A whisper reaches exactly the characters named like its addressee: a
/// position is a receiver iff the name there, lower-cased, equals the
/// addressee lower-cased (a longer name that merely starts with it does not
/// count); each receiver is a position of the list.
pub proof fn law_whisper_reaches_exact_names(names: Seq<Seq<char>>, target: Seq<char>, i: usize)
    requires
        names.len() <= usize::MAX,
    ensures
        whisper_receivers(names, target).contains(i) <==> (i < names.len() && lowercase(names[i as int]) == lowercase(target)),
    decreases names.len(),
{
    if names.len() > 0 {
        let rest = names.drop_last();
        let r = whisper_receivers(names, target);
        let rr = whisper_receivers(rest, target);
        law_whisper_reaches_exact_names(rest, target, i);
        assert(names.last() == names[names.len() - 1]);
        if !names_match(names.last(), lowercase(target)) {
            assert(r == rr);
        }
        if names_match(names.last(), lowercase(target)) {
            assert(r == rr.push((names.len() - 1) as usize));
            if r.contains(i) {
                let j = choose|j: int| 0 <= j < r.len() && r[j] == i;
                if j < rr.len() {
                    assert(rr[j] == i);
                }
            }
            if rr.contains(i) {
                let j = choose|j: int| 0 <= j < rr.len() && rr[j] == i;
                assert(r[j] == i);
            }
            assert(rr.len() + 1 == r.len());
            assert(r[r.len() - 1] == (names.len() - 1) as usize);
            if i == names.len() - 1 {
                assert(r[r.len() - 1] == i);
            }
        }
        if (i as int) < names.len() - 1 {
            assert(rest[i as int] == names[i as int]);
        }
    }
}

/// The positions of the online characters that a whisper to `target` reaches.
pub fn find_whisper_receivers(names: &Vec<String>, target: &str) -> (r: Vec<usize>)
    ensures
        r@ == whisper_receivers(names@.map_values(|n: String| n@), target@),
        forall|i: usize| #[trigger] r@.contains(i) <==> (i < names@.len() && lowercase(names@[i as int]@) == lowercase(target@)),
{
    let target_lower = to_lowercase(target);
    let ghost all = names@.map_values(|n: String| n@);
    let mut r: Vec<usize> = Vec::new();
    let mut i: usize = 0;
    while i < names.len()
        invariant
            i <= names.len(),
            all == names@.map_values(|n: String| n@),
            target_lower@ == lowercase(target@),
            r@ == whisper_receivers(all.take(i as int), target@),
        decreases names.len() - i,
    {
        let lower = to_lowercase(names[i].as_str());
        assert(all.take(i + 1).drop_last() =~= all.take(i as int));
        if lower == target_lower {
            r.push(i);
        }
        i = i + 1;
    }
    assert(all.take(names.len() as int) =~= all);
    assert forall|i: usize| #[trigger] r@.contains(i) <==> (i < names@.len() && lowercase(names@[i as int]@) == lowercase(target@)) by {
        law_whisper_reaches_exact_names(all, target@, i);
    }
    r
}

/// Handles a "say" packet from a character.
///
/// `cooldown` is the character's cooldown table, if it has one yet;
/// `names` are the names of all online characters. A text starting with
/// '.' goes to the custom commands and touches nothing. Otherwise, when the
/// channel is closed the player is told the minutes left and nothing else
/// happens; when it is open, its cooldown starts (creating the table if
/// there was none), and a whisper with an addressee goes to every character
/// whose lower-cased name equals the lower-cased addressee, or is answered
/// with "offline" when there is none.
pub fn handle_say(
    text: &str,
    kind: ChatKind,
    target: &Option<String>,
    cooldown: &mut Option<ChatCooldown>,
    names: &Vec<String>,
) -> (out: SayOutcome)
    requires
        *old(cooldown) matches Some(c) ==> c.wf(),
    ensures
        *final(cooldown) matches Some(c) ==> c.wf(),
        seq!['.'].is_prefix_of(text@) ==> out == SayOutcome::CustomCommand && *final(cooldown) == *old(cooldown),
        !seq!['.'].is_prefix_of(text@) ==> {
            match *old(cooldown) {
                Some(c) if !c.may_send(kind) => {
                    &&& out == SayOutcome::OnCooldown { minutes: cooldown_minutes(c.left(kind)) as u64 }
                    &&& *final(cooldown) == *old(cooldown)
                },
                _ => {
                    &&& *final(cooldown) matches Some(c2) && c2.timer(kind) == Some(fresh_cooldown())
                        && forall|o: ChatKind| o != kind ==> c2.timer(o) == match *old(cooldown) {
                            Some(c) => c.timer(o),
                            None => None,
                        }
                    &&& if kind == ChatKind::Whisper && target is Some {
                        let receivers = whisper_receivers(
                            names@.map_values(|n: String| n@),
                            target.unwrap()@,
                        );
                        if receivers.len() == 0 {
                            out == SayOutcome::TargetOffline { target: target.unwrap() }
                        } else {
                            out matches SayOutcome::Delivered { receivers: Some(r), log_target: Some(t) }
                                && r@ == receivers && t == target.unwrap()
                        }
                    } else {
                        out == SayOutcome::Delivered { receivers: None, log_target: None }
                    }
                },
            }
        },
{
    proof { reveal_strlit("."); }
    if crate::text::starts_with(text, ".") {
        return SayOutcome::CustomCommand;
    }
    let closed = match cooldown {
        Some(c) => !c.can_send(&kind),
        None => false,
    };
    if closed {
        let left = match cooldown {
            Some(c) => c.remaining(&kind),
            None => 0,
        };
        let minutes = remaining_minutes(left);
        return SayOutcome::OnCooldown { minutes };
    }
    match cooldown {
        Some(c) => {
            c.start_cooldown(kind);
        },
        None => {
            let mut fresh = ChatCooldown::new();
            fresh.start_cooldown(kind);
            *cooldown = Some(fresh);
        },
    }
    if kind == ChatKind::Whisper {
        match target {
            Some(t) => {
                let receivers = find_whisper_receivers(names, t.as_str());
                if receivers.len() == 0 {
                    return SayOutcome::TargetOffline { target: t.clone() };
                }
                return SayOutcome::Delivered { receivers: Some(receivers), log_target: Some(t.clone()) };
            },
            None => {},
        }
    }
    SayOutcome::Delivered { receivers: None, log_target: None }
}


/// How often the chat log buffer is written out, in nanoseconds.
pub const FLUSH_INTERVAL_NANOS: u64 = 100_000_000;

/// "HH:MM:SS" for a wall clock reading.
pub open spec fn clock_hms(c: WallClock) -> Seq<char> {
    zero_padded(c.hour as nat, 2) + seq![':'] + zero_padded(c.minute as nat, 2) + seq![':']
        + zero_padded(c.second as nat, 2)
}

/// A year as chrono's "%Y" writes it: four digits, zero padded, between 0
/// and 9999; otherwise with its sign in front.
pub open spec fn year_text(y: int) -> Seq<char> {
    if 0 <= y <= 9999 {
        zero_padded(y as nat, 4)
    } else if y > 9999 {
        seq!['+'] + zero_padded(y as nat, 4)
    } else {
        seq!['-'] + zero_padded((-y) as nat, 4)
    }
}

/// "DD_MM_YYYY" for a wall clock reading.
pub open spec fn clock_dmy(c: WallClock) -> Seq<char> {
    zero_padded(c.day as nat, 2) + seq!['_'] + zero_padded(c.month as nat, 2) + seq!['_']
        + year_text(c.year as int)
}

fn push_hms(out: &mut String, c: WallClock)
    ensures
        final(out)@ == old(out)@ + clock_hms(c),
{
    push_zero_padded(out, c.hour as u64, 2);
    push_char(out, ':');
    push_zero_padded(out, c.minute as u64, 2);
    push_char(out, ':');
    push_zero_padded(out, c.second as u64, 2);
    assert(out@ =~= old(out)@ + clock_hms(c));
}

fn push_year(out: &mut String, y: i32)
    ensures
        final(out)@ == old(out)@ + year_text(y as int),
{
    if 0 <= y && y <= 9999 {
        push_zero_padded(out, y as u64, 4);
    } else if y > 9999 {
        push_char(out, '+');
        push_zero_padded(out, y as u64, 4);
        assert(out@ =~= old(out)@ + year_text(y as int));
    } else {
        push_char(out, '-');
        let a: i64 = -(y as i64);
        push_zero_padded(out, a as u64, 4);
        assert(out@ =~= old(out)@ + year_text(y as int));
    }
}

fn push_dmy(out: &mut String, c: WallClock)
    ensures
        final(out)@ == old(out)@ + clock_dmy(c),
{
    push_zero_padded(out, c.day as u64, 2);
    push_char(out, '_');
    push_zero_padded(out, c.month as u64, 2);
    push_char(out, '_');
    push_year(out, c.year);
    assert(out@ =~= old(out)@ + clock_dmy(c));
}

/// One buffered chat message.
pub struct ChatLogEntry {
    pub timestamp: WallClock,
    /// The channel's name as it appears in the log.
    pub chat_type: String,
    pub sender: String,
    pub target: Option<String>,
    pub message: String,
}

/// The log line of an entry:
/// "[HH:MM:SS] [channel] sender -> target: message" or, without an
/// addressee, "[HH:MM:SS] [channel] sender: message", ending in a newline.
pub open spec fn entry_line(e: ChatLogEntry) -> Seq<char> {
    seq!['['] + clock_hms(e.timestamp) + seq![']', ' ', '['] + e.chat_type@ + seq![']', ' ']
        + e.sender@ + match e.target {
        Some(t) => seq![' ', '-', '>', ' '] + t@,
        None => Seq::empty(),
    } + seq![':', ' '] + e.message@ + seq!['\n']
}

/// The lines of all entries, one after the other.
pub open spec fn log_text(entries: Seq<ChatLogEntry>) -> Seq<char>
    decreases entries.len(),
{
    if entries.len() == 0 {
        Seq::empty()
    } else {
        log_text(entries.drop_last()) + entry_line(entries.last())
    }
}

/// The name of the day's chat log file: "chat_DD_MM_YYYY.log".
pub open spec fn log_file_name(c: WallClock) -> Seq<char> {
    seq!['c', 'h', 'a', 't', '_'] + clock_dmy(c) + seq!['.', 'l', 'o', 'g']
}

/// The year text of different years differs.
proof fn lemma_year_text_injective(y1: int, y2: int)
    requires
        year_text(y1) == year_text(y2),
    ensures
        y1 == y2,
{
    let t1 = year_text(y1);
    lemma_zero_padded_reads_back(if y1 >= 0 { y1 as nat } else { (-y1) as nat }, 4);
    lemma_zero_padded_reads_back(if y2 >= 0 { y2 as nat } else { (-y2) as nat }, 4);
    let p1 = zero_padded(if y1 >= 0 { y1 as nat } else { (-y1) as nat }, 4);
    let p2 = zero_padded(if y2 >= 0 { y2 as nat } else { (-y2) as nat }, 4);
    assert(is_digit(p1[0]) && is_digit(p2[0]));
    if 0 <= y1 <= 9999 {
        assert(t1 == p1);
        if y2 > 9999 || y2 < 0 {
            assert(t1[0] == p1[0]);
        }
    } else {
        assert(t1 =~= seq![t1[0]] + p1);
        assert(t1.subrange(1, t1.len() as int) =~= p1);
        if 0 <= y2 <= 9999 {
            assert(year_text(y2)[0] == p2[0]);
        } else {
            assert(year_text(y2).subrange(1, year_text(y2).len() as int) =~= p2);
        }
    }
}

/// The chat log file is named after the day: two readings of the clock give
/// the same file name exactly when they fall on the same day, month and year.
pub proof fn law_log_file_names_the_day(c1: WallClock, c2: WallClock)
    requires
        c1.well_formed(),
        c2.well_formed(),
    ensures
        log_file_name(c1) == log_file_name(c2) <==> (c1.day == c2.day && c1.month == c2.month && c1.year == c2.year),
{
    if log_file_name(c1) == log_file_name(c2) {
        let f = log_file_name(c1);
        lemma_zero_padded_reads_back(c1.day as nat, 2);
        lemma_zero_padded_reads_back(c2.day as nat, 2);
        lemma_zero_padded_reads_back(c1.month as nat, 2);
        lemma_zero_padded_reads_back(c2.month as nat, 2);
        let y1 = year_text(c1.year as int);
        let y2 = year_text(c2.year as int);
        assert(f.subrange(5, 7) =~= zero_padded(c1.day as nat, 2));
        assert(log_file_name(c2).subrange(5, 7) =~= zero_padded(c2.day as nat, 2));
        assert(f.subrange(8, 10) =~= zero_padded(c1.month as nat, 2));
        assert(log_file_name(c2).subrange(8, 10) =~= zero_padded(c2.month as nat, 2));
        assert(f.subrange(11, f.len() - 4) =~= y1);
        assert(log_file_name(c2).subrange(11, f.len() - 4) =~= y2);
        lemma_year_text_injective(c1.year as int, c2.year as int);
    }
}

impl ChatLogEntry {
    /// The entry's log line.
    pub fn format(&self) -> (line: String)
        ensures
            line@ == entry_line(*self),
    {
        let mut out = String::new();
        push_char(&mut out, '[');
        push_hms(&mut out, self.timestamp);
        push_char(&mut out, ']');
        push_char(&mut out, ' ');
        push_char(&mut out, '[');
        out.append(self.chat_type.as_str());
        push_char(&mut out, ']');
        push_char(&mut out, ' ');
        out.append(self.sender.as_str());
        match &self.target {
            Some(t) => {
                push_char(&mut out, ' ');
                push_char(&mut out, '-');
                push_char(&mut out, '>');
                push_char(&mut out, ' ');
                out.append(t.as_str());
            },
            None => {},
        }
        push_char(&mut out, ':');
        push_char(&mut out, ' ');
        out.append(self.message.as_str());
        push_char(&mut out, '\n');
        assert(out@ =~= entry_line(*self));
        out
    }
}

/// A repeating countdown, in nanoseconds, that reports each time it wraps.
pub struct FlushTimer {
    pub duration: u64,
    pub elapsed: u64,
}

impl FlushTimer {
    pub open spec fn wf(self) -> bool {
        0 < self.duration && self.elapsed < self.duration
    }

    /// Advances the timer; true when it reached its duration during this
    /// advance. The time past the duration carries over.
    pub fn tick(&mut self, delta: u64) -> (just_finished: bool)
        requires
            old(self).wf(),
        ensures
            final(self).wf(),
            final(self).duration == old(self).duration,
            just_finished == (old(self).elapsed + delta >= old(self).duration),
            final(self).elapsed == (old(self).elapsed + delta) % (old(self).duration as int),
    {
        let d = self.duration;
        let e = self.elapsed;
        let r = delta % d;
        let just_finished = delta >= d - e;
        let next = if r >= d - e { r - (d - e) } else { e + r };
        proof {
            assert((e + delta) % (d as int) == (e + r) % (d as int)) by (nonlinear_arith)
                requires
                    r == delta % d,
                    0 < d,
            {
                assert(delta == (delta / d) * d + r);
                vstd::arithmetic::div_mod::lemma_mod_multiples_vanish((delta / d) as int, (e + r) as int, d as int);
            }
            if r >= d - e {
                vstd::arithmetic::div_mod::lemma_mod_sub_multiples_vanish((e + r) as int, d as int);
                vstd::arithmetic::div_mod::lemma_small_mod((e + r - d) as nat, d as nat);
            } else {
                vstd::arithmetic::div_mod::lemma_small_mod((e + r) as nat, d as nat);
            }
        }
        self.elapsed = next;
        just_finished
    }
}

impl Default for ChatLogs {
    /// An empty buffer whose flush timer has just started.
    fn default() -> (logs: ChatLogs)
        ensures
            logs.wf(),
            logs.entries() == Seq::<ChatLogEntry>::empty(),
            logs.flush_elapsed() == 0,
    {
        ChatLogs::new()
    }
}

/// A file write that the chat log asks for: append `contents` to the file
/// named `file_name` in the log directory.
pub struct ChatLogWrite {
    pub file_name: String,
    pub contents: String,
}

/// The buffer of chat messages waiting to be written to disk.
pub struct ChatLogs {
    buffer: Vec<ChatLogEntry>,
    timer: FlushTimer,
}

impl ChatLogs {
    /// The buffered entries, oldest first.
    pub closed spec fn entries(&self) -> Seq<ChatLogEntry> {
        self.buffer@
    }

    /// Nanoseconds since the flush timer last wrapped.
    pub closed spec fn flush_elapsed(&self) -> u64 {
        self.timer.elapsed
    }

    pub closed spec fn wf(&self) -> bool {
        &&& self.timer.wf()
        &&& self.timer.duration == FLUSH_INTERVAL_NANOS
    }

    /// An empty buffer whose flush timer has just started.
    pub fn new() -> (logs: ChatLogs)
        ensures
            logs.wf(),
            logs.entries() == Seq::<ChatLogEntry>::empty(),
            logs.flush_elapsed() == 0,
    {
        ChatLogs { buffer: Vec::new(), timer: FlushTimer { duration: FLUSH_INTERVAL_NANOS, elapsed: 0 } }
    }

    /// Whether nothing is buffered.
    pub fn is_empty(&self) -> (b: bool)
        ensures
            b == (self.entries().len() == 0),
    {
        self.buffer.len() == 0
    }

    /// Buffers a message, stamped with the current local time.
    pub fn add_message(
        &mut self,
        chat_type: String,
        sender: String,
        target: Option<String>,
        message: String,
    )
        requires
            old(self).wf(),
        ensures
            final(self).wf(),
            final(self).entries().len() == old(self).entries().len() + 1,
            final(self).entries().drop_last() == old(self).entries(),
            ({
                let e = final(self).entries().last();
                &&& e.timestamp.well_formed()
                &&& e.chat_type == chat_type
                &&& e.sender == sender
                &&& e.target == target
                &&& e.message == message
            }),
    {
        let timestamp = local_wall_clock();
        self.buffer.push(ChatLogEntry { timestamp, chat_type, sender, target, message });
        assert(self.buffer@.drop_last() =~= old(self).buffer@);
    }

    /// The write that flushing the buffer takes: nothing when the buffer is
    /// empty, otherwise every buffered line, in order, appended to the file
    /// of the current local date.
    pub fn pending_flush(&self) -> (w: Option<ChatLogWrite>)
        ensures
            self.entries().len() == 0 <==> w is None,
            w matches Some(w) ==> w.contents@ == log_text(self.entries()) && exists|c: WallClock|
                c.well_formed() && w.file_name@ == log_file_name(c),
    {
        if self.buffer.len() == 0 {
            return None;
        }
        let now = local_wall_clock();
        self.flush_write_at(now)
    }

    /// The write that flushing the buffer takes when the local clock reads
    /// `now`: nothing when the buffer is empty, otherwise every buffered
    /// line, in order, appended to the file named after `now`'s date.
    pub fn flush_write_at(&self, now: WallClock) -> (w: Option<ChatLogWrite>)
        ensures
            self.entries().len() == 0 <==> w is None,
            w matches Some(w) ==> w.contents@ == log_text(self.entries()) && w.file_name@ == log_file_name(now),
    {
        if self.buffer.len() == 0 {
            return None;
        }
        let mut file_name = String::new();
        push_char(&mut file_name, 'c');
        push_char(&mut file_name, 'h');
        push_char(&mut file_name, 'a');
        push_char(&mut file_name, 't');
        push_char(&mut file_name, '_');
        push_dmy(&mut file_name, now);
        push_char(&mut file_name, '.');
        push_char(&mut file_name, 'l');
        push_char(&mut file_name, 'o');
        push_char(&mut file_name, 'g');
        assert(file_name@ =~= log_file_name(now));
        let mut contents = String::new();
        let mut i: usize = 0;
        while i < self.buffer.len()
            invariant
                i <= self.buffer@.len(),
                contents@ == log_text(self.buffer@.take(i as int)),
            decreases self.buffer@.len() - i,
        {
            let line = self.buffer[i].format();
            contents.append(line.as_str());
            assert(self.buffer@.take(i + 1).drop_last() =~= self.buffer@.take(i as int));
            i = i + 1;
        }
        assert(self.buffer@.take(self.buffer@.len() as int) =~= self.buffer@);
        Some(ChatLogWrite { file_name, contents })
    }

    /// Forgets every buffered entry, once they are written.
    pub fn clear(&mut self)
        requires
            old(self).wf(),
        ensures
            final(self).wf(),
            final(self).entries() == Seq::<ChatLogEntry>::empty(),
    {
        self.buffer.clear();
    }

    /// Advances the flush timer by `delta` nanoseconds; true when a flush is due.
    pub fn flush_due(&mut self, delta: u64) -> (due: bool)
        requires
            old(self).wf(),
        ensures
            final(self).wf(),
            final(self).entries() == old(self).entries(),
            due == (old(self).flush_elapsed() + delta >= FLUSH_INTERVAL_NANOS),
            final(self).flush_elapsed() == (old(self).flush_elapsed() + delta) % (FLUSH_INTERVAL_NANOS as int),
    {
        self.timer.tick(delta)
    }
}

} // verus!
