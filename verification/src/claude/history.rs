//! Per-user, per-channel conversation history, stored as JSON lines.

use vstd::prelude::*;
use vstd::string::*;

use crate::claude::types::{history_view, HistoryMessage, HistoryView};

verus! {

/// The most messages a conversation keeps; older ones are dropped.
pub const MAX_HISTORY_MESSAGES: usize = 50;

/// The name of the history file of a user in a channel:
/// `{channel_id}_{user_id}.jsonl`.
pub fn history_file_name(user_id: &str, channel_id: &str) -> (r: String)
    ensures
        r@ == channel_id@ + "_"@ + user_id@ + ".jsonl"@,
{
    let mut name = channel_id.to_owned();
    name.append("_");
    name.append(user_id);
    name.append(".jsonl");
    name
}

/// Different users or channels get different history files, as long as
/// channel ids hold no `_` (Discord ids are made of digits).
pub proof fn history_names_are_distinct(user1: Seq<char>, channel1: Seq<char>, user2: Seq<char>, channel2: Seq<char>)
    requires
        !channel1.contains('_'),
        !channel2.contains('_'),
        channel1 + "_"@ + user1 + ".jsonl"@ == channel2 + "_"@ + user2 + ".jsonl"@,
    ensures
        channel1 == channel2,
        user1 == user2,
{
    reveal_strlit("_");
    reveal_strlit(".jsonl");
    let name = channel1 + "_"@ + user1 + ".jsonl"@;
    let other = channel2 + "_"@ + user2 + ".jsonl"@;
    assert(name[channel1.len() as int] == '_');
    assert(other[channel2.len() as int] == '_');
    if channel1.len() < channel2.len() {
        assert(other[channel1.len() as int] == channel2[channel1.len() as int]);
        assert(channel2.contains('_'));
    }
    if channel2.len() < channel1.len() {
        assert(name[channel2.len() as int] == channel1[channel2.len() as int]);
        assert(channel1.contains('_'));
    }
    assert(channel1 =~= name.subrange(0, channel1.len() as int));
    assert(channel2 =~= other.subrange(0, channel2.len() as int));
    assert(channel1.len() == channel2.len());
    assert("_"@.len() == 1);
    assert(".jsonl"@.len() == 6);
    assert(name.len() == other.len());
    assert(user1.len() == user2.len());
    let start: int = channel1.len() as int + 1;
    assert(user1 =~= name.subrange(start, start + user1.len()));
    assert(user2 =~= other.subrange(start, start + user2.len()));
}

/// One line of a history file, as read.
#[derive(Debug)]
pub enum HistoryLine {
    /// An empty line.
    Blank,
    /// A line that is not a stored message.
    Malformed,
    /// A stored message.
    Message(HistoryMessage),
}

/// The messages of a history file, in order: blank and malformed lines are
/// skipped.
pub open spec fn messages_of(lines: Seq<HistoryLine>) -> Seq<HistoryView>
    decreases lines.len(),
{
    if lines.len() == 0 {
        Seq::empty()
    } else {
        match lines.last() {
            HistoryLine::Message(m) => messages_of(lines.drop_last()).push(m@),
            _ => messages_of(lines.drop_last()),
        }
    }
}

/// Loading keeps every stored message as it was written, in file order:
/// a message line adds its role and its text unchanged, whatever the role;
/// blank and malformed lines add nothing.
pub proof fn stored_messages_are_kept(lines: Seq<HistoryLine>, m: HistoryMessage)
    ensures
        messages_of(Seq::empty()) == Seq::<HistoryView>::empty(),
        messages_of(lines.push(HistoryLine::Message(m))) == messages_of(lines).push(
            HistoryView { role: m.role@, content: m.content@ },
        ),
        messages_of(lines.push(HistoryLine::Blank)) == messages_of(lines),
        messages_of(lines.push(HistoryLine::Malformed)) == messages_of(lines),
{
    assert(lines.push(HistoryLine::Message(m)).drop_last() =~= lines);
    assert(lines.push(HistoryLine::Blank).drop_last() =~= lines);
    assert(lines.push(HistoryLine::Malformed).drop_last() =~= lines);
}

/// A file made only of message lines loads back as exactly those messages.
pub proof fn message_lines_load_back(msgs: Seq<HistoryMessage>)
    ensures
        messages_of(msgs.map_values(|m: HistoryMessage| HistoryLine::Message(m))) == msgs.map_values(
            |m: HistoryMessage| HistoryView { role: m.role@, content: m.content@ },
        ),
    decreases msgs.len(),
{
    let lines = msgs.map_values(|m: HistoryMessage| HistoryLine::Message(m));
    if msgs.len() > 0 {
        message_lines_load_back(msgs.drop_last());
        assert(lines.drop_last() =~= msgs.drop_last().map_values(|m: HistoryMessage| HistoryLine::Message(m)));
        assert(msgs.map_values(|m: HistoryMessage| HistoryView { role: m.role@, content: m.content@ })
            =~= msgs.drop_last().map_values(|m: HistoryMessage| HistoryView { role: m.role@, content: m.content@ })
            .push(HistoryView { role: msgs.last().role@, content: msgs.last().content@ }));
    } else {
        assert(lines =~= Seq::<HistoryLine>::empty());
        assert(msgs.map_values(|m: HistoryMessage| HistoryView { role: m.role@, content: m.content@ })
            =~= Seq::<HistoryView>::empty());
    }
}

/// Collects the messages of a history file, skipping lines that are blank or
/// do not hold a message.
pub fn history_from_lines(lines: Vec<HistoryLine>) -> (r: Vec<HistoryMessage>)
    ensures
        history_view(r@) == messages_of(lines@),
{
    let mut out: Vec<HistoryMessage> = Vec::new();
    let mut i: usize = 0;
    while i < lines.len()
        invariant
            0 <= i <= lines@.len(),
            history_view(out@) == messages_of(lines@.take(i as int)),
        decreases lines@.len() - i,
    {
        assert(lines@.take(i + 1).drop_last() =~= lines@.take(i as int));
        assert(lines@.take(i + 1).last() == lines@[i as int]);
        match &lines[i] {
            HistoryLine::Message(m) => {
                let ghost before = out@;
                out.push(crate::claude::types::copy_history_message(m));
                assert(history_view(out@) =~= history_view(before).push(m@));
            },
            _ => {},
        }
        i = i + 1;
    }
    assert(lines@.take(lines@.len() as int) =~= lines@);
    out
}

/// The contents of a history file: each line followed by a newline.
pub open spec fn jsonl_text(lines: Seq<Seq<char>>) -> Seq<char>
    decreases lines.len(),
{
    if lines.len() == 0 {
        Seq::empty()
    } else {
        jsonl_text(lines.drop_last()) + lines.last() + seq!['\n']
    }
}

/// The text of a history file is the lines in order, each followed by a
/// newline.
pub proof fn jsonl_lines_in_order(lines: Seq<Seq<char>>, line: Seq<char>)
    ensures
        jsonl_text(Seq::empty()) == Seq::<char>::empty(),
        jsonl_text(lines.push(line)) == jsonl_text(lines) + line + seq!['\n'],
{
    assert(lines.push(line).drop_last() =~= lines);
}

/// Puts the serialized messages together into the text of a history file,
/// one message per line.
pub fn jsonl_document(lines: &[String]) -> (r: String)
    ensures
        r@ == jsonl_text(crate::text::views(lines@)),
{
    let ghost all = crate::text::views(lines@);
    let mut out = String::new();
    let mut i: usize = 0;
    while i < lines.len()
        invariant
            0 <= i <= lines@.len(),
            all == crate::text::views(lines@),
            out@ == jsonl_text(all.take(i as int)),
        decreases lines@.len() - i,
    {
        assert(all.take(i + 1).drop_last() =~= all.take(i as int));
        out.append(lines[i].as_str());
        proof { reveal_strlit("\n"); }
        out.append("\n");
        i = i + 1;
    }
    assert(all.take(lines@.len() as int) =~= all);
    out
}

/// The last `MAX_HISTORY_MESSAGES` messages of `h` (all of them when there
/// are not more).
pub open spec fn capped(h: Seq<HistoryView>) -> Seq<HistoryView> {
    if h.len() <= MAX_HISTORY_MESSAGES {
        h
    } else {
        h.subrange(h.len() - MAX_HISTORY_MESSAGES, h.len() as int)
    }
}

/// Drops the oldest messages so that at most `MAX_HISTORY_MESSAGES` remain.
pub fn cap_history(history: Vec<HistoryMessage>) -> (r: Vec<HistoryMessage>)
    ensures
        history_view(r@) == capped(history_view(history@)),
        r@.len() <= MAX_HISTORY_MESSAGES,
{
    if history.len() > MAX_HISTORY_MESSAGES {
        let mut h = history;
        let ghost before = h@;
        let at = h.len() - MAX_HISTORY_MESSAGES;
        let kept = h.split_off(at);
        assert(history_view(kept@) =~= capped(history_view(before)));
        kept
    } else {
        history
    }
}

} // verus!
