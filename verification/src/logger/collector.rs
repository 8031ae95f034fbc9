use vstd::prelude::*;

use vstd::string::StrSliceExecFns;

use crate::api_type::{LogMessageData, Nanos};
use crate::ic_util;
use crate::logger::store::Storage;

verus! {

/// The timestamp actually stored for a message that arrives at `now`: the
/// reading itself while it advances past the last stored timestamp, and one
/// past that timestamp otherwise, sticking at the maximum.
pub open spec fn adjusted_time(last: Option<Nanos>, now: Nanos) -> Nanos {
    match last {
        None => now,
        Some(previous) => if now > previous {
            now
        } else if previous < u64::MAX {
            (previous + 1) as u64
        } else {
            previous
        },
    }
}

/// The retained text of a message: truncated to the first `max_length`
/// characters when longer.
pub open spec fn truncate_text(s: Seq<char>, max_length: int) -> Seq<char> {
    if s.len() > max_length {
        s.take(max_length)
    } else {
        s
    }
}

/// Timestamps are strictly increasing along the sequence.
pub open spec fn times_strictly_increasing(s: Seq<LogMessageData>) -> bool {
    forall|i: int, j: int| 0 <= i < j < s.len() ==> s[i].timeNanos < s[j].timeNanos
}

/// Cap a message's text at `max_length` characters.
pub fn validate_message(message: String, max_length: &usize) -> (r: String)
    ensures
        r@ == truncate_text(message@, *max_length as int),
{
    let length = message.as_str().unicode_len();
    if length > *max_length {
        let truncated = message.as_str().substring_char(0, *max_length);
        truncated.to_owned()
    } else {
        message
    }
}

/// Record one message as of the instant `time_nanos`: its text capped at
/// `max_message_length` characters, its timestamp bumped just past the last
/// stored one whenever the reading does not advance, so that stored
/// timestamps stay strictly increasing.
pub fn store_log_message_int(
    storage: &mut Storage,
    message: String,
    max_message_length: &usize,
    time_nanos: u64,
)
    requires
        old(storage).well_formed(),
    ensures
        final(storage).well_formed(),
        final(storage).capacity() == old(storage).capacity(),
        final(storage).messages().len() >= 1,
        final(storage).messages().drop_last() == if old(storage).messages().len() < old(
            storage,
        ).capacity() {
            old(storage).messages()
        } else {
            old(storage).messages().skip(1)
        },
        final(storage).messages().last().timeNanos == adjusted_time(
            if old(storage).messages().len() == 0 {
                None
            } else {
                Some(old(storage).messages().last().timeNanos)
            },
            time_nanos,
        ),
        final(storage).messages().last().message@ == truncate_text(
            message@,
            *max_message_length as int,
        ),
        times_strictly_increasing(old(storage).messages()) && (old(storage).messages().len() == 0
            || old(storage).messages().last().timeNanos < u64::MAX) ==> times_strictly_increasing(
            final(storage).messages(),
        ),
{
    let last_time = storage.get_last_log_message_time();
    let time_nanos: u64 = match last_time {
        None => time_nanos,
        Some(previous_time_nanos) => {
            if time_nanos <= previous_time_nanos {
                if previous_time_nanos < u64::MAX {
                    previous_time_nanos + 1
                } else {
                    previous_time_nanos
                }
            } else {
                time_nanos
            }
        },
    };

    let message = validate_message(message, max_message_length);

    let log_message = LogMessageData { timeNanos: time_nanos, message };

    let ghost old_messages = storage.messages();
    storage.store_log_message(log_message);
    proof {
        let new_messages = storage.messages();
        if old_messages.len() < old(storage).capacity() {
            assert(new_messages.drop_last() =~= old_messages);
        } else {
            assert(new_messages.drop_last() =~= old_messages.skip(1));
        }
        if times_strictly_increasing(old_messages) && (old_messages.len() == 0
            || old_messages.last().timeNanos < u64::MAX) {
            let prefix = new_messages.drop_last();
            assert forall|i: int, j: int|
                0 <= i < j < new_messages.len() implies new_messages[i].timeNanos
                < new_messages[j].timeNanos by {
                if j < new_messages.len() - 1 {
                    if old_messages.len() < old(storage).capacity() {
                        assert(new_messages[i] == old_messages[i]);
                        assert(new_messages[j] == old_messages[j]);
                    } else {
                        assert(new_messages[i] == old_messages[i + 1]);
                        assert(new_messages[j] == old_messages[j + 1]);
                    }
                } else {
                    if old_messages.len() > 0 {
                        let pi = if old_messages.len() < old(storage).capacity() {
                            i
                        } else {
                            i + 1
                        };
                        assert(new_messages[i] == old_messages[pi]);
                        assert(old_messages[pi].timeNanos <= old_messages.last().timeNanos);
                    }
                }
            }
        }
    }
}

/// Record one message as of the wall clock's current reading.
pub fn store_log_message(storage: &mut Storage, message: String, max_message_length: &usize)
    requires
        old(storage).well_formed(),
    ensures
        final(storage).well_formed(),
        final(storage).capacity() == old(storage).capacity(),
        final(storage).messages().len() >= 1,
        final(storage).messages().drop_last() == if old(storage).messages().len() < old(
            storage,
        ).capacity() {
            old(storage).messages()
        } else {
            old(storage).messages().skip(1)
        },
        final(storage).messages().last().message@ == truncate_text(
            message@,
            *max_message_length as int,
        ),
        old(storage).messages().len() > 0 && old(storage).messages().last().timeNanos < u64::MAX
            ==> final(storage).messages().last().timeNanos > old(
            storage,
        ).messages().last().timeNanos,
        times_strictly_increasing(old(storage).messages()) && (old(storage).messages().len() == 0
            || old(storage).messages().last().timeNanos < u64::MAX) ==> times_strictly_increasing(
            final(storage).messages(),
        ),
{
    let time_nanos = ic_util::get_ic_time_nanos();
    store_log_message_int(storage, message, max_message_length, time_nanos)
}

} // verus!
