use vstd::prelude::*;

use crate::api_type::{
    CanisterLogMessages, CanisterLogMessagesInfo, GetLatestLogMessagesParameters,
    GetLogMessagesFilter, GetLogMessagesParameters, Nanos,
};
use crate::logger::contains_filter::{lower_of, seq_contains, MessageContainsFilter};
use crate::logger::data_type::LogMessage;
use crate::logger::regex_filter::{regex_match, regex_valid, MessageRegexFilter};
use crate::logger::store::{forward_view, reverse_view, Storage};

verus! {

/// Largest page a single query may return.
pub const MAX_CHUNK_SIZE: usize = 1024;

/// A filter request is usable when exactly one filter kind is present, and
/// a requested pattern compiles.
pub open spec fn filter_ok(f: GetLogMessagesFilter) -> bool {
    match (f.messageContains, f.messageRegex) {
        (Some(_), Some(_)) => false,
        (None, None) => false,
        (Some(_), None) => true,
        (None, Some(rx)) => regex_valid(rx@),
    }
}

/// Whether a message passes the requested filter: case-insensitive
/// containment, or a regex match.
pub open spec fn request_matches(f: GetLogMessagesFilter, m: LogMessage) -> bool {
    if f.messageContains is Some {
        seq_contains(lower_of(m.message@), lower_of(f.messageContains.unwrap()@))
    } else {
        regex_match(f.messageRegex.unwrap()@, m.message@)
    }
}

/// An unfiltered page over `s`: the first `count` messages in scan order,
/// and the timestamp of the last one inspected.
pub open spec fn scan_unfiltered(s: Seq<LogMessage>, count: int) -> (Seq<LogMessage>, Option<
    Nanos,
>) {
    let n = if count < s.len() {
        count
    } else {
        s.len() as int
    };
    (s.take(n), if n <= 0 {
        None
    } else {
        Some(s[n - 1].timeNanos)
    })
}

/// A filtered page over `s`: messages are inspected in scan order while the
/// analyze budget lasts, matches are collected until `count_left` of them
/// are found, and the timestamp of the last inspected message is carried
/// out so a caller can resume past the point actually reached.
pub open spec fn scan_filtered(
    s: Seq<LogMessage>,
    f: GetLogMessagesFilter,
    analyze_left: int,
    count_left: int,
) -> (Seq<LogMessage>, Option<Nanos>)
    decreases s.len(),
{
    if s.len() == 0 || analyze_left <= 0 {
        (Seq::<LogMessage>::empty(), None::<Nanos>)
    } else {
        let head = s[0];
        if request_matches(f, head) && count_left <= 1 {
            (seq![head], Some(head.timeNanos))
        } else {
            let rest = scan_filtered(
                s.drop_first(),
                f,
                analyze_left - 1,
                if request_matches(f, head) {
                    count_left - 1
                } else {
                    count_left
                },
            );
            (
                if request_matches(f, head) {
                    seq![head] + rest.0
                } else {
                    rest.0
                },
                if rest.1 is Some {
                    rest.1
                } else {
                    Some(head.timeNanos)
                },
            )
        }
    }
}

/// A page request is rejected for an out-of-bounds count or an unusable
/// filter.
pub open spec fn page_rejected(count: int, filter: Option<GetLogMessagesFilter>) -> bool {
    ||| count == 0
    ||| count > MAX_CHUNK_SIZE
    ||| (filter is Some && !filter_ok(filter.unwrap()))
}

/// The page `page` is what scanning `messages` yields: in the requested
/// direction from the cursor, filtered when a filter was given.
pub open spec fn page_matches(
    messages: Seq<LogMessage>,
    reverse: bool,
    time: Option<Nanos>,
    count: int,
    filter: Option<GetLogMessagesFilter>,
    page: CanisterLogMessages,
) -> bool {
    let view = if reverse {
        reverse_view(messages, time)
    } else {
        forward_view(messages, time)
    };
    let expected = match filter {
        None => scan_unfiltered(view, count),
        Some(f) => scan_filtered(view, f, f.analyzeCount as int, count),
    };
    page.data@ == expected.0 && page.lastAnalyzedMessageTimeNanos == expected.1
}

/// A validated filter, dispatched by a single match.
pub enum MessageFilter {
    Contains(MessageContainsFilter),
    Regex(MessageRegexFilter),
}

impl MessageFilter {
    /// Whether a message passes this filter.
    pub open spec fn matches(&self, log_message: LogMessage) -> bool {
        match self {
            MessageFilter::Contains(f) => f.matches(log_message),
            MessageFilter::Regex(f) => f.matches(log_message),
        }
    }

    /// How many messages the filter may inspect in all.
    pub open spec fn analyze_limit(&self) -> int {
        match self {
            MessageFilter::Contains(f) => f.analyze_limit(),
            MessageFilter::Regex(f) => f.analyze_limit(),
        }
    }

    /// How many messages the filter has inspected.
    pub open spec fn analyzed(&self) -> int {
        match self {
            MessageFilter::Contains(f) => f.analyzed(),
            MessageFilter::Regex(f) => f.analyzed(),
        }
    }

    /// Inspect one message, counting it against the analyze budget.
    pub fn check_match(&mut self, log_message: &LogMessage) -> (r: bool)
        ensures
            r == old(self).matches(*log_message),
            forall|m: LogMessage| final(self).matches(m) == old(self).matches(m),
            final(self).analyze_limit() == old(self).analyze_limit(),
            final(self).analyzed() == if old(self).analyzed() < usize::MAX {
                old(self).analyzed() + 1
            } else {
                old(self).analyzed()
            },
    {
        match self {
            MessageFilter::Contains(f) => f.check_match(log_message),
            MessageFilter::Regex(f) => f.check_match(log_message),
        }
    }

    /// Whether the analyze budget is spent.
    pub fn is_stop(&self) -> (r: bool)
        ensures
            r == (self.analyzed() >= self.analyze_limit()),
    {
        match self {
            MessageFilter::Contains(f) => f.is_stop(),
            MessageFilter::Regex(f) => f.is_stop(),
        }
    }
}

/// Validate a filter request: exactly one filter kind must be present, and
/// a requested pattern must compile.
pub fn build_filter(filter: GetLogMessagesFilter) -> (r: Result<MessageFilter, &'static str>)
    ensures
        r is Ok <==> filter_ok(filter),
        (match r {
            Ok(mf) => {
                &&& forall|m: LogMessage| #[trigger] mf.matches(m) == request_matches(filter, m)
                &&& mf.analyze_limit() == filter.analyzeCount as int
                &&& mf.analyzed() == 0
            },
            Err(_) => true,
        }),
{
    let GetLogMessagesFilter { analyzeCount, messageContains, messageRegex } = filter;
    match (messageContains, messageRegex) {
        (Some(_), Some(_)) => Err("Ambiguous filter"),
        (None, None) => Err("Empty filter"),
        (Some(contains_text), None) => {
            match MessageContainsFilter::create(analyzeCount as usize, contains_text.as_str()) {
                Ok(f) => Ok(MessageFilter::Contains(f)),
                Err(e) => Err(e),
            }
        },
        (None, Some(regex_text)) => {
            match MessageRegexFilter::create(analyzeCount as usize, regex_text.as_str()) {
                Ok(f) => Ok(MessageFilter::Regex(f)),
                Err(e) => Err(e),
            }
        },
    }
}

/// Scan one direction of the store for a page of messages: inspected
/// messages advance the resumption timestamp whether or not they match,
/// a filter's analyze budget bounds the scan, and accumulation stops once
/// `count` matches are collected. Fails on an out-of-bounds count or an
/// unusable filter.
pub fn iterate_log_messages_int(
    reverse: bool,
    time: &Option<Nanos>,
    count: usize,
    filter: Option<GetLogMessagesFilter>,
    storage: &Storage,
) -> (r: Result<CanisterLogMessages, &'static str>)
    requires
        storage.well_formed(),
    ensures
        r is Err <==> page_rejected(count as int, filter),
        (match r {
            Ok(page) => page_matches(
                storage.messages(),
                reverse,
                *time,
                count as int,
                filter,
                page,
            ),
            Err(_) => true,
        }),
{
    if count == 0 || count > MAX_CHUNK_SIZE {
        return Err("Wrong count number");
    }

    let view_vec: Vec<LogMessage> = if reverse {
        storage.get_log_messages_reverse(time)
    } else {
        storage.get_log_messages(time)
    };
    let ghost view = view_vec@;

    match filter {
        None => {
            let mut data: Vec<LogMessage> = Vec::new();
            let mut last: Option<Nanos> = None;
            let mut i: usize = 0;
            while i < view_vec.len() && i < count
                invariant
                    view == view_vec@,
                    0 <= i <= view.len(),
                    i <= count,
                    count >= 1,
                    data@ == view.take(i as int),
                    last == (if i == 0 {
                        None::<Nanos>
                    } else {
                        Some(view[i as int - 1].timeNanos)
                    }),
                decreases view.len() - i,
            {
                last = Some(view_vec[i].timeNanos);
                data.push(view_vec[i].clone());
                i = i + 1;
                proof {
                    assert(data@ =~= view.take(i as int));
                }
            }
            proof {
                assert(data@ =~= scan_unfiltered(view, count as int).0);
            }
            Ok(CanisterLogMessages { data, lastAnalyzedMessageTimeNanos: last })
        },
        Some(f) => {
            let ghost freq = f;
            let mut filter_obj = match build_filter(f) {
                Ok(x) => x,
                Err(e) => {
                    return Err(e);
                },
            };
            let ghost total = scan_filtered(view, freq, freq.analyzeCount as int, count as int);
            let mut data: Vec<LogMessage> = Vec::new();
            let mut last: Option<Nanos> = None;
            let mut i: usize = 0;
            let mut done: bool = false;
            proof {
                assert(view.skip(0) =~= view);
                assert(Seq::<LogMessage>::empty() + total.0 =~= total.0);
            }
            while i < view_vec.len() && !done
                invariant
                    view == view_vec@,
                    0 <= i <= view.len(),
                    count >= 1,
                    total == scan_filtered(view, freq, freq.analyzeCount as int, count as int),
                    forall|m: LogMessage| #[trigger]
                        filter_obj.matches(m) == request_matches(freq, m),
                    filter_obj.analyze_limit() == freq.analyzeCount as int,
                    filter_obj.analyzed() == i,
                    data@.len() <= count,
                    !done ==> data@.len() < count,
                    !done ==> {
                        let rest = scan_filtered(
                            view.skip(i as int),
                            freq,
                            freq.analyzeCount as int - i,
                            count - data@.len(),
                        );
                        total.0 == data@ + rest.0 && total.1 == (if rest.1 is Some {
                            rest.1
                        } else {
                            last
                        })
                    },
                    done ==> total.0 == data@ && total.1 == last,
                decreases view.len() - i + (if done {
                    0int
                } else {
                    1int
                }),
            {
                if filter_obj.is_stop() {
                    done = true;
                    proof {
                        assert(scan_filtered(
                            view.skip(i as int),
                            freq,
                            freq.analyzeCount as int - i,
                            count - data@.len(),
                        ) == (Seq::<LogMessage>::empty(), None::<Nanos>));
                        assert(data@ + Seq::<LogMessage>::empty() =~= data@);
                    }
                } else {
                    let ghost old_data = data@;
                    let ghost old_last = last;
                    let ghost rest_before = scan_filtered(
                        view.skip(i as int),
                        freq,
                        freq.analyzeCount as int - i,
                        count - data@.len(),
                    );
                    let message = &view_vec[i];
                    last = Some(message.timeNanos);
                    let matched = filter_obj.check_match(message);
                    if matched {
                        data.push(view_vec[i].clone());
                        if data.len() >= count {
                            done = true;
                        }
                    }
                    i = i + 1;
                    proof {
                        let head = view[i as int - 1];
                        assert(view.skip(i as int - 1)[0] == head);
                        assert(view.skip(i as int - 1).drop_first() =~= view.skip(i as int));
                        if matched && old_data.len() + 1 == count {
                            assert(rest_before == (seq![head], Some(head.timeNanos)));
                            assert(old_data + seq![head] =~= data@);
                        } else {
                            let rest_after = scan_filtered(
                                view.skip(i as int),
                                freq,
                                freq.analyzeCount as int - i,
                                count - data@.len(),
                            );
                            if matched {
                                assert(rest_before.0 == seq![head] + rest_after.0);
                                assert(old_data + (seq![head] + rest_after.0) =~= (old_data
                                    + seq![head]) + rest_after.0);
                                assert(old_data + seq![head] =~= data@);
                            } else {
                                assert(rest_before.0 == rest_after.0);
                            }
                        }
                    }
                }
            }
            proof {
                if !done {
                    assert(view.skip(i as int).len() == 0);
                    assert(scan_filtered(
                        view.skip(i as int),
                        freq,
                        freq.analyzeCount as int - i,
                        count - data@.len(),
                    ) == (Seq::<LogMessage>::empty(), None::<Nanos>));
                    assert(data@ + Seq::<LogMessage>::empty() =~= data@);
                }
            }
            Ok(CanisterLogMessages { data, lastAnalyzedMessageTimeNanos: last })
        },
    }
}

/// Summarize the store: how many messages it retains and the timestamps of
/// the oldest and newest; features are left for the caller to fill in.
pub fn get_log_messages_info(log_message_supplier: &Storage) -> (r: CanisterLogMessagesInfo)
    requires
        log_message_supplier.well_formed(),
        log_message_supplier.messages().len() <= u32::MAX,
    ensures
        r.count == log_message_supplier.messages().len(),
        r.firstTimeNanos == (if log_message_supplier.messages().len() == 0 {
            None::<Nanos>
        } else {
            Some(log_message_supplier.messages()[0].timeNanos)
        }),
        r.lastTimeNanos == (if log_message_supplier.messages().len() == 0 {
            None::<Nanos>
        } else {
            Some(log_message_supplier.messages().last().timeNanos)
        }),
        r.features@ == Seq::<Option<crate::api_type::CanisterLogFeature>>::empty(),
{
    let count = log_message_supplier.get_log_messages_count();
    if count == 0 {
        CanisterLogMessagesInfo {
            count: 0,
            firstTimeNanos: None,
            lastTimeNanos: None,
            features: Vec::new(),
        }
    } else {
        CanisterLogMessagesInfo {
            count,
            firstTimeNanos: log_message_supplier.get_first_log_message_time(),
            lastTimeNanos: log_message_supplier.get_last_log_message_time(),
            features: Vec::new(),
        }
    }
}

/// Page forward (oldest to newest) from just past the cursor.
pub fn get_log_messages(
    log_message_supplier: &Storage,
    parameters: GetLogMessagesParameters,
) -> (r: Result<CanisterLogMessages, &'static str>)
    requires
        log_message_supplier.well_formed(),
    ensures
        r is Err <==> page_rejected(parameters.count as int, parameters.filter),
        (match r {
            Ok(page) => page_matches(
                log_message_supplier.messages(),
                false,
                parameters.fromTimeNanos,
                parameters.count as int,
                parameters.filter,
                page,
            ),
            Err(_) => true,
        }),
{
    iterate_log_messages_int(
        false,
        &parameters.fromTimeNanos,
        parameters.count as usize,
        parameters.filter,
        log_message_supplier,
    )
}

/// Page backward (newest to oldest) from just past the cursor.
pub fn get_latest_log_messages(
    log_message_supplier: &Storage,
    parameters: GetLatestLogMessagesParameters,
) -> (r: Result<CanisterLogMessages, &'static str>)
    requires
        log_message_supplier.well_formed(),
    ensures
        r is Err <==> page_rejected(parameters.count as int, parameters.filter),
        (match r {
            Ok(page) => page_matches(
                log_message_supplier.messages(),
                true,
                parameters.upToTimeNanos,
                parameters.count as int,
                parameters.filter,
                page,
            ),
            Err(_) => true,
        }),
{
    iterate_log_messages_int(
        true,
        &parameters.upToTimeNanos,
        parameters.count as usize,
        parameters.filter,
        log_message_supplier,
    )
}

} // verus!
