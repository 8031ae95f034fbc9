//! Bounded log recording: a fixed-capacity circular store of timestamped
//! text messages with monotonic-timestamp correction, and the calculator
//! that pages through it forward or backward, optionally filtered.

pub mod calculator;
pub mod collector;
pub mod contains_filter;
pub mod data_type;
pub mod regex_filter;
pub mod store;

use vstd::prelude::*;

use crate::api_type::{
    CanisterLogFeature, CanisterLogMessagesInfo, CanisterLogRequest, CanisterLogResponse,
};
use crate::logger::calculator::{page_matches, page_rejected};
use crate::logger::data_type::LogMessage;
use crate::logger::store::Storage;

verus! {

/// Format version of the exported stable data.
pub const VERSION: u8 = 1;

/// Capacity a store starts with when none is chosen.
pub const DEFAULT_MAX_LOG_MESSAGES_COUNT: usize = 10_000;

/// Characters a message is capped at.
pub const DEFAULT_MAX_LOG_MESSAGE_LENGTH: usize = 4096;

/// What is exported across a restart boundary: the format version and the
/// whole log store.
pub type PreUpgradeStableData<'a> = (&'a u8, &'a Storage);

/// What comes back across a restart boundary.
pub type PostUpgradeStableData = (u8, Storage);

/// Snapshot the store for export, tagged with the format version.
pub fn pre_upgrade_stable_data<'a>(storage: &'a Storage) -> (r: PreUpgradeStableData<'a>)
    ensures
        *r.0 == VERSION,
        r.1 == storage,
{
    (&VERSION, storage)
}

/// Re-hydrate the store from exported data; data of another format version
/// is skipped rather than restored.
pub fn post_upgrade_stable_data(data: PostUpgradeStableData) -> (r: Option<Storage>)
    ensures
        r is Some <==> data.0 == VERSION,
        (match r {
            Some(storage) => storage == data.1,
            None => true,
        }),
{
    let (version, storage) = data;
    if version == VERSION {
        Some(storage)
    } else {
        None
    }
}

/// Change the store's capacity, retaining the newest messages that fit.
pub fn set_max_messages_count(storage: &mut Storage, limit: u32)
    requires
        old(storage).well_formed(),
        limit >= 1,
    ensures
        final(storage).well_formed(),
        final(storage).capacity() == limit,
        final(storage).messages() == old(storage).messages().skip(
            if old(storage).messages().len() > limit {
                old(storage).messages().len() - limit
            } else {
                0
            },
        ),
{
    storage.set_max_messages_count(limit as usize);
}

/// Record one message as of the wall clock's current reading, capped at
/// the default length.
pub fn log_message(storage: &mut Storage, message: String)
    requires
        old(storage).well_formed(),
    ensures
        final(storage).well_formed(),
        final(storage).capacity() == old(storage).capacity(),
        final(storage).messages().len() >= 1,
        final(storage).messages().drop_last() == if old(storage).messages().len() < old(
            storage,
        ).capacity() {
            old(storage).messages()
        } else {
            old(storage).messages().skip(1)
        },
        final(storage).messages().last().message@ == collector::truncate_text(
            message@,
            DEFAULT_MAX_LOG_MESSAGE_LENGTH as int,
        ),
        collector::times_strictly_increasing(old(storage).messages()) && (old(
            storage,
        ).messages().len() == 0 || old(storage).messages().last().timeNanos < u64::MAX)
            ==> collector::times_strictly_increasing(final(storage).messages()),
{
    collector::store_log_message(storage, message, &DEFAULT_MAX_LOG_MESSAGE_LENGTH);
}

/// The filter kinds this store can apply.
pub open spec fn supported_features(features: Seq<Option<CanisterLogFeature>>) -> bool {
    features =~= seq![
        Some(CanisterLogFeature::filterMessageByContains),
        Some(CanisterLogFeature::filterMessageByRegex),
    ]
}

/// The response owed to a log request: a summary for an info request, a
/// page for a paging request (`None` when the page request is rejected),
/// and nothing for no request.
pub open spec fn get_canister_log_post(
    messages: Seq<LogMessage>,
    request: Option<CanisterLogRequest>,
    r: Option<CanisterLogResponse>,
) -> bool {
    match request {
        None => r is None,
        Some(CanisterLogRequest::getMessagesInfo) => match r {
            Some(CanisterLogResponse::messagesInfo(info)) => {
                &&& info.count == messages.len()
                &&& info.firstTimeNanos == (if messages.len() == 0 {
                    None::<u64>
                } else {
                    Some(messages[0].timeNanos)
                })
                &&& info.lastTimeNanos == (if messages.len() == 0 {
                    None::<u64>
                } else {
                    Some(messages.last().timeNanos)
                })
                &&& supported_features(info.features@)
            },
            _ => false,
        },
        Some(CanisterLogRequest::getMessages(parameters)) => match r {
            None => page_rejected(parameters.count as int, parameters.filter),
            Some(CanisterLogResponse::messages(page)) => !page_rejected(
                parameters.count as int,
                parameters.filter,
            ) && page_matches(
                messages,
                false,
                parameters.fromTimeNanos,
                parameters.count as int,
                parameters.filter,
                page,
            ),
            _ => false,
        },
        Some(CanisterLogRequest::getLatestMessages(parameters)) => match r {
            None => page_rejected(parameters.count as int, parameters.filter),
            Some(CanisterLogResponse::messages(page)) => !page_rejected(
                parameters.count as int,
                parameters.filter,
            ) && page_matches(
                messages,
                true,
                parameters.upToTimeNanos,
                parameters.count as int,
                parameters.filter,
                page,
            ),
            _ => false,
        },
    }
}

/// Answer a log request: the store summary with its feature list, or a
/// forward or backward page; a rejected page request yields `None`.
pub fn get_canister_log(storage: &Storage, request: Option<CanisterLogRequest>) -> (r: Option<
    CanisterLogResponse,
>)
    requires
        storage.well_formed(),
        storage.messages().len() <= u32::MAX,
    ensures
        get_canister_log_post(storage.messages(), request, r),
{
    match request {
        Some(CanisterLogRequest::getMessagesInfo) => {
            let info = calculator::get_log_messages_info(storage);
            let mut features: Vec<Option<CanisterLogFeature>> = Vec::new();
            features.push(Some(CanisterLogFeature::filterMessageByContains));
            features.push(Some(CanisterLogFeature::filterMessageByRegex));
            let response = CanisterLogMessagesInfo {
                count: info.count,
                firstTimeNanos: info.firstTimeNanos,
                lastTimeNanos: info.lastTimeNanos,
                features,
            };
            Some(CanisterLogResponse::messagesInfo(response))
        },
        Some(CanisterLogRequest::getMessages(parameters)) => {
            match calculator::get_log_messages(storage, parameters) {
                Err(_) => None,
                Ok(messages) => Some(CanisterLogResponse::messages(messages)),
            }
        },
        Some(CanisterLogRequest::getLatestMessages(parameters)) => {
            match calculator::get_latest_log_messages(storage, parameters) {
                Err(_) => None,
                Ok(messages) => Some(CanisterLogResponse::messages(messages)),
            }
        },
        None => None,
    }
}

} // verus!
