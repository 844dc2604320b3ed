//! Snapshot resolution for time travel, as decisions between the storage lookups
//! that the caller performs: each function takes what the last lookup gave and
//! says whether resolution is finished or which lookup comes next.
use vstd::prelude::*;

use crate::error::Error;
use crate::text::{parse_i64, parse_i64_str, push_signed_decimal, signed_decimal};

verus! {

/// A time-travel selector taken from the scan options, with the name of the
/// option it came from.
#[derive(Debug, Clone)]
pub enum TimeTravelSelector {
    /// Travel to the latest snapshot at or before these epoch milliseconds.
    TimestampMillis(i64),
    /// `scan.version`: a tag name first, then a snapshot id.
    Version { value: String, option_name: String },
    /// An explicit snapshot id; never resolved as a tag.
    SnapshotId { value: String, option_name: String },
    /// An explicit tag name; never resolved as a snapshot id.
    TagName { value: String, option_name: String },
}

/// A lookup in the table's storage that resolution needs next.
#[derive(Debug)]
pub enum TravelLookup {
    /// The latest snapshot whose time is at most these epoch milliseconds.
    EarlierOrEqualTimeMillis(i64),
    /// Whether a tag of this name exists.
    TagExists(String),
    /// The snapshot with this id.
    Snapshot(i64),
    /// The snapshot that this tag points to.
    Tag(String),
}

/// The state of a resolution: finished with its outcome, or waiting for a lookup.
#[derive(Debug)]
pub enum TravelStep<S> {
    /// Resolution is finished: no selector (`Ok(None)`), the snapshot, or an error.
    Done(Result<Option<S>, Error>),
    /// The caller performs this lookup and hands its answer to the next step.
    Lookup(TravelLookup),
}

/// `err` is a `DataInvalid` error with message `message`.
pub open spec fn data_invalid(err: Error, message: Seq<char>) -> bool {
    err matches Error::DataInvalid { message: m } && m@ == message
}

/// The message for a `scan.version` value that is neither a tag nor a snapshot id.
pub open spec fn not_tag_or_id_message(option_name: Seq<char>, value: Seq<char>) -> Seq<char> {
    option_name + " '"@ + value + "' is not a valid tag name or snapshot id."@
}

/// The message for a snapshot-id selector whose value is not a number.
pub open spec fn not_id_message(option_name: Seq<char>, value: Seq<char>) -> Seq<char> {
    option_name + " '"@ + value + "' is not a valid snapshot id."@
}

/// The message for a tag that does not exist.
pub open spec fn missing_tag_message(name: Seq<char>) -> Seq<char> {
    "Tag '"@ + name + "' doesn't exist."@
}

/// The message for a timestamp with no snapshot at or before it.
pub open spec fn no_snapshot_before_message(ts: i64) -> Seq<char> {
    "No snapshot found with timestamp <= "@ + signed_decimal(ts as int)
}

fn data_invalid_quoted(option_name: &str, value: &str, tail: &str) -> (res: Error)
    ensures
        data_invalid(res, option_name@ + " '"@ + value@ + tail@),
{
    let mut message = String::from_str(option_name);
    message.append(" '");
    message.append(value);
    message.append(tail);
    Error::DataInvalid { message }
}

fn missing_tag(name: &str) -> (res: Error)
    ensures
        data_invalid(res, missing_tag_message(name@)),
{
    let mut message = String::from_str("Tag '");
    message.append(name);
    message.append("' doesn't exist.");
    Error::DataInvalid { message }
}

/// The first step of resolving the snapshot selected by the time-travel options.
///
/// With no selector there is nothing to resolve: `Ok(None)`. A timestamp asks for
/// the latest snapshot at or before it; `scan.version` and a tag name first ask
/// whether the tag exists; a snapshot id is parsed strictly as an `i64` and asks
/// for that snapshot, or is refused with an error that names its option.
pub fn travel_start<S>(selector: Option<TimeTravelSelector>) -> (res: TravelStep<S>)
    ensures
        match selector {
            None => res matches TravelStep::Done(Ok(None)),
            Some(TimeTravelSelector::TimestampMillis(ts)) =>
                res matches TravelStep::Lookup(TravelLookup::EarlierOrEqualTimeMillis(t)) && t == ts,
            Some(TimeTravelSelector::Version { value, .. }) =>
                res matches TravelStep::Lookup(TravelLookup::TagExists(name)) && name@ == value@,
            Some(TimeTravelSelector::TagName { value, .. }) =>
                res matches TravelStep::Lookup(TravelLookup::TagExists(name)) && name@ == value@,
            Some(TimeTravelSelector::SnapshotId { value, option_name }) => match parse_i64(value@) {
                Some(id) => res matches TravelStep::Lookup(TravelLookup::Snapshot(i)) && i == id,
                None => res matches TravelStep::Done(Err(e))
                    && data_invalid(e, not_id_message(option_name@, value@)),
            },
        },
{
    match selector {
        None => TravelStep::Done(Ok(None)),
        Some(TimeTravelSelector::TimestampMillis(ts)) =>
            TravelStep::Lookup(TravelLookup::EarlierOrEqualTimeMillis(ts)),
        Some(TimeTravelSelector::Version { value, option_name: _ }) =>
            TravelStep::Lookup(TravelLookup::TagExists(value)),
        Some(TimeTravelSelector::TagName { value, option_name: _ }) =>
            TravelStep::Lookup(TravelLookup::TagExists(value)),
        Some(TimeTravelSelector::SnapshotId { value, option_name }) => {
            match parse_i64_str(value.as_str()) {
                Some(id) => TravelStep::Lookup(TravelLookup::Snapshot(id)),
                None => TravelStep::Done(Err(data_invalid_quoted(
                    option_name.as_str(),
                    value.as_str(),
                    "' is not a valid snapshot id.",
                ))),
            }
        },
    }
}

/// The step after asking whether the tag named by a `scan.version` or tag-name
/// selector exists.
///
/// An existing tag is fetched. Otherwise `scan.version` falls back to parsing its
/// value as a snapshot id, and a tag name is refused: it never resolves a
/// snapshot id.
pub fn travel_after_tag_check<S>(selector: &TimeTravelSelector, exists: bool) -> (res: TravelStep<S>)
    requires
        selector is Version || selector is TagName,
    ensures
        match *selector {
            TimeTravelSelector::Version { value, option_name } => if exists {
                res matches TravelStep::Lookup(TravelLookup::Tag(name)) && name@ == value@
            } else {
                match parse_i64(value@) {
                    Some(id) => res matches TravelStep::Lookup(TravelLookup::Snapshot(i)) && i == id,
                    None => res matches TravelStep::Done(Err(e))
                        && data_invalid(e, not_tag_or_id_message(option_name@, value@)),
                }
            },
            TimeTravelSelector::TagName { value, .. } => if exists {
                res matches TravelStep::Lookup(TravelLookup::Tag(name)) && name@ == value@
            } else {
                res matches TravelStep::Done(Err(e)) && data_invalid(e, missing_tag_message(value@))
            },
            _ => false,
        },
{
    match selector {
        TimeTravelSelector::Version { value, option_name } => {
            if exists {
                TravelStep::Lookup(TravelLookup::Tag(value.clone()))
            } else {
                match parse_i64_str(value.as_str()) {
                    Some(id) => TravelStep::Lookup(TravelLookup::Snapshot(id)),
                    None => TravelStep::Done(Err(data_invalid_quoted(
                        option_name.as_str(),
                        value.as_str(),
                        "' is not a valid tag name or snapshot id.",
                    ))),
                }
            }
        },
        TimeTravelSelector::TagName { value, option_name: _ } => {
            if exists {
                TravelStep::Lookup(TravelLookup::Tag(value.clone()))
            } else {
                TravelStep::Done(Err(missing_tag(value.as_str())))
            }
        },
        _ => {
            proof {
                assert(false);
            }
            TravelStep::Done(Ok(None))
        },
    }
}

/// The outcome after looking up the latest snapshot at or before `ts`: that
/// snapshot, or an error when there is none.
pub fn travel_after_time_lookup<S>(ts: i64, found: Option<S>) -> (res: Result<Option<S>, Error>)
    ensures
        match found {
            Some(s) => res == Ok::<Option<S>, Error>(Some(s)),
            None => res matches Err(e) && data_invalid(e, no_snapshot_before_message(ts)),
        },
{
    match found {
        Some(s) => Ok(Some(s)),
        None => {
            let mut message = String::from_str("No snapshot found with timestamp <= ");
            push_signed_decimal(&mut message, ts);
            Err(Error::DataInvalid { message })
        },
    }
}

/// Fetches a tag known to exist, mapping an unexpectedly missing tag to an error.
pub fn resolve_tag<S>(name: &str, found: Option<S>) -> (res: Result<S, Error>)
    ensures
        match found {
            Some(s) => res == Ok::<S, Error>(s),
            None => res matches Err(e) && data_invalid(e, missing_tag_message(name@)),
        },
{
    match found {
        Some(s) => Ok(s),
        None => Err(missing_tag(name)),
    }
}

} // verus!
