//! Whether a newer release of the client exists, and what the user is told.
use vstd::prelude::*;
use crate::error::Result;
use crate::text::{chars_of, concat, same_chars, slice_chars};

verus! {

/// A release of the client: its version and where to download it.
#[derive(Debug, PartialEq, Eq)]
pub struct BacaRelease {
    pub version: String,
    pub link: String,
}

impl BacaRelease {
    /// The release `version`, downloadable at `link`.
    pub fn new(version: &str, link: &str) -> (r: BacaRelease)
        ensures
            r.version@ == version@,
            r.link@ == link@,
    {
        BacaRelease { version: version.to_owned(), link: link.to_owned() }
    }
}

/// The outcome of looking for a newer release.
#[derive(Debug, PartialEq, Eq)]
pub enum UpdateStatus {
    NoUpdates,
    Update(BacaRelease),
}

/// The outcome of comparing the running version with the latest release: an update
/// when the release's version, without a leading `v`, is another one.
pub fn update_status(current_version: &str, latest: BacaRelease) -> (r: UpdateStatus)
    ensures
        version_of_tag(latest.version@) == current_version@ ==> r == UpdateStatus::NoUpdates,
        version_of_tag(latest.version@) != current_version@ ==> r == UpdateStatus::Update(latest),
{
    let tag = chars_of(latest.version.as_str());
    let version = if tag.len() > 0 && tag[0] == 'v' {
        slice_chars(tag.as_slice(), 1, tag.len())
    } else {
        slice_chars(tag.as_slice(), 0, tag.len())
    };
    let current = chars_of(current_version);
    assert(version@ == version_of_tag(latest.version@));
    if same_chars(version.as_slice(), current.as_slice()) {
        UpdateStatus::NoUpdates
    } else {
        UpdateStatus::Update(latest)
    }
}

/// A release's tag without its leading `v`.
pub open spec fn version_of_tag(tag: Seq<char>) -> Seq<char> {
    if tag.len() > 0 && tag[0] == 'v' {
        tag.subrange(1, tag.len() as int)
    } else {
        tag
    }
}

/// How long, in seconds, the outcome of a look for a newer release is trusted: a day.
pub const UPDATE_CHECK_INTERVAL: u64 = 86400;

/// Whether the last look for a newer release, made at `last_check` (seconds since the
/// epoch; `None` when there was none), is too old at `now`: when there was none, or
/// when at least `UPDATE_CHECK_INTERVAL` has passed since.
pub fn is_check_expired(last_check: Option<u64>, now: u64) -> (r: bool)
    ensures
        last_check is None ==> r,
        last_check matches Some(t) ==> r == (t <= now && now - t >= UPDATE_CHECK_INTERVAL),
{
    match last_check {
        None => true,
        Some(t) => t <= now && now - t >= UPDATE_CHECK_INTERVAL,
    }
}

/// Whether the time of a look for a newer release is stored: exactly when it found
/// none; not after it found one, nor after it failed.
pub fn saves_check_time(outcome: &Result<UpdateStatus>) -> (r: bool)
    ensures
        r == (*outcome matches Ok(UpdateStatus::NoUpdates)),
{
    match outcome {
        Ok(UpdateStatus::NoUpdates) => true,
        _ => false,
    }
}

/// Whether to look for a newer release: never when disabled, else when forced or
/// when the last look is too old.
pub fn should_check_for_updates(no_update: bool, force_update: bool, last_check_expired: bool) -> (r:
    bool)
    ensures
        r == (!no_update && (force_update || last_check_expired)),
{
    !no_update && (force_update || last_check_expired)
}

/// What the user is told of a newer release.
pub fn update_message(release: &BacaRelease) -> (r: String)
    ensures
        r@ == "New version "@ + release.version@ + " is available!!\nDownload at "@ + release.link@,
{
    let a = concat("New version ", release.version.as_str());
    let b = concat(a.as_str(), " is available!!\nDownload at ");
    concat(b.as_str(), release.link.as_str())
}

} // verus!
