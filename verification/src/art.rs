//! Cover art: where a reference points, what became of a fetch, and when to try again.
//!
//! An art reference is an opaque locator. One that starts with `http://` or `https://` is
//! fetched over the network as it stands. Anything else is a local path: a leading `file://`
//! is dropped and percent escapes are decoded; a path whose escapes do not decode to text is
//! used as it is. Fetching and decoding the image is the caller's business. This module plans
//! the attempt and keeps the books on its outcome.

use vstd::prelude::*;
use crate::text::{opt_chars, starts_with, after_chars};

verus! {

/// Milliseconds that must pass after a fetch attempt before the next one.
pub const RETRY_INTERVAL_MS: u64 = 3000;

/// What became of fetching the recorded art reference. The time of a failure is in
/// milliseconds.
#[derive(Clone, Copy, Debug, PartialEq, Eq, Structural)]
pub enum ArtOutcome {
    NotAttempted,
    Loaded,
    FailedAt(u64),
}

/// Where to fetch cover art from.
#[derive(Debug, PartialEq, Eq)]
pub enum ArtSource {
    /// A URL to download.
    Remote(String),
    /// A path on the local file system.
    Local(String),
}

/// The mathematical value of an [`ArtSource`].
pub enum SourceView {
    Remote(Seq<char>),
    Local(Seq<char>),
}

impl View for ArtSource {
    type V = SourceView;

    open spec fn view(&self) -> SourceView {
        match self {
            ArtSource::Remote(url) => SourceView::Remote(url@),
            ArtSource::Local(path) => SourceView::Local(path@),
        }
    }
}

impl Clone for ArtSource {
    fn clone(&self) -> (copy: ArtSource)
        ensures
            copy@ == self@,
    {
        match self {
            ArtSource::Remote(url) => ArtSource::Remote(url.clone()),
            ArtSource::Local(path) => ArtSource::Local(path.clone()),
        }
    }
}

/// What `urlencoding::decode` makes of a text: the text with its percent escapes replaced by
/// the bytes they stand for, or nothing where those bytes are not UTF-8.
pub uninterp spec fn percent_decoded(text: Seq<char>) -> Option<Seq<char>>;

/// Calls `urlencoding::decode`, which replaces each `%` followed by two hexadecimal digits by
/// the byte they spell and reads the result as UTF-8. The contract names the result and adds
/// one fact: a text without any `%` comes back as it is.
#[verifier::external_body]
fn percent_decode(text: &str) -> (decoded: Option<String>)
    ensures
        opt_chars(decoded) == percent_decoded(text@),
        !text@.contains('%') ==> opt_chars(decoded) == Some(text@),
{
    match urlencoding::decode(text) {
        Ok(plain) => Some(plain.into_owned()),
        Err(_) => None,
    }
}

/// Whether a reference is fetched over the network.
pub open spec fn is_remote(reference: Seq<char>) -> bool {
    "http://"@.is_prefix_of(reference) || "https://"@.is_prefix_of(reference)
}

/// A reference without its leading `file://`, if it has one.
pub open spec fn without_file_scheme(reference: Seq<char>) -> Seq<char> {
    if "file://"@.is_prefix_of(reference) {
        reference.skip("file://"@.len() as int)
    } else {
        reference
    }
}

/// The source for a reference, given what decoding its path gave.
pub open spec fn source_given(reference: Seq<char>, decoded: Option<Seq<char>>) -> SourceView {
    if is_remote(reference) {
        SourceView::Remote(reference)
    } else {
        match decoded {
            Some(path) => SourceView::Local(path),
            None => SourceView::Local(without_file_scheme(reference)),
        }
    }
}

/// The source for a reference.
pub open spec fn source_of(reference: Seq<char>) -> SourceView {
    source_given(reference, percent_decoded(without_file_scheme(reference)))
}

/// Whether a retry is due: an art reference is recorded, its last attempt failed, and at least
/// one retry interval has passed since.
pub open spec fn retry_due(reference: Option<Seq<char>>, outcome: ArtOutcome, now: u64) -> bool {
    &&& reference is Some
    &&& outcome matches ArtOutcome::FailedAt(failed)
    &&& now - failed >= RETRY_INTERVAL_MS
}

/// The outcome after a fetch was reported. A reported fetch moves a reference that was not
/// attempted or had failed to loaded or failed; everything else stays.
pub open spec fn outcome_after_report(
    reference: Option<Seq<char>>,
    outcome: ArtOutcome,
    loaded: bool,
    now: u64,
) -> ArtOutcome {
    if reference is None || outcome == ArtOutcome::Loaded {
        outcome
    } else if loaded {
        ArtOutcome::Loaded
    } else {
        ArtOutcome::FailedAt(now)
    }
}

/// Whether a reference is fetched over the network.
pub fn is_remote_reference(reference: &str) -> (remote: bool)
    ensures
        remote == is_remote(reference@),
{
    starts_with(reference, "http://") || starts_with(reference, "https://")
}

/// A reference without its leading `file://`, if it has one.
pub fn strip_file_scheme(reference: &str) -> (path: &str)
    ensures
        path@ == without_file_scheme(reference@),
{
    if starts_with(reference, "file://") {
        proof {
            reveal_strlit("file://");
        }
        after_chars(reference, 7)
    } else {
        reference
    }
}

/// The source for a reference, once its path has been through percent decoding.
pub fn source_from_decoded(reference: &str, decoded: Option<String>) -> (source: ArtSource)
    ensures
        source@ == source_given(reference@, opt_chars(decoded)),
{
    if is_remote_reference(reference) {
        ArtSource::Remote(reference.to_owned())
    } else {
        match decoded {
            Some(path) => ArtSource::Local(path),
            None => ArtSource::Local(strip_file_scheme(reference).to_owned()),
        }
    }
}

/// The source to fetch a reference from.
pub fn art_source(reference: &str) -> (source: ArtSource)
    ensures
        source@ == source_of(reference@),
        is_remote(reference@) ==> source@ == SourceView::Remote(reference@),
        !is_remote(reference@) && !reference@.contains('%') ==> source@ == SourceView::Local(
            without_file_scheme(reference@),
        ),
{
    let decoded = percent_decode(strip_file_scheme(reference));
    proof {
        plain_path_has_no_escape(reference@);
    }
    source_from_decoded(reference, decoded)
}

/// Whether to fetch the recorded reference again at `now`.
pub fn is_retry_due(reference: &Option<String>, outcome: ArtOutcome, now: u64) -> (due: bool)
    ensures
        due == retry_due(opt_chars(*reference), outcome, now),
{
    match outcome {
        ArtOutcome::FailedAt(failed) => reference.is_some() && now >= failed && now - failed
            >= RETRY_INTERVAL_MS,
        _ => false,
    }
}

/// Dropping a leading `file://` adds no `%` to a reference.
pub proof fn plain_path_has_no_escape(reference: Seq<char>)
    ensures
        !reference.contains('%') ==> !without_file_scheme(reference).contains('%'),
{
    let path = without_file_scheme(reference);
    if path.contains('%') {
        let at = choose|i: int| 0 <= i < path.len() && path[i] == '%';
        if "file://"@.is_prefix_of(reference) {
            assert(reference[at + "file://"@.len()] == '%');
        } else {
            assert(reference[at] == '%');
        }
    }
}

/// A failed fetch is not retried before a whole retry interval has passed, and it is retried
/// once it has.
pub proof fn retry_waits_for_the_interval(reference: Seq<char>, failed: u64, now: u64)
    ensures
        retry_due(Some(reference), ArtOutcome::FailedAt(failed), now) <==> now >= failed
            + RETRY_INTERVAL_MS,
{
}

/// Nothing is retried that was loaded, that was never attempted, or that has no reference.
pub proof fn retry_only_after_failure(reference: Option<Seq<char>>, outcome: ArtOutcome, now: u64)
    ensures
        reference is None ==> !retry_due(reference, outcome, now),
        outcome == ArtOutcome::Loaded ==> !retry_due(reference, outcome, now),
        outcome == ArtOutcome::NotAttempted ==> !retry_due(reference, outcome, now),
{
}

} // verus!
