use vstd::prelude::*;
use vstd::multiset::Multiset;
use crate::path_set::{occurs_in, PathSet};
use crate::text::{append_decimal, decimal_text, str_eq};

verus! {

/// Why an operation of the coordinator failed.
#[derive(Debug)]
pub enum CubeError {
    /// A filesystem or network failure, as the store or the local disk reported it.
    Io(String),
    /// An internal failure that a collaborator reported.
    Internal(String),
    /// The store listed nothing under the path right after the upload.
    NotListedAfterUpload { remote_path: String },
    /// The store lists another size than the upload reported.
    UploadSizeMismatch { remote_path: String, expected: u64, uploaded: u64 },
    /// A transferred or cached file does not have the expected size.
    CorruptData { remote_path: String, expected: u64, received: u64 },
    /// The result bus could not deliver the outcome.
    ChannelClosed,
}

/// The broad class of a `CubeError`.
#[derive(Debug, Clone, Copy, PartialEq, Eq, Structural)]
pub enum ErrorKind {
    Io,
    CorruptData,
    Internal,
    ChannelClosed,
}

impl CubeError {
    pub open spec fn spec_kind(&self) -> ErrorKind {
        match self {
            CubeError::Io(_) => ErrorKind::Io,
            CubeError::Internal(_) => ErrorKind::Internal,
            CubeError::NotListedAfterUpload { .. } => ErrorKind::Internal,
            CubeError::UploadSizeMismatch { .. } => ErrorKind::Internal,
            CubeError::CorruptData { .. } => ErrorKind::CorruptData,
            CubeError::ChannelClosed => ErrorKind::ChannelClosed,
        }
    }

    /// The text of this error.
    pub open spec fn spec_message(&self) -> Seq<char> {
        match self {
            CubeError::Io(m) => m@,
            CubeError::Internal(m) => m@,
            CubeError::NotListedAfterUpload { remote_path } => "File "@ + remote_path@
                + " can't be listed after upload"@,
            CubeError::UploadSizeMismatch { remote_path, expected, uploaded } => "File sizes for "@
                + remote_path@ + " doesn't match after upload. Expected to be "@ + decimal_text(
                *expected as nat,
            ) + " but "@ + decimal_text(*uploaded as nat) + " uploaded"@,
            CubeError::CorruptData { remote_path, expected, received } => "Expected file size for '"@
                + remote_path@ + "' is "@ + decimal_text(*expected as nat) + " but "@ + decimal_text(
                *received as nat,
            ) + " received"@,
            CubeError::ChannelClosed => "Result channel closed"@,
        }
    }

    /// The text of this error, as it is reported to callers.
    pub fn message(&self) -> (r: String)
        ensures
            r@ == self.spec_message(),
    {
        match self {
            CubeError::Io(m) => m.clone(),
            CubeError::Internal(m) => m.clone(),
            CubeError::NotListedAfterUpload { remote_path } => {
                let mut s = String::from_str("File ");
                s.append(remote_path.as_str());
                s.append(" can't be listed after upload");
                s
            },
            CubeError::UploadSizeMismatch { remote_path, expected, uploaded } => {
                let mut s = String::from_str("File sizes for ");
                s.append(remote_path.as_str());
                s.append(" doesn't match after upload. Expected to be ");
                append_decimal(&mut s, *expected);
                s.append(" but ");
                append_decimal(&mut s, *uploaded);
                s.append(" uploaded");
                s
            },
            CubeError::CorruptData { remote_path, expected, received } => {
                let mut s = String::from_str("Expected file size for '");
                s.append(remote_path.as_str());
                s.append("' is ");
                append_decimal(&mut s, *expected);
                s.append(" but ");
                append_decimal(&mut s, *received);
                s.append(" received");
                s
            },
            CubeError::ChannelClosed => String::from_str("Result channel closed"),
        }
    }

    /// The class of this error: failed post-upload checks are internal errors.
    pub fn kind(&self) -> (r: ErrorKind)
        ensures
            r == self.spec_kind(),
    {
        match self {
            CubeError::Io(_) => ErrorKind::Io,
            CubeError::Internal(_) => ErrorKind::Internal,
            CubeError::NotListedAfterUpload { .. } => ErrorKind::Internal,
            CubeError::UploadSizeMismatch { .. } => ErrorKind::Internal,
            CubeError::CorruptData { .. } => ErrorKind::CorruptData,
            CubeError::ChannelClosed => ErrorKind::ChannelClosed,
        }
    }
}

impl Clone for CubeError {
    fn clone(&self) -> (r: Self)
        ensures
            r == *self,
    {
        match self {
            CubeError::Io(m) => CubeError::Io(m.clone()),
            CubeError::Internal(m) => CubeError::Internal(m.clone()),
            CubeError::NotListedAfterUpload { remote_path } => CubeError::NotListedAfterUpload {
                remote_path: remote_path.clone(),
            },
            CubeError::UploadSizeMismatch { remote_path, expected, uploaded } => {
                CubeError::UploadSizeMismatch {
                    remote_path: remote_path.clone(),
                    expected: *expected,
                    uploaded: *uploaded,
                }
            },
            CubeError::CorruptData { remote_path, expected, received } => CubeError::CorruptData {
                remote_path: remote_path.clone(),
                expected: *expected,
                received: *received,
            },
            CubeError::ChannelClosed => CubeError::ChannelClosed,
        }
    }
}

/// An operation waiting in one of the two queues.
#[derive(Debug)]
pub enum RemoteFsOp {
    Upload { temp_upload_path: String, remote_path: String },
    Delete(String),
    Download(String, Option<u64>),
}

/// The outcome of an operation, as published on the result bus.
#[derive(Debug)]
pub enum RemoteFsOpResult {
    Upload(String, Result<u64, CubeError>),
    Delete(String, Result<(), CubeError>),
    Download(String, Result<String, CubeError>),
}

impl Clone for RemoteFsOpResult {
    fn clone(&self) -> (r: Self) {
        match self {
            RemoteFsOpResult::Upload(p, res) => {
                let res = match res {
                    Ok(n) => Ok(*n),
                    Err(e) => Err(e.clone()),
                };
                RemoteFsOpResult::Upload(p.clone(), res)
            },
            RemoteFsOpResult::Delete(p, res) => {
                let res = match res {
                    Ok(()) => Ok(()),
                    Err(e) => Err(e.clone()),
                };
                RemoteFsOpResult::Delete(p.clone(), res)
            },
            RemoteFsOpResult::Download(p, res) => {
                let res = match res {
                    Ok(l) => Ok(l.clone()),
                    Err(e) => Err(e.clone()),
                };
                RemoteFsOpResult::Download(p.clone(), res)
            },
        }
    }
}

/// One entry of a listing of the store with metadata.
#[derive(Debug, Clone)]
pub struct RemoteFile {
    pub remote_path: String,
    pub file_size: u64,
}

#[verifier::external_type_specification]
#[verifier::external_body]
#[verifier::reject_recursive_types(T)]
pub struct ExBroadcastSender<T>(tokio::sync::broadcast::Sender<T>);

#[verifier::external_type_specification]
#[verifier::external_body]
#[verifier::reject_recursive_types(T)]
pub struct ExBroadcastSendError<T>(tokio::sync::broadcast::error::SendError<T>);

/// Relies on tokio's broadcast `Sender::send`: it never blocks, and on success
/// returns the number of subscribed receivers, which is at least one (with no
/// receiver it fails and hands the value back).
pub assume_specification<T>[ tokio::sync::broadcast::Sender::<T>::send ](
    sender: &tokio::sync::broadcast::Sender<T>,
    value: T,
) -> (r: Result<usize, tokio::sync::broadcast::error::SendError<T>>)
    ensures
        r matches Ok(n) ==> n >= 1,
;

/// The outcome of a send on the result bus, as the coordinator reports it:
/// a failed send (no receiver left) is `ChannelClosed`.
pub fn send_outcome(sent: Result<usize, tokio::sync::broadcast::error::SendError<RemoteFsOpResult>>) -> (r:
    Result<(), CubeError>)
    ensures
        r is Ok <==> sent is Ok,
        r is Err ==> r == Err::<(), CubeError>(CubeError::ChannelClosed),
{
    match sent {
        Ok(_) => Ok(()),
        Err(_) => Err(CubeError::ChannelClosed),
    }
}

/// Hands `message` to the result bus and reports the outcome of that send.
pub fn publish(bus: &tokio::sync::broadcast::Sender<RemoteFsOpResult>, message: RemoteFsOpResult) -> (r:
    Result<(), CubeError>)
    ensures
        r is Err ==> r == Err::<(), CubeError>(CubeError::ChannelClosed),
{
    send_outcome(bus.send(message))
}

/// Ends the download of `remote_path`, with the `downloading` lock held: the
/// path leaves the in-flight set, and the message to publish, before the lock
/// is released, is the download's own outcome.
pub fn complete_download(
    downloading: &mut PathSet,
    remote_path: String,
    result: Result<String, CubeError>,
) -> (message: RemoteFsOpResult)
    ensures
        final(downloading)@ == old(downloading)@.remove(remote_path@),
        message == RemoteFsOpResult::Download(remote_path, result),
{
    downloading.remove(remote_path.as_str());
    RemoteFsOpResult::Download(remote_path, result)
}

/// What an upload worker does with an operation taken from the upload queue.
#[derive(Debug)]
pub enum UploadWork {
    /// The path is tombstoned: the operation is dropped and nothing is published.
    Skip,
    /// Upload the staged file, check the listing, publish an upload result.
    Upload { temp_upload_path: String, remote_path: String },
    /// Delete the remote file and publish a delete result.
    Delete(String),
}

/// Decides what an upload worker does with `op`, consulting the tombstones in `deleted`.
pub fn plan_upload_work(deleted: &PathSet, op: RemoteFsOp) -> (r: UploadWork)
    requires
        !(op is Download),
    ensures
        match op {
            RemoteFsOp::Upload { temp_upload_path: t, remote_path: p } => if deleted@.contains(p@) {
                r is Skip
            } else {
                r == (UploadWork::Upload { temp_upload_path: t, remote_path: p })
            },
            RemoteFsOp::Delete(p) => r == UploadWork::Delete(p),
            RemoteFsOp::Download(..) => false,
        },
{
    match op {
        RemoteFsOp::Upload { temp_upload_path, remote_path } => {
            if deleted.contains(remote_path.as_str()) {
                UploadWork::Skip
            } else {
                UploadWork::Upload { temp_upload_path, remote_path }
            }
        },
        RemoteFsOp::Delete(p) => UploadWork::Delete(p),
        RemoteFsOp::Download(..) => UploadWork::Skip,
    }
}

/// Whether `r` is the verdict on `listing`, taken right after an upload of
/// `remote_path` that reported `size` bytes: a failed listing is passed on, an
/// empty one or one whose first entry has another size is an error.
pub open spec fn listing_checked(
    remote_path: Seq<char>,
    size: u64,
    listing: Result<Vec<RemoteFile>, CubeError>,
    r: Result<u64, CubeError>,
) -> bool {
    match listing {
        Err(e) => r == Err::<u64, CubeError>(e),
        Ok(files) => if files@.len() == 0 {
            r matches Err(CubeError::NotListedAfterUpload { remote_path: p }) && p@ == remote_path
        } else if files@[0].file_size != size {
            r matches Err(CubeError::UploadSizeMismatch { remote_path: p, expected, uploaded })
                && p@ == remote_path && expected == size && uploaded == files@[0].file_size
        } else {
            r == Ok::<u64, CubeError>(size)
        },
    }
}

/// Checks the listing taken right after an upload that reported `size` bytes.
///
/// The upload stands only if the store lists the path and its first entry has
/// the reported size.
pub fn verify_upload_listing(
    remote_path: &str,
    size: u64,
    listing: Result<Vec<RemoteFile>, CubeError>,
) -> (r: Result<u64, CubeError>)
    ensures
        listing_checked(remote_path@, size, listing, r),
        r matches Ok(s) ==> (listing matches Ok(files) && files@.len() > 0 && files@[0].file_size
            == s),
{
    match listing {
        Err(e) => Err(e),
        Ok(files) => {
            if files.len() == 0 {
                Err(CubeError::NotListedAfterUpload { remote_path: remote_path.to_owned() })
            } else if files[0].file_size != size {
                Err(
                    CubeError::UploadSizeMismatch {
                        remote_path: remote_path.to_owned(),
                        expected: size,
                        uploaded: files[0].file_size,
                    },
                )
            } else {
                Ok(size)
            }
        },
    }
}

/// The message an upload worker publishes for `remote_path`: the upload's own
/// error when it failed (the store is then not listed), else the verdict on the
/// listing taken after it.
pub fn upload_message(
    remote_path: String,
    uploaded: Result<u64, CubeError>,
    listing: Option<Result<Vec<RemoteFile>, CubeError>>,
) -> (message: RemoteFsOpResult)
    requires
        uploaded is Ok <==> listing is Some,
    ensures
        match uploaded {
            Err(e) => message == RemoteFsOpResult::Upload(remote_path, Err(e)),
            Ok(size) => message matches RemoteFsOpResult::Upload(p, r) && p == remote_path
                && listing_checked(remote_path@, size, listing->Some_0, r),
        },
{
    match uploaded {
        Err(e) => RemoteFsOpResult::Upload(remote_path, Err(e)),
        Ok(size) => {
            let listing = listing.unwrap();
            let verdict = verify_upload_listing(remote_path.as_str(), size, listing);
            RemoteFsOpResult::Upload(remote_path, verdict)
        },
    }
}

/// Whether a file of `actual` bytes is what a caller expecting `expected` asked for.
pub open spec fn size_accepted(expected: Option<u64>, actual: u64) -> bool {
    match expected {
        Some(e) => e == actual,
        None => true,
    }
}

/// Compares the size of the local copy of `remote_path` with the expected one.
///
/// On a mismatch the caller removes the local file and fails with the error.
pub fn check_file_size(remote_path: &str, expected_file_size: Option<u64>, actual_size: u64) -> (r:
    Result<(), CubeError>)
    ensures
        r is Ok <==> size_accepted(expected_file_size, actual_size),
        r is Err ==> (r matches Err(CubeError::CorruptData { remote_path: p, expected, received })
            && p@ == remote_path@ && expected_file_size == Some(expected) && received == actual_size),
{
    match expected_file_size {
        Some(expected) => {
            if actual_size != expected {
                Err(
                    CubeError::CorruptData {
                        remote_path: remote_path.to_owned(),
                        expected,
                        received: actual_size,
                    },
                )
            } else {
                Ok(())
            }
        },
        None => Ok(()),
    }
}

/// What a waiting `download_file` returns once the download of `remote_path`
/// was published with `result`. A failed download is returned as it is; after
/// a successful one the local copy, of `local_size` bytes, is checked.
pub fn settle_download(
    remote_path: &str,
    expected_file_size: Option<u64>,
    local_size: u64,
    result: Result<String, CubeError>,
) -> (r: Result<String, CubeError>)
    ensures
        result is Err ==> r == result,
        result is Ok && size_accepted(expected_file_size, local_size) ==> r == result,
        result is Ok && !size_accepted(expected_file_size, local_size) ==> (r matches Err(
            CubeError::CorruptData { remote_path: p, expected, received },
        ) && p@ == remote_path@ && expected_file_size == Some(expected) && received == local_size),
        r is Ok ==> size_accepted(expected_file_size, local_size),
{
    match result {
        Err(e) => Err(e),
        Ok(local_path) => match check_file_size(remote_path, expected_file_size, local_size) {
            Err(e) => Err(e),
            Ok(()) => Ok(local_path),
        },
    }
}

/// The effect of asking for a download of `p` while `downloading` holds the
/// paths in flight: whether a download is enqueued, and the new set.
pub open spec fn request_step(downloading: Set<Seq<char>>, p: Seq<char>) -> (bool, Set<Seq<char>>) {
    (!downloading.contains(p), downloading.insert(p))
}

/// Whether `op` and the in-flight set `after` are what a request for a download
/// of `p` (expecting `expected` bytes) gives from the in-flight set `before`: a
/// `Download` of exactly `p` is to be enqueued when, and only when, none is in flight.
pub open spec fn download_requested(
    before: Set<Seq<char>>,
    after: Set<Seq<char>>,
    p: Seq<char>,
    expected: Option<u64>,
    op: Option<RemoteFsOp>,
) -> bool {
    &&& (op is Some, after) == request_step(before, p)
    &&& op is Some ==> (op->Some_0 matches RemoteFsOp::Download(q, e) && q@ == p && e == expected)
}

/// Registers a caller's interest in `remote_path` under the `downloading` lock.
///
/// Returns the `Download` operation that the caller pushes onto the download
/// queue before it releases the lock; none when a download of the path is
/// already in flight.
pub fn request_download(
    downloading: &mut PathSet,
    remote_path: &str,
    expected_file_size: Option<u64>,
) -> (op: Option<RemoteFsOp>)
    ensures
        download_requested(
            old(downloading)@,
            final(downloading)@,
            remote_path@,
            expected_file_size,
            op,
        ),
{
    if downloading.contains(remote_path) {
        assert(downloading@ =~= downloading@.insert(remote_path@));
        None
    } else {
        downloading.insert(remote_path);
        Some(RemoteFsOp::Download(remote_path.to_owned(), expected_file_size))
    }
}

/// The outcome that an `upload_file` caller waiting on `remote_path` takes from
/// `res`: the outcome of an upload of that very path, and nothing otherwise.
pub fn upload_outcome_for(res: RemoteFsOpResult, remote_path: &str) -> (r: Option<Result<u64, CubeError>>)
    ensures
        match res {
            RemoteFsOpResult::Upload(p, o) => if p@ == remote_path@ { r == Some(o) } else { r is None },
            _ => r is None,
        },
{
    match res {
        RemoteFsOpResult::Upload(p, o) => {
            if str_eq(p.as_str(), remote_path) {
                Some(o)
            } else {
                None
            }
        },
        _ => None,
    }
}

/// The outcome that a `delete_file` caller waiting on `remote_path` takes from `res`.
pub fn delete_outcome_for(res: RemoteFsOpResult, remote_path: &str) -> (r: Option<Result<(), CubeError>>)
    ensures
        match res {
            RemoteFsOpResult::Delete(p, o) => if p@ == remote_path@ { r == Some(o) } else { r is None },
            _ => r is None,
        },
{
    match res {
        RemoteFsOpResult::Delete(p, o) => {
            if str_eq(p.as_str(), remote_path) {
                Some(o)
            } else {
                None
            }
        },
        _ => None,
    }
}

/// The outcome that a `download_file` caller waiting on `remote_path` takes from `res`.
pub fn download_outcome_for(res: RemoteFsOpResult, remote_path: &str) -> (r: Option<
    Result<String, CubeError>,
>)
    ensures
        match res {
            RemoteFsOpResult::Download(p, o) => if p@ == remote_path@ { r == Some(o) } else { r is None },
            _ => r is None,
        },
{
    match res {
        RemoteFsOpResult::Download(p, o) => {
            if str_eq(p.as_str(), remote_path) {
                Some(o)
            } else {
                None
            }
        },
        _ => None,
    }
}

/// The names that a listing of the store holds.
pub open spec fn listed_names(names: Seq<String>) -> Set<Seq<char>> {
    Set::new(|p: Seq<char>| occurs_in(names, names.len() as int, p))
}

/// The local files that the store no longer lists: what one reconciler tick removes.
pub fn stale_local_files(local_files: PathSet, remote_files: &Vec<String>) -> (r: PathSet)
    ensures
        r@ == local_files@.difference(listed_names(remote_files@)),
        forall|i: int| 0 <= i < remote_files@.len() ==> !r@.contains(#[trigger] remote_files@[i]@),
{
    let mut stale = local_files;
    let mut i: usize = 0;
    while i < remote_files.len()
        invariant
            i <= remote_files@.len(),
            stale@ == local_files@.difference(
                Set::new(|p: Seq<char>| occurs_in(remote_files@, i as int, p)),
            ),
        decreases remote_files@.len() - i,
    {
        stale.remove(remote_files[i].as_str());
        assert(stale@ =~= local_files@.difference(
            Set::new(|p: Seq<char>| occurs_in(remote_files@, i + 1, p)),
        )) by {
            assert forall|p: Seq<char>| occurs_in(remote_files@, i + 1, p) implies (p == remote_files@[i as int]@
                || occurs_in(remote_files@, i as int, p)) by {
                let j = choose|j: int| 0 <= j < i + 1 && #[trigger] remote_files@[j]@ == p;
                if j < i {
                    assert(occurs_in(remote_files@, i as int, p));
                }
            }
            assert forall|p: Seq<char>| occurs_in(remote_files@, i as int, p) implies occurs_in(remote_files@, i + 1, p) by {
                let j = choose|j: int| 0 <= j < i && #[trigger] remote_files@[j]@ == p;
                assert(remote_files@[j]@ == p);
            }
            assert(occurs_in(remote_files@, i + 1, remote_files@[i as int]@));
        }
        i = i + 1;
    }
    assert(Set::new(|p: Seq<char>| occurs_in(remote_files@, i as int, p)) =~= listed_names(remote_files@));
    assert forall|k: int| 0 <= k < remote_files@.len() implies !stale@.contains(#[trigger] remote_files@[k]@) by {
        assert(occurs_in(remote_files@, remote_files@.len() as int, remote_files@[k]@));
    }
    stale
}

/// Whether the in-flight set agrees with the download operations that are
/// queued or executing (`pending`, one entry per operation): each path in
/// `downloading` has exactly one such operation, and no other path has any.
pub open spec fn downloads_tracked(downloading: Set<Seq<char>>, pending: Multiset<Seq<char>>) -> bool {
    forall|p: Seq<char>| #[trigger] pending.count(p) == if downloading.contains(p) { 1nat } else { 0nat }
}

/// A request keeps the in-flight set in agreement with the pending operations,
/// counting the operation it enqueues, if any.
pub proof fn law_request_keeps_downloads_tracked(
    before: Set<Seq<char>>,
    after: Set<Seq<char>>,
    pending: Multiset<Seq<char>>,
    p: Seq<char>,
    expected: Option<u64>,
    op: Option<RemoteFsOp>,
)
    requires
        downloads_tracked(before, pending),
        download_requested(before, after, p, expected, op),
    ensures
        downloads_tracked(after, if op is Some { pending.insert(p) } else { pending }),
{
}

/// Completing a pending download of `p` (publishing its outcome and taking `p`
/// out of the in-flight set) keeps the two in agreement, and the next request
/// for `p` enqueues a fresh download.
pub proof fn law_completion_keeps_downloads_tracked(
    downloading: Set<Seq<char>>,
    pending: Multiset<Seq<char>>,
    p: Seq<char>,
)
    requires
        downloads_tracked(downloading, pending),
        pending.count(p) > 0,
    ensures
        downloads_tracked(downloading.remove(p), pending.remove(p)),
        request_step(downloading.remove(p), p).0,
{
}

/// How many of the requests `reqs`, made one after another from the in-flight
/// set `downloading` with no download completing meanwhile, enqueue a download of `p`.
pub open spec fn enqueued_count(downloading: Set<Seq<char>>, reqs: Seq<Seq<char>>, p: Seq<char>) -> nat
    decreases reqs.len(),
{
    if reqs.len() == 0 {
        0
    } else {
        let (enqueued, after) = request_step(downloading, reqs[0]);
        (if enqueued && reqs[0] == p { 1nat } else { 0nat }) + enqueued_count(after, reqs.drop_first(), p)
    }
}

/// Overlapping requests for one path enqueue at most one download of it, and
/// none while one is already in flight.
pub proof fn law_overlapping_requests_enqueue_once(
    downloading: Set<Seq<char>>,
    reqs: Seq<Seq<char>>,
    p: Seq<char>,
)
    ensures
        enqueued_count(downloading, reqs, p) <= 1,
        downloading.contains(p) ==> enqueued_count(downloading, reqs, p) == 0,
    decreases reqs.len(),
{
    if reqs.len() > 0 {
        let (enqueued, after) = request_step(downloading, reqs[0]);
        law_overlapping_requests_enqueue_once(after, reqs.drop_first(), p);
        if reqs[0] == p {
            assert(after.contains(p));
        }
    }
}

} // verus!
