//! Uploads: the request, the segments of the payload, what the observer is
//! told, and how a lookup decides whether anything is sent at all.

use vstd::prelude::*;
use vstd::slice::{slice_subrange, slice_to_vec};
use vstd::string::*;
use crate::client::{
    interpret_lookup, interpret_upload, lookup_outcome, lookup_url, packages_url, stored_view,
    upload_outcome, ReplyView, SIContentServiceClient, TransportReply,
};
use crate::model::{ContentServiceError, ErrorView, FileKey, FileKeyView, UploadResult, UploadResultView};

verus! {

/// How many bytes a segment of the payload holds, but for the last one.
pub const SEGMENT_SIZE: usize = 65536;

/// The header that carries the digest. The store reads a SHA-1 digest from it
/// in spite of its name.
pub const DIGEST_HEADER: &'static str = "Content-MD5";

/// The name of the one part of the multipart body.
pub const PART_NAME: &'static str = "file";

/// The media type that the part is sent with.
pub const CONTENT_TYPE: &'static str = "application/x-zip-compressed";

/// What is posted to the store, apart from the payload itself.
#[derive(Debug, Clone, PartialEq, Eq)]
pub struct UploadRequest {
    /// The address to post to.
    pub url: String,
    /// The name of the header that carries the digest.
    pub digest_header: String,
    /// The value of that header: the digest in standard base64, as the key
    /// holds it.
    pub digest: String,
    /// The name of the one part of the multipart body.
    pub part_name: String,
    /// The file name of the part: the package name.
    pub file_name: String,
    /// The media type of the part.
    pub content_type: String,
    /// The length of the payload in bytes.
    pub content_length: u64,
}

/// What an `UploadRequest` holds, as plain values.
pub struct UploadRequestView {
    pub url: Seq<char>,
    pub digest_header: Seq<char>,
    pub digest: Seq<char>,
    pub part_name: Seq<char>,
    pub file_name: Seq<char>,
    pub content_type: Seq<char>,
    pub content_length: nat,
}

impl View for UploadRequest {
    type V = UploadRequestView;

    open spec fn view(&self) -> UploadRequestView {
        UploadRequestView {
            url: self.url@,
            digest_header: self.digest_header@,
            digest: self.digest@,
            part_name: self.part_name@,
            file_name: self.file_name@,
            content_type: self.content_type@,
            content_length: self.content_length as nat,
        }
    }
}

/// The request that uploads `total` bytes under `key` to the store at
/// `endpoint`: a post to the packages address with one part, named `file`,
/// that has the package name for its file name, and with the digest of the key,
/// as it stands, in the header `Content-MD5`.
pub open spec fn upload_request(endpoint: Seq<char>, key: FileKeyView, total: nat) -> UploadRequestView {
    UploadRequestView {
        url: packages_url(endpoint),
        digest_header: "Content-MD5"@,
        digest: key.hash,
        part_name: "file"@,
        file_name: key.name,
        content_type: "application/x-zip-compressed"@,
        content_length: total,
    }
}

/// Where the segment that starts at `start` ends, in a payload of `total`
/// bytes.
pub open spec fn segment_end(start: nat, total: nat) -> nat {
    if start + SEGMENT_SIZE <= total {
        start + SEGMENT_SIZE as nat
    } else {
        total
    }
}

/// How many bytes have been handed off once `count` segments of a payload of
/// `total` bytes are.
pub open spec fn bytes_after(count: nat, total: nat) -> nat {
    if count * SEGMENT_SIZE <= total {
        count * SEGMENT_SIZE as nat
    } else {
        total
    }
}

/// What an observer of one upload of `total` bytes may have been told so
/// far: first `(0, total)`; in every pair the same total and a count of bytes
/// that does not exceed it; and the counts never decrease.
pub open spec fn is_progress_trace(trace: Seq<(nat, nat)>, total: nat) -> bool {
    &&& trace.len() > 0
    &&& trace[0] == (0nat, total)
    &&& forall|i: int| 0 <= i < trace.len() ==> (#[trigger] trace[i]).1 == total && trace[i].0 <= total
    &&& forall|i: int, j: int| 0 <= i <= j < trace.len() ==> (#[trigger] trace[i]).0 <= (#[trigger] trace[j]).0
}

/// A progress trace stays one when a pair is added whose count is at least
/// the last count and at most the total.
pub proof fn lemma_progress_trace_grows(trace: Seq<(nat, nat)>, total: nat, sent: nat)
    requires
        is_progress_trace(trace, total),
        trace.last().0 <= sent <= total,
    ensures
        is_progress_trace(trace.push((sent, total)), total),
{
    let longer = trace.push((sent, total));
    assert forall|i: int, j: int| 0 <= i <= j < longer.len() implies (#[trigger] longer[i]).0
        <= (#[trigger] longer[j]).0 by {
        if j < trace.len() {
            assert(trace[i].0 <= trace[j].0);
        } else if i < trace.len() {
            assert(trace[i].0 <= trace[trace.len() - 1].0);
        }
    }
}

/// An upload under way: the request, the payload, how much of it has been
/// handed to the transport, and what the observer has been told.
pub struct Transfer {
    request: UploadRequest,
    data: Vec<u8>,
    progress: Progress,
}

/// How far a transfer has come: the bytes handed to the transport, and the
/// pairs that the observer has been told.
struct Progress {
    sent: usize,
    seen: Ghost<Seq<(nat, nat)>>,
}

/// How an upload ended: the last pair for the observer, if the store
/// answered, and the reference under which the package is stored, or why it
/// is not.
#[derive(Debug)]
pub struct UploadCompletion {
    pub observation: Option<(u64, u64)>,
    pub result: Result<String, ContentServiceError>,
}

impl Transfer {
    /// The bytes that are uploaded.
    pub closed spec fn payload(&self) -> Seq<u8> {
        self.data@
    }

    /// How many bytes of the payload there are.
    pub open spec fn total(&self) -> nat {
        self.payload().len()
    }

    /// How many bytes have been handed to the transport.
    pub closed spec fn sent(&self) -> nat {
        self.progress.sent as nat
    }

    /// The pairs that the observer has been told, in order.
    pub closed spec fn observations(&self) -> Seq<(nat, nat)> {
        self.progress.seen@
    }

    /// The request, as plain values.
    pub closed spec fn request_view(&self) -> UploadRequestView {
        self.request@
    }

    /// What holds of every transfer: no more is sent than there is, the
    /// request announces the payload's length, and the observer has been told
    /// a progress trace that ends at the bytes sent: first that nothing is
    /// sent, then the bytes after one segment, after two, and so on.
    #[verifier::type_invariant]
    pub open spec fn wf(&self) -> bool {
        &&& self.sent() <= self.total()
        &&& self.total() <= u64::MAX
        &&& self.request_view().content_length == self.total()
        &&& is_progress_trace(self.observations(), self.total())
        &&& self.observations().last() == (self.sent(), self.total())
        &&& forall|i: int|
            0 <= i < self.observations().len() ==> #[trigger] self.observations()[i] == (
                bytes_after(i as nat, self.total()),
                self.total(),
            )
    }

    /// A transfer of `data` of which nothing has been sent, and the first
    /// pair for the observer.
    fn start(request: UploadRequest, data: Vec<u8>) -> (started: (Transfer, (u64, u64)))
        requires
            request.content_length == data@.len(),
        ensures
            started.0.wf(),
            started.0.payload() == data@,
            started.0.request_view() == request@,
            started.0.sent() == 0,
            started.0.observations() == seq![(0nat, data@.len())],
            started.1 == (0u64, data@.len() as u64),
    {
        let total: u64 = data.len() as u64;
        let ghost first = seq![(0nat, data@.len())];
        (Transfer { request, data, progress: Progress { sent: 0, seen: Ghost(first) } }, (0, total))
    }

    /// What is posted to the store.
    pub fn request(&self) -> (request: &UploadRequest)
        ensures
            request@ == self.request_view(),
    {
        &self.request
    }

    /// The next segment for the transport and the pair for the observer, or
    /// `None` when the whole payload has been handed off. A segment starts
    /// where the one before it ended and holds `SEGMENT_SIZE` bytes, or what
    /// is left of the payload if that is less.
    pub fn next_segment(&mut self) -> (next: Option<(Vec<u8>, (u64, u64))>)
        ensures
            final(self).wf(),
            final(self).payload() == old(self).payload(),
            final(self).request_view() == old(self).request_view(),
            old(self).sent() == old(self).total() ==> next is None && final(self).sent() == old(self).sent()
                && final(self).observations() == old(self).observations(),
            old(self).sent() < old(self).total() ==> (next matches Some((segment, seen)) && {
                let end = segment_end(old(self).sent(), old(self).total());
                &&& segment@ == old(self).payload().subrange(old(self).sent() as int, end as int)
                &&& 0 < segment@.len() <= SEGMENT_SIZE
                &&& old(self).payload().take(old(self).sent() as int) + segment@ == old(self).payload().take(
                    end as int,
                )
                &&& final(self).sent() == end
                &&& seen == (end as u64, old(self).total() as u64)
                &&& final(self).observations() == old(self).observations().push((end, old(self).total()))
            }),
    {
        proof {
            use_type_invariant(&*self);
        }
        let total: usize = self.data.len();
        let start: usize = self.progress.sent;
        if start >= total {
            return None;
        }
        let end: usize = if total - start > SEGMENT_SIZE {
            start + SEGMENT_SIZE
        } else {
            total
        };
        let segment: Vec<u8> = slice_to_vec(slice_subrange(self.data.as_slice(), start, end));
        let ghost seen = self.progress.seen@.push((end as nat, total as nat));
        proof {
            lemma_progress_trace_grows(self.progress.seen@, total as nat, end as nat);
            assert(self.data@.take(start as int) + segment@ =~= self.data@.take(end as int));
        }
        self.progress = Progress { sent: end, seen: Ghost(seen) };
        Some((segment, (end as u64, total as u64)))
    }

    /// Ends the transfer with the reply to the request. Where the store
    /// answered, whatever the status, the observer is told once more that all
    /// bytes are sent; where no answer came, it is told nothing more.
    pub fn on_reply(self, reply: TransportReply) -> (done: UploadCompletion)
        ensures
            stored_view(done.result) == upload_outcome(reply@),
            reply@ is Answered ==> done.observation == Some((self.total() as u64, self.total() as u64))
                && is_progress_trace(self.observations().push((self.total(), self.total())), self.total()),
            reply@ is Failed ==> done.observation is None,
    {
        let total: u64 = self.data.len() as u64;
        proof {
            use_type_invariant(&self);
            lemma_progress_trace_grows(self.progress.seen@, self.total(), self.total());
        }
        let observation: Option<(u64, u64)> = match &reply {
            TransportReply::Answered { .. } => Some((total, total)),
            TransportReply::Failed(_) => None,
        };
        UploadCompletion { observation, result: interpret_upload(reply) }
    }
}

/// What the observer of an upload of N bytes has been told once the store has
/// answered, however much was handed off before: the first pair is `(0, N)`,
/// the last is `(N, N)`, every pair names the total N, and the bytes sent
/// never decrease.
pub proof fn lemma_observed_progress(transfer: Transfer)
    requires
        transfer.wf(),
    ensures
        ({
            let told = transfer.observations().push((transfer.total(), transfer.total()));
            &&& told.first() == (0nat, transfer.total())
            &&& told.last() == (transfer.total(), transfer.total())
            &&& forall|i: int| 0 <= i < told.len() ==> (#[trigger] told[i]).1 == transfer.total()
            &&& forall|i: int, j: int|
                0 <= i <= j < told.len() ==> (#[trigger] told[i]).0 <= (#[trigger] told[j]).0
        }),
{
    lemma_progress_trace_grows(transfer.observations(), transfer.total(), transfer.total());
}

/// The result of a lookup-or-upload, as plain text.
pub open spec fn outcome_view(outcome: Result<UploadResult, ContentServiceError>) -> Result<
    UploadResultView,
    ErrorView,
> {
    match outcome {
        Ok(r) => Ok(r@),
        Err(e) => Err(e@),
    }
}

impl UploadCompletion {
    /// The result of an upload that followed a lookup: the reference of a
    /// package that was not there before, or the failure.
    pub fn into_upload_result(self) -> (outcome: Result<UploadResult, ContentServiceError>)
        ensures
            outcome_view(outcome) == match stored_view(self.result) {
                Ok(uri) => Ok(UploadResultView { uri, already_existed: false }),
                Err(e) => Err(e),
            },
    {
        match self.result {
            Ok(uri) => Ok(UploadResult { uri, already_existed: false }),
            Err(e) => Err(e),
        }
    }
}

/// A lookup that waits for its reply.
#[derive(Debug)]
pub struct PendingLookup {
    url: String,
}

impl PendingLookup {
    /// The address that is asked.
    pub closed spec fn address(&self) -> Seq<char> {
        self.url@
    }

    /// The address to send the read-only request to.
    pub fn url(&self) -> (url: &str)
        ensures
            url@ == self.address(),
    {
        self.url.as_str()
    }

    /// The reference of the package if the store holds it, `None` if it does
    /// not, and the failure otherwise.
    pub fn on_reply(self, reply: TransportReply) -> (found: Result<Option<String>, ContentServiceError>)
        ensures
            crate::client::lookup_view(found) == lookup_outcome(reply@),
            reply@ matches ReplyView::Answered { status, .. } && status == 404 ==> found == Ok::<
                Option<String>,
                ContentServiceError,
            >(None),
            reply@ matches ReplyView::Failed(why) ==> (found matches Err(ContentServiceError::NetworkError(text))
                && text@ == why),
    {
        interpret_lookup(reply)
    }
}

/// A lookup-or-upload that waits for the reply to its lookup. Nothing has been
/// sent of the payload, and the observer has been told nothing.
pub struct DedupUpload {
    lookup: PendingLookup,
    request: UploadRequest,
    data: Vec<u8>,
}

/// How a lookup-or-upload goes on after the lookup.
pub enum DedupStep {
    /// It is over: the package was there, or the lookup failed.
    Finished(Result<UploadResult, ContentServiceError>),
    /// The package is not there: the upload that has now begun, and the first
    /// pair for the observer.
    Upload(Transfer, (u64, u64)),
}

impl DedupUpload {
    /// The address that is asked whether the package is there.
    pub closed spec fn address(&self) -> Seq<char> {
        self.lookup.address()
    }

    /// The bytes that are uploaded if the package is not there.
    pub closed spec fn payload(&self) -> Seq<u8> {
        self.data@
    }

    /// The request that uploads them, as plain values.
    pub closed spec fn request_view(&self) -> UploadRequestView {
        self.request@
    }

    /// What holds of every pending lookup-or-upload: the request announces
    /// the payload's length.
    #[verifier::type_invariant]
    pub open spec fn wf(&self) -> bool {
        self.request_view().content_length == self.payload().len()
    }

    /// The address to send the read-only request to.
    pub fn lookup_url(&self) -> (url: &str)
        ensures
            url@ == self.address(),
    {
        self.lookup.url()
    }

    /// Decides on the reply to the lookup. If the store holds the package,
    /// the result is its reference, marked as having been there, and no
    /// upload begins. If the lookup failed, so does the whole operation, and
    /// no upload begins either. Only if the store said that the package is
    /// not there does the upload begin.
    pub fn on_lookup_reply(self, reply: TransportReply) -> (step: DedupStep)
        ensures
            match lookup_outcome(reply@) {
                Ok(Some(uri)) => step matches DedupStep::Finished(Ok(r)) && r@ == (UploadResultView {
                    uri,
                    already_existed: true,
                }),
                Err(e) => step matches DedupStep::Finished(Err(x)) && x@ == e,
                Ok(None) => step matches DedupStep::Upload(transfer, first) && {
                    &&& transfer.wf()
                    &&& transfer.payload() == self.payload()
                    &&& transfer.request_view() == self.request_view()
                    &&& transfer.sent() == 0
                    &&& transfer.observations() == seq![(0nat, self.payload().len())]
                    &&& first == (0u64, self.payload().len() as u64)
                },
            },
    {
        proof {
            use_type_invariant(&self);
        }
        match self.lookup.on_reply(reply) {
            Ok(Some(uri)) => DedupStep::Finished(Ok(UploadResult { uri, already_existed: true })),
            Err(e) => DedupStep::Finished(Err(e)),
            Ok(None) => {
                let started = Transfer::start(self.request, self.data);
                DedupStep::Upload(started.0, started.1)
            },
        }
    }
}

impl SIContentServiceClient {
    /// What is posted to upload `total` bytes under `key`.
    fn upload_request(&self, key: &FileKey, total: u64) -> (request: UploadRequest)
        ensures
            request@ == upload_request(self.endpoint(), key@, total as nat),
    {
        UploadRequest {
            url: self.upload_url(),
            digest_header: String::from_str(DIGEST_HEADER),
            digest: key.hash.clone(),
            part_name: String::from_str(PART_NAME),
            file_name: key.name.clone(),
            content_type: String::from_str(CONTENT_TYPE),
            content_length: total,
        }
    }

    /// Begins a lookup: asks whether the store holds the package of
    /// `package_key`.
    pub fn try_get_package_uri(&self, package_key: &FileKey) -> (lookup: PendingLookup)
        ensures
            lookup.address() == lookup_url(self.endpoint(), package_key@),
    {
        PendingLookup { url: self.lookup_url(package_key) }
    }

    /// Begins an upload of `file_data` under `package_key`: the transfer, of
    /// which nothing is sent yet, and the first pair for the observer, which
    /// says so.
    pub fn upload_package(&self, package_key: &FileKey, file_data: Vec<u8>) -> (started: (Transfer, (u64, u64)))
        ensures
            started.0.wf(),
            started.0.payload() == file_data@,
            started.0.request_view() == upload_request(self.endpoint(), package_key@, file_data@.len()),
            started.0.sent() == 0,
            started.0.observations() == seq![(0nat, file_data@.len())],
            started.1 == (0u64, file_data@.len() as u64),
    {
        let request = self.upload_request(package_key, file_data.len() as u64);
        Transfer::start(request, file_data)
    }

    /// Begins a lookup-or-upload: the lookup comes first, and whether
    /// anything is uploaded depends on its reply.
    pub fn upload_package_if_not_exists(&self, package_key: &FileKey, file_data: Vec<u8>) -> (pending:
        DedupUpload)
        ensures
            pending.wf(),
            pending.address() == lookup_url(self.endpoint(), package_key@),
            pending.payload() == file_data@,
            pending.request_view() == upload_request(self.endpoint(), package_key@, file_data@.len()),
    {
        let lookup = self.try_get_package_uri(package_key);
        let request = self.upload_request(package_key, file_data.len() as u64);
        DedupUpload { lookup, request, data: file_data }
    }
}

} // verus!
