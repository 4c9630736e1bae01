//! The I/O-free mediating state of one clipboard session.
use vstd::prelude::*;

use std::collections::HashMap;

use crate::clipboard_file::{
    format_data_response_view, ClipboardPayload, FileContentsRequest, FileContentsRequestType,
    FileContentsResponse, FormatDataRequest, FormatDataResponse, FormatList, FormatListResponse,
};
use crate::pdu::{format_list_view, ClipboardFile, PduView, MAX_SMALL_FILE_EXTENT};

verus! {

broadcast use vstd::std_specs::hash::group_hash_axioms;

/// Errors of the clipboard client.
#[derive(Clone, Debug)]
pub enum ClientError {
    /// The context or its monitor could not be created.
    InitError(String),
    /// A protocol invariant was broken, such as an unmatched stream id.
    Internal(String),
    /// An operation could not complete; the caller may retry.
    Fail(String),
}

/// One optional protocol behaviour that a peer may support.
#[derive(Clone, Copy, Debug, PartialEq, Eq, Hash, Structural)]
pub enum ClientCapability {
    /// Format names are exchanged in their long form.
    LongFormatNames,
    /// Files are copied with file-contents requests and responses.
    StreamFileClip,
    /// File descriptions must not carry the source path.
    FileClipNoFilePaths,
    /// Clipboard data can be locked and unlocked.
    LockClipData,
    /// File offsets and sizes beyond 4,294,967,295 bytes are supported.
    HugeFileSupport,
}

/// A set of capabilities, each present at most once.
#[derive(Clone, Copy, Debug)]
pub struct CapabilitySet {
    long_format_names: bool,
    stream_file_clip: bool,
    file_clip_no_file_paths: bool,
    lock_clip_data: bool,
    huge_file_support: bool,
}

impl CapabilitySet {
    /// Whether `c` is in the set.
    pub closed spec fn has(self, c: ClientCapability) -> bool {
        match c {
            ClientCapability::LongFormatNames => self.long_format_names,
            ClientCapability::StreamFileClip => self.stream_file_clip,
            ClientCapability::FileClipNoFilePaths => self.file_clip_no_file_paths,
            ClientCapability::LockClipData => self.lock_clip_data,
            ClientCapability::HugeFileSupport => self.huge_file_support,
        }
    }
}

impl View for CapabilitySet {
    type V = Set<ClientCapability>;

    open spec fn view(&self) -> Set<ClientCapability> {
        Set::new(|c: ClientCapability| self.has(c))
    }
}

impl CapabilitySet {
    /// The empty set.
    pub fn new() -> (r: CapabilitySet)
        ensures
            r@ == Set::<ClientCapability>::empty(),
    {
        let r = CapabilitySet {
            long_format_names: false,
            stream_file_clip: false,
            file_clip_no_file_paths: false,
            lock_clip_data: false,
            huge_file_support: false,
        };
        assert(r@ =~= Set::<ClientCapability>::empty());
        r
    }

    /// Adds `c` to the set.
    pub fn insert(&mut self, c: ClientCapability)
        ensures
            final(self)@ == old(self)@.insert(c),
    {
        match c {
            ClientCapability::LongFormatNames => self.long_format_names = true,
            ClientCapability::StreamFileClip => self.stream_file_clip = true,
            ClientCapability::FileClipNoFilePaths => self.file_clip_no_file_paths = true,
            ClientCapability::LockClipData => self.lock_clip_data = true,
            ClientCapability::HugeFileSupport => self.huge_file_support = true,
        }
        assert(self@ =~= old(self)@.insert(c));
    }

    /// Whether `c` is in the set.
    pub fn contains(&self, c: ClientCapability) -> (r: bool)
        ensures
            r == self@.contains(c),
    {
        match c {
            ClientCapability::LongFormatNames => self.long_format_names,
            ClientCapability::StreamFileClip => self.stream_file_clip,
            ClientCapability::FileClipNoFilePaths => self.file_clip_no_file_paths,
            ClientCapability::LockClipData => self.lock_clip_data,
            ClientCapability::HugeFileSupport => self.huge_file_support,
        }
    }
}

/// A value that can be the payload of a format-data response.
pub trait FormatDataPayload {
    /// The bytes that the payload stands for.
    spec fn payload_view(&self) -> Seq<u8>;

    /// The payload as bytes.
    fn to_payload(&self) -> (r: Vec<u8>)
        ensures
            r@ == self.payload_view(),
    ;
}

impl FormatDataPayload for Vec<u8> {
    open spec fn payload_view(&self) -> Seq<u8> {
        self@
    }

    fn to_payload(&self) -> (r: Vec<u8>) {
        let mut r: Vec<u8> = Vec::new();
        let mut i: usize = 0;
        while i < self.len()
            invariant
                i <= self@.len(),
                r@ == self@.subrange(0, i as int),
            decreases self@.len() - i,
        {
            r.push(self[i]);
            i = i + 1;
            assert(r@ =~= self@.subrange(0, i as int));
        }
        assert(r@ =~= self@);
        r
    }
}

/// Platform hooks of a clipboard backend: the system clipboard, its monitor
/// and local notifications.
pub trait ClientContext: Sized {
    /// Shows a notification in the local message box.
    fn notify_callback(&self, conn_id: u32, msg: String) -> Result<(), ClientError>;

    /// The capabilities of this backend.
    fn capabilities() -> CapabilitySet;

    /// Creates the backend and starts its clipboard monitor.
    fn create() -> Result<Self, ClientError>;

    /// Stops the clipboard monitor.
    fn uninit(self) -> Result<(), ClientError>;

    /// Clears the system clipboard.
    fn clear(&self) -> Result<(), ClientError>;
}


/// Whether a request needs huge-file support: a range whose end lies beyond
/// `MAX_SMALL_FILE_EXTENT`.
pub open spec fn needs_huge_file_support(kind: FileContentsRequestType) -> bool {
    match kind {
        FileContentsRequestType::Size => false,
        FileContentsRequestType::Range(offset, size) => offset as int + size as int
            > MAX_SMALL_FILE_EXTENT as int,
    }
}

/// Whether a peer with capabilities `caps` may issue a request of this kind.
pub open spec fn kind_allowed(caps: Set<ClientCapability>, kind: FileContentsRequestType) -> bool {
    caps.contains(ClientCapability::HugeFileSupport) || !needs_huge_file_support(kind)
}

/// The model after a file-contents request `request` was issued on `s`.
pub open spec fn after_request(s: ClientStateView, request: FileContentsRequest) -> ClientStateView {
    ClientStateView {
        pending: s.pending.insert(request.stream_spec(), request.file_index_spec()),
        ..s
    }
}

/// The model after the correlation of stream `stream_id` was cleared on `s`.
pub open spec fn after_resolve(s: ClientStateView, stream_id: u32) -> ClientStateView {
    ClientStateView { pending: s.pending.remove(stream_id), ..s }
}

/// Model of a `ClientState`.
pub struct ClientStateView {
    /// The local capabilities, fixed at creation.
    pub capabilities: Set<ClientCapability>,
    /// The format list last advertised by this side.
    pub local_formats: Seq<(i32, Seq<char>)>,
    /// The format list last received from the peer.
    pub remote_formats: Seq<(i32, Seq<char>)>,
    /// Outstanding file-contents requests: stream id to list index.
    pub pending: Map<u32, u32>,
}

/// The bookkeeping of one session: capabilities, both format lists and the
/// outstanding file-contents streams. It turns events into PDUs and never
/// performs I/O.
pub struct ClientState {
    capabilities: CapabilitySet,
    local_formats: Vec<(i32, String)>,
    remote_formats: Vec<(i32, String)>,
    pending: HashMap<u32, u32>,
}

impl View for ClientState {
    type V = ClientStateView;

    closed spec fn view(&self) -> ClientStateView {
        ClientStateView {
            capabilities: self.capabilities@,
            local_formats: format_list_view(self.local_formats@),
            remote_formats: format_list_view(self.remote_formats@),
            pending: self.pending@,
        }
    }
}

/// A copy of a format list, entry by entry.
fn copy_format_list(l: &Vec<(i32, String)>) -> (r: Vec<(i32, String)>)
    ensures
        r@ == l@,
{
    let mut r: Vec<(i32, String)> = Vec::new();
    let mut i: usize = 0;
    while i < l.len()
        invariant
            i <= l@.len(),
            r@ == l@.subrange(0, i as int),
        decreases l@.len() - i,
    {
        let id = l[i].0;
        let name = l[i].1.clone();
        r.push((id, name));
        i = i + 1;
        assert(r@ =~= l@.subrange(0, i as int));
    }
    assert(r@ =~= l@);
    r
}

impl ClientState {
    /// A fresh session with local capabilities `capabilities`, no format
    /// lists and no outstanding stream.
    pub fn new(capabilities: CapabilitySet) -> (r: ClientState)
        ensures
            r@.capabilities == capabilities@,
            r@.local_formats == Seq::<(i32, Seq<char>)>::empty(),
            r@.remote_formats == Seq::<(i32, Seq<char>)>::empty(),
            r@.pending == Map::<u32, u32>::empty(),
    {
        let r = ClientState {
            capabilities,
            local_formats: Vec::new(),
            remote_formats: Vec::new(),
            pending: HashMap::new(),
        };
        assert(r@.local_formats =~= Seq::<(i32, Seq<char>)>::empty());
        assert(r@.remote_formats =~= Seq::<(i32, Seq<char>)>::empty());
        r
    }

    /// The local capabilities.
    pub fn capabilities(&self) -> (r: CapabilitySet)
        ensures
            r@ == self@.capabilities,
    {
        self.capabilities
    }

    /// Records the local clipboard's new format list and gives the format
    /// list PDU to send to the peer.
    pub fn client_format_list(&mut self, clip_format_list: Vec<(i32, String)>) -> (r: Result<
        ClipboardFile,
        ClientError,
    >)
        ensures
            r matches Ok(pdu) && pdu@ == (PduView::FormatList {
                format_list: format_list_view(clip_format_list@),
            }),
            final(self)@ == (ClientStateView {
                local_formats: format_list_view(clip_format_list@),
                ..old(self)@
            }),
    {
        self.local_formats = copy_format_list(&clip_format_list);
        let pdu = FormatList { format_list: clip_format_list }.into_clipboard_file();
        Ok(pdu)
    }

    /// Records the format list received from the peer, which replaces the
    /// previous one, and gives it back as a PDU for the local clipboard. No
    /// acknowledgment is produced: see `client_format_list_response`.
    pub fn server_format_list(&mut self, clip_format_list: Vec<(i32, String)>) -> (r: Result<
        ClipboardFile,
        ClientError,
    >)
        ensures
            r matches Ok(pdu) && pdu@ == (PduView::FormatList {
                format_list: format_list_view(clip_format_list@),
            }),
            final(self)@ == (ClientStateView {
                remote_formats: format_list_view(clip_format_list@),
                ..old(self)@
            }),
    {
        self.remote_formats = copy_format_list(&clip_format_list);
        let pdu = FormatList { format_list: clip_format_list }.into_clipboard_file();
        Ok(pdu)
    }

    /// The acknowledgment of a received format list.
    pub fn client_format_list_response(&self, success: bool) -> (r: Result<ClipboardFile, ClientError>)
        ensures
            r matches Ok(pdu) && pdu@ == (FormatListResponse { success }).pdu_view(),
    {
        Ok(FormatListResponse { success }.into_clipboard_file())
    }

    /// A request for the payload of format `format_id`.
    pub fn client_format_data_request(&self, format_id: i32) -> (r: Result<ClipboardFile, ClientError>)
        ensures
            r matches Ok(pdu) && pdu@ == (PduView::FormatDataRequest { requested_format_id: format_id }),
    {
        Ok(FormatDataRequest { format_id }.into_clipboard_file())
    }

    /// The response carrying the payload of a requested format, or a failure
    /// response when there is none.
    pub fn client_format_data_response<P: FormatDataPayload>(&self, format_data: Option<P>) -> (r:
        Result<ClipboardFile, ClientError>)
        ensures
            r matches Ok(pdu) && pdu@ == format_data_response_view(
                match format_data {
                    Some(p) => Some(p.payload_view()),
                    None => None,
                },
            ),
    {
        let data = match &format_data {
            Some(p) => Some(p.to_payload()),
            None => None,
        };
        Ok(FormatDataResponse { format_data: data }.into_clipboard_file())
    }

    /// Issues a file-contents request and records its stream as outstanding.
    ///
    /// Fails with `Fail` when the request needs huge-file support and the
    /// local capabilities lack it, and with `Internal` when its stream id is
    /// already outstanding; the state is then unchanged.
    pub fn client_file_contents_request(&mut self, request: FileContentsRequest) -> (r: Result<
        ClipboardFile,
        ClientError,
    >)
        ensures
            r matches Err(ClientError::Fail(_)) <==> !kind_allowed(
                old(self)@.capabilities,
                request.req_type_spec(),
            ),
            r matches Err(ClientError::Internal(_)) <==> kind_allowed(
                old(self)@.capabilities,
                request.req_type_spec(),
            ) && old(self)@.pending.contains_key(request.stream_spec()),
            r is Err ==> final(self)@ == old(self)@,
            r matches Ok(pdu) ==> pdu@ == request.pdu_view() && final(self)@ == after_request(
                old(self)@,
                request,
            ),
            !(r matches Err(ClientError::InitError(_))),
    {
        let kind = request.req_type();
        if let FileContentsRequestType::Range(offset, size) = kind {
            if !self.capabilities.contains(ClientCapability::HugeFileSupport) && (offset
                > MAX_SMALL_FILE_EXTENT || size > MAX_SMALL_FILE_EXTENT - offset) {
                return Err(ClientError::Fail("range needs huge file support".to_owned()));
            }
        }
        let stream = request.stream();
        if self.pending.contains_key(&stream) {
            return Err(ClientError::Internal("stream id already outstanding".to_owned()));
        }
        self.pending.insert(stream, request.file_index());
        Ok(request.into_clipboard_file())
    }

    /// Matches a file-contents response with its outstanding request by
    /// stream id, clears the correlation and hands the response back.
    ///
    /// Fails with `Internal`, leaving the state unchanged, when no request
    /// is outstanding on that stream.
    pub fn server_clip_file(&mut self, resp: FileContentsResponse) -> (r: Result<
        FileContentsResponse,
        ClientError,
    >)
        ensures
            r is Ok <==> old(self)@.pending.contains_key(resp.stream),
            r matches Ok(x) ==> x == resp,
            r is Err ==> r matches Err(ClientError::Internal(_)),
            final(self)@ == after_resolve(old(self)@, resp.stream),
    {
        match self.pending.remove(&resp.stream) {
            Some(_) => Ok(resp),
            None => {
                assert(self.pending@ =~= old(self).pending@.remove(resp.stream));
                Err(ClientError::Internal("no request outstanding on this stream".to_owned()))
            },
        }
    }

    /// Gives up on the outstanding request of stream `stream_id`, if any;
    /// returns whether there was one.
    pub fn abandon_stream(&mut self, stream_id: u32) -> (r: bool)
        ensures
            r == old(self)@.pending.contains_key(stream_id),
            final(self)@ == after_resolve(old(self)@, stream_id),
    {
        let r = self.pending.remove(&stream_id);
        assert(self.pending@ =~= old(self).pending@.remove(stream_id));
        r.is_some()
    }

    /// Whether a request is outstanding on stream `stream_id`.
    pub fn is_pending(&self, stream_id: u32) -> (r: bool)
        ensures
            r == self@.pending.contains_key(stream_id),
    {
        self.pending.contains_key(&stream_id)
    }
}

} // verus!
