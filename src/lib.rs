//! Protocol core of a CLIPRDR-style clipboard redirection channel.
//!
//! The crate holds the canonical PDU model (`ClipboardFile`), the typed
//! builders that convert into it (`clipboard_file`), and the I/O-free
//! mediating state (`client_context`) that turns clipboard events into
//! outgoing PDUs and correlates file-contents streams.
pub mod client_context;
pub mod clipboard_file;
pub mod lemmas;
pub mod pdu;

pub use clipboard_file::{
    ClipboardPayload, FileContentsRequest, FileContentsRequestType, FileContentsResponse,
    FileContentsResponsePayload, FormatDataRequest, FormatDataResponse, FormatList,
    FormatListResponse, MonitorReady, NotifyCallback,
};
pub use pdu::{
    ClipboardFile, CB_FILECONTENTS_RANGE, CB_FILECONTENTS_SIZE, CB_REQUEST_SIZE, CB_RESPONSE_FAIL,
    CB_RESPONSE_OK, MAX_SMALL_FILE_EXTENT,
};
pub use client_context::{
    CapabilitySet, ClientCapability, ClientContext, ClientError, ClientState, FormatDataPayload,
};
