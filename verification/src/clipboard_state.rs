//! Clipboard contents, the fingerprint of the daemon's own last write (so the
//! watcher can ignore the change event that write causes), and the service
//! that writes through a clipboard backend.
use vstd::prelude::*;

verus! {

/// What the clipboard holds.
#[derive(Debug, Clone, PartialEq, Eq)]
pub enum ClipboardContent {
    Text(String),
    /// Encoded image bytes.
    Image(Vec<u8>),
}

pub enum ContentView {
    Text(Seq<char>),
    Image(Seq<u8>),
}

impl View for ClipboardContent {
    type V = ContentView;

    open spec fn view(&self) -> ContentView {
        match self {
            ClipboardContent::Text(t) => ContentView::Text(t@),
            ClipboardContent::Image(b) => ContentView::Image(b@),
        }
    }
}

#[derive(Debug, Clone, Copy, PartialEq, Eq, Structural)]
pub enum ClipboardContentKind {
    Text,
    Image,
}

pub open spec fn kind_of(c: ContentView) -> ClipboardContentKind {
    match c {
        ContentView::Text(_) => ClipboardContentKind::Text,
        ContentView::Image(_) => ClipboardContentKind::Image,
    }
}

/// The bytes that are hashed: the UTF-8 encoding of a text, an image's bytes.
pub open spec fn payload_bytes(c: ContentView) -> Seq<u8> {
    match c {
        ContentView::Text(t) => vstd::utf8::encode_utf8(t),
        ContentView::Image(b) => b,
    }
}

/// The SHA-256 digest of the bytes.
pub uninterp spec fn sha256(data: Seq<u8>) -> Seq<u8>;

/// `sha2::Sha256::digest`: the SHA-256 digest of `data`, 32 bytes. The digest
/// is named, not written out: it depends on the bytes alone.
#[verifier::external_body]
fn sha256_digest(data: &[u8]) -> (r: Vec<u8>)
    ensures
        r@ == sha256(data@),
        r@.len() == 32,
{
    <sha2::Sha256 as sha2::Digest>::digest(data).to_vec()
}

/// A compact fingerprint of a content: its kind and the digest of its bytes.
pub struct ClipboardFingerprint {
    kind: ClipboardContentKind,
    hash: Vec<u8>,
}

impl View for ClipboardFingerprint {
    type V = (ClipboardContentKind, Seq<u8>);

    closed spec fn view(&self) -> (ClipboardContentKind, Seq<u8>) {
        (self.kind, self.hash@)
    }
}

pub open spec fn fingerprint_of(c: ContentView) -> (ClipboardContentKind, Seq<u8>) {
    (kind_of(c), sha256(payload_bytes(c)))
}

impl ClipboardFingerprint {
    pub fn from_content(content: &ClipboardContent) -> (r: Self)
        ensures
            r@ == fingerprint_of(content@),
    {
        match content {
            ClipboardContent::Text(t) => {
                let bytes = t.as_str().as_bytes();
                ClipboardFingerprint { kind: ClipboardContentKind::Text, hash: sha256_digest(bytes) }
            },
            ClipboardContent::Image(b) => ClipboardFingerprint {
                kind: ClipboardContentKind::Image,
                hash: sha256_digest(b.as_slice()),
            },
        }
    }

    pub fn same_as(&self, other: &Self) -> (r: bool)
        ensures
            r == (self@ == other@),
    {
        if self.kind != other.kind || self.hash.len() != other.hash.len() {
            return false;
        }
        let mut i: usize = 0;
        while i < self.hash.len()
            invariant
                self.hash.len() == other.hash.len(),
                self.kind == other.kind,
                i <= self.hash.len(),
                forall|j: int| 0 <= j < i ==> self.hash@[j] == other.hash@[j],
            decreases self.hash.len() - i,
        {
            if self.hash[i] != other.hash[i] {
                return false;
            }
            i = i + 1;
        }
        assert(self.hash@ =~= other.hash@);
        true
    }
}

/// The pending marker after a write.
pub open spec fn marked(c: ContentView) -> Option<(ClipboardContentKind, Seq<u8>)> {
    Some(fingerprint_of(c))
}

/// Checking an event against the marker: whether it is the daemon's own
/// write, and the marker afterwards (a match consumes it, a miss keeps it).
pub open spec fn check_event(
    marker: Option<(ClipboardContentKind, Seq<u8>)>,
    c: ContentView,
) -> (bool, Option<(ClipboardContentKind, Seq<u8>)>) {
    if marker == Some(fingerprint_of(c)) {
        (true, None)
    } else {
        (false, marker)
    }
}

/// The fingerprint of the daemon's most recent clipboard write, if no change
/// event has matched it yet.
pub struct ClipboardState {
    last_written: Option<ClipboardFingerprint>,
}

impl View for ClipboardState {
    type V = Option<(ClipboardContentKind, Seq<u8>)>;

    closed spec fn view(&self) -> Option<(ClipboardContentKind, Seq<u8>)> {
        match self.last_written {
            Some(f) => Some(f@),
            None => None,
        }
    }
}

impl Default for ClipboardState {
    fn default() -> (r: Self)
        ensures
            r@ is None,
    {
        ClipboardState { last_written: None }
    }
}

impl ClipboardState {
    pub fn new() -> (r: Self)
        ensures
            r@ is None,
    {
        ClipboardState { last_written: None }
    }

    /// Remembers content written by the daemon. Only a compact fingerprint is
    /// kept; a newer write replaces an older marker.
    pub fn mark_written(&mut self, content: &ClipboardContent)
        ensures
            final(self)@ == marked(content@),
    {
        self.last_written = Some(ClipboardFingerprint::from_content(content));
    }

    /// Whether a change event is the daemon's most recent write. A match
    /// consumes the marker exactly once; a miss leaves it in place.
    pub fn is_self_write(&mut self, content: &ClipboardContent) -> (r: bool)
        ensures
            (r, final(self)@) == check_event(old(self)@, content@),
    {
        let fingerprint = ClipboardFingerprint::from_content(content);
        let matched = match &self.last_written {
            Some(last) => last.same_as(&fingerprint),
            None => false,
        };
        if matched {
            self.last_written = None;
        }
        matched
    }
}

/// A write marks its content, and the next event with that content is
/// recognised once and only once.
pub proof fn lemma_own_write_suppressed_once(c: ContentView)
    ensures
        check_event(marked(c), c) == (true, None::<(ClipboardContentKind, Seq<u8>)>),
        check_event(check_event(marked(c), c).1, c).0 == false,
{
}

/// An event that does not match leaves the marker for the write it belongs to.
pub proof fn lemma_miss_keeps_marker(
    marker: Option<(ClipboardContentKind, Seq<u8>)>,
    c: ContentView,
)
    ensures
        !check_event(marker, c).0 ==> check_event(marker, c).1 == marker,
{
}

/// A text and an image are never confused, whatever their bytes.
pub proof fn lemma_kinds_never_match(written: ContentView, event: ContentView)
    requires
        kind_of(written) != kind_of(event),
    ensures
        check_event(marked(written), event) == (false, marked(written)),
{
}

/// The last write wins: an older marker is forgotten.
pub proof fn lemma_newer_write_replaces_marker(first: ContentView, second: ContentView)
    ensures
        marked(second) == Some(fingerprint_of(second)),
        fingerprint_of(first) != fingerprint_of(second) ==> !check_event(marked(second), first).0,
{
}

/// Why a clipboard operation failed.
#[derive(Debug, Clone, PartialEq, Eq)]
pub enum ClipboardError {
    ReadFailed(String),
    WriteFailed(String),
    UnsupportedContent(String),
}

/// A system clipboard.
pub trait ClipboardBackend {
    fn read_content(&self) -> Result<ClipboardContent, ClipboardError>;

    fn write_content(&self, content: &ClipboardContent) -> Result<(), ClipboardError>;
}

/// Reads and writes the clipboard, remembering the daemon's own writes.
pub struct ClipboardService<B: ClipboardBackend> {
    backend: B,
    clipboard_state: ClipboardState,
}

impl<B: ClipboardBackend> ClipboardService<B> {
    pub closed spec fn state_spec(&self) -> Option<(ClipboardContentKind, Seq<u8>)> {
        self.clipboard_state@
    }

    pub fn new(backend: B, clipboard_state: ClipboardState) -> (r: Self)
        ensures
            r.state_spec() == clipboard_state@,
    {
        ClipboardService { backend, clipboard_state }
    }

    pub fn read(&self) -> (r: Result<ClipboardContent, ClipboardError>) {
        self.backend.read_content()
    }

    /// Writes through the backend. Only a write that the backend accepted is
    /// marked as the daemon's own: a failed write never leaves a marker.
    pub fn write(&mut self, content: ClipboardContent) -> (r: Result<(), ClipboardError>)
        ensures
            r is Ok ==> final(self).state_spec() == marked(content@),
            r is Err ==> final(self).state_spec() == old(self).state_spec(),
    {
        match self.backend.write_content(&content) {
            Ok(()) => {
                self.clipboard_state.mark_written(&content);
                Ok(())
            },
            Err(e) => Err(e),
        }
    }

    /// Whether a change event is the daemon's most recent write (see
    /// `ClipboardState::is_self_write`).
    pub fn is_self_write(&mut self, content: &ClipboardContent) -> (r: bool)
        ensures
            (r, final(self).state_spec()) == check_event(old(self).state_spec(), content@),
    {
        self.clipboard_state.is_self_write(content)
    }
}

} // verus!
