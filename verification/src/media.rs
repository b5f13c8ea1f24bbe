//! Media sources and outgoing message types.

use vstd::prelude::*;

verus! {

/// Error raised while resolving a media source to bytes.
#[derive(Debug)]
pub enum MediaSourceError {
    /// The source needs file access, which only the unverified shell has.
    Io(String),
    /// The base64 payload could not be decoded.
    Base64Error(String),
    /// The source is a remote URL and cannot be loaded directly.
    InvalidUrl(String),
}

/// Source of media content.
#[derive(Debug, Clone)]
pub enum MediaSource {
    /// Load from a local file path.
    LocalPath { path: String },
    /// Download from a remote URL.
    RemoteUrl { url: String },
    /// Base64 encoded data.
    Base64 { data: String },
    /// Raw bytes, already loaded.
    Bytes { data: Vec<u8> },
}

/// What the standard base64 alphabet decodes a string to, if it is valid;
/// the exact byte mapping is the base64 crate's business.
pub uninterp spec fn base64_of(s: Seq<char>) -> Option<Seq<u8>>;

/// Relies on base64's `Engine::decode` with the standard engine: success and
/// the decoded bytes are a function of the input characters alone.
#[verifier::external_body]
fn base64_decode(data: &str) -> (r: Result<Vec<u8>, base64::DecodeError>)
    ensures
        r is Ok <==> base64_of(data@) is Some,
        r matches Ok(b) ==> base64_of(data@) == Some(b@),
{
    base64::engine::Engine::decode(&base64::engine::general_purpose::STANDARD, data)
}

/// Relies on `Display` for base64's `DecodeError` to describe the failure.
#[verifier::external_body]
fn base64_error_message(e: &base64::DecodeError) -> (r: String) {
    e.to_string()
}

#[verifier::external_type_specification]
#[verifier::external_body]
pub struct ExBase64DecodeError(base64::DecodeError);

impl MediaSource {
    /// Create from a local file path.
    pub fn file(path: String) -> (r: Self)
        ensures
            r == (MediaSource::LocalPath { path }),
    {
        MediaSource::LocalPath { path }
    }

    /// Create from a URL.
    pub fn url(url: String) -> (r: Self)
        ensures
            r == (MediaSource::RemoteUrl { url }),
    {
        MediaSource::RemoteUrl { url }
    }

    /// Create from a base64 encoded string.
    pub fn base64(data: String) -> (r: Self)
        ensures
            r == (MediaSource::Base64 { data }),
    {
        MediaSource::Base64 { data }
    }

    /// Create from raw bytes.
    pub fn bytes(data: Vec<u8>) -> (r: Self)
        ensures
            r == (MediaSource::Bytes { data }),
    {
        MediaSource::Bytes { data }
    }

    /// Resolve the source to bytes without touching the file system.
    ///
    /// `Bytes` yields a copy of the bytes; `Base64` decodes through the
    /// standard alphabet; `RemoteUrl` cannot be loaded directly; `LocalPath`
    /// is reported as `Io`, since only the unverified shell may read files —
    /// it reads the file itself and never calls this for paths.
    pub fn load_bytes(&self) -> (r: Result<Vec<u8>, MediaSourceError>)
        ensures
            self matches MediaSource::Bytes { data } ==> (r matches Ok(d) && d@ == data@),
            self matches MediaSource::Base64 { data } ==> (match base64_of(data@) {
                Some(b) => r matches Ok(d) && d@ == b,
                None => r matches Err(MediaSourceError::Base64Error(_)),
            }),
            self matches MediaSource::RemoteUrl { .. } ==> r matches Err(
                MediaSourceError::InvalidUrl(_),
            ),
            self matches MediaSource::LocalPath { .. } ==> r matches Err(MediaSourceError::Io(_)),
    {
        match self {
            MediaSource::Bytes { data } => Ok(data.clone()),
            MediaSource::Base64 { data } => match base64_decode(data.as_str()) {
                Ok(bytes) => Ok(bytes),
                Err(e) => Err(MediaSourceError::Base64Error(base64_error_message(&e))),
            },
            MediaSource::RemoteUrl { url: _ } => Err(
                MediaSourceError::InvalidUrl("Cannot load remote URL directly".to_owned()),
            ),
            MediaSource::LocalPath { path: _ } => Err(
                MediaSourceError::Io("Local file must be read by the caller".to_owned()),
            ),
        }
    }
}

/// PNG signature: eight fixed leading bytes.
pub open spec fn sig_png(d: Seq<u8>) -> bool {
    d.len() >= 8 && d[0] == 0x89 && d[1] == 0x50 && d[2] == 0x4e && d[3] == 0x47 && d[4] == 0x0d
        && d[5] == 0x0a && d[6] == 0x1a && d[7] == 0x0a
}

/// JPEG signature: three fixed leading bytes.
pub open spec fn sig_jpeg(d: Seq<u8>) -> bool {
    d.len() >= 3 && d[0] == 0xff && d[1] == 0xd8 && d[2] == 0xff
}

/// WebP signature: a RIFF container whose format tag is `WEBP`.
pub open spec fn sig_webp(d: Seq<u8>) -> bool {
    d.len() >= 12 && d[0] == 0x52 && d[1] == 0x49 && d[2] == 0x46 && d[3] == 0x46 && d[8] == 0x57
        && d[9] == 0x45 && d[10] == 0x42 && d[11] == 0x50
}

/// GIF signature: `GIF87a` or `GIF89a`.
pub open spec fn sig_gif(d: Seq<u8>) -> bool {
    d.len() >= 6 && d[0] == 0x47 && d[1] == 0x49 && d[2] == 0x46 && d[3] == 0x38 && (d[4] == 0x37
        || d[4] == 0x39) && d[5] == 0x61
}

/// PDF signature: `%PDF`.
pub open spec fn sig_pdf(d: Seq<u8>) -> bool {
    d.len() >= 4 && d[0] == 0x25 && d[1] == 0x50 && d[2] == 0x44 && d[3] == 0x46
}

/// ZIP signature: `PK\x03\x04` or `PK\x05\x06`, also used by office formats.
pub open spec fn sig_zip(d: Seq<u8>) -> bool {
    d.len() >= 4 && d[0] == 0x50 && d[1] == 0x4b && ((d[2] == 0x03 && d[3] == 0x04) || (d[2]
        == 0x05 && d[3] == 0x06))
}

/// MP4 signature: `ftyp` at offset four.
pub open spec fn sig_mp4(d: Seq<u8>) -> bool {
    d.len() >= 12 && d[4] == 0x66 && d[5] == 0x74 && d[6] == 0x79 && d[7] == 0x70
}

/// OGG signature: `OggS`.
pub open spec fn sig_ogg(d: Seq<u8>) -> bool {
    d.len() >= 4 && d[0] == 0x4f && d[1] == 0x67 && d[2] == 0x67 && d[3] == 0x53
}

/// MP3 signature: an MPEG audio frame header.
pub open spec fn sig_mp3(d: Seq<u8>) -> bool {
    d.len() >= 2 && d[0] == 0xff && (d[1] == 0xfb || d[1] == 0xf3 || d[1] == 0xf2)
}

/// WAV signature: a RIFF container whose format tag is `WAVE`.
pub open spec fn sig_wav(d: Seq<u8>) -> bool {
    d.len() >= 12 && d[0] == 0x52 && d[1] == 0x49 && d[2] == 0x46 && d[3] == 0x46 && d[8] == 0x57
        && d[9] == 0x41 && d[10] == 0x56 && d[11] == 0x45
}

/// The MIME type detected from a buffer's magic bytes.
///
/// Signatures are tried in a fixed order (RIFF containers resolve to WebP
/// before WAV); buffers shorter than eight bytes, and buffers matching no
/// signature, fall back to `application/octet-stream`.
pub open spec fn mime_of(d: Seq<u8>) -> Seq<char> {
    if d.len() < 8 {
        "application/octet-stream"@
    } else if sig_png(d) {
        "image/png"@
    } else if sig_jpeg(d) {
        "image/jpeg"@
    } else if sig_webp(d) {
        "image/webp"@
    } else if sig_gif(d) {
        "image/gif"@
    } else if sig_pdf(d) {
        "application/pdf"@
    } else if sig_zip(d) {
        "application/zip"@
    } else if sig_mp4(d) {
        "video/mp4"@
    } else if sig_ogg(d) {
        "audio/ogg"@
    } else if sig_mp3(d) {
        "audio/mpeg"@
    } else if sig_wav(d) {
        "audio/wav"@
    } else {
        "application/octet-stream"@
    }
}

impl MediaSource {
    /// Detect the MIME type from a buffer's magic bytes.
    pub fn detect_mime_from_signature(data: &[u8]) -> (r: String)
        ensures
            r@ == mime_of(data@),
    {
        let n = data.len();
        if n >= 8 {
            if data[0] == 0x89 && data[1] == 0x50 && data[2] == 0x4e && data[3] == 0x47
                && data[4] == 0x0d && data[5] == 0x0a && data[6] == 0x1a && data[7] == 0x0a {
                return "image/png".to_owned();
            }
            if data[0] == 0xff && data[1] == 0xd8 && data[2] == 0xff {
                return "image/jpeg".to_owned();
            }
            if n >= 12 && data[0] == 0x52 && data[1] == 0x49 && data[2] == 0x46 && data[3] == 0x46
                && data[8] == 0x57 && data[9] == 0x45 && data[10] == 0x42 && data[11] == 0x50 {
                return "image/webp".to_owned();
            }
            if data[0] == 0x47 && data[1] == 0x49 && data[2] == 0x46 && data[3] == 0x38 && (data[4]
                == 0x37 || data[4] == 0x39) && data[5] == 0x61 {
                return "image/gif".to_owned();
            }
            if data[0] == 0x25 && data[1] == 0x50 && data[2] == 0x44 && data[3] == 0x46 {
                return "application/pdf".to_owned();
            }
            if data[0] == 0x50 && data[1] == 0x4b && ((data[2] == 0x03 && data[3] == 0x04) || (
            data[2] == 0x05 && data[3] == 0x06)) {
                return "application/zip".to_owned();
            }
            if n >= 12 && data[4] == 0x66 && data[5] == 0x74 && data[6] == 0x79 && data[7] == 0x70 {
                return "video/mp4".to_owned();
            }
            if data[0] == 0x4f && data[1] == 0x67 && data[2] == 0x67 && data[3] == 0x53 {
                return "audio/ogg".to_owned();
            }
            if data[0] == 0xff && (data[1] == 0xfb || data[1] == 0xf3 || data[1] == 0xf2) {
                return "audio/mpeg".to_owned();
            }
            if n >= 12 && data[0] == 0x52 && data[1] == 0x49 && data[2] == 0x46 && data[3] == 0x46
                && data[8] == 0x57 && data[9] == 0x41 && data[10] == 0x56 && data[11] == 0x45 {
                return "audio/wav".to_owned();
            }
        }
        "application/octet-stream".to_owned()
    }
}

/// Resolve the MIME type of an outgoing image: an explicit type wins,
/// otherwise it is detected from the bytes.
pub fn resolve_mime(mime_type: Option<String>, data: &[u8]) -> (r: String)
    ensures
        r@ == match mime_type {
            Some(m) => m@,
            None => mime_of(data@),
        },
{
    match mime_type {
        Some(m) => m,
        None => MediaSource::detect_mime_from_signature(data),
    }
}

/// An outgoing message.
#[derive(Debug, Clone)]
pub enum MessageType {
    /// Plain text message.
    Text(String),
    /// Image message.
    Image {
        /// Image source: file, URL, base64, or raw bytes.
        source: MediaSource,
        /// MIME type; detected from the bytes when absent.
        mime_type: Option<String>,
        /// Optional caption.
        caption: Option<String>,
    },
}

impl MessageType {
    /// Create a text message.
    pub fn text(s: String) -> (r: Self)
        ensures
            r == MessageType::Text(s),
    {
        MessageType::Text(s)
    }

    /// Create an image message with an explicit MIME type.
    pub fn image(source: MediaSource, mime_type: String) -> (r: Self)
        ensures
            r == (MessageType::Image {
                source,
                mime_type: Some(mime_type),
                caption: None::<String>,
            }),
    {
        MessageType::Image { source, mime_type: Some(mime_type), caption: None }
    }

    /// Create an image message whose MIME type is detected from the bytes.
    pub fn image_auto(source: MediaSource) -> (r: Self)
        ensures
            r == (MessageType::Image {
                source,
                mime_type: None::<String>,
                caption: None::<String>,
            }),
    {
        MessageType::Image { source, mime_type: None, caption: None }
    }

    /// Create a captioned image message with an explicit MIME type.
    pub fn image_with_caption(source: MediaSource, mime_type: String, caption: String) -> (r: Self)
        ensures
            r == (MessageType::Image {
                source,
                mime_type: Some(mime_type),
                caption: Some(caption),
            }),
    {
        MessageType::Image { source, mime_type: Some(mime_type), caption: Some(caption) }
    }

    /// Create a captioned image message whose MIME type is detected.
    pub fn image_auto_with_caption(source: MediaSource, caption: String) -> (r: Self)
        ensures
            r == (MessageType::Image {
                source,
                mime_type: None::<String>,
                caption: Some(caption),
            }),
    {
        MessageType::Image { source, mime_type: None, caption: Some(caption) }
    }

    /// The text handed to the native layer for this message: plain text as
    /// is; an image as a bracketed note naming its MIME type and byte
    /// count, then the caption when there is one — the native bridge
    /// transports text only, so an outgoing image is announced by this
    /// note instead of its bytes.
    pub fn render_outgoing(&self, data: &[u8], mime: &str) -> (r: String)
        ensures
            r@ == match self {
                MessageType::Text(s) => s@,
                MessageType::Image { caption, .. } => media_note_of(
                    mime@,
                    data@.len(),
                    match caption {
                        Some(c) => Some(c@),
                        None => None::<Seq<char>>,
                    },
                ),
            },
    {
        match self {
            MessageType::Text(s) => s.clone(),
            MessageType::Image { caption, .. } => media_note(mime, data.len(), caption),
        }
    }

    /// The text content, if this is a text message.
    pub fn as_text(&self) -> (r: Option<&str>)
        ensures
            match self {
                MessageType::Text(s) => r matches Some(t) && t@ == s@,
                _ => r is None,
            },
    {
        match self {
            MessageType::Text(s) => Some(s.as_str()),
            _ => None,
        }
    }
}

/// The ten decimal digit characters.
pub open spec fn digit_char(d: nat) -> char {
    if d == 0 {
        '0'
    } else if d == 1 {
        '1'
    } else if d == 2 {
        '2'
    } else if d == 3 {
        '3'
    } else if d == 4 {
        '4'
    } else if d == 5 {
        '5'
    } else if d == 6 {
        '6'
    } else if d == 7 {
        '7'
    } else if d == 8 {
        '8'
    } else {
        '9'
    }
}

/// The decimal rendering of a number, most significant digit first.
pub open spec fn decimal_digits(n: nat) -> Seq<char>
    decreases n,
{
    if n < 10 {
        seq![digit_char(n)]
    } else {
        decimal_digits(n / 10).push(digit_char(n % 10))
    }
}

fn digit_str(d: usize) -> (r: &'static str)
    requires
        d < 10,
    ensures
        r@ == seq![digit_char(d as nat)],
{
    proof {
        reveal_strlit("0");
        reveal_strlit("1");
        reveal_strlit("2");
        reveal_strlit("3");
        reveal_strlit("4");
        reveal_strlit("5");
        reveal_strlit("6");
        reveal_strlit("7");
        reveal_strlit("8");
        reveal_strlit("9");
        assert("0"@ =~= seq!['0']);
        assert("1"@ =~= seq!['1']);
        assert("2"@ =~= seq!['2']);
        assert("3"@ =~= seq!['3']);
        assert("4"@ =~= seq!['4']);
        assert("5"@ =~= seq!['5']);
        assert("6"@ =~= seq!['6']);
        assert("7"@ =~= seq!['7']);
        assert("8"@ =~= seq!['8']);
        assert("9"@ =~= seq!['9']);
    }
    match d {
        0 => "0",
        1 => "1",
        2 => "2",
        3 => "3",
        4 => "4",
        5 => "5",
        6 => "6",
        7 => "7",
        8 => "8",
        _ => "9",
    }
}

fn push_decimal(n: usize, out: &mut String)
    ensures
        final(out)@ == old(out)@ + decimal_digits(n as nat),
    decreases n,
{
    if n >= 10 {
        proof {
            assert(n / 10 < n && n / 10 >= 1) by (nonlinear_arith)
                requires
                    n >= 10,
            ;
        }
        push_decimal(n / 10, out);
    }
    let ghost mid = out@;
    let d = n % 10;
    out.append(digit_str(d));
    proof {
        if n < 10 {
            assert(out@ =~= old(out)@ + decimal_digits(n as nat));
        } else {
            assert(mid == old(out)@ + decimal_digits((n / 10) as nat));
            assert(out@ =~= old(out)@ + decimal_digits(n as nat));
        }
    }
}

/// The decimal rendering of a count.
pub fn usize_to_decimal(n: usize) -> (r: String)
    ensures
        r@ == decimal_digits(n as nat),
{
    let mut out = String::new();
    push_decimal(n, &mut out);
    proof {
        assert(out@ =~= decimal_digits(n as nat));
    }
    out
}

/// The announcement note for an outgoing image: a bracket with the MIME
/// type and byte count, then the caption when there is one.
pub open spec fn media_note_of(mime: Seq<char>, byte_len: nat, caption: Option<Seq<char>>) -> Seq<
    char,
> {
    let head = "["@ + mime + " "@ + decimal_digits(byte_len) + " bytes]"@;
    match caption {
        Some(c) => head + " "@ + c,
        None => head,
    }
}

/// Render the announcement note for an outgoing image.
pub fn media_note(mime: &str, byte_len: usize, caption: &Option<String>) -> (r: String)
    ensures
        r@ == media_note_of(
            mime@,
            byte_len as nat,
            match caption {
                Some(c) => Some(c@),
                None => None::<Seq<char>>,
            },
        ),
{
    let mut out: String = "[".to_owned();
    out.append(mime);
    out.append(" ");
    push_decimal(byte_len, &mut out);
    out.append(" bytes]");
    match caption {
        Some(c) => {
            out.append(" ");
            out.append(c.as_str());
            proof {
                assert(out@ =~= media_note_of(mime@, byte_len as nat, Some(c@)));
            }
        },
        None => {
            proof {
                assert(out@ =~= media_note_of(mime@, byte_len as nat, None::<Seq<char>>));
            }
        },
    }
    out
}

} // verus!
