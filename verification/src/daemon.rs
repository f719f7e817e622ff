//! The daemon client's own logic: the control socket's HTTP answers, the
//! names the daemon gives stream values, and the session records it hands
//! out. Sockets, descriptor passing and mapping are the host's transport.

pub mod frames;

use vstd::prelude::*;
use vstd::string::*;

use crate::error::{CaptureTransferError, Result};
use crate::model::{ClockDomain, ColorSpace, DamageKind, FrameSyncKind, PixelFormat};
use crate::text::{chars_of, same_text};

verus! {

#[derive(Debug, Clone)]
pub struct SyntheticSession {
    pub session_id: String,
    pub source_id: u64,
    pub track_id: u64,
    pub fd_socket_path: String,
}

/// A capture session as the daemon describes it. It carries a bearer token,
/// so it has no derived `Debug`.
#[derive(Clone)]
pub struct SessionInfo {
    pub session_id: String,
    pub source_id: u64,
    pub track_id: u64,
    pub width: u32,
    pub height: u32,
    pub stride: u32,
    pub pixel_format: PixelFormat,
    pub fd_socket_path: String,
    pub bearer_token: Option<String>,
}

/// Why no frame after a cursor could be handed out.
#[derive(Debug, Clone, PartialEq, Eq)]
pub struct DaemonFrameUnavailable {
    pub track_id: u64,
    pub after_producer_cursor: u64,
    pub oldest_available_cursor: u64,
    pub latest_available_cursor: u64,
    pub skipped_count: u64,
    pub reason: String,
}

/// `error` is a daemon transport failure of `operation` carrying `message`.
pub open spec fn spec_is_transport_error(error: CaptureTransferError, operation: Seq<char>, message: Seq<char>) -> bool {
    error matches CaptureTransferError::DaemonTransport { operation: op, message: text } && op@ == operation
        && text@ == message
}

/// A daemon transport failure of `operation` with `message`.
pub fn daemon_error(operation: &'static str, message: &str) -> (error: CaptureTransferError)
    ensures
        spec_is_transport_error(error, operation@, message@),
{
    CaptureTransferError::DaemonTransport { operation, message: message.to_owned() }
}

/// What the library answers where the daemon transport is not available.
pub fn unsupported() -> (error: CaptureTransferError)
    ensures
        spec_is_transport_error(error, "windows-capture"@, "capture not supported on Windows yet"@),
{
    daemon_error("windows-capture", "capture not supported on Windows yet")
}

/// A session as the daemon's control socket describes it, pixel format by
/// name.
#[derive(Debug, Clone, PartialEq, Eq)]
pub struct SessionInfoWire {
    pub session_id: String,
    pub source_id: u64,
    pub track_id: u64,
    pub width: u32,
    pub height: u32,
    pub stride: u32,
    pub pixel_format: String,
    pub fd_socket_path: String,
}

/// The session a control-socket description stands for; the description
/// carries no bearer token.
pub fn session_info_from_wire(wire: SessionInfoWire) -> (info: Result<SessionInfo>)
    ensures
        match info {
            Ok(info) => {
                &&& info.session_id@ == wire.session_id@
                &&& info.source_id == wire.source_id
                &&& info.track_id == wire.track_id
                &&& info.width == wire.width
                &&& info.height == wire.height
                &&& info.stride == wire.stride
                &&& info.pixel_format != PixelFormat::Unknown
                &&& wire.pixel_format@ == spec_pixel_format_name(info.pixel_format)
                &&& info.fd_socket_path@ == wire.fd_socket_path@
                &&& info.bearer_token is None
            },
            Err(error) => {
                &&& wire.pixel_format@ != spec_pixel_format_name(PixelFormat::Bgra8Unorm)
                &&& wire.pixel_format@ != spec_pixel_format_name(PixelFormat::Rgba8Unorm)
                &&& spec_is_transport_error(error, "parse-pixel-format"@, wire.pixel_format@)
            },
        },
{
    let pixel_format = match parse_pixel_format(wire.pixel_format.as_str()) {
        Ok(format) => format,
        Err(error) => return Err(error),
    };
    Ok(
        SessionInfo {
            session_id: wire.session_id,
            source_id: wire.source_id,
            track_id: wire.track_id,
            width: wire.width,
            height: wire.height,
            stride: wire.stride,
            pixel_format,
            fd_socket_path: wire.fd_socket_path,
            bearer_token: None,
        },
    )
}

/// Whether `c` is white space (Unicode `White_Space`, as `char::is_whitespace`).
pub open spec fn spec_is_whitespace(c: char) -> bool {
    ||| '\t' <= c <= '\r'
    ||| c == ' '
    ||| c == '\u{85}'
    ||| c == '\u{a0}'
    ||| c == '\u{1680}'
    ||| '\u{2000}' <= c <= '\u{200a}'
    ||| c == '\u{2028}'
    ||| c == '\u{2029}'
    ||| c == '\u{202f}'
    ||| c == '\u{205f}'
    ||| c == '\u{3000}'
}

fn is_whitespace(c: char) -> (white: bool)
    ensures
        white == spec_is_whitespace(c),
{
    ('\t' <= c && c <= '\r') || c == ' ' || c == '\u{85}' || c == '\u{a0}' || c == '\u{1680}' || ('\u{2000}' <= c
        && c <= '\u{200a}') || c == '\u{2028}' || c == '\u{2029}' || c == '\u{202f}' || c == '\u{205f}' || c
        == '\u{3000}'
}

/// The first index at or after `from` where `pattern` occurs in `text`.
pub open spec fn spec_find_from(text: Seq<char>, pattern: Seq<char>, from: int) -> Option<int>
    decreases text.len() + 1 - from,
{
    if from < 0 || from + pattern.len() > text.len() {
        None
    } else if text.subrange(from, from + pattern.len()) == pattern {
        Some(from)
    } else {
        spec_find_from(text, pattern, from + 1)
    }
}

/// The first line of `text`, as `str::lines` yields it: up to the first
/// line feed, without a carriage return just before it; none for empty text.
pub open spec fn spec_first_line(text: Seq<char>) -> Option<Seq<char>> {
    if text.len() == 0 {
        None
    } else {
        match spec_find_from(text, seq!['\n'], 0) {
            Some(end) => {
                let line = text.take(end);
                Some(
                    if line.len() > 0 && line.last() == '\r' {
                        line.drop_last()
                    } else {
                        line
                    },
                )
            },
            None => Some(text),
        }
    }
}

/// The first index at or after `from` that is not white space (or the end).
pub open spec fn spec_skip_space(text: Seq<char>, from: int) -> int
    decreases text.len() - from,
{
    if from < 0 || from >= text.len() {
        text.len() as int
    } else if spec_is_whitespace(text[from]) {
        spec_skip_space(text, from + 1)
    } else {
        from
    }
}

/// The first index at or after `from` that is white space (or the end).
pub open spec fn spec_skip_word(text: Seq<char>, from: int) -> int
    decreases text.len() - from,
{
    if from < 0 || from >= text.len() {
        text.len() as int
    } else if !spec_is_whitespace(text[from]) {
        spec_skip_word(text, from + 1)
    } else {
        from
    }
}

/// The second white-space-separated word of `text`, if it has two.
pub open spec fn spec_second_word(text: Seq<char>) -> Option<Seq<char>> {
    let first_start = spec_skip_space(text, 0);
    let first_end = spec_skip_word(text, first_start);
    let second_start = spec_skip_space(text, first_end);
    if second_start >= text.len() {
        None
    } else {
        Some(text.subrange(second_start, spec_skip_word(text, second_start)))
    }
}

pub open spec fn spec_header_separator() -> Seq<char> {
    seq!['\r', '\n', '\r', '\n']
}

/// What parsing an HTTP response yields: the body, or the failing
/// operation and its message.
pub open spec fn spec_parse_http(response: Seq<char>) -> core::result::Result<Seq<char>, (Seq<char>, Seq<char>)> {
    match spec_find_from(response, spec_header_separator(), 0) {
        None => Err(("parse-http"@, "missing header/body separator"@)),
        Some(split) => match spec_first_line(response.take(split)) {
            None => Err(("parse-http"@, "missing status line"@)),
            Some(status_line) => if spec_second_word(status_line) == Some("200"@) {
                Ok(response.skip(split + 4))
            } else {
                Err(("http-status"@, status_line))
            },
        },
    }
}

proof fn lemma_find_found(text: Seq<char>, pattern: Seq<char>, from: int)
    requires
        spec_find_from(text, pattern, from) is Some,
    ensures
        ({
            let found = spec_find_from(text, pattern, from).unwrap();
            &&& from <= found
            &&& found + pattern.len() <= text.len()
            &&& text.subrange(found, found + pattern.len()) == pattern
        }),
    decreases text.len() + 1 - from,
{
    if !(from < 0 || from + pattern.len() > text.len()) && text.subrange(from, from + pattern.len()) != pattern {
        lemma_find_found(text, pattern, from + 1);
    }
}

proof fn lemma_find_step(text: Seq<char>, pattern: Seq<char>, from: int)
    requires
        0 <= from,
        from + pattern.len() <= text.len(),
        text.subrange(from, from + pattern.len()) != pattern,
    ensures
        spec_find_from(text, pattern, from) == spec_find_from(text, pattern, from + 1),
{
}

/// The index of the first "\r\n\r\n" in `chars`.
fn find_separator(chars: &Vec<char>) -> (split: Option<usize>)
    ensures
        match split {
            Some(split) => spec_find_from(chars@, spec_header_separator(), 0) == Some(split as int),
            None => spec_find_from(chars@, spec_header_separator(), 0) is None,
        },
{
    let mut index: usize = 0;
    while chars.len() >= 4 && index <= chars.len() - 4
        invariant
            spec_find_from(chars@, spec_header_separator(), 0) == spec_find_from(
                chars@,
                spec_header_separator(),
                index as int,
            ),
        decreases chars@.len() - index,
    {
        if chars[index] == '\r' && chars[index + 1] == '\n' && chars[index + 2] == '\r' && chars[index + 3] == '\n' {
            proof {
                assert(chars@.subrange(index as int, index + 4) =~= spec_header_separator());
            }
            return Some(index);
        }
        proof {
            assert(chars@.subrange(index as int, index + 4) != spec_header_separator()) by {
                if chars@.subrange(index as int, index + 4) == spec_header_separator() {
                    assert(chars@.subrange(index as int, index + 4)[0] == chars@[index as int]);
                    assert(chars@.subrange(index as int, index + 4)[1] == chars@[index + 1]);
                    assert(chars@.subrange(index as int, index + 4)[2] == chars@[index + 2]);
                    assert(chars@.subrange(index as int, index + 4)[3] == chars@[index + 3]);
                }
            }
            lemma_find_step(chars@, spec_header_separator(), index as int);
        }
        index = index + 1;
    }
    None
}

/// The end of the first line of `chars[..limit]`, before any line feed and
/// the carriage return that precedes it.
fn first_line_end(chars: &Vec<char>, limit: usize) -> (end: usize)
    requires
        0 < limit <= chars@.len(),
    ensures
        spec_first_line(chars@.take(limit as int)) == Some(chars@.take(end as int)),
        end <= limit,
{
    let ghost head = chars@.take(limit as int);
    let mut index: usize = 0;
    while index < limit
        invariant
            limit <= chars@.len(),
            head == chars@.take(limit as int),
            index <= limit,
            spec_find_from(head, seq!['\n'], 0) == spec_find_from(head, seq!['\n'], index as int),
        decreases limit - index,
    {
        if chars[index] == '\n' {
            proof {
                assert(head.subrange(index as int, index + 1) =~= seq!['\n']);
            }
            let end = if index > 0 && chars[index - 1] == '\r' {
                index - 1
            } else {
                index
            };
            proof {
                let line = head.take(index as int);
                if index > 0 && chars@[index - 1] == '\r' {
                    assert(line.drop_last() =~= chars@.take(end as int));
                } else {
                    assert(line =~= chars@.take(end as int));
                }
            }
            return end;
        }
        proof {
            assert(head.subrange(index as int, index + 1) != seq!['\n']) by {
                if head.subrange(index as int, index + 1) == seq!['\n'] {
                    assert(head.subrange(index as int, index + 1)[0] == chars@[index as int]);
                }
            }
            lemma_find_step(head, seq!['\n'], index as int);
        }
        index = index + 1;
    }
    proof {
        assert(head =~= chars@.take(limit as int));
    }
    limit
}

/// Skip white space from `from` in `chars[..end]`.
fn skip_space(chars: &Vec<char>, end: usize, from: usize) -> (next: usize)
    requires
        from <= end <= chars@.len(),
    ensures
        next as int == spec_skip_space(chars@.take(end as int), from as int),
        from <= next <= end,
{
    let ghost line = chars@.take(end as int);
    let mut index = from;
    while index < end && is_whitespace(chars[index])
        invariant
            from <= index <= end <= chars@.len(),
            line == chars@.take(end as int),
            spec_skip_space(line, from as int) == spec_skip_space(line, index as int),
        decreases end - index,
    {
        index = index + 1;
    }
    index
}

/// Skip a word from `from` in `chars[..end]`.
fn skip_word(chars: &Vec<char>, end: usize, from: usize) -> (next: usize)
    requires
        from <= end <= chars@.len(),
    ensures
        next as int == spec_skip_word(chars@.take(end as int), from as int),
        from <= next <= end,
{
    let ghost line = chars@.take(end as int);
    let mut index = from;
    while index < end && !is_whitespace(chars[index])
        invariant
            from <= index <= end <= chars@.len(),
            line == chars@.take(end as int),
            spec_skip_word(line, from as int) == spec_skip_word(line, index as int),
        decreases end - index,
    {
        index = index + 1;
    }
    index
}

/// Split an HTTP response into its status and body: the body when the status
/// line's code is exactly 200, else the failure.
pub fn parse_http_response(response: &str) -> (body: Result<String>)
    ensures
        match body {
            Ok(body) => spec_parse_http(response@) == Ok::<Seq<char>, (Seq<char>, Seq<char>)>(body@),
            Err(error) => spec_parse_http(response@) matches Err((operation, message)) && spec_is_transport_error(
                error,
                operation,
                message,
            ),
        },
{
    let chars = chars_of(response);
    let split = match find_separator(&chars) {
        Some(split) => split,
        None => return Err(daemon_error("parse-http", "missing header/body separator")),
    };
    proof {
        lemma_find_found(chars@, spec_header_separator(), 0);
        assert(spec_header_separator().len() == 4);
        assert(split + 4 <= chars@.len());
    }
    if split == 0 {
        proof {
            assert(response@.take(0).len() == 0);
        }
        return Err(daemon_error("parse-http", "missing status line"));
    }
    let line_end = first_line_end(&chars, split);
    let ghost line = chars@.take(line_end as int);
    let first_start = skip_space(&chars, line_end, 0);
    let first_end = skip_word(&chars, line_end, first_start);
    let second_start = skip_space(&chars, line_end, first_end);
    let ok_status = if second_start >= line_end {
        false
    } else {
        let second_end = skip_word(&chars, line_end, second_start);
        let word = response.substring_char(second_start, second_end);
        proof {
            assert(word@ =~= line.subrange(second_start as int, second_end as int));
        }
        same_text(word, "200")
    };
    if !ok_status {
        let status_line = response.substring_char(0, line_end);
        proof {
            assert(status_line@ =~= line);
        }
        return Err(daemon_error("http-status", status_line));
    }
    let total = chars.len();
    let body = response.substring_char(split + 4, total);
    proof {
        assert(body@ =~= response@.skip(split + 4));
    }
    Ok(body.to_owned())
}

/// The daemon's name for a pixel format.
pub open spec fn spec_pixel_format_name(format: PixelFormat) -> Seq<char> {
    match format {
        PixelFormat::Unknown => "unknown"@,
        PixelFormat::Bgra8Unorm => "bgra8_unorm"@,
        PixelFormat::Rgba8Unorm => "rgba8_unorm"@,
    }
}

/// Read a pixel format the daemon names; it never sends "unknown".
pub fn parse_pixel_format(value: &str) -> (format: Result<PixelFormat>)
    ensures
        match format {
            Ok(format) => format != PixelFormat::Unknown && value@ == spec_pixel_format_name(format),
            Err(error) => {
                &&& value@ != spec_pixel_format_name(PixelFormat::Bgra8Unorm)
                &&& value@ != spec_pixel_format_name(PixelFormat::Rgba8Unorm)
                &&& spec_is_transport_error(error, "parse-pixel-format"@, value@)
            },
        },
        value@ == "bgra8_unorm"@ ==> (format matches Ok(PixelFormat::Bgra8Unorm)),
        value@ == "rgba8_unorm"@ ==> (format matches Ok(PixelFormat::Rgba8Unorm)),
{
    proof {
        reveal_strlit("unknown");
        reveal_strlit("bgra8_unorm");
        reveal_strlit("rgba8_unorm");
        assert("unknown"@.len() != "bgra8_unorm"@.len());
        assert("unknown"@.len() != "rgba8_unorm"@.len());
        assert("bgra8_unorm"@[0] != "rgba8_unorm"@[0]);
    }
    if same_text(value, "bgra8_unorm") {
        Ok(PixelFormat::Bgra8Unorm)
    } else if same_text(value, "rgba8_unorm") {
        Ok(PixelFormat::Rgba8Unorm)
    } else {
        Err(daemon_error("parse-pixel-format", value))
    }
}

/// The daemon's name for a clock domain.
pub open spec fn spec_clock_domain_name(domain: ClockDomain) -> Seq<char> {
    match domain {
        ClockDomain::Unknown => "unknown"@,
        ClockDomain::UnixTime => "unix_time"@,
        ClockDomain::MediaTime => "media_time"@,
        ClockDomain::HostTime => "host_time"@,
    }
}

pub fn parse_clock_domain(value: &str) -> (domain: Result<ClockDomain>)
    ensures
        match domain {
            Ok(domain) => value@ == spec_clock_domain_name(domain),
            Err(error) => {
                &&& forall|domain: ClockDomain| value@ != #[trigger] spec_clock_domain_name(domain)
                &&& spec_is_transport_error(error, "parse-clock-domain"@, value@)
            },
        },
        value@ == "unknown"@ ==> (domain matches Ok(ClockDomain::Unknown)),
        value@ == "unix_time"@ ==> (domain matches Ok(ClockDomain::UnixTime)),
        value@ == "media_time"@ ==> (domain matches Ok(ClockDomain::MediaTime)),
        value@ == "host_time"@ ==> (domain matches Ok(ClockDomain::HostTime)),
{
    proof {
        reveal_strlit("unknown");
        reveal_strlit("unix_time");
        reveal_strlit("media_time");
        reveal_strlit("host_time");
        assert("unknown"@.len() != "unix_time"@.len());
        assert("unknown"@.len() != "media_time"@.len());
        assert("unknown"@.len() != "host_time"@.len());
        assert("unix_time"@.len() != "media_time"@.len());
        assert("unix_time"@[0] != "host_time"@[0]);
        assert("media_time"@.len() != "host_time"@.len());
    }
    if same_text(value, "unknown") {
        Ok(ClockDomain::Unknown)
    } else if same_text(value, "unix_time") {
        Ok(ClockDomain::UnixTime)
    } else if same_text(value, "media_time") {
        Ok(ClockDomain::MediaTime)
    } else if same_text(value, "host_time") {
        Ok(ClockDomain::HostTime)
    } else {
        Err(daemon_error("parse-clock-domain", value))
    }
}

/// The daemon's name for a color space.
pub open spec fn spec_color_space_name(color_space: ColorSpace) -> Seq<char> {
    match color_space {
        ColorSpace::Unknown => "unknown"@,
        ColorSpace::Srgb => "srgb"@,
    }
}

pub fn parse_color_space(value: &str) -> (color_space: Result<ColorSpace>)
    ensures
        match color_space {
            Ok(color_space) => value@ == spec_color_space_name(color_space),
            Err(error) => {
                &&& forall|color_space: ColorSpace| value@ != #[trigger] spec_color_space_name(color_space)
                &&& spec_is_transport_error(error, "parse-color-space"@, value@)
            },
        },
        value@ == "unknown"@ ==> (color_space matches Ok(ColorSpace::Unknown)),
        value@ == "srgb"@ ==> (color_space matches Ok(ColorSpace::Srgb)),
{
    proof {
        reveal_strlit("unknown");
        reveal_strlit("srgb");
        assert("unknown"@.len() != "srgb"@.len());
    }
    if same_text(value, "unknown") {
        Ok(ColorSpace::Unknown)
    } else if same_text(value, "srgb") {
        Ok(ColorSpace::Srgb)
    } else {
        Err(daemon_error("parse-color-space", value))
    }
}

/// The daemon's name for a frame sync kind.
pub open spec fn spec_sync_kind_name(kind: FrameSyncKind) -> Seq<char> {
    match kind {
        FrameSyncKind::Unknown => "unknown"@,
        FrameSyncKind::CpuCopyComplete => "cpu_copy_complete"@,
        FrameSyncKind::SckSampleReady => "sck_sample_ready"@,
        FrameSyncKind::NativeTimeline => "native_timeline"@,
    }
}

pub fn parse_sync_kind(value: &str) -> (kind: Result<FrameSyncKind>)
    ensures
        match kind {
            Ok(kind) => value@ == spec_sync_kind_name(kind),
            Err(error) => {
                &&& forall|kind: FrameSyncKind| value@ != #[trigger] spec_sync_kind_name(kind)
                &&& spec_is_transport_error(error, "parse-sync-kind"@, value@)
            },
        },
        value@ == "unknown"@ ==> (kind matches Ok(FrameSyncKind::Unknown)),
        value@ == "cpu_copy_complete"@ ==> (kind matches Ok(FrameSyncKind::CpuCopyComplete)),
        value@ == "sck_sample_ready"@ ==> (kind matches Ok(FrameSyncKind::SckSampleReady)),
        value@ == "native_timeline"@ ==> (kind matches Ok(FrameSyncKind::NativeTimeline)),
{
    proof {
        reveal_strlit("unknown");
        reveal_strlit("cpu_copy_complete");
        reveal_strlit("sck_sample_ready");
        reveal_strlit("native_timeline");
        assert("unknown"@.len() != "cpu_copy_complete"@.len());
        assert("unknown"@.len() != "sck_sample_ready"@.len());
        assert("unknown"@.len() != "native_timeline"@.len());
        assert("cpu_copy_complete"@.len() != "sck_sample_ready"@.len());
        assert("cpu_copy_complete"@.len() != "native_timeline"@.len());
        assert("sck_sample_ready"@.len() != "native_timeline"@.len());
    }
    if same_text(value, "unknown") {
        Ok(FrameSyncKind::Unknown)
    } else if same_text(value, "cpu_copy_complete") {
        Ok(FrameSyncKind::CpuCopyComplete)
    } else if same_text(value, "sck_sample_ready") {
        Ok(FrameSyncKind::SckSampleReady)
    } else if same_text(value, "native_timeline") {
        Ok(FrameSyncKind::NativeTimeline)
    } else {
        Err(daemon_error("parse-sync-kind", value))
    }
}

/// The daemon's name for a damage kind.
pub open spec fn spec_damage_kind_name(kind: DamageKind) -> Seq<char> {
    match kind {
        DamageKind::Unknown => "unknown"@,
        DamageKind::FullFrame => "full_frame"@,
        DamageKind::Unchanged => "none"@,
        DamageKind::InlineRects => "inline_rects"@,
        DamageKind::SidecarRects => "sidecar_rects"@,
    }
}

pub fn parse_damage_kind(value: &str) -> (kind: Result<DamageKind>)
    ensures
        match kind {
            Ok(kind) => value@ == spec_damage_kind_name(kind),
            Err(error) => {
                &&& forall|kind: DamageKind| value@ != #[trigger] spec_damage_kind_name(kind)
                &&& spec_is_transport_error(error, "parse-damage-kind"@, value@)
            },
        },
        value@ == "unknown"@ ==> (kind matches Ok(DamageKind::Unknown)),
        value@ == "full_frame"@ ==> (kind matches Ok(DamageKind::FullFrame)),
        value@ == "none"@ ==> (kind matches Ok(DamageKind::Unchanged)),
        value@ == "inline_rects"@ ==> (kind matches Ok(DamageKind::InlineRects)),
        value@ == "sidecar_rects"@ ==> (kind matches Ok(DamageKind::SidecarRects)),
{
    proof {
        reveal_strlit("unknown");
        reveal_strlit("full_frame");
        reveal_strlit("none");
        reveal_strlit("inline_rects");
        reveal_strlit("sidecar_rects");
        assert("unknown"@.len() != "full_frame"@.len());
        assert("unknown"@.len() != "none"@.len());
        assert("unknown"@.len() != "inline_rects"@.len());
        assert("unknown"@.len() != "sidecar_rects"@.len());
        assert("full_frame"@.len() != "none"@.len());
        assert("full_frame"@.len() != "inline_rects"@.len());
        assert("full_frame"@.len() != "sidecar_rects"@.len());
        assert("none"@.len() != "inline_rects"@.len());
        assert("none"@.len() != "sidecar_rects"@.len());
        assert("inline_rects"@.len() != "sidecar_rects"@.len());
    }
    if same_text(value, "unknown") {
        Ok(DamageKind::Unknown)
    } else if same_text(value, "full_frame") {
        Ok(DamageKind::FullFrame)
    } else if same_text(value, "none") {
        Ok(DamageKind::Unchanged)
    } else if same_text(value, "inline_rects") {
        Ok(DamageKind::InlineRects)
    } else if same_text(value, "sidecar_rects") {
        Ok(DamageKind::SidecarRects)
    } else {
        Err(daemon_error("parse-damage-kind", value))
    }
}

/// Law: the daemon names each pixel format, clock domain, color space, sync
/// kind and damage kind by its own wire name, and no two values of a kind
/// share a name, so a parsed name reads back the value it names.
pub proof fn law_daemon_wire_names()
    ensures
        spec_pixel_format_name(PixelFormat::Unknown) == "unknown"@,
        spec_pixel_format_name(PixelFormat::Bgra8Unorm) == "bgra8_unorm"@,
        spec_pixel_format_name(PixelFormat::Rgba8Unorm) == "rgba8_unorm"@,
        forall|a: PixelFormat, b: PixelFormat| #[trigger] spec_pixel_format_name(a) == #[trigger] spec_pixel_format_name(b) ==> a == b,
        spec_clock_domain_name(ClockDomain::Unknown) == "unknown"@,
        spec_clock_domain_name(ClockDomain::UnixTime) == "unix_time"@,
        spec_clock_domain_name(ClockDomain::MediaTime) == "media_time"@,
        spec_clock_domain_name(ClockDomain::HostTime) == "host_time"@,
        forall|a: ClockDomain, b: ClockDomain| #[trigger] spec_clock_domain_name(a) == #[trigger] spec_clock_domain_name(b) ==> a == b,
        spec_color_space_name(ColorSpace::Unknown) == "unknown"@,
        spec_color_space_name(ColorSpace::Srgb) == "srgb"@,
        forall|a: ColorSpace, b: ColorSpace| #[trigger] spec_color_space_name(a) == #[trigger] spec_color_space_name(b) ==> a == b,
        spec_sync_kind_name(FrameSyncKind::Unknown) == "unknown"@,
        spec_sync_kind_name(FrameSyncKind::CpuCopyComplete) == "cpu_copy_complete"@,
        spec_sync_kind_name(FrameSyncKind::SckSampleReady) == "sck_sample_ready"@,
        spec_sync_kind_name(FrameSyncKind::NativeTimeline) == "native_timeline"@,
        forall|a: FrameSyncKind, b: FrameSyncKind| #[trigger] spec_sync_kind_name(a) == #[trigger] spec_sync_kind_name(b) ==> a == b,
        spec_damage_kind_name(DamageKind::Unknown) == "unknown"@,
        spec_damage_kind_name(DamageKind::FullFrame) == "full_frame"@,
        spec_damage_kind_name(DamageKind::Unchanged) == "none"@,
        spec_damage_kind_name(DamageKind::InlineRects) == "inline_rects"@,
        spec_damage_kind_name(DamageKind::SidecarRects) == "sidecar_rects"@,
        forall|a: DamageKind, b: DamageKind| #[trigger] spec_damage_kind_name(a) == #[trigger] spec_damage_kind_name(b) ==> a == b,
{
    reveal_strlit("unknown");
    reveal_strlit("bgra8_unorm");
    reveal_strlit("rgba8_unorm");
    reveal_strlit("unix_time");
    reveal_strlit("media_time");
    reveal_strlit("host_time");
    reveal_strlit("srgb");
    reveal_strlit("cpu_copy_complete");
    reveal_strlit("sck_sample_ready");
    reveal_strlit("native_timeline");
    reveal_strlit("full_frame");
    reveal_strlit("none");
    reveal_strlit("inline_rects");
    reveal_strlit("sidecar_rects");
    assert("unknown"@.len() != "bgra8_unorm"@.len());
    assert("unknown"@.len() != "rgba8_unorm"@.len());
    assert("bgra8_unorm"@[0] != "rgba8_unorm"@[0]);
    assert("unknown"@.len() != "unix_time"@.len());
    assert("unknown"@.len() != "media_time"@.len());
    assert("unknown"@.len() != "host_time"@.len());
    assert("unix_time"@.len() != "media_time"@.len());
    assert("unix_time"@[0] != "host_time"@[0]);
    assert("media_time"@.len() != "host_time"@.len());
    assert("unknown"@.len() != "srgb"@.len());
    assert("unknown"@.len() != "cpu_copy_complete"@.len());
    assert("unknown"@.len() != "sck_sample_ready"@.len());
    assert("unknown"@.len() != "native_timeline"@.len());
    assert("cpu_copy_complete"@.len() != "sck_sample_ready"@.len());
    assert("cpu_copy_complete"@.len() != "native_timeline"@.len());
    assert("sck_sample_ready"@.len() != "native_timeline"@.len());
    assert("unknown"@.len() != "full_frame"@.len());
    assert("unknown"@.len() != "none"@.len());
    assert("unknown"@.len() != "inline_rects"@.len());
    assert("unknown"@.len() != "sidecar_rects"@.len());
    assert("full_frame"@.len() != "none"@.len());
    assert("full_frame"@.len() != "inline_rects"@.len());
    assert("full_frame"@.len() != "sidecar_rects"@.len());
    assert("none"@.len() != "inline_rects"@.len());
    assert("none"@.len() != "sidecar_rects"@.len());
    assert("inline_rects"@.len() != "sidecar_rects"@.len());
}

} // verus!
