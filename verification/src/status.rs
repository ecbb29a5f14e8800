//! gRPC status values as plain data, and the attachment of the subsystem
//! metadata entry that tells callers which upstream component failed.

use vstd::prelude::*;

verus! {

/// Metadata key under which the failing subsystem is reported.
pub const SUBSYSTEM_METADATA_KEY: &'static str = "ytmusic-service-subsystem";

/// Subsystem name for failures of the music catalogue client.
pub const MUSIC_SUBSYSTEM: &'static str = "ytmusic";

/// Subsystem name for failures of the signature cipher.
pub const CIPHER_SUBSYSTEM: &'static str = "cipher";

/// The canonical gRPC status codes (`Success` is the code named OK).
#[derive(Clone, Copy, Debug, PartialEq, Eq, Structural)]
pub enum RpcCode {
    Success,
    Cancelled,
    Unknown,
    InvalidArgument,
    DeadlineExceeded,
    NotFound,
    AlreadyExists,
    PermissionDenied,
    ResourceExhausted,
    FailedPrecondition,
    Aborted,
    OutOfRange,
    Unimplemented,
    Internal,
    Unavailable,
    DataLoss,
    Unauthenticated,
}

/// A gRPC status: its code, its message and, when present, the subsystem
/// metadata entry.
#[derive(Debug)]
pub struct RpcStatus {
    pub code: RpcCode,
    pub message: String,
    pub subsystem: Option<String>,
}

/// The mathematical content of an `RpcStatus`.
pub struct RpcStatusView {
    pub code: RpcCode,
    pub message: Seq<char>,
    pub subsystem: Option<Seq<char>>,
}

impl View for RpcStatus {
    type V = RpcStatusView;

    open spec fn view(&self) -> RpcStatusView {
        RpcStatusView {
            code: self.code,
            message: self.message@,
            subsystem: match self.subsystem {
                Some(s) => Some(s@),
                None => None,
            },
        }
    }
}

/// A character that may appear in an ASCII metadata value: horizontal tab,
/// or any character from space upwards except DEL. Characters outside ASCII
/// are encoded as bytes of 0x80 and above, which are admitted too.
pub open spec fn metadata_char_ok(c: char) -> bool {
    c == '\t' || ((c as u32) >= 0x20 && (c as u32) != 0x7f)
}

/// Text that is accepted as an ASCII metadata value.
pub open spec fn metadata_text_ok(s: Seq<char>) -> bool {
    forall|i: int| 0 <= i < s.len() ==> metadata_char_ok(#[trigger] s[i])
}

/// A character that a received metadata value may be read back as text
/// with: horizontal tab, or printable ASCII from space to tilde. Characters
/// outside ASCII arrive as bytes of 0x80 and above, which are not.
pub open spec fn visible_ascii_char(c: char) -> bool {
    c == '\t' || (0x20 <= (c as u32) && (c as u32) < 0x7f)
}

/// Text that a received metadata value can be read back as
/// (`MetadataValue::to_str` succeeds on its bytes).
pub open spec fn visible_ascii_text(s: Seq<char>) -> bool {
    forall|i: int| 0 <= i < s.len() ==> visible_ascii_char(#[trigger] s[i])
}

/// Whether every character of `s` is a tab or printable ASCII.
pub fn is_visible_ascii_text(s: &str) -> (r: bool)
    ensures
        r == visible_ascii_text(s@),
{
    let mut chars = s.chars();
    let ghost mut k: int = 0;
    loop
        invariant
            0 <= k <= s@.len(),
            vstd::std_specs::iter::IteratorSpec::remaining(&chars) == s@.skip(k),
            forall|j: int| 0 <= j < k ==> visible_ascii_char(#[trigger] s@[j]),
        decreases s@.len() - k,
    {
        match chars.next() {
            Some(c) => {
                assert(c == s@[k]);
                let u = c as u32;
                if !(c == '\t' || (0x20 <= u && u < 0x7f)) {
                    return false;
                }
                proof {
                    assert(s@.skip(k).drop_first() =~= s@.skip(k + 1));
                    k = k + 1;
                }
            },
            None => {
                assert(k == s@.len());
                return true;
            },
        }
    }
}

/// The status that `status_with_subsystem` builds.
pub open spec fn status_spec(subsystem: Seq<char>, code: RpcCode, message: Seq<char>) -> RpcStatusView {
    RpcStatusView {
        code,
        message,
        subsystem: if metadata_text_ok(subsystem) { Some(subsystem) } else { None },
    }
}

/// Asks tonic whether `text` parses as an ASCII metadata value
/// (`AsciiMetadataValue::from_str`). Its source accepts exactly the text
/// whose UTF-8 bytes are all a tab or at least 0x20 and not 0x7f, which is
/// what `metadata_text_ok` states over the characters.
#[verifier::external_body]
fn is_ascii_metadata_value(text: &str) -> (ok: bool)
    ensures
        ok == metadata_text_ok(text@),
{
    text.parse::<tonic::metadata::AsciiMetadataValue>().is_ok()
}

/// Builds a status with the given code and message, carrying `subsystem` as
/// metadata when it is a valid metadata value.
pub fn status_with_subsystem(subsystem: &str, code: RpcCode, message: String) -> (status: RpcStatus)
    ensures
        status@ == status_spec(subsystem@, code, message@),
{
    let attach = is_ascii_metadata_value(subsystem);
    let subsystem = if attach {
        Some(String::from_str(subsystem))
    } else {
        None
    };
    RpcStatus { code, message, subsystem }
}

/// A status without subsystem metadata.
pub fn plain_status(code: RpcCode, message: String) -> (status: RpcStatus)
    ensures
        status@ == (RpcStatusView { code, message: message@, subsystem: None }),
{
    RpcStatus { code, message, subsystem: None }
}

} // verus!
