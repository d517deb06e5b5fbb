//! Protocol framing for the live stream: every frame travels as one
//! multipart record
//! `--frame\r\nContent-Type: image/jpeg\r\nContent-Length: <N>\r\n\r\n<payload>\r\n`,
//! where `<N>` is exactly the byte count of the payload between the header
//! and the trailer line.

use vstd::prelude::*;
use vstd::string::StringExecFns;

use crate::digits::dec_rep;
use crate::digits::dec_string;
use crate::digits::dec_val;
use crate::digits::lemma_dec_rep_digits;
use crate::digits::lemma_dec_rep_value;

verus! {

/// The boundary name the streaming response announces to the client.
pub open spec fn boundary_name() -> Seq<char> {
    "frame"@
}

/// The boundary marker line that opens every frame record.
pub open spec fn boundary_marker() -> Seq<char> {
    "--frame\r\n"@
}

/// The content type the streaming route answers with: a multipart
/// response that never completes, its parts delimited by the announced
/// boundary.
pub fn stream_content_type() -> (s: &'static str)
    ensures
        s@ == "multipart/x-mixed-replace; boundary=frame"@,
{
    "multipart/x-mixed-replace; boundary=frame"
}

/// The marker that opens every record is the two-dash prefix, then the
/// announced boundary name, then a line break — the multipart delimiter
/// convention, so a client keying on the announced boundary finds every
/// record.
pub proof fn lemma_boundary_matches_announcement()
    ensures
        boundary_marker() == "--"@ + boundary_name() + "\r\n"@,
{
    reveal_strlit("--frame\r\n");
    reveal_strlit("--");
    reveal_strlit("frame");
    reveal_strlit("\r\n");
    assert(boundary_marker() =~= "--"@ + boundary_name() + "\r\n"@);
}

/// Everything of the header that precedes the length value.
pub open spec fn header_prefix() -> Seq<char> {
    "--frame\r\nContent-Type: image/jpeg\r\nContent-Length: "@
}

/// The blank line that separates the header from the payload bytes.
pub open spec fn header_end() -> Seq<char> {
    "\r\n\r\n"@
}

/// The line terminator written after the payload bytes of a record.
pub open spec fn trailer_text() -> Seq<char> {
    "\r\n"@
}

/// The full header text of a frame whose payload is `n` bytes long.
pub open spec fn spec_frame_header(n: nat) -> Seq<char> {
    header_prefix() + dec_rep(n) + header_end()
}

/// Builds the header for a payload of `len` bytes. The caller writes this
/// text, then the `len` payload bytes, then `frame_trailer()`.
pub fn frame_header(len: usize) -> (h: String)
    ensures
        h@ == spec_frame_header(len as nat),
{
    let mut h = String::from_str("--frame\r\nContent-Type: image/jpeg\r\nContent-Length: ");
    let d = dec_string(len as u64);
    h.append(d.as_str());
    h.append("\r\n\r\n");
    proof {
        assert(h@ =~= spec_frame_header(len as nat));
    }
    h
}

/// The terminator written after the payload bytes of every record.
pub fn frame_trailer() -> (t: &'static str)
    ensures
        t@ == trailer_text(),
{
    "\r\n"
}

/// Every frame header opens with the boundary marker, so the marker
/// precedes every frame — the first one included, since nothing else is
/// ever written before a record's header.
pub proof fn lemma_header_starts_with_boundary(n: nat)
    ensures
        spec_frame_header(n).len() >= boundary_marker().len(),
        spec_frame_header(n).take(boundary_marker().len() as int) == boundary_marker(),
{
    reveal_strlit("--frame\r\nContent-Type: image/jpeg\r\nContent-Length: ");
    reveal_strlit("--frame\r\n");
    assert(spec_frame_header(n).take(boundary_marker().len() as int) =~= boundary_marker());
}

/// The characters between the header's fixed prefix and its closing blank
/// line are decimal digits, and they denote exactly `n`: the advertised
/// `Content-Length` equals the payload's byte count.
pub proof fn lemma_header_length_field(n: nat)
    ensures
        spec_frame_header(n).len() == header_prefix().len() + dec_rep(n).len()
            + header_end().len(),
        spec_frame_header(n).subrange(
            header_prefix().len() as int,
            header_prefix().len() + dec_rep(n).len() as int,
        ) == dec_rep(n),
        forall|i: int|
            0 <= i < dec_rep(n).len() ==> '0' <= #[trigger] dec_rep(n)[i] && dec_rep(n)[i] <= '9',
        dec_val(dec_rep(n)) == n,
{
    lemma_dec_rep_value(n);
    lemma_dec_rep_digits(n);
    assert(spec_frame_header(n).subrange(
        header_prefix().len() as int,
        header_prefix().len() + dec_rep(n).len() as int,
    ) =~= dec_rep(n));
}

} // verus!
